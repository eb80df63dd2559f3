use danjon::testing::InnerTestWriter;

#[test]
fn clean_message_strips_ansi_escapes() {
    let writer = InnerTestWriter::new();
    assert_eq!(writer.clean_message("\x1b[32mfoo\x1b[m bar"), "foo bar");
    assert_eq!(writer.clean_message("\x1b[2;3mdim\x1b[0m"), "dim");
}

#[test]
fn clean_message_keeps_plain_text() {
    let writer = InnerTestWriter::new();
    assert_eq!(writer.clean_message("plain text ~"), "plain text ~");
    assert_eq!(writer.clean_message(""), "");
}

#[test]
fn test_runs_the_body_once() {
    let result = danjon::testing::test(|| 41 + 1);
    assert_eq!(result, 42);
    let nested: Result<u8, String> = danjon::testing::test(|| Ok(7));
    assert_eq!(nested, Ok(7));
}
