//! The computational side of the test harness: the text transformation its
//! log writer applies, and the runner that executes one test body.

use vstd::prelude::*;

verus! {

/// What a test body may hand back: anything the harness can show.
pub trait TestResult {

}

impl<T: core::fmt::Debug> TestResult for T {

}

/// Runs one test body and returns what it produced.
pub fn test<T: TestResult, F: FnOnce() -> T>(f: F) -> (r: T)
    requires
        call_requires(f, ()),
    ensures
        call_ensures(f, (), r),
{
    f()
}

/// The text with its ANSI escape sequences removed.
pub uninterp spec fn stripped_of(s: Seq<char>) -> Seq<char>;

/// Text made only of plain printable characters: no escapes to strip.
pub open spec fn is_plain_text(s: Seq<char>) -> bool {
    forall|i: int| 0 <= i < s.len() ==> (' ' <= #[trigger] s[i] && s[i] <= '~')
}

/// Relies on strip_ansi_escapes::strip_str: ANSI escape sequences are
/// removed, and text made of plain printable characters comes back unchanged.
#[verifier::external_body]
fn strip_line(s: &str) -> (r: String)
    ensures
        r@ == stripped_of(s@),
        is_plain_text(s@) ==> r@ == s@,
{
    strip_ansi_escapes::strip_str(s)
}

/// The writer the test harness logs through; here its computational part,
/// the cleaning of each message before it is decorated and written on.
#[derive(Debug, Clone, Copy)]
pub struct InnerTestWriter;

impl InnerTestWriter {
    /// A fresh harness writer.
    pub fn new() -> (r: InnerTestWriter) {
        InnerTestWriter
    }

    /// Cleans one log message: its ANSI escape sequences are stripped, and a
    /// message free of them passes through unchanged.
    pub fn clean_message(&self, msg: &str) -> (r: String)
        ensures
            r@ == stripped_of(msg@),
            is_plain_text(msg@) ==> r@ == msg@,
    {
        strip_line(msg)
    }
}

} // verus!
