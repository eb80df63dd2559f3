//! Rules engine for two derived tabletop-game statistics: armor class and hit
//! points. The domain vocabulary lives in `dnd`, the two calculators in `ac`
//! and `hp`, and the text transformation of the test harness in `testing`.

pub mod ac;
pub mod dnd;
pub mod hp;
pub mod testing;
