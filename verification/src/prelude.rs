//! The curated surface of the runtime: every capability a program built
//! against it is expected to reach for, re-exported under one roof with
//! no gaps.  A fixed, enumerated list — no dynamic discovery.

pub use crate::bridge::encode_outcome;
pub use crate::bridge::print;
pub use crate::entry::lang_start;
pub use crate::halt::on_panic;
pub use crate::halt::PanicRecord;
pub use crate::halt::ProcessPhase;
pub use crate::hooks::_rust_eh_personality;
pub use crate::hooks::eh_personality;
pub use crate::term::Termination;
