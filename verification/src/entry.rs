//! The entry trampoline: the first runtime-controlled code of a process.
//! It receives the raw process arguments, invokes the program's
//! zero-argument logical entry point exactly once, and resolves the entry
//! point's outcome into the process exit status through the
//! termination-reporting protocol.

use vstd::prelude::*;
use crate::term::Termination;

verus! {

/// Invoke the logical entry point and deliver its termination report as
/// the process exit status.
///
/// The trampoline performs no global initialization: no allocator setup,
/// no thread-local state.  The argument count and the argument vector
/// (handed over as a raw address, possibly null) are accepted from the
/// host and never read, so an argument count of zero and a null vector
/// are tolerated without any dereference.  The caller that owns the
/// process boundary hands the returned status to the host's exit call;
/// producing the status itself is deterministic: whatever value the entry
/// point returns, the status is that value's own report.
pub fn lang_start<T: Termination, F: FnOnce() -> T>(
    main: F,
    _argc: isize,
    _argv: usize,
) -> (status: isize)
    requires
        call_requires(main, ()),
    ensures
        exists|outcome: T|
            call_ensures(main, (), outcome) && status as int == outcome.report_spec(),
{
    let outcome = main();
    let code = outcome.report();
    code as isize
}

} // verus!
