//! The unwinding-personality stubs: compiler-mandated hooks that exist
//! only because a toolchain binds to them by name.  This runtime
//! supports no unwinding, so they have nothing to do.

use vstd::prelude::*;

verus! {

/// The unwinding-personality hook.  No unwinding is supported, so the
/// hook does nothing and changes nothing.
pub fn eh_personality() {
}

/// Alternate spelling of the unwinding-personality hook, for toolchains
/// that bind to an unmangled symbol of this name.
pub fn _rust_eh_personality() {
}

} // verus!
