//! The contract between the reload state machine and an adapter.

use crate::state::OpaqueState;
use libloading::Library;
use vstd::prelude::*;

verus! {

/// A host-side adapter over one opened module. It owns the module handle and
/// whatever references it resolved from it, and it is the only way state
/// crosses a reload.
///
/// Adapters are written by users of this crate. Nothing is assumed of what
/// their methods return: the state machine's contracts say which method was
/// called on which arguments, through `built_fresh`, `built_restored` and
/// `dumped_by`.
pub trait HotloadProxy: Sized {
    /// Builds an adapter over a newly opened module, with no prior state.
    /// `None` when the module does not satisfy the adapter's symbol
    /// convention; the module is then dropped.
    fn initialize_fresh(lib: Library) -> (proxy: Option<Self>);

    /// Builds an adapter over a newly opened module and hands it `state`,
    /// dumped by the adapter it replaces. That the layout of the state suits
    /// this build of the module is the plugin author's business; no adapter
    /// can check it. `None` as for `initialize_fresh`, and the state is then
    /// lost.
    fn initialize(lib: Library, state: OpaqueState) -> (proxy: Option<Self>);

    /// Consumes the adapter and returns the module's state. An adapter must
    /// release every reference it resolved from the module before the module
    /// handle itself goes.
    fn dump_state(self) -> (state: OpaqueState);
}

/// `adapter` is an outcome of `T::initialize_fresh` on the module `lib`.
pub open spec fn built_fresh<T: HotloadProxy>(adapter: Option<T>, lib: Library) -> bool {
    call_ensures(T::initialize_fresh, (lib,), adapter)
}

/// `adapter` is an outcome of `T::initialize` on the module `lib` and the
/// state `state`.
pub open spec fn built_restored<T: HotloadProxy>(
    adapter: Option<T>,
    lib: Library,
    state: OpaqueState,
) -> bool {
    call_ensures(T::initialize, (lib, state), adapter)
}

/// `state` is an outcome of `T::dump_state` on the adapter `outgoing`.
pub open spec fn dumped_by<T: HotloadProxy>(outgoing: T, state: OpaqueState) -> bool {
    call_ensures(T::dump_state, (outgoing,), state)
}

} // verus!
