//! The poll-and-reload state machine.

use crate::module::{open_watched, opened_for};
use crate::proxy::{built_fresh, built_restored, dumped_by, HotloadProxy};
use crate::state::OpaqueState;
use crate::time::Timestamp;
use libloading::Library;
use std::path::PathBuf;
use vstd::prelude::*;

verus! {

/// Watches one module on disk and holds at most one live adapter over it.
/// It is *loaded* while it holds an adapter and *unloaded* otherwise.
pub struct Hotloader<T: HotloadProxy> {
    proxy: Option<T>,
    watched_path: PathBuf,
    last_modified: Timestamp,
}

/// What a `Hotloader` is, for contracts.
pub struct HotloaderView<T> {
    /// The live adapter, if loaded.
    pub proxy: Option<T>,
    /// The path being watched; it never changes.
    pub watched_path: PathBuf,
    /// The last modification time acted upon, in nanoseconds since the epoch.
    pub last_modified: int,
}

/// Whether an observation calls for a reload: the modification time could be
/// read and is strictly later than the recorded one. A failed query and a
/// clock that moved backward are both "no change".
pub open spec fn reload_due(last_modified: int, observed: Option<Timestamp>) -> bool {
    observed matches Some(t) && t@ > last_modified
}

/// The modification time on record after an access that observed `observed`.
pub open spec fn recorded_after(last_modified: int, observed: Option<Timestamp>) -> int {
    if reload_due(last_modified, observed) {
        observed.unwrap()@
    } else {
        last_modified
    }
}

/// `last_state` is what extraction gives for `outgoing`: nothing when
/// unloaded, else an outcome of the adapter's `dump_state`.
pub open spec fn extracted_from<T: HotloadProxy>(
    outgoing: Option<T>,
    last_state: Option<OpaqueState>,
) -> bool {
    match outgoing {
        None => last_state is None,
        Some(p) => last_state matches Some(state) && dumped_by(p, state),
    }
}

/// `adapter` is what an extracted state and the result of an open combine
/// to. Without a module there is no adapter and the state is discarded. With
/// a module and no state the adapter is built fresh over that module; with
/// both it is built over that module from exactly that state.
pub open spec fn built_from<T: HotloadProxy>(
    adapter: Option<T>,
    last_state: Option<OpaqueState>,
    library: Option<Library>,
) -> bool {
    match (last_state, library) {
        (_, None) => adapter is None,
        (None, Some(lib)) => built_fresh(adapter, lib),
        (Some(state), Some(lib)) => built_restored(adapter, lib, state),
    }
}

/// One reload that went from the adapter `outgoing` to `incoming`, by way of
/// the state `last_state` and the open result `library`.
pub open spec fn reloaded<T: HotloadProxy>(
    outgoing: Option<T>,
    last_state: Option<OpaqueState>,
    library: Option<Library>,
    incoming: Option<T>,
) -> bool {
    extracted_from(outgoing, last_state) && built_from(incoming, last_state, library)
}

/// `post` is a possible state after an access in state `pre` that observed
/// `observed`: the same state when no reload is due, otherwise the outcome
/// of one reload, through an open of the watched path, with the observed
/// time on record.
pub open spec fn accessed<T: HotloadProxy>(
    pre: HotloaderView<T>,
    observed: Option<Timestamp>,
    post: HotloaderView<T>,
) -> bool {
    if reload_due(pre.last_modified, observed) {
        &&& post.watched_path == pre.watched_path
        &&& post.last_modified == observed.unwrap()@
        &&& exists|last_state: Option<OpaqueState>, library: Option<Library>|
            opened_for(pre.watched_path, library) && #[trigger] reloaded(
                pre.proxy,
                last_state,
                library,
                post.proxy,
            )
    } else {
        post == pre
    }
}

/// The file's time did not advance from one observation to the next: the
/// second query failed, or it read a time no later than the first did.
pub open spec fn not_advanced(first: Option<Timestamp>, again: Option<Timestamp>) -> bool {
    again matches Some(t2) ==> first matches Some(t1) && t2@ <= t1@
}

/// The first access of a new hotloader reloads exactly when the file's time
/// could be read and is later than the epoch, and then that time is on
/// record, whether or not a module could be loaded.
pub proof fn lemma_first_access_attempts_load<T: HotloadProxy>(
    dylib_path: PathBuf,
    observed: Option<Timestamp>,
    post: HotloaderView<T>,
)
    requires
        accessed(Hotloader::<T>::initial(dylib_path), observed, post),
    ensures
        reload_due(0, observed) <==> (observed matches Some(t) && t@ > 0),
        reload_due(0, observed) ==> post.last_modified == observed.unwrap()@,
        !reload_due(0, observed) ==> post == Hotloader::<T>::initial(dylib_path),
        post.watched_path == dylib_path,
{
}

/// The recorded modification time never decreases.
pub proof fn lemma_recorded_time_is_monotone<T: HotloadProxy>(
    pre: HotloaderView<T>,
    observed: Option<Timestamp>,
    post: HotloaderView<T>,
)
    requires
        accessed(pre, observed, post),
    ensures
        post.last_modified >= pre.last_modified,
        post.last_modified == recorded_after(pre.last_modified, observed),
        post.watched_path == pre.watched_path,
{
}

/// An access that finds the file's time no later than the one on record
/// does nothing at all: the adapter, and with it the module it was built
/// over, and the recorded time stay as they were.
pub proof fn lemma_access_without_change_is_idle<T: HotloadProxy>(
    pre: HotloaderView<T>,
    observed: Option<Timestamp>,
    post: HotloaderView<T>,
)
    requires
        accessed(pre, observed, post),
        observed matches Some(t) ==> t@ <= pre.last_modified,
    ensures
        post == pre,
{
}

/// Accessing again while the file's time has not advanced changes nothing,
/// whatever the first access did: the module is not opened again and the
/// recorded time stays.
pub proof fn lemma_repeated_access_is_idle<T: HotloadProxy>(
    pre: HotloaderView<T>,
    first: Option<Timestamp>,
    mid: HotloaderView<T>,
    again: Option<Timestamp>,
    post: HotloaderView<T>,
)
    requires
        accessed(pre, first, mid),
        accessed(mid, again, post),
        not_advanced(first, again),
    ensures
        !reload_due(mid.last_modified, again),
        post == mid,
{
}

/// `incoming` was restored from what `outgoing` dumped: some state is an
/// outcome of `dump_state` on `outgoing`, some module is an outcome of
/// opening `path`, and `incoming` is an outcome of `initialize` on that very
/// module and that very state.
pub open spec fn handed_over<T: HotloadProxy>(outgoing: T, path: PathBuf, incoming: T) -> bool {
    exists|state: OpaqueState, lib: Library|
        dumped_by(outgoing, state) && opened_for(path, Some(lib)) && #[trigger] built_restored(
            Some(incoming),
            lib,
            state,
        )
}

/// `incoming` was built over a module that is an outcome of opening `path`,
/// fresh or from some state.
pub open spec fn built_over_opened<T: HotloadProxy>(path: PathBuf, incoming: T) -> bool {
    exists|lib: Library, last_state: Option<OpaqueState>|
        opened_for(path, Some(lib)) && #[trigger] built_from(Some(incoming), last_state, Some(lib))
}

/// The state crosses a reload unchanged: when a loaded hotloader reloads
/// and is loaded afterwards, the incoming adapter was built by `initialize`
/// on exactly the state that the outgoing adapter's `dump_state` returned.
pub proof fn lemma_state_round_trip<T: HotloadProxy>(
    pre: HotloaderView<T>,
    observed: Option<Timestamp>,
    post: HotloaderView<T>,
)
    requires
        accessed(pre, observed, post),
        reload_due(pre.last_modified, observed),
        pre.proxy is Some,
        post.proxy is Some,
    ensures
        handed_over(pre.proxy.unwrap(), pre.watched_path, post.proxy.unwrap()),
{
    let (last_state, library) = choose|last_state: Option<OpaqueState>, library: Option<Library>|
        opened_for(pre.watched_path, library) && #[trigger] reloaded(
            pre.proxy,
            last_state,
            library,
            post.proxy,
        );
    assert(built_restored(post.proxy, library.unwrap(), last_state.unwrap()));
}

/// After a reload that left an adapter, that adapter was built over the
/// module that this reload opened at the watched path, and the adapter it
/// replaced, if any, was consumed by `dump_state` before that: whatever the
/// host reaches afterwards was resolved from the new module.
pub proof fn lemma_adapter_is_over_new_module<T: HotloadProxy>(
    pre: HotloaderView<T>,
    observed: Option<Timestamp>,
    post: HotloaderView<T>,
)
    requires
        accessed(pre, observed, post),
        reload_due(pre.last_modified, observed),
        post.proxy is Some,
    ensures
        built_over_opened(pre.watched_path, post.proxy.unwrap()),
        pre.proxy matches Some(outgoing) ==> exists|state: OpaqueState| #[trigger]
            dumped_by(outgoing, state),
{
    let (last_state, library) = choose|last_state: Option<OpaqueState>, library: Option<Library>|
        opened_for(pre.watched_path, library) && #[trigger] reloaded(
            pre.proxy,
            last_state,
            library,
            post.proxy,
        );
    assert(built_from(post.proxy, last_state, Some(library.unwrap())));
    if pre.proxy is Some {
        assert(dumped_by(pre.proxy.unwrap(), last_state.unwrap()));
    }
}

/// A reload whose open fails leaves the hotloader unloaded, whatever state
/// was extracted, and it is not tried again while the file's time does not
/// advance: the next access changes nothing.
pub proof fn lemma_failed_open_is_not_retried<T: HotloadProxy>(
    outgoing: Option<T>,
    newer: Timestamp,
    last_state: Option<OpaqueState>,
    mid: HotloaderView<T>,
    again: Option<Timestamp>,
    post: HotloaderView<T>,
)
    requires
        reloaded(outgoing, last_state, None, mid.proxy),
        mid.last_modified == newer@,
        accessed(mid, again, post),
        not_advanced(Some(newer), again),
    ensures
        mid.proxy is None,
        post == mid,
{
}

impl<T: HotloadProxy> View for Hotloader<T> {
    type V = HotloaderView<T>;

    closed spec fn view(&self) -> HotloaderView<T> {
        HotloaderView {
            proxy: self.proxy,
            watched_path: self.watched_path,
            last_modified: self.last_modified@,
        }
    }
}

impl<T: HotloadProxy> Hotloader<T> {
    /// A loader for the module at `dylib_path`: unloaded, with the epoch on
    /// record, so that the first access that reads a later time attempts a
    /// load. Nothing is opened here.
    pub fn new(dylib_path: PathBuf) -> (hotloader: Hotloader<T>)
        ensures
            hotloader@ == Self::initial(dylib_path),
    {
        Hotloader { proxy: None, watched_path: dylib_path, last_modified: Timestamp::epoch() }
    }

    /// The state before the first access: unloaded, with the epoch on record.
    pub open spec fn initial(dylib_path: PathBuf) -> HotloaderView<T> {
        HotloaderView { proxy: None, watched_path: dylib_path, last_modified: 0 }
    }

    /// Polls with `observed`, the modification time that the host just read
    /// for the watched path (`None` if the query failed), reloads if it is
    /// due, and gives access to the live adapter, if there is one. What the
    /// host does through the returned reference is what the adapter is
    /// afterwards.
    pub fn get_proxy(&mut self, observed: Option<Timestamp>) -> (proxy: Option<&mut T>)
        ensures
            accessed(
                old(self)@,
                observed,
                (HotloaderView {
                    proxy: match proxy {
                        Some(p) => Some(*p),
                        None => None,
                    },
                    ..final(self)@
                }),
            ),
            match proxy {
                Some(p) => final(self)@.proxy == Some(*final(p)),
                None => final(self)@.proxy is None,
            },
    {
        self.try_hotload(observed);
        self.proxy.as_mut()
    }

    /// Whether an adapter is live.
    pub fn is_loaded(&self) -> (loaded: bool)
        ensures
            loaded == (self@.proxy is Some),
    {
        self.proxy.is_some()
    }

    /// The last modification time acted upon.
    pub fn last_modified(&self) -> (t: Timestamp)
        ensures
            t@ == self@.last_modified,
    {
        self.last_modified
    }

    /// The path being watched.
    pub fn watched_path(&self) -> (path: &PathBuf)
        ensures
            *path == self@.watched_path,
    {
        &self.watched_path
    }

    /// Takes the live adapter out, if there is one, and has it dump its
    /// state. The adapter releases what it resolved from its module and then
    /// the module itself, so afterwards the module can be opened anew.
    pub fn extract_state(&mut self) -> (last_state: Option<OpaqueState>)
        ensures
            final(self)@ == (HotloaderView { proxy: None, ..old(self)@ }),
            extracted_from(old(self)@.proxy, last_state),
    {
        match self.proxy.take() {
            Some(outgoing) => Some(outgoing.dump_state()),
            None => None,
        }
    }

    /// Combines what was extracted from the outgoing adapter with the result
    /// of opening the module again.
    pub fn build(last_state: Option<OpaqueState>, library: Option<Library>) -> (adapter: Option<T>)
        ensures
            built_from(adapter, last_state, library),
    {
        match (last_state, library) {
            (_, None) => None,
            (None, Some(lib)) => T::initialize_fresh(lib),
            (Some(state), Some(lib)) => T::initialize(lib, state),
        }
    }

    /// Completes a reload that observed the time `newer`: builds the
    /// incoming adapter from `last_state` and `library`, and puts `newer` on
    /// record whether or not there is an adapter now, so that a build that
    /// cannot be loaded is not tried again until its time changes.
    pub fn install(
        &mut self,
        newer: Timestamp,
        last_state: Option<OpaqueState>,
        library: Option<Library>,
    )
        requires
            old(self)@.proxy is None,
        ensures
            final(self)@.watched_path == old(self)@.watched_path,
            final(self)@.last_modified == newer@,
            built_from(final(self)@.proxy, last_state, library),
    {
        self.proxy = Self::build(last_state, library);
        self.last_modified = newer;
    }

    /// Polls with `observed` and, if a reload is due, performs it: extracts
    /// the state, which unloads the module held so far, then opens the
    /// module at the watched path, and installs the result.
    pub fn try_hotload(&mut self, observed: Option<Timestamp>)
        ensures
            accessed(old(self)@, observed, final(self)@),
    {
        let newer = match observed {
            Some(t) => t,
            None => { return ; },
        };
        if !newer.is_after(&self.last_modified) {
            return ;
        }
        let last_state = self.extract_state();
        let library = open_watched(&*self);
        self.install(newer, last_state, library);
        assert(reloaded(old(self)@.proxy, last_state, library, self@.proxy));
    }
}

} // verus!
