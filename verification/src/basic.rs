//! The three-symbol adapter: what it does at the foreign boundary, and in
//! which order.
//!
//! Resolving a symbol and calling into a module are the host's work. This
//! module decides which of them happen and when: each operation of
//! `BasicProxy` gives the steps to perform, in order, and the contracts say
//! that performing them never calls through a reference that is not held,
//! and never unloads a module while a reference into it is held.

use crate::state::OpaqueState;
use vstd::prelude::*;

verus! {

/// The exports that a module must have for `BasicProxy`, all with C linkage.
#[derive(Clone, Copy, Debug, PartialEq, Eq, Structural)]
pub enum Export {
    /// `run`: no argument, no result; called once per `BasicProxy::run`.
    Run,
    /// `initialize`: takes one opaque pointer; called once, right after a
    /// state is restored.
    Initialize,
    /// `dump_state`: returns one opaque pointer; called once, when the
    /// module is about to be replaced.
    DumpState,
}

/// One thing for the host to do at the boundary of the adapter's module.
#[derive(Debug)]
pub enum Step {
    /// Resolve the export in the module and hold the reference. If the
    /// module lacks the export, the plan stops here.
    Resolve(Export),
    /// Call the held reference to `run`.
    CallRun,
    /// Call the held reference to `initialize` with this state.
    CallInitialize(OpaqueState),
    /// Call the held reference to `dump_state`; what it returns is the
    /// module's state.
    CallDumpState,
    /// Drop the held reference to the export, if one is held.
    Release(Export),
    /// Destroy the module handle, which unloads the module.
    Unload,
}

impl Export {
    /// The name under which a module exports it.
    pub open spec fn symbol_name(self) -> Seq<char> {
        match self {
            Export::Run => "run"@,
            Export::Initialize => "initialize"@,
            Export::DumpState => "dump_state"@,
        }
    }

    /// The name to resolve in the module.
    pub fn symbol(&self) -> (name: &'static str)
        ensures
            name@ == self.symbol_name(),
    {
        match self {
            Export::Run => "run",
            Export::Initialize => "initialize",
            Export::DumpState => "dump_state",
        }
    }
}

/// What exists at the boundary of one module: whether the module is still
/// loaded, and which exports the host holds a resolved reference to.
pub struct Boundary {
    /// The module handle has not been destroyed.
    pub loaded: bool,
    /// The exports to which a resolved reference is held.
    pub held: Set<Export>,
}

/// The export that a step calls through, if it is a call.
pub open spec fn callee(step: Step) -> Option<Export> {
    match step {
        Step::CallRun => Some(Export::Run),
        Step::CallInitialize(_) => Some(Export::Initialize),
        Step::CallDumpState => Some(Export::DumpState),
        _ => None,
    }
}

/// Whether a step may be performed at a boundary. A symbol is resolved only
/// in a loaded module; a call goes through a held reference into a loaded
/// module; and a module is unloaded only once no reference into it is held.
pub open spec fn permits(b: Boundary, step: Step) -> bool {
    match step {
        Step::Resolve(_) => b.loaded,
        Step::Release(_) => true,
        Step::Unload => b.loaded && b.held =~= Set::<Export>::empty(),
        _ => b.loaded && b.held.contains(callee(step).unwrap()),
    }
}

/// The boundary after a step that succeeded.
pub open spec fn after(b: Boundary, step: Step) -> Boundary {
    match step {
        Step::Resolve(e) => Boundary { held: b.held.insert(e), ..b },
        Step::Release(e) => Boundary { held: b.held.remove(e), ..b },
        Step::Unload => Boundary { loaded: false, ..b },
        _ => b,
    }
}

/// Whether every step of a plan is permitted when its turn comes.
pub open spec fn sound(b: Boundary, plan: Seq<Step>) -> bool
    decreases plan.len(),
{
    if plan.len() == 0 {
        true
    } else {
        permits(b, plan[0]) && sound(after(b, plan[0]), plan.drop_first())
    }
}

/// The boundary after a whole plan.
pub open spec fn outcome(b: Boundary, plan: Seq<Step>) -> Boundary
    decreases plan.len(),
{
    if plan.len() == 0 {
        b
    } else {
        outcome(after(b, plan[0]), plan.drop_first())
    }
}

/// How many steps of a plan call through the export `e`.
pub open spec fn calls(plan: Seq<Step>, e: Export) -> nat
    decreases plan.len(),
{
    if plan.len() == 0 {
        0
    } else {
        let rest = calls(plan.drop_first(), e);
        if callee(plan[0]) == Some(e) {
            rest + 1
        } else {
            rest
        }
    }
}

/// A module that was just opened: loaded, nothing resolved yet.
pub open spec fn opened() -> Boundary {
    Boundary { loaded: true, held: Set::empty() }
}

/// A module under a live adapter: loaded, with the reference to `run` held.
pub open spec fn live() -> Boundary {
    Boundary { loaded: true, held: Set::empty().insert(Export::Run) }
}

/// A module that is gone: unloaded, with no reference left.
pub open spec fn gone() -> Boundary {
    Boundary { loaded: false, held: Set::empty() }
}

/// The plan that builds an adapter with no prior state: resolve `run` and
/// keep it, then make sure that `initialize` and `dump_state` resolve too.
pub open spec fn fresh_plan() -> Seq<Step> {
    seq![
        Step::Resolve(Export::Run),
        Step::Resolve(Export::Initialize),
        Step::Release(Export::Initialize),
        Step::Resolve(Export::DumpState),
        Step::Release(Export::DumpState),
    ]
}

/// The plan that builds an adapter from a dumped state: resolve `run` and
/// keep it, make sure that `dump_state` resolves, then resolve `initialize`
/// and call it once with the state.
pub open spec fn restore_plan(state: OpaqueState) -> Seq<Step> {
    seq![
        Step::Resolve(Export::Run),
        Step::Resolve(Export::DumpState),
        Step::Release(Export::DumpState),
        Step::Resolve(Export::Initialize),
        Step::CallInitialize(state),
        Step::Release(Export::Initialize),
    ]
}

/// The plan that takes the state out of a live adapter: drop the reference
/// to `run` first, then resolve and call `dump_state`, drop that reference
/// too, and only then unload the module.
pub open spec fn dump_plan() -> Seq<Step> {
    seq![
        Step::Release(Export::Run),
        Step::Resolve(Export::DumpState),
        Step::CallDumpState,
        Step::Release(Export::DumpState),
        Step::Unload,
    ]
}

/// The plan that gives up a module in any state: drop every reference,
/// then unload.
pub open spec fn teardown_plan() -> Seq<Step> {
    seq![
        Step::Release(Export::Run),
        Step::Release(Export::Initialize),
        Step::Release(Export::DumpState),
        Step::Unload,
    ]
}

/// The default adapter, over the exports `run`, `initialize` and
/// `dump_state`. A value of this type stands for a live adapter: its module
/// is loaded and the reference to `run`, resolved once, is held. The only
/// way to one is a construction plan that the host performed to its end.
#[derive(Debug)]
pub struct BasicProxy {
    live: (),
}

/// An adapter in the making: its construction plan has been handed to the
/// host and the outcome is still to be settled.
#[derive(Debug)]
pub struct Construction {
    pending: (),
}

impl Construction {
    /// Settles a construction once the host has gone through its plan.
    /// `completed` says whether every step succeeded. If so the adapter is
    /// live and nothing is left to do. If a step failed, the module lacks an
    /// export: there is no adapter, and the host performs the returned
    /// teardown, which drops every reference, then unloads the module, and
    /// calls nothing.
    pub fn settle(self, completed: bool) -> (end: (Option<BasicProxy>, Vec<Step>))
        ensures
            completed ==> end.0 is Some && end.1@ == Seq::<Step>::empty(),
            !completed ==> end.0 is None && end.1@ == teardown_plan(),
            forall|b: Boundary| b.loaded && !completed ==> sound(b, end.1@) && outcome(b, end.1@)
                == gone(),
            forall|e: Export| calls(end.1@, e) == 0,
    {
        if completed {
            let rest: Vec<Step> = Vec::new();
            proof {
                reveal_with_fuel(calls, 1);
            }
            (Some(BasicProxy { live: () }), rest)
        } else {
            let teardown = vec![
                Step::Release(Export::Run),
                Step::Release(Export::Initialize),
                Step::Release(Export::DumpState),
                Step::Unload,
            ];
            proof {
                assert forall|b: Boundary| b.loaded implies sound(b, teardown@) && outcome(
                    b,
                    teardown@,
                ) == gone() by {
                    lemma_teardown_plan(b);
                }
                reveal_with_fuel(calls, 5);
            }
            (None, teardown)
        }
    }
}

impl BasicProxy {
    /// Starts building an adapter over a newly opened module with no prior
    /// state. The host performs the plan in order, stops at the first step
    /// that fails, and settles the construction with how it went.
    pub fn initialize_fresh() -> (built: (Construction, Vec<Step>))
        ensures
            built.1@ == fresh_plan(),
            sound(opened(), built.1@),
            outcome(opened(), built.1@) == live(),
    {
        let plan = vec![
            Step::Resolve(Export::Run),
            Step::Resolve(Export::Initialize),
            Step::Release(Export::Initialize),
            Step::Resolve(Export::DumpState),
            Step::Release(Export::DumpState),
        ];
        proof {
            lemma_fresh_plan();
        }
        (Construction { pending: () }, plan)
    }

    /// Starts building an adapter over a newly opened module that restores
    /// `state`, dumped by the adapter it replaces: the plan calls
    /// `initialize` once, with exactly that state, after all three exports
    /// were found. The host performs the plan in order, stops at the first
    /// step that fails, and settles the construction with how it went; if a
    /// step fails the state is lost.
    pub fn initialize(state: OpaqueState) -> (built: (Construction, Vec<Step>))
        ensures
            built.1@ == restore_plan(state),
            sound(opened(), built.1@),
            outcome(opened(), built.1@) == live(),
            calls(built.1@, Export::Initialize) == 1,
    {
        let plan = vec![
            Step::Resolve(Export::Run),
            Step::Resolve(Export::DumpState),
            Step::Release(Export::DumpState),
            Step::Resolve(Export::Initialize),
            Step::CallInitialize(state),
            Step::Release(Export::Initialize),
        ];
        proof {
            lemma_restore_plan(state);
        }
        (Construction { pending: () }, plan)
    }

    /// Runs the module once: one call through the held reference to `run`,
    /// which stays held.
    pub fn run(&mut self) -> (step: Step)
        ensures
            step == Step::CallRun,
            permits(live(), step),
            after(live(), step) == live(),
            *final(self) == *old(self),
    {
        Step::CallRun
    }

    /// Consumes the adapter for its state. The reference to `run` is
    /// dropped first, and the module is unloaded last, after `dump_state`
    /// was called once and its reference dropped: no reference outlives the
    /// module it was resolved from. What the call returns is the state.
    pub fn dump_state(self) -> (plan: Vec<Step>)
        ensures
            plan@ == dump_plan(),
            sound(live(), plan@),
            outcome(live(), plan@) == gone(),
            calls(plan@, Export::DumpState) == 1,
    {
        let plan = vec![
            Step::Release(Export::Run),
            Step::Resolve(Export::DumpState),
            Step::CallDumpState,
            Step::Release(Export::DumpState),
            Step::Unload,
        ];
        proof {
            lemma_dump_plan();
        }
        plan
    }
}

/// Building fresh is sound on a newly opened module, leaves the adapter
/// live, and calls nothing.
pub proof fn lemma_fresh_plan()
    ensures
        sound(opened(), fresh_plan()),
        outcome(opened(), fresh_plan()) == live(),
        forall|e: Export| calls(fresh_plan(), e) == 0,
{
    reveal_with_fuel(sound, 6);
    reveal_with_fuel(outcome, 6);
    reveal_with_fuel(calls, 6);
    let p = fresh_plan();
    assert(outcome(opened(), p).held =~= live().held);
}

/// Restoring is sound on a newly opened module, leaves the adapter live,
/// and calls `initialize` once and nothing else.
pub proof fn lemma_restore_plan(state: OpaqueState)
    ensures
        sound(opened(), restore_plan(state)),
        outcome(opened(), restore_plan(state)) == live(),
        calls(restore_plan(state), Export::Initialize) == 1,
        calls(restore_plan(state), Export::Run) == 0,
        calls(restore_plan(state), Export::DumpState) == 0,
{
    reveal_with_fuel(sound, 7);
    reveal_with_fuel(outcome, 7);
    reveal_with_fuel(calls, 7);
    assert(outcome(opened(), restore_plan(state)).held =~= live().held);
}

/// Dumping is sound on a live adapter, ends with the module gone, and calls
/// `dump_state` once and nothing else.
pub proof fn lemma_dump_plan()
    ensures
        sound(live(), dump_plan()),
        outcome(live(), dump_plan()) == gone(),
        calls(dump_plan(), Export::DumpState) == 1,
        calls(dump_plan(), Export::Run) == 0,
        calls(dump_plan(), Export::Initialize) == 0,
{
    reveal_with_fuel(sound, 6);
    reveal_with_fuel(outcome, 6);
    reveal_with_fuel(calls, 6);
    let b1 = after(live(), Step::Release(Export::Run));
    assert(b1.held =~= Set::<Export>::empty());
    let b2 = after(b1, Step::Resolve(Export::DumpState));
    let b4 = after(b2, Step::Release(Export::DumpState));
    assert(b4.held =~= Set::<Export>::empty());
    assert(outcome(live(), dump_plan()).held =~= gone().held);
}

/// Tearing down is sound on any loaded module, whatever is held, and ends
/// with the module gone.
pub proof fn lemma_teardown_plan(b: Boundary)
    requires
        b.loaded,
    ensures
        sound(b, teardown_plan()),
        outcome(b, teardown_plan()) == gone(),
{
    reveal_with_fuel(sound, 5);
    reveal_with_fuel(outcome, 5);
    let held = b.held.remove(Export::Run).remove(Export::Initialize).remove(Export::DumpState);
    assert forall|e: Export| !held.contains(e) by {
        match e {
            Export::Run => {},
            Export::Initialize => {},
            Export::DumpState => {},
        }
    }
    assert(held =~= Set::<Export>::empty());
    assert(outcome(b, teardown_plan()).held =~= gone().held);
}

/// `runs` calls of `run`, one after the other.
pub open spec fn run_plan(runs: nat) -> Seq<Step> {
    Seq::new(runs, |i: int| Step::CallRun)
}

/// Whether a plan is one that builds an adapter: fresh, or from some state.
pub open spec fn is_construction(plan: Seq<Step>) -> bool {
    plan == fresh_plan() || exists|state: OpaqueState| plan == #[trigger] restore_plan(state)
}

/// A plan made of two is sound exactly when the first part is sound and the
/// second is sound where the first ends; it ends where the second ends, and
/// it calls what both call.
pub proof fn lemma_plans_compose(b: Boundary, first: Seq<Step>, second: Seq<Step>)
    ensures
        sound(b, first + second) == (sound(b, first) && sound(outcome(b, first), second)),
        outcome(b, first + second) == outcome(outcome(b, first), second),
        forall|e: Export| #[trigger]
            calls(first + second, e) == calls(first, e) + calls(second, e),
    decreases first.len(),
{
    let whole = first + second;
    if first.len() == 0 {
        assert(whole =~= second);
    } else {
        assert(whole[0] == first[0]);
        assert(whole.drop_first() =~= first.drop_first() + second);
        lemma_plans_compose(after(b, first[0]), first.drop_first(), second);
        assert forall|e: Export| #[trigger] calls(whole, e) == calls(first, e) + calls(second, e) by {
            assert(calls(whole.drop_first(), e) == calls(first.drop_first(), e) + calls(
                second,
                e,
            ));
        }
    }
}

/// Any number of runs is sound on a live adapter and leaves it live; it
/// calls `run` that many times and nothing else.
pub proof fn lemma_run_plan(runs: nat)
    ensures
        sound(live(), run_plan(runs)),
        outcome(live(), run_plan(runs)) == live(),
        calls(run_plan(runs), Export::Run) == runs,
        calls(run_plan(runs), Export::Initialize) == 0,
        calls(run_plan(runs), Export::DumpState) == 0,
    decreases runs,
{
    if runs > 0 {
        assert(run_plan(runs).drop_first() =~= run_plan((runs - 1) as nat));
        lemma_run_plan((runs - 1) as nat);
    }
}

/// The steps of an adapter's whole life, from a newly opened module to its
/// unloading, are sound: built fresh or from a state, run any number of
/// times, then dumped, it never resolves in or calls into a module that is
/// gone, never calls through a reference that is not held, and holds no
/// reference when the module is unloaded. `run` is called once per run and
/// `dump_state` once.
pub proof fn lemma_lifetime_is_sound(construction: Seq<Step>, runs: nat)
    requires
        is_construction(construction),
    ensures
        sound(opened(), construction + run_plan(runs) + dump_plan()),
        outcome(opened(), construction + run_plan(runs) + dump_plan()) == gone(),
        calls(construction + run_plan(runs) + dump_plan(), Export::Run) == runs,
        calls(construction + run_plan(runs) + dump_plan(), Export::DumpState) == 1,
{
    lemma_fresh_plan();
    if construction != fresh_plan() {
        let state = choose|state: OpaqueState| construction == #[trigger] restore_plan(state);
        lemma_restore_plan(state);
    }
    lemma_run_plan(runs);
    lemma_dump_plan();
    lemma_plans_compose(opened(), construction, run_plan(runs));
    lemma_plans_compose(opened(), construction + run_plan(runs), dump_plan());
}

/// A plan without an `Unload` step leaves a loaded module loaded.
pub proof fn lemma_stays_loaded(b: Boundary, plan: Seq<Step>)
    requires
        b.loaded,
        forall|i: int| 0 <= i < plan.len() ==> plan[i] != Step::Unload,
    ensures
        outcome(b, plan).loaded,
    decreases plan.len(),
{
    if plan.len() > 0 {
        lemma_stays_loaded(after(b, plan[0]), plan.drop_first());
    }
}

/// If a plan is sound, so is every prefix of it.
pub proof fn lemma_prefix_is_sound(b: Boundary, plan: Seq<Step>, done: int)
    requires
        sound(b, plan),
        0 <= done <= plan.len(),
    ensures
        sound(b, plan.take(done)),
{
    assert(plan =~= plan.take(done) + plan.skip(done));
    lemma_plans_compose(b, plan.take(done), plan.skip(done));
}

/// Wherever a construction plan stops, settling it as failed is sound: the
/// steps done so far followed by the teardown never touch a module that is
/// gone, and end with the module unloaded and no reference held.
pub proof fn lemma_failed_construction_is_sound(construction: Seq<Step>, done: int)
    requires
        is_construction(construction),
        0 <= done <= construction.len(),
    ensures
        sound(opened(), construction.take(done) + teardown_plan()),
        outcome(opened(), construction.take(done) + teardown_plan()) == gone(),
{
    lemma_fresh_plan();
    if construction != fresh_plan() {
        let state = choose|state: OpaqueState| construction == #[trigger] restore_plan(state);
        lemma_restore_plan(state);
    }
    let prefix = construction.take(done);
    lemma_prefix_is_sound(opened(), construction, done);
    lemma_stays_loaded(opened(), prefix);
    lemma_teardown_plan(outcome(opened(), prefix));
    lemma_plans_compose(opened(), prefix, teardown_plan());
}

} // verus!
