use hotload::basic::{BasicProxy, Construction, Export, Step};
use hotload::{HotloadProxy, Hotloader, OpaqueState, Timestamp};
use libloading::Library;
use std::path::PathBuf;

/// A stand-in for a loaded plugin that checks every step against what it
/// holds: it panics on a call through a reference that is not held, on any
/// use after unloading, and on unloading while a reference is held.
struct Plugin {
    exports: Vec<Export>,
    held: Vec<Export>,
    loaded: bool,
    runs: usize,
    initialized_with: Vec<usize>,
    dumps: usize,
    state: usize,
}

impl Plugin {
    fn exporting(exports: Vec<Export>) -> Plugin {
        Plugin {
            exports,
            held: Vec::new(),
            loaded: true,
            runs: 0,
            initialized_with: Vec::new(),
            dumps: 0,
            state: 7,
        }
    }

    fn complete() -> Plugin {
        Plugin::exporting(vec![Export::Run, Export::Initialize, Export::DumpState])
    }

    fn call(&self, export: Export) {
        assert!(self.loaded, "call into an unloaded module");
        assert!(self.held.contains(&export), "call through a reference that is not held");
    }

    /// Performs one step; `false` if the export to resolve is missing.
    fn perform(&mut self, step: Step) -> bool {
        match step {
            Step::Resolve(export) => {
                assert!(self.loaded, "resolve in an unloaded module");
                if !self.exports.contains(&export) {
                    return false;
                }
                if !self.held.contains(&export) {
                    self.held.push(export);
                }
            }
            Step::CallRun => {
                self.call(Export::Run);
                self.runs += 1;
            }
            Step::CallInitialize(state) => {
                self.call(Export::Initialize);
                let addr = state.into_addr();
                self.initialized_with.push(addr);
                self.state = addr;
            }
            Step::CallDumpState => {
                self.call(Export::DumpState);
                self.dumps += 1;
            }
            Step::Release(export) => self.held.retain(|held| *held != export),
            Step::Unload => {
                assert!(self.loaded, "unloaded twice");
                assert!(self.held.is_empty(), "unloaded while a reference is held");
                self.loaded = false;
            }
        }
        true
    }

    /// Performs a plan in order and stops at the first step that fails.
    fn perform_all(&mut self, plan: Vec<Step>) -> bool {
        for step in plan {
            if !self.perform(step) {
                return false;
            }
        }
        true
    }
}

fn steps(plan: &[Step]) -> Vec<String> {
    plan.iter().map(|step| format!("{:?}", step)).collect()
}

#[test]
fn export_names_follow_the_convention() {
    assert_eq!(Export::Run.symbol(), "run");
    assert_eq!(Export::Initialize.symbol(), "initialize");
    assert_eq!(Export::DumpState.symbol(), "dump_state");
}

#[test]
fn fresh_plan_resolves_all_three_and_keeps_run() {
    let (construction, plan) = BasicProxy::initialize_fresh();
    assert_eq!(
        steps(&plan),
        vec![
            "Resolve(Run)",
            "Resolve(Initialize)",
            "Release(Initialize)",
            "Resolve(DumpState)",
            "Release(DumpState)",
        ]
    );
    let mut plugin = Plugin::complete();
    assert!(plugin.perform_all(plan));
    assert_eq!(plugin.held, vec![Export::Run]);
    assert!(plugin.loaded);
    assert_eq!((plugin.runs, plugin.dumps), (0, 0));
    assert!(plugin.initialized_with.is_empty());
    let (adapter, rest) = construction.settle(true);
    assert!(adapter.is_some());
    assert!(rest.is_empty());
}

#[test]
fn restore_plan_initializes_once_with_the_state() {
    let (_construction, plan) = BasicProxy::initialize(OpaqueState::from_addr(7));
    assert_eq!(
        steps(&plan),
        vec![
            "Resolve(Run)",
            "Resolve(DumpState)",
            "Release(DumpState)",
            "Resolve(Initialize)",
            "CallInitialize(OpaqueState { addr: 7 })",
            "Release(Initialize)",
        ]
    );
    let mut plugin = Plugin::complete();
    plugin.state = 0;
    assert!(plugin.perform_all(plan));
    assert_eq!(plugin.initialized_with, vec![7]);
    assert_eq!(plugin.state, 7);
    assert_eq!(plugin.held, vec![Export::Run]);
    assert!(plugin.loaded);
}

#[test]
fn run_is_one_call_through_the_cached_reference() {
    let (construction, plan) = BasicProxy::initialize_fresh();
    let mut plugin = Plugin::complete();
    assert!(plugin.perform_all(plan));
    let mut adapter = construction.settle(true).0.unwrap();
    assert!(matches!(adapter.run(), Step::CallRun));
    assert!(plugin.perform(adapter.run()));
    assert_eq!(plugin.runs, 1);
    assert!(plugin.perform(adapter.run()));
    assert!(plugin.perform(adapter.run()));
    assert_eq!(plugin.runs, 3);
    assert_eq!(plugin.held, vec![Export::Run]);
}

#[test]
fn dump_releases_run_first_and_unloads_last() {
    let (construction, plan) = BasicProxy::initialize_fresh();
    let mut plugin = Plugin::complete();
    assert!(plugin.perform_all(plan));
    let adapter = construction.settle(true).0.unwrap();
    let plan = adapter.dump_state();
    assert_eq!(
        steps(&plan),
        vec![
            "Release(Run)",
            "Resolve(DumpState)",
            "CallDumpState",
            "Release(DumpState)",
            "Unload",
        ]
    );
    assert!(plugin.perform_all(plan));
    assert_eq!(plugin.dumps, 1);
    assert!(plugin.held.is_empty());
    assert!(!plugin.loaded);
}

#[test]
fn failed_construction_settles_to_no_adapter_and_a_teardown() {
    for exports in [
        vec![],
        vec![Export::Run],
        vec![Export::Run, Export::Initialize],
        vec![Export::Run, Export::DumpState],
        vec![Export::Initialize, Export::DumpState],
    ] {
        let (construction, plan) = BasicProxy::initialize(OpaqueState::from_addr(7));
        let mut plugin = Plugin::exporting(exports);
        let completed = plugin.perform_all(plan);
        assert!(!completed);
        assert!(plugin.initialized_with.is_empty());
        let (adapter, teardown) = construction.settle(completed);
        assert!(adapter.is_none());
        assert_eq!(
            steps(&teardown),
            vec!["Release(Run)", "Release(Initialize)", "Release(DumpState)", "Unload"]
        );
        assert!(plugin.perform_all(teardown));
        assert!(plugin.held.is_empty());
        assert!(!plugin.loaded);
        assert_eq!((plugin.runs, plugin.dumps), (0, 0));
    }
}

#[test]
fn completed_construction_settles_to_an_adapter_and_nothing_to_do() {
    let (construction, plan) = BasicProxy::initialize(OpaqueState::from_addr(7));
    let mut plugin = Plugin::complete();
    let completed = plugin.perform_all(plan);
    assert!(completed);
    let (adapter, rest) = construction.settle(completed);
    assert!(adapter.is_some());
    assert!(rest.is_empty());
    assert!(plugin.loaded);
    assert_eq!(plugin.held, vec![Export::Run]);
}

#[test]
fn whole_life_is_performed_without_a_dangling_reference() {
    let (construction, plan) = BasicProxy::initialize(OpaqueState::from_addr(3));
    let mut plugin = Plugin::complete();
    assert!(plugin.perform_all(plan));
    let mut adapter = construction.settle(true).0.unwrap();
    for _ in 0..5 {
        assert!(plugin.perform(adapter.run()));
    }
    assert!(plugin.perform_all(adapter.dump_state()));
    assert_eq!((plugin.runs, plugin.dumps), (5, 1));
    assert_eq!(plugin.initialized_with, vec![3]);
    assert!(!plugin.loaded);
}

/// The basic adapter over the stand-in plugin, as a host would wire it.
struct Simulated {
    core: BasicProxy,
    plugin: Plugin,
    _lib: Library,
}

impl Simulated {
    fn assemble(lib: Library, built: (Construction, Vec<Step>)) -> Option<Simulated> {
        let (construction, plan) = built;
        let mut plugin = Plugin::complete();
        let completed = plugin.perform_all(plan);
        let (core, rest) = construction.settle(completed);
        plugin.perform_all(rest);
        core.map(|core| Simulated { core, plugin, _lib: lib })
    }

    fn run(&mut self) {
        let step = self.core.run();
        self.plugin.perform(step);
        self.plugin.state += 1;
    }
}

impl HotloadProxy for Simulated {
    fn initialize_fresh(lib: Library) -> Option<Simulated> {
        Simulated::assemble(lib, BasicProxy::initialize_fresh())
    }

    fn initialize(lib: Library, state: OpaqueState) -> Option<Simulated> {
        Simulated::assemble(lib, BasicProxy::initialize(state))
    }

    fn dump_state(self) -> OpaqueState {
        let Simulated { core, mut plugin, _lib } = self;
        assert!(plugin.perform_all(core.dump_state()));
        OpaqueState::from_addr(plugin.state)
    }
}

#[test]
fn basic_adapter_under_the_hotloader_runs_and_restores() {
    let path = PathBuf::from("libc.so.6");
    let mut hotloader: Hotloader<Simulated> = Hotloader::new(path);
    assert!(hotloader.get_proxy(None).is_none());

    let adapter = hotloader.get_proxy(Some(Timestamp::from_nanos(1))).unwrap();
    assert!(adapter.plugin.initialized_with.is_empty());
    adapter.run();
    assert_eq!(adapter.plugin.runs, 1);

    let adapter = hotloader.get_proxy(Some(Timestamp::from_nanos(2))).unwrap();
    assert_eq!(adapter.plugin.initialized_with, vec![8]);
    assert_eq!(adapter.plugin.runs, 0);
    assert_eq!(adapter.plugin.held, vec![Export::Run]);
}
