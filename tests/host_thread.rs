use fj_host::host_thread::{Action, HostCommand, HostThread, Input, ModelEvent, Phase};
use fj_host::metadata::ModelMetadata;
use fj_host::model::{evaluate, ArtifactProbe, Error, Evaluation, LoadError, Model};
use fj_host::parameters::Parameters;

/// A model that tags its geometry with the artifact it came from and the
/// `size` argument.
struct Tagged {
    artifact: &'static str,
}

impl Model for Tagged {
    fn shape(&self, parameters: &Parameters) -> Result<String, String> {
        match parameters.get(&"size".to_string()) {
            Some(size) => Ok(format!("{}:size={}", self.artifact, size)),
            None => Err("size missing".to_string()),
        }
    }

    fn metadata(&self) -> ModelMetadata {
        ModelMetadata::new(self.artifact.to_string())
    }
}

/// A test double for the loop around the host thread: it performs the
/// actions against in-memory artifacts and counts loads and unloads.
struct Loop {
    thread: HostThread,
    on_disk: Vec<(&'static str, bool)>,
    current: Option<Box<dyn Model>>,
    candidate: Option<Box<dyn Model>>,
    events: Vec<ModelEvent>,
    loads: usize,
    unloads: usize,
    exited: bool,
}

impl Loop {
    fn register(artifact: &'static str) -> Loop {
        let thread = HostThread::start(ArtifactProbe::Opened { model_entry: true, metadata_entry: true })
            .unwrap();
        Loop {
            thread,
            on_disk: vec![(artifact, true)],
            current: Some(Box::new(Tagged { artifact })),
            candidate: None,
            events: Vec::new(),
            loads: 1,
            unloads: 0,
            exited: false,
        }
    }

    fn handle(&mut self, input: Input) {
        for action in self.thread.step(input) {
            match action {
                Action::Evaluate => {
                    let parameters = self.thread.parameters.clone().unwrap();
                    let model = self.current.as_ref().unwrap();
                    let r = evaluate(model.as_ref(), &parameters);
                    self.handle(Input::Evaluated(r));
                }
                Action::Load => {
                    let (artifact, loadable) = *self.on_disk.last().unwrap();
                    if loadable {
                        self.loads += 1;
                        self.candidate = Some(Box::new(Tagged { artifact }));
                        self.handle(Input::Loaded(Ok(())));
                    } else {
                        let e = Error::LoadFailure(LoadError::Unloadable("bad".to_string()));
                        self.handle(Input::Loaded(Err(e)));
                    }
                }
                Action::Replace => {
                    self.current = self.candidate.take();
                    self.unloads += 1;
                }
                Action::Emit(event) => self.events.push(event),
                Action::Unload => {
                    self.current = None;
                    self.unloads += 1;
                }
                Action::Exit => self.exited = true,
            }
        }
    }

    fn evaluate_with(&mut self, name: &str, value: &str) {
        let mut p = Parameters::new();
        p.insert(name.to_string(), value.to_string());
        self.handle(Input::Command(HostCommand::Evaluate(p)));
    }

    fn rebuild(&mut self, artifact: &'static str, loadable: bool) {
        self.on_disk.push((artifact, loadable));
        self.handle(Input::ChangeDetected);
    }
}

fn geometry(event: &ModelEvent) -> String {
    match event {
        ModelEvent::Evaluation(e) => e.geometry.clone(),
        other => panic!("not an evaluation: {:?}", other),
    }
}

#[test]
fn register_then_evaluate_yields_one_evaluation() {
    let mut host = Loop::register("a1");
    host.evaluate_with("size", "10");
    assert_eq!(host.events.len(), 1);
    assert_eq!(geometry(&host.events[0]), "a1:size=10");
    assert_eq!(host.thread.phase, Phase::Idle);
}

#[test]
fn missing_artifact_is_a_load_failure() {
    let r = HostThread::start(ArtifactProbe::Missing);
    assert_eq!(r, Err(Error::LoadFailure(LoadError::ArtifactMissing)));
}

#[test]
fn unloadable_artifact_is_a_load_failure() {
    let r = HostThread::start(ArtifactProbe::Unloadable("not an object file".to_string()));
    assert_eq!(
        r,
        Err(Error::LoadFailure(LoadError::Unloadable("not an object file".to_string())))
    );
}

#[test]
fn artifact_without_metadata_entry_is_a_load_failure() {
    let r = HostThread::start(ArtifactProbe::Opened { model_entry: true, metadata_entry: false });
    assert_eq!(r, Err(Error::LoadFailure(LoadError::MissingMetadataEntry)));
}

#[test]
fn artifact_without_model_entry_is_a_load_failure() {
    let r = HostThread::start(ArtifactProbe::Opened { model_entry: false, metadata_entry: true });
    assert_eq!(r, Err(Error::LoadFailure(LoadError::MissingModelEntry)));
}

#[test]
fn started_thread_is_idle_without_parameters() {
    let t = HostThread::start(ArtifactProbe::Opened { model_entry: true, metadata_entry: true })
        .unwrap();
    assert_eq!(t.phase, Phase::Idle);
    assert_eq!(t.parameters, None);
    assert!(!t.is_stopped());
}

#[test]
fn same_parameters_twice_give_equal_events() {
    let mut host = Loop::register("a1");
    host.evaluate_with("size", "3");
    host.evaluate_with("size", "3");
    assert_eq!(host.events.len(), 2);
    assert_eq!(host.events[0], host.events[1]);
}

#[test]
fn evaluation_failure_is_one_error_event() {
    let mut host = Loop::register("a1");
    host.evaluate_with("width", "3");
    assert_eq!(
        host.events,
        vec![ModelEvent::Error(Error::EvaluationFailure("size missing".to_string()))]
    );
}

#[test]
fn rebuild_reloads_and_reevaluates_then_shutdown_unloads() {
    let mut host = Loop::register("a1");
    host.evaluate_with("size", "10");
    assert_eq!(host.events.len(), 1);
    assert_eq!(geometry(&host.events[0]), "a1:size=10");

    host.rebuild("a2", true);
    assert_eq!(host.events.len(), 3);
    assert_eq!(host.events[1], ModelEvent::Reloaded);
    assert_eq!(geometry(&host.events[2]), "a2:size=10");
    assert_eq!((host.loads, host.unloads), (2, 1));

    host.handle(Input::Command(HostCommand::Shutdown));
    assert!(host.exited);
    assert!(host.thread.is_stopped());
    assert!(host.current.is_none());
    assert_eq!((host.loads, host.unloads), (2, 2));

    host.evaluate_with("size", "11");
    host.handle(Input::ChangeDetected);
    assert_eq!(host.events.len(), 3);
    assert_eq!((host.loads, host.unloads), (2, 2));
}

#[test]
fn failed_reload_keeps_previous_model() {
    let mut host = Loop::register("a1");
    host.evaluate_with("size", "4");
    host.rebuild("broken", false);
    assert_eq!(host.events.len(), 2);
    assert_eq!(
        host.events[1],
        ModelEvent::Error(Error::LoadFailure(LoadError::Unloadable("bad".to_string())))
    );
    host.evaluate_with("size", "5");
    assert_eq!(geometry(&host.events[2]), "a1:size=5");
    assert_eq!((host.loads, host.unloads), (1, 0));
}

#[test]
fn reload_before_any_command_only_reports_reload() {
    let mut host = Loop::register("a1");
    host.rebuild("a2", true);
    assert_eq!(host.events, vec![ModelEvent::Reloaded]);
    assert_eq!(host.thread.phase, Phase::Idle);
}

#[test]
fn closed_event_loop_stops_the_thread() {
    let mut t = HostThread::start(ArtifactProbe::Opened { model_entry: true, metadata_entry: true })
        .unwrap();
    assert_eq!(t.step(Input::EventLoopClosed), vec![Action::Unload, Action::Exit]);
    assert!(t.is_stopped());
    assert_eq!(t.step(Input::Command(HostCommand::Shutdown)), vec![]);
}

#[test]
fn unexpected_outcomes_are_ignored() {
    let mut t = HostThread::start(ArtifactProbe::Opened { model_entry: true, metadata_entry: true })
        .unwrap();
    assert_eq!(t.step(Input::Loaded(Ok(()))), vec![]);
    let e = Evaluation { geometry: "g".to_string(), metadata: ModelMetadata::new("m".to_string()) };
    assert_eq!(t.step(Input::Evaluated(Ok(e))), vec![]);
    assert_eq!(t.phase, Phase::Idle);
}
