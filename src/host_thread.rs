use vstd::prelude::*;

use crate::model::{check_artifact, probe_outcome, ArtifactProbe, Error, Evaluation};
use crate::parameters::Parameters;

verus! {

/// A command sent from the foreground to the host thread.
#[derive(Debug, Clone, PartialEq, Eq)]
pub enum HostCommand {
    /// Evaluate the current model with these arguments.
    Evaluate(Parameters),
    /// Unload the current model and stop.
    Shutdown,
}

/// A notification that the host thread sends to the consumer.
#[derive(Debug, Clone, PartialEq, Eq)]
pub enum ModelEvent {
    /// The model was evaluated.
    Evaluation(Evaluation),
    /// An evaluation or a reload failed.
    Error(Error),
    /// The watched artifact changed and the model was reloaded from it.
    Reloaded,
}

/// What the loop around the host thread hands it: an input from one of its
/// two sources, or the outcome of an action it asked for.
#[derive(Debug, PartialEq, Eq)]
pub enum Input {
    /// A command arrived from the foreground.
    Command(HostCommand),
    /// The watcher reported that the model's artifact was rebuilt.
    ChangeDetected,
    /// The outcome of [`Action::Load`].
    Loaded(Result<(), Error>),
    /// The outcome of [`Action::Evaluate`].
    Evaluated(Result<Evaluation, Error>),
    /// Sending an event failed: the consumer's receiver is gone.
    EventLoopClosed,
}

/// What the host thread asks its loop to do, in order.
#[derive(Debug, Clone, PartialEq, Eq)]
pub enum Action {
    /// Evaluate the current model with [`HostThread::parameters`] and hand
    /// back [`Input::Evaluated`].
    Evaluate,
    /// Load the model anew from its manifest, keeping the current one, and
    /// hand back [`Input::Loaded`].
    Load,
    /// Make the freshly loaded model current and unload the previous one.
    Replace,
    /// Send this event to the consumer; if that fails, hand back
    /// [`Input::EventLoopClosed`] before any further action.
    Emit(ModelEvent),
    /// Unload the current model.
    Unload,
    /// Leave the loop.
    Exit,
}

/// Where the host thread stands.
#[derive(Debug, Clone, Copy, PartialEq, Eq)]
pub enum Phase {
    /// Waiting for a command or a change notification.
    Idle,
    /// Waiting for the outcome of an evaluation.
    Evaluating,
    /// Waiting for the outcome of a reload.
    Loading,
    /// The model is unloaded and the loop is left.
    Stopped,
}

/// The decisions of the background worker that owns a loaded model. It is
/// a state machine: each input gives the next state and the actions that the
/// loop around it performs in order. Inputs that the current phase does not
/// wait for are ignored; a stopped thread ignores everything.
#[derive(Debug, Clone, PartialEq, Eq)]
pub struct HostThread {
    /// Where the thread stands.
    pub phase: Phase,
    /// The arguments of the most recent evaluation command, used again after
    /// a reload.
    pub parameters: Option<Parameters>,
}

/// The event that reports the outcome of an evaluation.
pub open spec fn evaluation_event(r: Result<Evaluation, Error>) -> ModelEvent {
    match r {
        Ok(e) => ModelEvent::Evaluation(e),
        Err(e) => ModelEvent::Error(e),
    }
}

/// A freshly started host thread.
pub open spec fn started() -> HostThread {
    HostThread { phase: Phase::Idle, parameters: None }
}

/// The state after `input` and the actions it calls for.
pub open spec fn next(s: HostThread, input: Input) -> (HostThread, Seq<Action>) {
    let ignored = (s, Seq::<Action>::empty());
    if s.phase is Stopped {
        ignored
    } else {
        match input {
            Input::Command(HostCommand::Shutdown) | Input::EventLoopClosed => (
                HostThread { phase: Phase::Stopped, ..s },
                seq![Action::Unload, Action::Exit],
            ),
            Input::Command(HostCommand::Evaluate(p)) => if s.phase is Idle {
                (
                    HostThread { phase: Phase::Evaluating, parameters: Some(p) },
                    seq![Action::Evaluate],
                )
            } else {
                ignored
            },
            Input::ChangeDetected => if s.phase is Idle {
                (HostThread { phase: Phase::Loading, ..s }, seq![Action::Load])
            } else {
                ignored
            },
            Input::Loaded(r) => if s.phase is Loading {
                match r {
                    Ok(_) => if s.parameters is Some {
                        (
                            HostThread { phase: Phase::Evaluating, ..s },
                            seq![
                                Action::Replace,
                                Action::Emit(ModelEvent::Reloaded),
                                Action::Evaluate,
                            ],
                        )
                    } else {
                        (
                            HostThread { phase: Phase::Idle, ..s },
                            seq![Action::Replace, Action::Emit(ModelEvent::Reloaded)],
                        )
                    },
                    Err(e) => (
                        HostThread { phase: Phase::Idle, ..s },
                        seq![Action::Emit(ModelEvent::Error(e))],
                    ),
                }
            } else {
                ignored
            },
            Input::Evaluated(r) => if s.phase is Evaluating {
                (HostThread { phase: Phase::Idle, ..s }, seq![Action::Emit(evaluation_event(r))])
            } else {
                ignored
            },
        }
    }
}

/// The state after a sequence of inputs and all the actions they call for.
pub open spec fn run(s: HostThread, inputs: Seq<Input>) -> (HostThread, Seq<Action>)
    decreases inputs.len(),
{
    if inputs.len() == 0 {
        (s, Seq::<Action>::empty())
    } else {
        let first = next(s, inputs[0]);
        let rest = run(first.0, inputs.drop_first());
        (rest.0, first.1 + rest.1)
    }
}

/// How many of the actions unload a model.
pub open spec fn unloads(actions: Seq<Action>) -> nat {
    actions.filter(|a: Action| a is Unload).len()
}

/// Registered and idle, one evaluation command whose outcome is handed back
/// yields exactly one event, which reports that outcome; the arguments are
/// kept for later reloads.
pub proof fn lemma_evaluate_yields_one_event(
    s: HostThread,
    p: Parameters,
    r: Result<Evaluation, Error>,
)
    requires
        s.phase is Idle,
    ensures
        run(s, seq![Input::Command(HostCommand::Evaluate(p)), Input::Evaluated(r)]) == (
            HostThread { phase: Phase::Idle, parameters: Some(p) },
            seq![Action::Evaluate, Action::Emit(evaluation_event(r))],
        ),
{
    reveal_with_fuel(run, 3);
    let inputs = seq![Input::Command(HostCommand::Evaluate(p)), Input::Evaluated(r)];
    assert(inputs.drop_first().drop_first() =~= Seq::<Input>::empty());
    assert(inputs.drop_first()[0] == Input::Evaluated(r));
    assert(seq![Action::Evaluate] + (seq![Action::Emit(evaluation_event(r))] + Seq::<Action>::empty())
        =~= seq![Action::Evaluate, Action::Emit(evaluation_event(r))]);
}

/// The host adds no nondeterminism: evaluating twice with the same arguments,
/// where the model returns the same outcome both times, asks for the same
/// evaluation twice and yields two equal events.
pub proof fn lemma_repeated_evaluation_is_identical(
    s: HostThread,
    p: Parameters,
    r: Result<Evaluation, Error>,
)
    requires
        s.phase is Idle,
    ensures
        run(
            s,
            seq![
                Input::Command(HostCommand::Evaluate(p)),
                Input::Evaluated(r),
                Input::Command(HostCommand::Evaluate(p)),
                Input::Evaluated(r),
            ],
        ).1 == seq![
            Action::Evaluate,
            Action::Emit(evaluation_event(r)),
            Action::Evaluate,
            Action::Emit(evaluation_event(r)),
        ],
        next(s, Input::Command(HostCommand::Evaluate(p))).0.parameters == Some(p),
{
    let one = seq![Input::Command(HostCommand::Evaluate(p)), Input::Evaluated(r)];
    let inputs = one + one;
    assert(inputs =~= seq![
        Input::Command(HostCommand::Evaluate(p)),
        Input::Evaluated(r),
        Input::Command(HostCommand::Evaluate(p)),
        Input::Evaluated(r),
    ]);
    lemma_evaluate_yields_one_event(s, p, r);
    let mid = HostThread { phase: Phase::Idle, parameters: Some(p) };
    lemma_evaluate_yields_one_event(mid, p, r);
    lemma_run_append(s, one, one);
    assert(seq![Action::Evaluate, Action::Emit(evaluation_event(r))] + seq![
        Action::Evaluate,
        Action::Emit(evaluation_event(r)),
    ] =~= seq![
        Action::Evaluate,
        Action::Emit(evaluation_event(r)),
        Action::Evaluate,
        Action::Emit(evaluation_event(r)),
    ]);
}

/// Running two sequences of inputs one after the other.
pub proof fn lemma_run_append(s: HostThread, a: Seq<Input>, b: Seq<Input>)
    ensures
        run(s, a + b) == (run(run(s, a).0, b).0, run(s, a).1 + run(run(s, a).0, b).1),
    decreases a.len(),
{
    if a.len() == 0 {
        assert(a + b =~= b);
        assert(Seq::<Action>::empty() + run(s, b).1 =~= run(s, b).1);
    } else {
        let first = next(s, a[0]);
        assert((a + b).drop_first() =~= a.drop_first() + b);
        assert((a + b)[0] == a[0]);
        lemma_run_append(first.0, a.drop_first(), b);
        let ra = run(first.0, a.drop_first());
        let rb = run(ra.0, b);
        assert(first.1 + (ra.1 + rb.1) =~= (first.1 + ra.1) + rb.1);
    }
}

/// The model is replaced exactly when a reload it waited for succeeded:
/// after a failed reload, and after any other input, the previous model stays
/// current, so the current model is always the one of the last successful
/// load.
pub proof fn lemma_replace_only_on_successful_load(s: HostThread, input: Input)
    ensures
        next(s, input).1.contains(Action::Replace) <==> (s.phase is Loading && input is Loaded
            && input->Loaded_0 is Ok),
{
    let acts = next(s, input).1;
    if s.phase is Loading && input is Loaded && input->Loaded_0 is Ok {
        assert(acts[0] == Action::Replace);
    } else if acts.contains(Action::Replace) {
        let i = choose|i: int| 0 <= i < acts.len() && acts[i] == Action::Replace;
        assert(acts[i] == Action::Replace);
    }
}

/// A change of the artifact reloads the model; on success the reload is
/// reported and the model is evaluated again with the last arguments, whose
/// outcome is the next event; on failure one error is reported and nothing
/// else changes.
pub proof fn lemma_reload(s: HostThread, r: Result<Evaluation, Error>, e: Error)
    requires
        s.phase is Idle,
        s.parameters is Some,
    ensures
        run(s, seq![Input::ChangeDetected, Input::Loaded(Ok(())), Input::Evaluated(r)]) == (
            s,
            seq![
                Action::Load,
                Action::Replace,
                Action::Emit(ModelEvent::Reloaded),
                Action::Evaluate,
                Action::Emit(evaluation_event(r)),
            ],
        ),
        run(s, seq![Input::ChangeDetected, Input::Loaded(Err(e))]) == (
            s,
            seq![Action::Load, Action::Emit(ModelEvent::Error(e))],
        ),
{
    reveal_with_fuel(run, 4);
    let ok = seq![Input::ChangeDetected, Input::Loaded(Ok(())), Input::Evaluated(r)];
    assert(ok.drop_first()[0] == Input::Loaded(Ok(())));
    assert(ok.drop_first().drop_first()[0] == Input::Evaluated(r));
    assert(ok.drop_first().drop_first().drop_first() =~= Seq::<Input>::empty());
    assert(seq![Action::Load] + (seq![
        Action::Replace,
        Action::Emit(ModelEvent::Reloaded),
        Action::Evaluate,
    ] + (seq![Action::Emit(evaluation_event(r))] + Seq::<Action>::empty())) =~= seq![
        Action::Load,
        Action::Replace,
        Action::Emit(ModelEvent::Reloaded),
        Action::Evaluate,
        Action::Emit(evaluation_event(r)),
    ]);
    let fail = seq![Input::ChangeDetected, Input::Loaded(Err(e))];
    assert(fail.drop_first()[0] == Input::Loaded(Err(e)));
    assert(fail.drop_first().drop_first() =~= Seq::<Input>::empty());
    assert(seq![Action::Load] + (seq![Action::Emit(ModelEvent::Error(e))]
        + Seq::<Action>::empty()) =~= seq![Action::Load, Action::Emit(ModelEvent::Error(e))]);
}

/// A stopped thread stays stopped and asks for nothing, whatever comes.
pub proof fn lemma_stopped_is_silent(s: HostThread, inputs: Seq<Input>)
    requires
        s.phase is Stopped,
    ensures
        run(s, inputs) == (s, Seq::<Action>::empty()),
    decreases inputs.len(),
{
    if inputs.len() > 0 {
        lemma_stopped_is_silent(s, inputs.drop_first());
        assert(Seq::<Action>::empty() + Seq::<Action>::empty() =~= Seq::<Action>::empty());
    }
}

/// Shutting down unloads the model and leaves the loop; after it no action
/// is asked for and no event is emitted, whatever comes.
pub proof fn lemma_shutdown_is_final(s: HostThread, later: Seq<Input>)
    requires
        !(s.phase is Stopped),
    ensures
        next(s, Input::Command(HostCommand::Shutdown)).1 == seq![Action::Unload, Action::Exit],
        run(s, seq![Input::Command(HostCommand::Shutdown)] + later).1 == seq![
            Action::Unload,
            Action::Exit,
        ],
{
    let stopped = next(s, Input::Command(HostCommand::Shutdown)).0;
    lemma_stopped_is_silent(stopped, later);
    let inputs = seq![Input::Command(HostCommand::Shutdown)] + later;
    assert(inputs[0] == Input::Command(HostCommand::Shutdown));
    assert(inputs.drop_first() =~= later);
    assert(seq![Action::Unload, Action::Exit] + Seq::<Action>::empty() =~= seq![
        Action::Unload,
        Action::Exit,
    ]);
}

/// Over the whole life of a running thread the model is unloaded once, and
/// exactly when the thread has stopped: a model is never unloaded twice and
/// never left loaded by a stopped thread.
pub proof fn lemma_unloaded_once(s: HostThread, inputs: Seq<Input>)
    requires
        !(s.phase is Stopped),
    ensures
        unloads(run(s, inputs).1) == (if run(s, inputs).0.phase is Stopped {
            1nat
        } else {
            0nat
        }),
    decreases inputs.len(),
{
    broadcast use Seq::filter_distributes_over_add;

    if inputs.len() == 0 {
        assert(Seq::<Action>::empty().filter(|a: Action| a is Unload) =~= Seq::<Action>::empty());
    } else {
        let first = next(s, inputs[0]);
        let rest = run(first.0, inputs.drop_first());
        let f = |a: Action| a is Unload;
        if first.0.phase is Stopped {
            lemma_stopped_is_silent(first.0, inputs.drop_first());
            assert(first.1 == seq![Action::Unload, Action::Exit]);
            reveal_with_fuel(Seq::filter, 3);
            assert(first.1.filter(f) =~= seq![Action::Unload]);
            assert(rest.1.filter(f) =~= Seq::<Action>::empty());
        } else {
            lemma_unloaded_once(first.0, inputs.drop_first());
            assert forall|i: int| 0 <= i < first.1.len() implies !(#[trigger] first.1[i] is Unload) by {
            }
            reveal_with_fuel(Seq::filter, 4);
            assert(first.1.filter(f) =~= Seq::<Action>::empty());
        }
        assert((first.1 + rest.1).filter(f) == first.1.filter(f) + rest.1.filter(f));
    }
}

impl HostThread {
    /// Start a host thread for a model whose artifact was probed: a refused
    /// artifact is a load failure, and no thread is started.
    pub fn start(probe: ArtifactProbe) -> (r: Result<HostThread, Error>)
        ensures
            r is Ok <==> probe_outcome(probe) is Ok,
            r is Ok ==> r->Ok_0 == started(),
            r is Err ==> r->Err_0 == Error::LoadFailure(probe_outcome(probe)->Err_0),
    {
        match check_artifact(probe) {
            Ok(()) => Ok(HostThread { phase: Phase::Idle, parameters: None }),
            Err(e) => Err(e),
        }
    }

    /// Whether the thread has stopped.
    pub fn is_stopped(&self) -> (r: bool)
        ensures
            r == (self.phase is Stopped),
    {
        match self.phase {
            Phase::Stopped => true,
            _ => false,
        }
    }

    /// Take one input and return the actions it calls for.
    pub fn step(&mut self, input: Input) -> (actions: Vec<Action>)
        ensures
            (*final(self), actions@) == next(*old(self), input),
    {
        match self.phase {
            Phase::Stopped => return Vec::new(),
            _ => {},
        }
        match input {
            Input::Command(HostCommand::Shutdown) | Input::EventLoopClosed => {
                self.phase = Phase::Stopped;
                vec![Action::Unload, Action::Exit]
            },
            Input::Command(HostCommand::Evaluate(p)) => match self.phase {
                Phase::Idle => {
                    self.phase = Phase::Evaluating;
                    self.parameters = Some(p);
                    vec![Action::Evaluate]
                },
                _ => Vec::new(),
            },
            Input::ChangeDetected => match self.phase {
                Phase::Idle => {
                    self.phase = Phase::Loading;
                    vec![Action::Load]
                },
                _ => Vec::new(),
            },
            Input::Loaded(r) => match self.phase {
                Phase::Loading => match r {
                    Ok(_) => match self.parameters {
                        Some(_) => {
                            self.phase = Phase::Evaluating;
                            vec![Action::Replace, Action::Emit(ModelEvent::Reloaded), Action::Evaluate]
                        },
                        None => {
                            self.phase = Phase::Idle;
                            vec![Action::Replace, Action::Emit(ModelEvent::Reloaded)]
                        },
                    },
                    Err(e) => {
                        self.phase = Phase::Idle;
                        vec![Action::Emit(ModelEvent::Error(e))]
                    },
                },
                _ => Vec::new(),
            },
            Input::Evaluated(r) => match self.phase {
                Phase::Evaluating => {
                    self.phase = Phase::Idle;
                    let event = match r {
                        Ok(e) => ModelEvent::Evaluation(e),
                        Err(e) => ModelEvent::Error(e),
                    };
                    vec![Action::Emit(event)]
                },
                _ => Vec::new(),
            },
        }
    }
}

} // verus!
