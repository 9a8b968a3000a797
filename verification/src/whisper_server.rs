//! The persistent `whisper-server` process: what is known of it, and the steps by which one is
//! brought up for a model.
//!
//! A start waits on outside work (a health check, a free port, a spawned process). It is therefore
//! a machine: [`Startup::step`] takes what the last piece of work brought and says which one is
//! next, until it is done.

use vstd::prelude::*;
use vstd::string::*;
use crate::text::same;

verus! {

/// How long a failed start keeps the server from being tried again, in nanoseconds: one minute.
pub const WHISPER_SERVER_RETRY_DELAY: u128 = 60_000_000_000;

/// How many health checks a spawned server gets before it is given up.
pub const STARTUP_CHECKS: u32 = 300;

/// What is known of the server process. `C` is the handle of a process.
///
/// Times are nanoseconds on a clock that never goes back.
pub struct WhisperServerState<C> {
    /// The model that the process was started for.
    pub model_id: Option<String>,
    /// The process.
    pub child: Option<C>,
    /// The port that it listens on.
    pub port: Option<u16>,
    /// Until when no new start is tried.
    pub retry_after: Option<u128>,
    /// Goes up with each stop, so that a start in flight sees that it was overtaken.
    pub generation: u64,
}

impl<C> WhisperServerState<C> {
    /// A process is known together with its model and its port, or not at all.
    pub open spec fn consistent(self) -> bool {
        &&& self.model_id is Some <==> self.child is Some
        &&& self.port is Some <==> self.child is Some
    }

    /// The state once its process has been let go.
    pub open spec fn without_process(self) -> Self {
        WhisperServerState { model_id: None, child: None, port: None, ..self }
    }

    /// The state that asks starts to wait until the delay from `now` on has passed.
    pub open spec fn held_back(self, now: u128) -> Self {
        WhisperServerState {
            retry_after: Some((now + WHISPER_SERVER_RETRY_DELAY) as u128),
            ..self
        }
    }

    /// Whether the process was started for `model_id`.
    pub open spec fn serves(self, model_id: Seq<char>) -> bool {
        self.model_id matches Some(m) && m@ == model_id
    }

    /// Nothing is running and nothing holds a start back.
    pub fn new() -> (state: Self)
        ensures
            state == (WhisperServerState::<C> {
                model_id: None,
                child: None,
                port: None,
                retry_after: None,
                generation: 0,
            }),
            state.consistent(),
    {
        WhisperServerState {
            model_id: None,
            child: None,
            port: None,
            retry_after: None,
            generation: 0,
        }
    }

    /// Whether the process was started for `model_id`.
    fn is_for(&self, model_id: &str) -> (yes: bool)
        ensures
            yes == self.serves(model_id@),
            yes <==> self.model_id is Some && self.model_id->0@ == model_id@,
    {
        match &self.model_id {
            Some(m) => same(m.as_str(), model_id),
            None => false,
        }
    }
}

/// Lets go of the process. It is handed out, to be killed and waited for.
pub fn stop_whisper_server_locked<C>(state: &mut WhisperServerState<C>) -> (child: Option<C>)
    ensures
        child == old(state).child,
        *final(state) == old(state).without_process(),
        final(state).consistent(),
        final(state).child is None,
        final(state).model_id is None,
        final(state).port is None,
        final(state).retry_after == old(state).retry_after,
        final(state).generation == old(state).generation,
{
    let child = state.child.take();
    state.model_id = None;
    state.port = None;
    child
}

/// Stops the server: its process is handed out to be killed and waited for, a start in flight is
/// overtaken, and the next start need not wait.
pub fn stop_whisper_server<C>(state: &mut WhisperServerState<C>) -> (child: Option<C>)
    ensures
        child == old(state).child,
        *final(state) == (WhisperServerState {
            retry_after: None,
            generation: (if old(state).generation == u64::MAX { 0 } else {
                old(state).generation + 1
            }) as u64,
            ..old(state).without_process()
        }),
        final(state).generation != old(state).generation,
        final(state).consistent(),
        final(state).child is None,
        final(state).model_id is None,
        final(state).port is None,
        final(state).retry_after is None,
{
    let child = stop_whisper_server_locked(state);
    state.retry_after = None;
    state.generation = state.generation.wrapping_add(1);
    child
}

/// Why a start failed.
pub enum StartError {
    /// An earlier start failed less than the retry delay ago.
    Unavailable,
    /// The server program or the model is not there.
    NotReady,
    /// No port could be reserved.
    ReservePort(String),
    /// The reserved port could not be read.
    ReadPort(String),
    /// The process could not be spawned.
    Spawn(String),
    /// The server was stopped while it was starting.
    Cancelled,
    /// The process exited while it was starting.
    Exited(String),
    /// The process could not be looked at.
    Inspect(String),
    /// The process is gone.
    Stopped,
    /// The process never answered a health check.
    NeverReady,
}

impl StartError {
    /// What the user is told.
    pub open spec fn text(self) -> Seq<char> {
        match self {
            StartError::Unavailable => "Whisper server is temporarily unavailable"@,
            StartError::NotReady => "Whisper server or model is not ready"@,
            StartError::ReservePort(e) => "Failed to reserve Whisper server port: "@ + e@,
            StartError::ReadPort(e) => "Failed to read Whisper server port: "@ + e@,
            StartError::Spawn(e) => "Failed to start whisper-server: "@ + e@,
            StartError::Cancelled => "Whisper server startup was cancelled"@,
            StartError::Exited(e) => "Whisper server exited during startup: "@ + e@,
            StartError::Inspect(e) => "Failed to inspect whisper-server: "@ + e@,
            StartError::Stopped => "Whisper server stopped during startup"@,
            StartError::NeverReady => "Whisper server failed to become ready"@,
        }
    }

    /// What the user is told.
    pub fn message(&self) -> (m: String)
        ensures
            m@ == self.text(),
    {
        match self {
            StartError::Unavailable => "Whisper server is temporarily unavailable".to_string(),
            StartError::NotReady => "Whisper server or model is not ready".to_string(),
            StartError::ReservePort(e) => "Failed to reserve Whisper server port: ".to_string().concat(
                e.as_str(),
            ),
            StartError::ReadPort(e) => "Failed to read Whisper server port: ".to_string().concat(
                e.as_str(),
            ),
            StartError::Spawn(e) => "Failed to start whisper-server: ".to_string().concat(
                e.as_str(),
            ),
            StartError::Cancelled => "Whisper server startup was cancelled".to_string(),
            StartError::Exited(e) => "Whisper server exited during startup: ".to_string().concat(
                e.as_str(),
            ),
            StartError::Inspect(e) => "Failed to inspect whisper-server: ".to_string().concat(
                e.as_str(),
            ),
            StartError::Stopped => "Whisper server stopped during startup".to_string(),
            StartError::NeverReady => "Whisper server failed to become ready".to_string(),
        }
    }
}

/// What a look at a process showed.
pub enum ChildStatus {
    /// It is running.
    Running,
    /// It has exited, with this status.
    Exited(String),
    /// It could not be looked at.
    Unknown(String),
}

/// What a start is waiting for.
#[derive(Clone, Copy)]
pub enum Stage {
    /// To be begun.
    Opening,
    /// Whether the known process still runs.
    Polling,
    /// Whether the server that already runs on `port` answers.
    Rechecking { port: u16 },
    /// Whether the server program and the model are there.
    Locating,
    /// A free port.
    Binding,
    /// The process that shall listen on `port`.
    Spawning { port: u16 },
    /// Whether the new server answers, after `checks` checks in vain.
    Waiting { port: u16, checks: u32 },
    /// How the new process is, after a check in vain.
    Inspecting { port: u16, checks: u32 },
    /// The end of a pause.
    Pausing { port: u16, checks: u32 },
    /// Nothing more.
    Finished,
}

/// What a piece of outside work brought.
pub enum Event<C> {
    /// The start begins.
    Begin,
    /// Whether the known process still runs.
    ChildPolled(bool),
    /// Whether the health check was answered.
    Health(bool),
    /// Whether both the server program and the model are there.
    Files(bool),
    /// A free port was found.
    PortReserved(u16),
    /// No port could be reserved.
    PortNotReserved(String),
    /// The reserved port could not be read.
    PortNotRead(String),
    /// The process was spawned.
    Spawned(C),
    /// The process could not be spawned.
    NotSpawned(String),
    /// How the new process is.
    ChildInspected(ChildStatus),
    /// The pause is over.
    Rested,
}

/// The next piece of outside work.
pub enum Action {
    /// See whether the known process still runs. The state stays locked meanwhile.
    PollChild,
    /// See whether the server on this port answers.
    CheckHealth(u16),
    /// See whether the server program and the model are there.
    FindFiles,
    /// Find a free port.
    ReservePort,
    /// Spawn the server, to listen on this port.
    Spawn(u16),
    /// Look at the new process. The state stays locked meanwhile.
    InspectChild,
    /// Pause for a tenth of a second.
    Rest,
    /// The start is over: the port of a server that answers, or why there is none.
    Done(Result<u16, StartError>),
}

/// What [`Startup::step`] asks for.
pub struct Step<C> {
    /// A process to be killed and waited for, while the state is locked.
    pub kill: Option<C>,
    /// What to do then.
    pub action: Action,
}

/// One start of the server for a model.
pub struct Startup {
    /// The model.
    pub model_id: String,
    /// The generation of the state when the start looked at it first.
    pub generation: u64,
    /// What the start is waiting for.
    pub stage: Stage,
}

/// Whether a start in `stage` can make use of `event`.
pub open spec fn awaited<C>(stage: Stage, event: Event<C>) -> bool {
    match stage {
        Stage::Opening => event is Begin,
        Stage::Polling => event is ChildPolled,
        Stage::Rechecking { .. } => event is Health,
        Stage::Locating => event is Files,
        Stage::Binding => event is PortReserved || event is PortNotReserved || event is PortNotRead,
        Stage::Spawning { .. } => event is Spawned || event is NotSpawned,
        Stage::Waiting { checks, .. } => event is Health && checks < STARTUP_CHECKS,
        Stage::Inspecting { checks, .. } => event is ChildInspected && checks < STARTUP_CHECKS,
        Stage::Pausing { checks, .. } => event is Rested && checks < STARTUP_CHECKS,
        Stage::Finished => false,
    }
}

/// Where a step leads: the start, the server's state and what is asked for.
pub struct Outcome<C> {
    pub start: Startup,
    pub server: WhisperServerState<C>,
    pub step: Step<C>,
}

/// The start goes on to `stage` and asks for `action`; nothing is killed.
pub open spec fn goes_on<C>(
    start: Startup,
    server: WhisperServerState<C>,
    stage: Stage,
    action: Action,
) -> Outcome<C> {
    Outcome { start: Startup { stage, ..start }, server, step: Step { kill: None, action } }
}

/// The start is over with `result`; nothing is killed.
pub open spec fn ends<C>(
    start: Startup,
    server: WhisperServerState<C>,
    result: Result<u16, StartError>,
) -> Outcome<C> {
    goes_on(start, server, Stage::Finished, Action::Done(result))
}

/// The same, after the server's process has been let go and handed out.
pub open spec fn letting_go<C>(
    server: WhisperServerState<C>,
    next: Outcome<C>,
) -> Outcome<C> {
    Outcome { step: Step { kill: server.child, ..next.step }, ..next }
}

/// A start that has seen whether the known process runs: it takes that process over if it runs
/// and serves the model, and lets it go otherwise.
pub open spec fn adopts<C>(
    start: Startup,
    server: WhisperServerState<C>,
    running: bool,
) -> Outcome<C> {
    let start = Startup { generation: server.generation, ..start };
    if running && server.serves(start.model_id@) {
        match server.port {
            Some(port) => goes_on(
                start,
                server,
                Stage::Rechecking { port },
                Action::CheckHealth(port),
            ),
            None => goes_on(start, server, Stage::Locating, Action::FindFiles),
        }
    } else {
        letting_go(
            server,
            goes_on(start, server.without_process(), Stage::Locating, Action::FindFiles),
        )
    }
}

/// A new process that failed: unless the server was stopped meanwhile, it is let go and the next
/// start has to wait.
pub open spec fn fails<C>(
    start: Startup,
    server: WhisperServerState<C>,
    now: u128,
    error: StartError,
) -> Outcome<C> {
    if server.generation == start.generation {
        letting_go(server, ends(start, server.without_process().held_back(now), Err(error)))
    } else {
        ends(start, server, Err(error))
    }
}

/// Where an awaited event leads.
pub open spec fn step_of<C>(
    start: Startup,
    server: WhisperServerState<C>,
    now: u128,
    event: Event<C>,
) -> Outcome<C> {
    match (start.stage, event) {
        (Stage::Opening, _) => {
            if server.retry_after matches Some(until) && until > now {
                ends(start, server, Err(StartError::Unavailable))
            } else {
                let server = WhisperServerState { retry_after: None, ..server };
                if server.child is Some {
                    goes_on(start, server, Stage::Polling, Action::PollChild)
                } else {
                    adopts(start, server, false)
                }
            }
        },
        (Stage::Polling, Event::ChildPolled(running)) => adopts(start, server, running),
        (Stage::Rechecking { port }, Event::Health(healthy)) => {
            if healthy {
                ends(start, server, Ok(port))
            } else {
                letting_go(
                    server,
                    goes_on(start, server.without_process(), Stage::Locating, Action::FindFiles),
                )
            }
        },
        (Stage::Locating, Event::Files(present)) => {
            if present {
                goes_on(start, server, Stage::Binding, Action::ReservePort)
            } else {
                ends(start, server, Err(StartError::NotReady))
            }
        },
        (Stage::Binding, Event::PortReserved(port)) => {
            goes_on(start, server, Stage::Spawning { port }, Action::Spawn(port))
        },
        (Stage::Binding, Event::PortNotReserved(detail)) => {
            ends(start, server, Err(StartError::ReservePort(detail)))
        },
        (Stage::Binding, Event::PortNotRead(detail)) => {
            ends(start, server, Err(StartError::ReadPort(detail)))
        },
        (Stage::Spawning { port }, Event::Spawned(child)) => {
            if server.generation != start.generation {
                Outcome {
                    start: Startup { stage: Stage::Finished, ..start },
                    server,
                    step: Step {
                        kill: Some(child),
                        action: Action::Done(Err(StartError::Cancelled)),
                    },
                }
            } else {
                goes_on(
                    start,
                    WhisperServerState {
                        model_id: Some(start.model_id),
                        child: Some(child),
                        port: Some(port),
                        ..server
                    },
                    Stage::Waiting { port, checks: 0 },
                    Action::CheckHealth(port),
                )
            }
        },
        (Stage::Spawning { .. }, Event::NotSpawned(detail)) => {
            ends(
                start,
                if server.generation == start.generation {
                    server.held_back(now)
                } else {
                    server
                },
                Err(StartError::Spawn(detail)),
            )
        },
        (Stage::Waiting { port, checks }, Event::Health(healthy)) => {
            if healthy {
                ends(start, server, Ok(port))
            } else if server.generation != start.generation {
                ends(start, server, Err(StartError::Cancelled))
            } else if server.child is None {
                ends(start, server, Err(StartError::Stopped))
            } else {
                goes_on(start, server, Stage::Inspecting { port, checks }, Action::InspectChild)
            }
        },
        (Stage::Inspecting { port, checks }, Event::ChildInspected(status)) => match status {
            ChildStatus::Running => {
                goes_on(start, server, Stage::Pausing { port, checks }, Action::Rest)
            },
            ChildStatus::Exited(detail) => fails(start, server, now, StartError::Exited(detail)),
            ChildStatus::Unknown(detail) => fails(start, server, now, StartError::Inspect(detail)),
        },
        (Stage::Pausing { port, checks }, _) => {
            if checks + 1 < STARTUP_CHECKS {
                goes_on(
                    start,
                    server,
                    Stage::Waiting { port, checks: (checks + 1) as u32 },
                    Action::CheckHealth(port),
                )
            } else {
                letting_go(
                    server,
                    ends(
                        start,
                        server.without_process().held_back(now),
                        Err(StartError::NeverReady),
                    ),
                )
            }
        },
        // No other pair is awaited.
        _ => ends(start, server, Err(StartError::Stopped)),
    }
}

/// A start of the server for `model_id` that is to be begun.
pub fn ensure_whisper_server(model_id: &str) -> (start: Startup)
    ensures
        start.model_id@ == model_id@,
        start.stage == Stage::Opening,
        start.generation == 0,
{
    Startup { model_id: model_id.to_string(), generation: 0, stage: Stage::Opening }
}

impl Startup {
    /// Whether the start can make use of `event` now.
    pub fn awaits<C>(&self, event: &Event<C>) -> (yes: bool)
        ensures
            yes == awaited(self.stage, *event),
    {
        match (self.stage, event) {
            (Stage::Opening, Event::Begin) => true,
            (Stage::Polling, Event::ChildPolled(_)) => true,
            (Stage::Rechecking { .. }, Event::Health(_)) => true,
            (Stage::Locating, Event::Files(_)) => true,
            (Stage::Binding, Event::PortReserved(_)) => true,
            (Stage::Binding, Event::PortNotReserved(_)) => true,
            (Stage::Binding, Event::PortNotRead(_)) => true,
            (Stage::Spawning { .. }, Event::Spawned(_)) => true,
            (Stage::Spawning { .. }, Event::NotSpawned(_)) => true,
            (Stage::Waiting { checks, .. }, Event::Health(_)) => checks < STARTUP_CHECKS,
            (Stage::Inspecting { checks, .. }, Event::ChildInspected(_)) => checks < STARTUP_CHECKS,
            (Stage::Pausing { checks, .. }, Event::Rested) => checks < STARTUP_CHECKS,
            _ => false,
        }
    }

    /// Goes on to `stage`.
    fn go_on<C>(&mut self, stage: Stage, action: Action) -> (step: Step<C>)
        ensures
            *final(self) == (Startup { stage, ..*old(self) }),
            step == (Step::<C> { kill: None, action }),
    {
        self.stage = stage;
        Step { kill: None, action }
    }

    /// Takes the known process over, or lets it go.
    fn adopt<C>(&mut self, server: &mut WhisperServerState<C>, running: bool) -> (step: Step<C>)
        ensures
            (Outcome { start: *final(self), server: *final(server), step }) == adopts(
                *old(self),
                *old(server),
                running,
            ),
    {
        self.generation = server.generation;
        if running && server.is_for(self.model_id.as_str()) {
            match server.port {
                Some(port) => self.go_on(Stage::Rechecking { port }, Action::CheckHealth(port)),
                None => self.go_on(Stage::Locating, Action::FindFiles),
            }
        } else {
            let kill = stop_whisper_server_locked(server);
            self.stage = Stage::Locating;
            Step { kill, action: Action::FindFiles }
        }
    }

    /// Deals with a new process that failed.
    fn fail<C>(
        &mut self,
        server: &mut WhisperServerState<C>,
        now: u128,
        error: StartError,
    ) -> (step: Step<C>)
        requires
            now + WHISPER_SERVER_RETRY_DELAY <= u128::MAX,
        ensures
            (Outcome { start: *final(self), server: *final(server), step }) == fails(
                *old(self),
                *old(server),
                now,
                error,
            ),
    {
        let mut kill: Option<C> = None;
        if server.generation == self.generation {
            kill = stop_whisper_server_locked(server);
            server.retry_after = Some(now + WHISPER_SERVER_RETRY_DELAY);
        }
        self.stage = Stage::Finished;
        Step { kill, action: Action::Done(Err(error)) }
    }

    /// Takes what the last piece of work brought, at the time `now`, and says what is next.
    pub fn step<C>(
        &mut self,
        server: &mut WhisperServerState<C>,
        now: u128,
        event: Event<C>,
    ) -> (step: Step<C>)
        requires
            awaited(old(self).stage, event),
            now + WHISPER_SERVER_RETRY_DELAY <= u128::MAX,
        ensures
            (Outcome { start: *final(self), server: *final(server), step }) == step_of(
                *old(self),
                *old(server),
                now,
                event,
            ),
    {
        match (self.stage, event) {
            (Stage::Opening, _) => {
                if let Some(until) = server.retry_after {
                    if until > now {
                        return self.go_on(
                            Stage::Finished,
                            Action::Done(Err(StartError::Unavailable)),
                        );
                    }
                }
                server.retry_after = None;
                if server.child.is_some() {
                    self.go_on(Stage::Polling, Action::PollChild)
                } else {
                    self.adopt(server, false)
                }
            },
            (Stage::Polling, Event::ChildPolled(running)) => self.adopt(server, running),
            (Stage::Rechecking { port }, Event::Health(healthy)) => {
                if healthy {
                    self.go_on(Stage::Finished, Action::Done(Ok(port)))
                } else {
                    let kill = stop_whisper_server_locked(server);
                    self.stage = Stage::Locating;
                    Step { kill, action: Action::FindFiles }
                }
            },
            (Stage::Locating, Event::Files(present)) => {
                if present {
                    self.go_on(Stage::Binding, Action::ReservePort)
                } else {
                    self.go_on(Stage::Finished, Action::Done(Err(StartError::NotReady)))
                }
            },
            (Stage::Binding, Event::PortReserved(port)) => {
                self.go_on(Stage::Spawning { port }, Action::Spawn(port))
            },
            (Stage::Binding, Event::PortNotReserved(detail)) => {
                self.go_on(Stage::Finished, Action::Done(Err(StartError::ReservePort(detail))))
            },
            (Stage::Binding, Event::PortNotRead(detail)) => {
                self.go_on(Stage::Finished, Action::Done(Err(StartError::ReadPort(detail))))
            },
            (Stage::Spawning { port }, Event::Spawned(child)) => {
                if server.generation != self.generation {
                    self.stage = Stage::Finished;
                    return Step {
                        kill: Some(child),
                        action: Action::Done(Err(StartError::Cancelled)),
                    };
                }
                server.model_id = Some(self.model_id.clone());
                server.child = Some(child);
                server.port = Some(port);
                self.go_on(Stage::Waiting { port, checks: 0 }, Action::CheckHealth(port))
            },
            (Stage::Spawning { .. }, Event::NotSpawned(detail)) => {
                if server.generation == self.generation {
                    server.retry_after = Some(now + WHISPER_SERVER_RETRY_DELAY);
                }
                self.go_on(Stage::Finished, Action::Done(Err(StartError::Spawn(detail))))
            },
            (Stage::Waiting { port, checks }, Event::Health(healthy)) => {
                if healthy {
                    self.go_on(Stage::Finished, Action::Done(Ok(port)))
                } else if server.generation != self.generation {
                    self.go_on(Stage::Finished, Action::Done(Err(StartError::Cancelled)))
                } else if server.child.is_none() {
                    self.go_on(Stage::Finished, Action::Done(Err(StartError::Stopped)))
                } else {
                    self.go_on(Stage::Inspecting { port, checks }, Action::InspectChild)
                }
            },
            (Stage::Inspecting { port, checks }, Event::ChildInspected(status)) => match status {
                ChildStatus::Running => {
                    self.go_on(Stage::Pausing { port, checks }, Action::Rest)
                },
                ChildStatus::Exited(detail) => self.fail(server, now, StartError::Exited(detail)),
                ChildStatus::Unknown(detail) => self.fail(server, now, StartError::Inspect(detail)),
            },
            (Stage::Pausing { port, checks }, _) => {
                if checks + 1 < STARTUP_CHECKS {
                    self.go_on(
                        Stage::Waiting { port, checks: checks + 1 },
                        Action::CheckHealth(port),
                    )
                } else {
                    let kill = stop_whisper_server_locked(server);
                    server.retry_after = Some(now + WHISPER_SERVER_RETRY_DELAY);
                    self.stage = Stage::Finished;
                    Step { kill, action: Action::Done(Err(StartError::NeverReady)) }
                }
            },
            // No other pair is awaited.
            _ => self.go_on(Stage::Finished, Action::Done(Err(StartError::Stopped))),
        }
    }
}

/// A process stays known together with its model and its port, or not at all: no step of a start
/// breaks this.
pub proof fn step_keeps_state_consistent<C>(
    start: Startup,
    server: WhisperServerState<C>,
    now: u128,
    event: Event<C>,
)
    requires
        awaited(start.stage, event),
        server.consistent(),
    ensures
        step_of(start, server, now, event).server.consistent(),
{
}

/// A start succeeds only upon a health check that was answered on the very port that it returns,
/// and leaves the state as it is.
pub proof fn success_needs_an_answered_check<C>(
    start: Startup,
    server: WhisperServerState<C>,
    now: u128,
    event: Event<C>,
    port: u16,
)
    requires
        awaited(start.stage, event),
        step_of(start, server, now, event).step.action == Action::Done(Ok(port)),
    ensures
        event == Event::<C>::Health(true),
        start.stage == (Stage::Rechecking { port }) || exists|checks: u32|
            start.stage == (Stage::Waiting { port, checks }),
        step_of(start, server, now, event).server == server,
        step_of(start, server, now, event).step.kill is None,
{
    if let Stage::Waiting { port: p, checks } = start.stage {
        assert(start.stage == (Stage::Waiting { port, checks }));
    }
}

/// A server that runs for the model and answers is used again: nothing is spawned or killed.
pub proof fn running_server_is_used_again<C>(
    start: Startup,
    server: WhisperServerState<C>,
    now: u128,
    later: u128,
    port: u16,
)
    requires
        start.stage == Stage::Polling,
        server.model_id is Some,
        server.model_id->0@ == start.model_id@,
        server.port == Some(port),
    ensures
        ({
            let first = step_of(start, server, now, Event::ChildPolled(true));
            let second = step_of(first.start, first.server, later, Event::Health(true));
            &&& first.step == (Step::<C> { kill: None, action: Action::CheckHealth(port) })
            &&& second.step == (Step::<C> { kill: None, action: Action::Done(Ok(port)) })
            &&& second.server == server
        }),
{
}

/// How many steps a start has left at most.
pub open spec fn steps_left(stage: Stage) -> nat {
    match stage {
        Stage::Opening => (3 * STARTUP_CHECKS + 6) as nat,
        Stage::Polling => (3 * STARTUP_CHECKS + 5) as nat,
        Stage::Rechecking { .. } => (3 * STARTUP_CHECKS + 4) as nat,
        Stage::Locating => (3 * STARTUP_CHECKS + 3) as nat,
        Stage::Binding => (3 * STARTUP_CHECKS + 2) as nat,
        Stage::Spawning { .. } => (3 * STARTUP_CHECKS + 1) as nat,
        Stage::Waiting { checks, .. } => if checks < STARTUP_CHECKS {
            (3 * (STARTUP_CHECKS - checks)) as nat
        } else {
            0
        },
        Stage::Inspecting { checks, .. } => if checks < STARTUP_CHECKS {
            (3 * (STARTUP_CHECKS - checks) - 1) as nat
        } else {
            0
        },
        Stage::Pausing { checks, .. } => if checks < STARTUP_CHECKS {
            (3 * (STARTUP_CHECKS - checks) - 2) as nat
        } else {
            0
        },
        Stage::Finished => 0,
    }
}

/// Whether `event` is what the asked-for `action` can bring.
pub open spec fn answers<C>(action: Action, event: Event<C>) -> bool {
    match action {
        Action::PollChild => event is ChildPolled,
        Action::CheckHealth(_) => event is Health,
        Action::FindFiles => event is Files,
        Action::ReservePort => event is PortReserved || event is PortNotReserved
            || event is PortNotRead,
        Action::Spawn(_) => event is Spawned || event is NotSpawned,
        Action::InspectChild => event is ChildInspected,
        Action::Rest => event is Rested,
        Action::Done(_) => false,
    }
}

/// Every step brings a start nearer to its end, and a start that has ended awaits nothing: a start
/// ends whatever the outside work brings.
pub proof fn every_start_ends<C>(
    start: Startup,
    server: WhisperServerState<C>,
    now: u128,
    event: Event<C>,
)
    requires
        awaited(start.stage, event),
    ensures
        ({
            let next = step_of(start, server, now, event);
            &&& steps_left(next.start.stage) < steps_left(start.stage)
            &&& next.step.action is Done <==> next.start.stage is Finished
        }),
{
}

/// Whatever the asked-for work brings is what the start then awaits.
pub proof fn asked_for_work_is_awaited<C>(
    start: Startup,
    server: WhisperServerState<C>,
    now: u128,
    event: Event<C>,
    reply: Event<C>,
)
    requires
        awaited(start.stage, event),
        answers(step_of(start, server, now, event).step.action, reply),
    ensures
        awaited(step_of(start, server, now, event).start.stage, reply),
{
}

/// A server that was stopped while it was starting is not brought up any more: a process that
/// comes after the stop is handed back to be killed, a check in vain ends the start as cancelled,
/// and what fails then holds no later start back. A pause leads to the next check and changes
/// nothing; only the last pause ends the start as if the server had not been stopped.
pub proof fn stop_overtakes_a_start<C>(
    start: Startup,
    server: WhisperServerState<C>,
    now: u128,
    event: Event<C>,
)
    requires
        awaited(start.stage, event),
        server.generation != start.generation,
        start.stage is Spawning || start.stage is Waiting || start.stage is Inspecting
            || start.stage is Pausing,
    ensures
        ({
            let next = step_of(start, server, now, event);
            &&& match start.stage {
                Stage::Pausing { port, checks } => if checks + 1 < STARTUP_CHECKS {
                    &&& next.server == server
                    &&& next.step == (Step::<C> { kill: None, action: Action::CheckHealth(port) })
                    &&& next.start.stage == (Stage::Waiting { port, checks: (checks + 1) as u32 })
                } else {
                    &&& next.server == server.without_process().held_back(now)
                    &&& next.step == (Step {
                        kill: server.child,
                        action: Action::Done(Err(StartError::NeverReady)),
                    })
                },
                _ => next.server == server,
            }
            &&& event matches Event::Spawned(child) ==> next.step == (Step {
                kill: Some(child),
                action: Action::Done(Err(StartError::Cancelled)),
            })
            &&& event == Event::<C>::Health(false) ==> next.step == (Step::<C> {
                kill: None,
                action: Action::Done(Err(StartError::Cancelled)),
            })
        }),
{
}

/// A start that failed to spawn its process, or whose process failed or never answered, holds back
/// every start that begins within the retry delay: it is refused and changes nothing. One that
/// begins later is not refused.
pub proof fn failed_start_holds_back_the_next<C>(
    start: Startup,
    server: WhisperServerState<C>,
    now: u128,
    event: Event<C>,
    next: Startup,
    later: u128,
)
    requires
        awaited(start.stage, event),
        now + WHISPER_SERVER_RETRY_DELAY <= u128::MAX,
        server.generation == start.generation,
        step_of(start, server, now, event).step.action matches Action::Done(Err(e)) && (e is Spawn
            || e is Exited || e is Inspect || e is NeverReady),
        next.stage == Stage::Opening,
    ensures
        ({
            let held = step_of(start, server, now, event).server;
            let begun = step_of(next, held, later, Event::<C>::Begin);
            &&& held.retry_after == Some((now + WHISPER_SERVER_RETRY_DELAY) as u128)
            &&& later < now + WHISPER_SERVER_RETRY_DELAY ==> {
                &&& begun.server == held
                &&& begun.step == (Step::<C> {
                    kill: None,
                    action: Action::Done(Err(StartError::Unavailable)),
                })
            }
            &&& later >= now + WHISPER_SERVER_RETRY_DELAY ==> begun.server.retry_after is None
                && !(begun.step.action is Done)
        }),
{
}

/// No process is lost: what was known, or has just been spawned, is known afterwards or handed out
/// to be killed, and nothing else is. A start spawns only once nothing is known any more.
pub proof fn no_process_is_lost<C>(
    start: Startup,
    server: WhisperServerState<C>,
    now: u128,
    event: Event<C>,
)
    requires
        awaited(start.stage, event),
        start.stage is Spawning ==> server.child is None,
    ensures
        ({
            let next = step_of(start, server, now, event);
            let before = match event {
                Event::Spawned(child) => Some(child),
                _ => server.child,
            };
            ||| next.server.child == before && next.step.kill is None
            ||| next.server.child is None && next.step.kill == before
        }),
{
}

/// A start that looks for a port, or for its process, has let go of every process that was known.
pub proof fn nothing_known_before_a_spawn<C>(
    start: Startup,
    server: WhisperServerState<C>,
    now: u128,
    event: Event<C>,
)
    requires
        awaited(start.stage, event),
        server.consistent(),
        start.stage is Locating || start.stage is Binding ==> server.child is None,
    ensures
        ({
            let next = step_of(start, server, now, event);
            next.start.stage is Locating || next.start.stage is Binding
                || next.start.stage is Spawning ==> next.server.child is None
        }),
{
}

/// A running process is kept for a start just where it was started for that very model: the id that
/// is stored with it is the id of the start, character for character. A process of any other model,
/// or one that no longer runs, is handed out to be killed and forgotten, and a new one is looked for.
pub proof fn kept_process_serves_the_very_model<C>(
    start: Startup,
    server: WhisperServerState<C>,
    now: u128,
    running: bool,
)
    requires
        start.stage == Stage::Polling,
    ensures
        ({
            let next = step_of(start, server, now, Event::ChildPolled(running));
            let same_model = server.model_id is Some && server.model_id->0@ == start.model_id@;
            &&& next.start.generation == server.generation
            &&& next.server.generation == server.generation
            &&& next.server.retry_after == server.retry_after
            &&& next.start.stage matches Stage::Rechecking { port } ==> {
                &&& running
                &&& same_model
                &&& server.port == Some(port)
                &&& next.server == server
                &&& next.step.kill is None
                &&& next.step.action == Action::CheckHealth(port)
            }
            &&& running && same_model && server.port is Some ==> next.start.stage is Rechecking
            &&& !running || !same_model ==> {
                &&& next.start.stage == Stage::Locating
                &&& next.step.action == Action::FindFiles
                &&& next.step.kill == server.child
                &&& next.server.child is None
                &&& next.server.model_id is None
                &&& next.server.port is None
            }
        }),
{
}

/// Two starts for different models never keep the same process.
pub proof fn one_process_is_kept_for_one_model<C>(
    first: Startup,
    second: Startup,
    server: WhisperServerState<C>,
    now: u128,
)
    requires
        first.stage == Stage::Polling,
        second.stage == Stage::Polling,
        first.model_id@ != second.model_id@,
        step_of(first, server, now, Event::ChildPolled(true)).start.stage is Rechecking,
    ensures
        !(step_of(second, server, now, Event::ChildPolled(true)).start.stage is Rechecking),
        step_of(second, server, now, Event::ChildPolled(true)).step.kill == server.child,
{
}

/// A start begins by itself unless an earlier failure still holds it back: then it is refused at
/// once, and nothing is touched. Otherwise the hold is lifted, and a known process is looked at
/// first.
pub proof fn start_begins_unless_held_back<C>(
    start: Startup,
    server: WhisperServerState<C>,
    now: u128,
)
    requires
        start.stage == Stage::Opening,
    ensures
        ({
            let next = step_of(start, server, now, Event::<C>::Begin);
            let held = server.retry_after is Some && server.retry_after->0 > now;
            &&& next.step.kill is None
            &&& next.server.generation == server.generation
            &&& next.server.child == server.child
            &&& held ==> next.server == server && next.step.action == Action::Done(
                Err(StartError::Unavailable),
            )
            &&& !held ==> next.server.retry_after is None
            &&& !held && server.child is Some ==> next.step.action == Action::PollChild
                && next.start.stage == Stage::Polling && next.server.model_id == server.model_id
                && next.server.port == server.port
            &&& !held && server.child is None ==> next.step.action == Action::FindFiles
                && next.start.stage == Stage::Locating && next.start.generation
                == server.generation && next.server.model_id is None && next.server.port is None
        }),
{
}

/// An answered check ends a start with the port that answered, whichever check it was. A kept process
/// that does not answer is handed out to be killed and forgotten.
pub proof fn answered_check_ends_the_start<C>(
    start: Startup,
    server: WhisperServerState<C>,
    now: u128,
    port: u16,
    checks: u32,
)
    requires
        start.stage == (Stage::Rechecking { port }) || start.stage == (Stage::Waiting {
            port,
            checks,
        }),
    ensures
        ({
            let good = step_of(start, server, now, Event::<C>::Health(true));
            let bad = step_of(start, server, now, Event::<C>::Health(false));
            &&& good.step == (Step::<C> { kill: None, action: Action::Done(Ok(port)) })
            &&& good.server == server
            &&& good.start.stage == Stage::Finished
            &&& start.stage is Rechecking ==> {
                &&& bad.step.kill == server.child
                &&& bad.step.action == Action::FindFiles
                &&& bad.start.stage == Stage::Locating
                &&& bad.server.child is None && bad.server.model_id is None
                    && bad.server.port is None
                &&& bad.server.retry_after == server.retry_after
                &&& bad.server.generation == server.generation
            }
        }),
{
}

/// A new process is spawned on a free port once program and model are there, and is known from then
/// on by the model of the start and by that port, unless the server was stopped meanwhile.
pub proof fn new_process_is_known_by_model_and_port<C>(
    start: Startup,
    server: WhisperServerState<C>,
    now: u128,
    port: u16,
    child: C,
)
    ensures
        ({
            let files = step_of(
                Startup { stage: Stage::Locating, ..start },
                server,
                now,
                Event::<C>::Files(true),
            );
            let bound = step_of(files.start, files.server, now, Event::<C>::PortReserved(port));
            let spawned = step_of(bound.start, bound.server, now, Event::Spawned(child));
            &&& files.step == (Step::<C> { kill: None, action: Action::ReservePort })
            &&& bound.step == (Step::<C> { kill: None, action: Action::Spawn(port) })
            &&& bound.server == server
            &&& bound.start.stage == (Stage::Spawning { port })
            &&& bound.start.generation == start.generation
            &&& server.generation == start.generation ==> {
                &&& spawned.step == (Step::<C> { kill: None, action: Action::CheckHealth(port) })
                &&& spawned.start.stage == (Stage::Waiting { port, checks: 0 })
                &&& spawned.server.model_id is Some
                &&& spawned.server.model_id->0@ == start.model_id@
                &&& spawned.server.child == Some(child)
                &&& spawned.server.port == Some(port)
                &&& spawned.server.retry_after == server.retry_after
                &&& spawned.server.generation == server.generation
            }
        }),
{
}

/// What keeps a process from being spawned ends the start for that reason, and nothing is killed.
/// Only a process that could not be spawned holds the next start back.
pub proof fn start_ends_where_it_cannot_spawn<C>(
    start: Startup,
    server: WhisperServerState<C>,
    now: u128,
    port: u16,
    detail: String,
)
    requires
        now + WHISPER_SERVER_RETRY_DELAY <= u128::MAX,
    ensures
        ({
            let files = step_of(
                Startup { stage: Stage::Locating, ..start },
                server,
                now,
                Event::<C>::Files(false),
            );
            let unbound = step_of(
                Startup { stage: Stage::Binding, ..start },
                server,
                now,
                Event::<C>::PortNotReserved(detail),
            );
            let unread = step_of(
                Startup { stage: Stage::Binding, ..start },
                server,
                now,
                Event::<C>::PortNotRead(detail),
            );
            let unspawned = step_of(
                Startup { stage: Stage::Spawning { port }, ..start },
                server,
                now,
                Event::<C>::NotSpawned(detail),
            );
            &&& files.step == (Step::<C> {
                kill: None,
                action: Action::Done(Err(StartError::NotReady)),
            })
            &&& files.server == server
            &&& unbound.step == (Step::<C> {
                kill: None,
                action: Action::Done(Err(StartError::ReservePort(detail))),
            })
            &&& unbound.server == server
            &&& unread.step == (Step::<C> {
                kill: None,
                action: Action::Done(Err(StartError::ReadPort(detail))),
            })
            &&& unread.server == server
            &&& unspawned.step == (Step::<C> {
                kill: None,
                action: Action::Done(Err(StartError::Spawn(detail))),
            })
            &&& unspawned.server.child == server.child && unspawned.server.model_id
                == server.model_id && unspawned.server.port == server.port
                && unspawned.server.generation == server.generation
            &&& unspawned.server.retry_after == if server.generation == start.generation {
                Some((now + 60_000_000_000) as u128)
            } else {
                server.retry_after
            }
        }),
{
}

/// After a check in vain the process is looked at, if the server was not stopped and the process is
/// there, and a pause follows while it runs. A process that failed is handed out to be killed, and
/// the next start has to wait; why it failed is told.
pub proof fn unanswered_check_leads_to_a_look<C>(
    start: Startup,
    server: WhisperServerState<C>,
    now: u128,
    port: u16,
    checks: u32,
    detail: String,
)
    requires
        now + WHISPER_SERVER_RETRY_DELAY <= u128::MAX,
        server.generation == start.generation,
        checks < STARTUP_CHECKS,
    ensures
        ({
            let waiting = Startup { stage: Stage::Waiting { port, checks }, ..start };
            let looking = Startup { stage: Stage::Inspecting { port, checks }, ..start };
            let unanswered = step_of(waiting, server, now, Event::<C>::Health(false));
            let runs = step_of(
                looking,
                server,
                now,
                Event::<C>::ChildInspected(ChildStatus::Running),
            );
            let exited = step_of(
                looking,
                server,
                now,
                Event::<C>::ChildInspected(ChildStatus::Exited(detail)),
            );
            let unknown = step_of(
                looking,
                server,
                now,
                Event::<C>::ChildInspected(ChildStatus::Unknown(detail)),
            );
            &&& unanswered.server == server
            &&& unanswered.step.kill is None
            &&& server.child is Some ==> unanswered.step.action == Action::InspectChild
                && unanswered.start == looking
            &&& server.child is None ==> unanswered.step.action == Action::Done(
                Err(StartError::Stopped),
            )
            &&& runs.server == server
            &&& runs.step == (Step::<C> { kill: None, action: Action::Rest })
            &&& runs.start.stage == (Stage::Pausing { port, checks })
            &&& exited.step == (Step {
                kill: server.child,
                action: Action::Done(Err(StartError::Exited(detail))),
            })
            &&& unknown.step == (Step {
                kill: server.child,
                action: Action::Done(Err(StartError::Inspect(detail))),
            })
            &&& exited.server == unknown.server
            &&& exited.server.child is None && exited.server.model_id is None
                && exited.server.port is None
            &&& exited.server.generation == server.generation
            &&& exited.server.retry_after == Some((now + 60_000_000_000) as u128)
        }),
{
}

/// Three hundred checks are made, no more and no fewer: a pause leads to the next check on the same
/// port until then, and the last one gives the server up.
pub proof fn three_hundred_checks_are_made<C>(
    start: Startup,
    server: WhisperServerState<C>,
    now: u128,
    port: u16,
    checks: u32,
)
    requires
        now + WHISPER_SERVER_RETRY_DELAY <= u128::MAX,
        start.stage == (Stage::Pausing { port, checks }),
        checks < 300,
    ensures
        ({
            let next = step_of(start, server, now, Event::<C>::Rested);
            &&& checks < 299 ==> {
                &&& next.server == server
                &&& next.step == (Step::<C> { kill: None, action: Action::CheckHealth(port) })
                &&& next.start.stage == (Stage::Waiting { port, checks: (checks + 1) as u32 })
            }
            &&& checks == 299 ==> {
                &&& next.step == (Step {
                    kill: server.child,
                    action: Action::Done(Err(StartError::NeverReady)),
                })
                &&& next.server.child is None && next.server.model_id is None
                    && next.server.port is None
                &&& next.server.retry_after == Some((now + 60_000_000_000) as u128)
                &&& next.server.generation == server.generation
            }
        }),
{
}

/// No step changes which model a start is for or how often the server was stopped, and none but the
/// look at a known process changes what the start remembers of that.
pub proof fn start_keeps_to_its_model<C>(
    start: Startup,
    server: WhisperServerState<C>,
    now: u128,
    event: Event<C>,
)
    requires
        awaited(start.stage, event),
    ensures
        ({
            let next = step_of(start, server, now, event);
            &&& next.start.model_id == start.model_id
            &&& next.server.generation == server.generation
            &&& !(start.stage is Opening) && !(start.stage is Polling) ==> next.start.generation
                == start.generation
        }),
{
}

/// What a start failed for is told with the reason at its end.
pub proof fn start_errors_tell_the_reason(e: String)
    ensures
        StartError::ReservePort(e).text() == "Failed to reserve Whisper server port: "@ + e@,
        StartError::ReadPort(e).text() == "Failed to read Whisper server port: "@ + e@,
        StartError::Spawn(e).text() == "Failed to start whisper-server: "@ + e@,
        StartError::Exited(e).text() == "Whisper server exited during startup: "@ + e@,
        StartError::Inspect(e).text() == "Failed to inspect whisper-server: "@ + e@,
{
}

/// A stopped server is forgotten whatever was known of it, and a stop is told from the one before.
pub proof fn stopped_server_is_forgotten<C>(server: WhisperServerState<C>)
    ensures
        server.without_process().child is None,
        server.without_process().model_id is None,
        server.without_process().port is None,
        server.without_process().retry_after == server.retry_after,
        server.without_process().generation == server.generation,
{
}

/// Whichever outcome the asked-for work has, the start can make use of it; and a start that is to be
/// begun can be.
pub proof fn every_outcome_is_awaited<C>(
    start: Startup,
    server: WhisperServerState<C>,
    now: u128,
    event: Event<C>,
    yes: bool,
    port: u16,
    detail: String,
    child: C,
    status: ChildStatus,
)
    requires
        awaited(start.stage, event),
    ensures
        awaited(Stage::Opening, Event::<C>::Begin),
        ({
            let next = step_of(start, server, now, event);
            let stage = next.start.stage;
            match next.step.action {
                Action::PollChild => awaited(stage, Event::<C>::ChildPolled(yes)),
                Action::CheckHealth(_) => awaited(stage, Event::<C>::Health(yes)),
                Action::FindFiles => awaited(stage, Event::<C>::Files(yes)),
                Action::ReservePort => awaited(stage, Event::<C>::PortReserved(port)) && awaited(
                    stage,
                    Event::<C>::PortNotReserved(detail),
                ) && awaited(stage, Event::<C>::PortNotRead(detail)),
                Action::Spawn(_) => awaited(stage, Event::Spawned(child)) && awaited(
                    stage,
                    Event::<C>::NotSpawned(detail),
                ),
                Action::InspectChild => awaited(stage, Event::<C>::ChildInspected(status)),
                Action::Rest => awaited(stage, Event::<C>::Rested),
                Action::Done(_) => stage == Stage::Finished,
            }
        }),
{
}

} // verus!
