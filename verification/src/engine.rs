use vstd::prelude::*;

verus! {

/// TCP port on which the local dashboard engine listens.
pub const ENGINE_PORT: u16 = 3117;

/// Pause between two readiness probes while the engine starts, in milliseconds.
pub const READY_POLL_INTERVAL_MS: u64 = 500;

/// How many readiness probes are made before a start is given up.
pub const READY_POLL_LIMIT: u32 = 30;

/// Pause between asking the engine to terminate and checking that it did, in milliseconds.
pub const STOP_GRACE_MS: u64 = 2000;

/// The process id of the dashboard engine while it is recorded as running.
pub struct EngineTracker {
    pub pid: Option<u32>,
}

/// Why a start of the engine failed.
#[derive(Debug, Clone, Copy, PartialEq, Eq, Structural)]
pub enum StartFailure {
    /// The engine process could not be spawned.
    SpawnFailed,
    /// The engine never answered on its port.
    NotReady,
}

/// What the caller does next while starting the engine.
#[derive(Debug, Clone, Copy, PartialEq, Eq, Structural)]
pub enum StartAction {
    /// Probe the port of an engine recorded as running.
    ProbeExisting,
    /// Spawn a new engine process.
    Spawn,
    /// Wait for the poll interval, then make readiness probe number `attempt`.
    WaitThenProbe { attempt: u32 },
    /// The engine answers on its port: the start succeeded.
    Ready,
    /// The start failed.
    Fail(StartFailure),
}

/// What the caller does next while stopping the engine.
#[derive(Debug, Clone, Copy, PartialEq, Eq, Structural)]
pub enum StopAction {
    /// Ask the process to terminate, wait for the grace period, then probe the port.
    Terminate { pid: u32 },
    /// Kill the process and anything still listening on the engine port.
    ForceKill { pid: u32 },
    /// Nothing more to do.
    Done,
}

impl EngineTracker {
    /// No engine recorded.
    pub fn new() -> (engine: Self)
        ensures
            engine.pid is None,
    {
        EngineTracker { pid: None }
    }

    /// Forgets the engine once its process has exited.
    pub fn mark_exited(&mut self)
        ensures
            final(self).pid is None,
    {
        self.pid = None;
    }
}

/// Whether an engine process is currently recorded as running.
pub fn is_engine_running(engine: &EngineTracker) -> (running: bool)
    ensures
        running == engine.pid is Some,
{
    engine.pid.is_some()
}

/// The first step of a start: an engine already recorded is probed before
/// anything is spawned.
pub fn start_engine_begin(engine: &EngineTracker) -> (action: StartAction)
    ensures
        action == (if engine.pid is Some { StartAction::ProbeExisting } else { StartAction::Spawn }),
{
    if engine.pid.is_some() {
        StartAction::ProbeExisting
    } else {
        StartAction::Spawn
    }
}

/// After probing an engine already recorded: if it answers, the start is done;
/// otherwise a new one is spawned.
pub fn start_engine_after_probe(port_open: bool) -> (action: StartAction)
    ensures
        action == (if port_open { StartAction::Ready } else { StartAction::Spawn }),
{
    if port_open {
        StartAction::Ready
    } else {
        StartAction::Spawn
    }
}

/// After trying to spawn the engine. `spawned` is `None` when the spawn failed,
/// else the id the child reported, if any (a missing id is recorded as 0).
pub fn start_engine_after_spawn(engine: &mut EngineTracker, spawned: Option<Option<u32>>) -> (action: StartAction)
    ensures
        (match spawned {
            None => action == StartAction::Fail(StartFailure::SpawnFailed) && final(engine).pid == old(engine).pid,
            Some(id) => action == (StartAction::WaitThenProbe { attempt: 1 }) && final(engine).pid == Some(
                match id {
                    Some(p) => p,
                    None => 0u32,
                },
            ),
        }),
{
    match spawned {
        None => StartAction::Fail(StartFailure::SpawnFailed),
        Some(id) => {
            let pid: u32 = match id {
                Some(p) => p,
                None => 0,
            };
            engine.pid = Some(pid);
            StartAction::WaitThenProbe { attempt: 1 }
        },
    }
}

/// After readiness probe number `attempt`: ready if the port answers, another
/// probe while fewer than the limit were made, else the start has failed.
pub fn start_engine_after_poll(attempt: u32, port_open: bool) -> (action: StartAction)
    requires
        1 <= attempt <= READY_POLL_LIMIT,
    ensures
        action == (if port_open {
            StartAction::Ready
        } else if attempt < READY_POLL_LIMIT {
            StartAction::WaitThenProbe { attempt: (attempt + 1) as u32 }
        } else {
            StartAction::Fail(StartFailure::NotReady)
        }),
        action matches StartAction::WaitThenProbe { attempt: next } ==> next <= READY_POLL_LIMIT,
{
    if port_open {
        StartAction::Ready
    } else if attempt < READY_POLL_LIMIT {
        StartAction::WaitThenProbe { attempt: attempt + 1 }
    } else {
        StartAction::Fail(StartFailure::NotReady)
    }
}

/// The first step of a stop: the engine is forgotten at once; a recorded
/// process is asked to terminate.
pub fn stop_engine_begin(engine: &mut EngineTracker) -> (action: StopAction)
    ensures
        final(engine).pid is None,
        action == (match old(engine).pid {
            Some(pid) => StopAction::Terminate { pid },
            None => StopAction::Done,
        }),
{
    let taken = engine.pid.take();
    match taken {
        Some(pid) => StopAction::Terminate { pid },
        None => StopAction::Done,
    }
}

/// After the grace period: an engine port that still answers means the
/// process is killed by force.
pub fn stop_engine_after_grace(pid: u32, port_open: bool) -> (action: StopAction)
    ensures
        action == (if port_open { StopAction::ForceKill { pid } } else { StopAction::Done }),
{
    if port_open {
        StopAction::ForceKill { pid }
    } else {
        StopAction::Done
    }
}

/// The first candidate directory that holds the engine's entry script, given
/// for each candidate, in order of preference, whether it does.
pub fn select_project_root(has_entry: &Vec<bool>) -> (chosen: Option<usize>)
    ensures
        (match chosen {
            Some(i) => i < has_entry@.len() && has_entry@[i as int] && forall|j: int|
                0 <= j < i ==> !#[trigger] has_entry@[j],
            None => forall|j: int| 0 <= j < has_entry@.len() ==> !#[trigger] has_entry@[j],
        }),
{
    let mut i: usize = 0;
    while i < has_entry.len()
        invariant
            i <= has_entry@.len(),
            forall|j: int| 0 <= j < i ==> !#[trigger] has_entry@[j],
        decreases has_entry@.len() - i,
    {
        if has_entry[i] {
            return Some(i);
        }
        i = i + 1;
    }
    None
}

} // verus!
