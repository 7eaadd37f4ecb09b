//! The daemon supervisor: which step to take next, given what the daemon and
//! the remediation step last reported.
//!
//! The host runs the loop: it performs each returned action (spawn, run the
//! keyring generation, publish, clear the child handle) and hands the outcome
//! back as the next event.

use vstd::prelude::*;

verus! {

#[derive(Clone, Copy, Debug, PartialEq, Eq, Structural)]
pub enum Phase {
    /// A spawn of the daemon has been requested and its outcome is awaited.
    Spawning,
    /// The daemon runs; its output is being drained.
    Draining,
    /// The keyring generation runs; `after_exit` tells whether it was started
    /// because the daemon exited silently (else: because the spawn failed).
    Remediating { after_exit: bool },
    /// The session is over.
    Terminated,
}

#[derive(Clone, Copy, Debug, PartialEq, Eq, Structural)]
pub enum SupervisorEvent {
    /// The daemon could not be spawned.
    SpawnFailed,
    /// The daemon was spawned.
    Spawned,
    /// The daemon wrote a line to standard output or standard error.
    OutputLine,
    /// The daemon terminated.
    Exited,
    /// The keyring generation finished; `ok` tells whether it succeeded.
    RemediationFinished { ok: bool },
}

#[derive(Clone, Copy, Debug, PartialEq, Eq, Structural)]
pub enum SupervisorAction {
    /// Clear any stored child handle and spawn the daemon.
    Spawn,
    /// Run the one-shot keyring generation.
    Remediate,
    /// Store the child handle, reset the cached peer identity and the
    /// discovery flag, and start the discovery and schema tasks.
    Launch,
    /// Publish the daemon's line as a log event.
    PublishLine,
    /// Publish the daemon-exit event and clear the stored child handle.
    PublishExit,
    /// End the session without publishing anything more.
    Stop,
    /// Nothing to do: the event does not apply in the current phase.
    Ignore,
}

#[derive(Clone, Copy, Debug, PartialEq, Eq, Structural)]
pub struct Supervisor {
    pub phase: Phase,
    /// Whether the keyring generation has already succeeded in this session.
    pub tried_keygen: bool,
    /// Whether the current daemon instance has written any line.
    pub saw_output: bool,
}

/// The supervisor's transition table: the next state and the action to take.
pub open spec fn transition(s: Supervisor, e: SupervisorEvent) -> (Supervisor, SupervisorAction) {
    match (s.phase, e) {
        (Phase::Spawning, SupervisorEvent::SpawnFailed) => if !s.tried_keygen {
            (Supervisor { phase: Phase::Remediating { after_exit: false }, ..s }, SupervisorAction::Remediate)
        } else {
            (Supervisor { phase: Phase::Terminated, ..s }, SupervisorAction::Stop)
        },
        (Phase::Spawning, SupervisorEvent::Spawned) =>
            (Supervisor { phase: Phase::Draining, saw_output: false, ..s }, SupervisorAction::Launch),
        (Phase::Draining, SupervisorEvent::OutputLine) =>
            (Supervisor { saw_output: true, ..s }, SupervisorAction::PublishLine),
        (Phase::Draining, SupervisorEvent::Exited) => if !s.saw_output && !s.tried_keygen {
            (Supervisor { phase: Phase::Remediating { after_exit: true }, ..s }, SupervisorAction::Remediate)
        } else {
            (Supervisor { phase: Phase::Terminated, ..s }, SupervisorAction::PublishExit)
        },
        (Phase::Remediating { after_exit }, SupervisorEvent::RemediationFinished { ok }) => if ok {
            (Supervisor { phase: Phase::Spawning, tried_keygen: true, saw_output: false }, SupervisorAction::Spawn)
        } else if after_exit {
            (Supervisor { phase: Phase::Terminated, ..s }, SupervisorAction::PublishExit)
        } else {
            (Supervisor { phase: Phase::Terminated, ..s }, SupervisorAction::Stop)
        },
        _ => (s, SupervisorAction::Ignore),
    }
}

/// The state and the actions after a sequence of events.
pub open spec fn run(s: Supervisor, events: Seq<SupervisorEvent>) -> (Supervisor, Seq<SupervisorAction>)
    decreases events.len(),
{
    if events.len() == 0 {
        (s, Seq::empty())
    } else {
        let (s1, a) = transition(s, events[0]);
        let (s2, rest) = run(s1, events.drop_first());
        (s2, seq![a] + rest)
    }
}

/// How many times an action occurs in a sequence of actions.
pub open spec fn occurrences(acts: Seq<SupervisorAction>, a: SupervisorAction) -> nat
    decreases acts.len(),
{
    if acts.len() == 0 {
        0
    } else {
        (if acts[0] == a { 1nat } else { 0nat }) + occurrences(acts.drop_first(), a)
    }
}

/// The state of a fresh session: about to spawn, nothing tried yet.
pub open spec fn initial() -> Supervisor {
    Supervisor { phase: Phase::Spawning, tried_keygen: false, saw_output: false }
}

/// What holds at every point of a session, given how many remediations have
/// been requested so far.
pub open spec fn remediation_bound(s: Supervisor, requested: nat) -> bool {
    &&& requested <= 1
    &&& s.phase is Remediating ==> !s.tried_keygen && requested == 1
    &&& (s.phase == Phase::Spawning || s.phase == Phase::Draining) && requested == 1 ==> s.tried_keygen
}

proof fn lemma_remediation_bound_kept(s: Supervisor, requested: nat, events: Seq<SupervisorEvent>)
    requires
        remediation_bound(s, requested),
    ensures
        remediation_bound(
            run(s, events).0,
            requested + occurrences(run(s, events).1, SupervisorAction::Remediate),
        ),
    decreases events.len(),
{
    if events.len() > 0 {
        let (s1, a) = transition(s, events[0]);
        let c1 = requested + (if a == SupervisorAction::Remediate { 1nat } else { 0nat });
        lemma_remediation_bound_kept(s1, c1, events.drop_first());
        let rest = run(s1, events.drop_first()).1;
        assert((seq![a] + rest).drop_first() =~= rest);
        assert((seq![a] + rest)[0] == a);
    }
}

/// However spawns, silent exits and remediations succeed or fail, a session
/// asks for the keyring generation at most once.
pub proof fn lemma_remediation_at_most_once(events: Seq<SupervisorEvent>)
    ensures
        occurrences(run(initial(), events).1, SupervisorAction::Remediate) <= 1,
{
    lemma_remediation_bound_kept(initial(), 0, events);
}

/// A daemon that exits without having written a line is restarted through
/// the remediation, with no exit event, while no remediation has run yet;
/// once one has run, its exit is published.
pub proof fn lemma_silent_exit(s: Supervisor)
    requires
        s.phase == Phase::Draining,
        !s.saw_output,
    ensures
        !s.tried_keygen ==> {
            let (s1, a1) = transition(s, SupervisorEvent::Exited);
            let (s2, a2) = transition(s1, SupervisorEvent::RemediationFinished { ok: true });
            &&& a1 == SupervisorAction::Remediate
            &&& a2 == SupervisorAction::Spawn
            &&& s2.phase == Phase::Spawning
        },
        s.tried_keygen ==> transition(s, SupervisorEvent::Exited) == (
            Supervisor { phase: Phase::Terminated, ..s },
            SupervisorAction::PublishExit,
        ),
{
}

/// The cached peer identity is reset by `SupervisorAction::Launch` alone, and
/// that action comes exactly once for each daemon instance that was spawned.
pub proof fn lemma_launch_once_per_start(s: Supervisor, e: SupervisorEvent)
    ensures
        (transition(s, e).1 == SupervisorAction::Launch) == (s.phase == Phase::Spawning
            && e == SupervisorEvent::Spawned),
        transition(s, e).1 == SupervisorAction::Launch ==> transition(s, e).0.phase
            == Phase::Draining,
{
}

impl Supervisor {
    /// A fresh session; its first action is `SupervisorAction::Spawn`.
    pub fn new() -> (r: Supervisor)
        ensures
            r == initial(),
    {
        Supervisor { phase: Phase::Spawning, tried_keygen: false, saw_output: false }
    }

    /// Whether the session is over.
    pub fn is_terminated(&self) -> (r: bool)
        ensures
            r == (self.phase == Phase::Terminated),
    {
        matches!(self.phase, Phase::Terminated)
    }

    /// Takes one event and returns the action that it calls for.
    pub fn step(&mut self, e: SupervisorEvent) -> (r: SupervisorAction)
        ensures
            (*final(self), r) == transition(*old(self), e),
    {
        let s = *self;
        match (s.phase, e) {
            (Phase::Spawning, SupervisorEvent::SpawnFailed) => {
                if !s.tried_keygen {
                    self.phase = Phase::Remediating { after_exit: false };
                    SupervisorAction::Remediate
                } else {
                    self.phase = Phase::Terminated;
                    SupervisorAction::Stop
                }
            },
            (Phase::Spawning, SupervisorEvent::Spawned) => {
                self.phase = Phase::Draining;
                self.saw_output = false;
                SupervisorAction::Launch
            },
            (Phase::Draining, SupervisorEvent::OutputLine) => {
                self.saw_output = true;
                SupervisorAction::PublishLine
            },
            (Phase::Draining, SupervisorEvent::Exited) => {
                if !s.saw_output && !s.tried_keygen {
                    self.phase = Phase::Remediating { after_exit: true };
                    SupervisorAction::Remediate
                } else {
                    self.phase = Phase::Terminated;
                    SupervisorAction::PublishExit
                }
            },
            (Phase::Remediating { after_exit }, SupervisorEvent::RemediationFinished { ok }) => {
                if ok {
                    *self = Supervisor { phase: Phase::Spawning, tried_keygen: true, saw_output: false };
                    SupervisorAction::Spawn
                } else if after_exit {
                    self.phase = Phase::Terminated;
                    SupervisorAction::PublishExit
                } else {
                    self.phase = Phase::Terminated;
                    SupervisorAction::Stop
                }
            },
            _ => SupervisorAction::Ignore,
        }
    }
}

} // verus!
