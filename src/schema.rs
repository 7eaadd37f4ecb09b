//! The schema bootstrapper: check that the `Note` schema exists, create it
//! when it does not, and retry a bounded number of times.

use vstd::prelude::*;
use crate::text::{contains, has_substring};

verus! {

/// The name of the schema that the application needs.
pub const SCHEMA_NAME: &'static str = "Note";

/// Attempts allowed in one bootstrap.
pub const MAX_SCHEMA_ATTEMPTS: u32 = 3;

/// Pause between two attempts, in milliseconds.
pub const RETRY_PAUSE_MS: u64 = 1000;

/// Grace period between the daemon's spawn and the first attempt, in
/// milliseconds.
pub const STARTUP_GRACE_MS: u64 = 2000;

/// The schema listing names the schema.
pub open spec fn schema_listed(listing: Seq<char>) -> bool {
    has_substring(listing, "Note"@)
}

/// A line of the creation's output reports success: the schema was added, or
/// another creator was first.
pub open spec fn creation_line_succeeded(line: Seq<char>) -> bool {
    has_substring(line, "successfully"@) || has_substring(line, "already exists"@)
}

/// Reads the collected output of the "list schemas" invocation: whether the
/// schema is already there.
pub fn check_schema_exists(listing: &str) -> (r: bool)
    ensures
        r == schema_listed(listing@),
{
    contains(listing, SCHEMA_NAME)
}

/// Whether one line of the creation's output, on either stream, reports
/// success.
pub fn creation_line_reports_success(line: &str) -> (r: bool)
    ensures
        r == creation_line_succeeded(line@),
{
    contains(line, "successfully") || contains(line, "already exists")
}

/// What the host does with one line of the creation's output.
#[derive(Clone, Copy, Debug, PartialEq, Eq, Structural)]
pub enum LineDisposition {
    /// Publish it as a log event.
    Log,
    /// Publish it as a log event and also write it to the diagnostic sink.
    LogAndDiagnose,
}

/// The fold over one creation's output lines.
#[derive(Clone, Copy, Debug, PartialEq, Eq, Structural)]
pub struct SchemaCreation {
    /// Whether some line so far reported success.
    pub success: bool,
}

impl SchemaCreation {
    pub fn new() -> (r: SchemaCreation)
        ensures
            !r.success,
    {
        SchemaCreation { success: false }
    }

    /// Takes one line; `from_stderr` tells the stream. Success, once seen,
    /// stays; an error-stream line without a success marker is also a
    /// diagnostic.
    pub fn on_line(&mut self, line: &str, from_stderr: bool) -> (r: LineDisposition)
        ensures
            final(self).success == (old(self).success || creation_line_succeeded(line@)),
            r == (if from_stderr && !creation_line_succeeded(line@) {
                LineDisposition::LogAndDiagnose
            } else {
                LineDisposition::Log
            }),
    {
        let ok = creation_line_reports_success(line);
        if ok {
            self.success = true;
        }
        if from_stderr && !ok {
            LineDisposition::LogAndDiagnose
        } else {
            LineDisposition::Log
        }
    }
}

#[derive(Clone, Copy, Debug, PartialEq, Eq, Structural)]
pub enum BootstrapPhase {
    /// The existence check of the current attempt is awaited.
    Checking,
    /// The creation of the current attempt is awaited.
    Creating,
    Done,
}

#[derive(Clone, Copy, Debug, PartialEq, Eq, Structural)]
pub enum BootstrapAction {
    /// Run the creation invocation.
    Create,
    /// The schema is there; `existed` tells whether it was there before.
    Ready { existed: bool },
    /// Log that attempt `attempt` failed, pause, and check again.
    RetryAfterPause { attempt: u32 },
    /// Log that the schema could not be created; the bootstrap is over.
    GiveUp,
    /// The report does not apply in the current phase.
    Ignore,
}

/// One bootstrap. It starts by checking existence.
#[derive(Clone, Copy, Debug, PartialEq, Eq, Structural)]
pub struct SchemaBootstrap {
    /// The current attempt, from 1.
    pub attempt: u32,
    pub phase: BootstrapPhase,
}

impl SchemaBootstrap {
    pub open spec fn wf(&self) -> bool {
        1 <= self.attempt <= MAX_SCHEMA_ATTEMPTS
    }
}

pub open spec fn fresh_bootstrap() -> SchemaBootstrap {
    SchemaBootstrap { attempt: 1, phase: BootstrapPhase::Checking }
}

/// The effect of the existence check's answer.
pub open spec fn after_check(b: SchemaBootstrap, present: bool) -> (SchemaBootstrap, BootstrapAction) {
    if b.phase != BootstrapPhase::Checking {
        (b, BootstrapAction::Ignore)
    } else if present {
        (SchemaBootstrap { phase: BootstrapPhase::Done, ..b }, BootstrapAction::Ready { existed: true })
    } else {
        (SchemaBootstrap { phase: BootstrapPhase::Creating, ..b }, BootstrapAction::Create)
    }
}

/// The effect of the creation's outcome.
pub open spec fn after_creation(b: SchemaBootstrap, ok: bool) -> (SchemaBootstrap, BootstrapAction) {
    if b.phase != BootstrapPhase::Creating {
        (b, BootstrapAction::Ignore)
    } else if ok {
        (SchemaBootstrap { phase: BootstrapPhase::Done, ..b }, BootstrapAction::Ready { existed: false })
    } else if b.attempt < MAX_SCHEMA_ATTEMPTS {
        (
            SchemaBootstrap { attempt: (b.attempt + 1) as u32, phase: BootstrapPhase::Checking },
            BootstrapAction::RetryAfterPause { attempt: b.attempt },
        )
    } else {
        (SchemaBootstrap { phase: BootstrapPhase::Done, ..b }, BootstrapAction::GiveUp)
    }
}

/// Ensuring the schema against a daemon whose listing already names it
/// succeeds at once, without a creation, however often it is repeated: each
/// run reads the same listing and decides the same way.
pub proof fn lemma_ensure_schema_idempotent(listing: Seq<char>)
    requires
        schema_listed(listing),
    ensures
        after_check(fresh_bootstrap(), schema_listed(listing)).1 == (BootstrapAction::Ready {
            existed: true,
        }),
        after_check(fresh_bootstrap(), schema_listed(listing)).0.phase == BootstrapPhase::Done,
        after_check(after_check(fresh_bootstrap(), schema_listed(listing)).0, schema_listed(listing)).1
            == BootstrapAction::Ignore,
{
}

/// A creation whose output has a line that reports success ends the
/// bootstrap as ready, with no retry.
pub proof fn lemma_reported_success_is_final(b: SchemaBootstrap, line: Seq<char>)
    requires
        b.phase == BootstrapPhase::Creating,
        creation_line_succeeded(line),
    ensures
        after_creation(b, creation_line_succeeded(line)) == (
            SchemaBootstrap { phase: BootstrapPhase::Done, ..b },
            BootstrapAction::Ready { existed: false },
        ),
{
}

impl SchemaBootstrap {
    pub fn new() -> (r: SchemaBootstrap)
        ensures
            r == fresh_bootstrap(),
    {
        SchemaBootstrap { attempt: 1, phase: BootstrapPhase::Checking }
    }

    /// Whether the bootstrap is over.
    pub fn is_done(&self) -> (r: bool)
        ensures
            r == (self.phase == BootstrapPhase::Done),
    {
        matches!(self.phase, BootstrapPhase::Done)
    }

    /// Takes the existence check's answer.
    pub fn on_exists_checked(&mut self, present: bool) -> (r: BootstrapAction)
        ensures
            (*final(self), r) == after_check(*old(self), present),
            old(self).wf() ==> final(self).wf(),
    {
        if !matches!(self.phase, BootstrapPhase::Checking) {
            BootstrapAction::Ignore
        } else if present {
            self.phase = BootstrapPhase::Done;
            BootstrapAction::Ready { existed: true }
        } else {
            self.phase = BootstrapPhase::Creating;
            BootstrapAction::Create
        }
    }

    /// Takes the creation's outcome: whether some line reported success.
    pub fn on_creation_finished(&mut self, ok: bool) -> (r: BootstrapAction)
        ensures
            (*final(self), r) == after_creation(*old(self), ok),
            old(self).wf() ==> final(self).wf(),
    {
        if !matches!(self.phase, BootstrapPhase::Creating) {
            BootstrapAction::Ignore
        } else if ok {
            self.phase = BootstrapPhase::Done;
            BootstrapAction::Ready { existed: false }
        } else if self.attempt < MAX_SCHEMA_ATTEMPTS {
            let attempt = self.attempt;
            *self = SchemaBootstrap { attempt: attempt + 1, phase: BootstrapPhase::Checking };
            BootstrapAction::RetryAfterPause { attempt }
        } else {
            self.phase = BootstrapPhase::Done;
            BootstrapAction::GiveUp
        }
    }
}

} // verus!
