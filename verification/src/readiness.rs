use vstd::prelude::*;

use crate::text::{clone_opt_string, opt_string_view};

verus! {

/// Whether the choreography runtime currently accepts new plans.
#[derive(Debug, Clone, Copy, PartialEq, Eq)]
pub enum ChoreographyRuntimeReadinessStatus {
    Ready,
    Degraded,
}

impl ChoreographyRuntimeReadinessStatus {
    pub open spec fn spec_label(self) -> Seq<char> {
        match self {
            ChoreographyRuntimeReadinessStatus::Ready => "ready"@,
            ChoreographyRuntimeReadinessStatus::Degraded => "degraded"@,
        }
    }

    /// The wire name of the status.
    pub fn as_str(self) -> (s: &'static str)
        ensures
            s@ == self.spec_label(),
    {
        match self {
            ChoreographyRuntimeReadinessStatus::Ready => "ready",
            ChoreographyRuntimeReadinessStatus::Degraded => "degraded",
        }
    }
}


/// What the runtime reports about its readiness.
#[derive(Debug, PartialEq, Eq)]
pub struct ChoreographyRuntimeReadinessSnapshot {
    pub status: ChoreographyRuntimeReadinessStatus,
    pub accepting_choreography: bool,
    pub reason_code: Option<String>,
    pub degraded_at: Option<String>,
    pub recovered_at: Option<String>,
    pub updated_at: Option<String>,
}

pub struct ReadinessSnapshotView {
    pub status: ChoreographyRuntimeReadinessStatus,
    pub accepting_choreography: bool,
    pub reason_code: Option<Seq<char>>,
    pub degraded_at: Option<Seq<char>>,
    pub recovered_at: Option<Seq<char>>,
    pub updated_at: Option<Seq<char>>,
}

impl View for ChoreographyRuntimeReadinessSnapshot {
    type V = ReadinessSnapshotView;

    open spec fn view(&self) -> ReadinessSnapshotView {
        ReadinessSnapshotView {
            status: self.status,
            accepting_choreography: self.accepting_choreography,
            reason_code: opt_string_view(self.reason_code),
            degraded_at: opt_string_view(self.degraded_at),
            recovered_at: opt_string_view(self.recovered_at),
            updated_at: opt_string_view(self.updated_at),
        }
    }
}

impl Clone for ChoreographyRuntimeReadinessSnapshot {
    fn clone(&self) -> (r: Self)
        ensures
            r == *self,
    {
        ChoreographyRuntimeReadinessSnapshot {
            status: self.status,
            accepting_choreography: self.accepting_choreography,
            reason_code: clone_opt_string(&self.reason_code),
            degraded_at: clone_opt_string(&self.degraded_at),
            recovered_at: clone_opt_string(&self.recovered_at),
            updated_at: clone_opt_string(&self.updated_at),
        }
    }
}

pub open spec fn spec_ready_snapshot() -> ReadinessSnapshotView {
    ReadinessSnapshotView {
        status: ChoreographyRuntimeReadinessStatus::Ready,
        accepting_choreography: true,
        reason_code: None,
        degraded_at: None,
        recovered_at: None,
        updated_at: None,
    }
}

impl ChoreographyRuntimeReadinessSnapshot {
    /// The snapshot of a runtime that has never degraded.
    pub fn ready() -> (r: Self)
        ensures
            r@ == spec_ready_snapshot(),
    {
        ChoreographyRuntimeReadinessSnapshot {
            status: ChoreographyRuntimeReadinessStatus::Ready,
            accepting_choreography: true,
            reason_code: None,
            degraded_at: None,
            recovered_at: None,
            updated_at: None,
        }
    }
}

/// The readiness of the choreography runtime.
#[derive(Debug)]
pub struct ChoreographyRuntimeReadinessState {
    pub snapshot: ChoreographyRuntimeReadinessSnapshot,
}

/// Whether a snapshot is one the runtime can be in: it accepts choreography exactly when it is
/// ready; a degraded one carries its reason and when it degraded; a ready one carries none.
pub open spec fn readiness_well_formed(s: ReadinessSnapshotView) -> bool {
    &&& s.accepting_choreography <==> s.status == ChoreographyRuntimeReadinessStatus::Ready
    &&& s.status == ChoreographyRuntimeReadinessStatus::Degraded ==> s.reason_code is Some
        && s.degraded_at is Some && s.updated_at == s.degraded_at && s.recovered_at is None
    &&& s.status == ChoreographyRuntimeReadinessStatus::Ready ==> s.reason_code is None
        && s.degraded_at is None && s.updated_at == s.recovered_at
}

pub open spec fn spec_degraded_snapshot(reason_code: Seq<char>, degraded_at: Seq<char>) -> ReadinessSnapshotView {
    ReadinessSnapshotView {
        status: ChoreographyRuntimeReadinessStatus::Degraded,
        accepting_choreography: false,
        reason_code: Some(reason_code),
        degraded_at: Some(degraded_at),
        recovered_at: None,
        updated_at: Some(degraded_at),
    }
}

pub open spec fn spec_recovered_snapshot(recovered_at: Seq<char>) -> ReadinessSnapshotView {
    ReadinessSnapshotView {
        status: ChoreographyRuntimeReadinessStatus::Ready,
        accepting_choreography: true,
        reason_code: None,
        degraded_at: None,
        recovered_at: Some(recovered_at),
        updated_at: Some(recovered_at),
    }
}

impl ChoreographyRuntimeReadinessState {
    /// A ready runtime.
    pub fn new() -> (r: Self)
        ensures
            r.snapshot@ == spec_ready_snapshot(),
    {
        ChoreographyRuntimeReadinessState { snapshot: ChoreographyRuntimeReadinessSnapshot::ready() }
    }

    /// The current snapshot.
    pub fn snapshot(&self) -> (r: ChoreographyRuntimeReadinessSnapshot)
        ensures
            r@ == self.snapshot@,
    {
        self.snapshot.clone()
    }

    /// Marks the runtime degraded: it stops accepting choreography.
    pub fn mark_degraded(&mut self, reason_code: &str, degraded_at: &str) -> (r:
        ChoreographyRuntimeReadinessSnapshot)
        ensures
            final(self).snapshot@ == spec_degraded_snapshot(reason_code@, degraded_at@),
            r@ == final(self).snapshot@,
    {
        self.snapshot = ChoreographyRuntimeReadinessSnapshot {
            status: ChoreographyRuntimeReadinessStatus::Degraded,
            accepting_choreography: false,
            reason_code: Some(reason_code.to_owned()),
            degraded_at: Some(degraded_at.to_owned()),
            recovered_at: None,
            updated_at: Some(degraded_at.to_owned()),
        };
        self.snapshot()
    }

    /// Marks the runtime ready again: it accepts choreography.
    pub fn mark_ready(&mut self, recovered_at: &str) -> (r: ChoreographyRuntimeReadinessSnapshot)
        ensures
            final(self).snapshot@ == spec_recovered_snapshot(recovered_at@),
            r@ == final(self).snapshot@,
    {
        self.snapshot = ChoreographyRuntimeReadinessSnapshot {
            status: ChoreographyRuntimeReadinessStatus::Ready,
            accepting_choreography: true,
            reason_code: None,
            degraded_at: None,
            recovered_at: Some(recovered_at.to_owned()),
            updated_at: Some(recovered_at.to_owned()),
        };
        self.snapshot()
    }
}

impl Default for ChoreographyRuntimeReadinessState {
    fn default() -> (r: Self)
        ensures
            r.snapshot@ == spec_ready_snapshot(),
    {
        Self::new()
    }
}

/// Law: every snapshot the readiness state can reach is well formed, and the runtime accepts
/// choreography exactly when it is ready.
pub proof fn law_readiness_snapshots_well_formed(reason_code: Seq<char>, at: Seq<char>)
    ensures
        readiness_well_formed(spec_ready_snapshot()),
        readiness_well_formed(spec_degraded_snapshot(reason_code, at)),
        readiness_well_formed(spec_recovered_snapshot(at)),
        !spec_degraded_snapshot(reason_code, at).accepting_choreography,
        spec_recovered_snapshot(at).accepting_choreography,
{
}

} // verus!
