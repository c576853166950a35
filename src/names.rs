//! The enumerations of the session document and their textual names.
use vstd::prelude::*;
use crate::text::{matches_ignoring_ascii_case, text_matches_ignoring_ascii_case};

verus! {
/// Lifecycle state of a review entry, owned by the reviewing agent.
#[derive(Clone, Copy, Debug, PartialEq, Eq, Structural)]
pub enum ReviewerStatus {
    /// Registered; review not yet started.
    Initializing,
    /// Actively reviewing.
    InProgress,
    /// Completed with verdict and report.
    Finished,
    /// Stopped before completion.
    Cancelled,
    /// Fatal error encountered; details should be captured in notes.
    Error,
    /// Waiting on an external dependency or intervention.
    Blocked,
}

impl ReviewerStatus {
    /// The name of this value in the session document and on the command line.
    pub open spec fn wire_name(self) -> Seq<char> {
        match self {
            ReviewerStatus::Initializing => "INITIALIZING"@,
            ReviewerStatus::InProgress => "IN_PROGRESS"@,
            ReviewerStatus::Finished => "FINISHED"@,
            ReviewerStatus::Cancelled => "CANCELLED"@,
            ReviewerStatus::Error => "ERROR"@,
            ReviewerStatus::Blocked => "BLOCKED"@,
        }
    }

    /// Every value, in declaration order.
    pub open spec fn all_values() -> Seq<ReviewerStatus> {
        seq![ReviewerStatus::Initializing, ReviewerStatus::InProgress, ReviewerStatus::Finished, ReviewerStatus::Cancelled, ReviewerStatus::Error, ReviewerStatus::Blocked]
    }

    /// The name of this value in the session document and on the command line.
    pub fn as_str(self) -> (r: &'static str)
        ensures
            r@ == self.wire_name(),
    {
        match self {
            ReviewerStatus::Initializing => "INITIALIZING",
            ReviewerStatus::InProgress => "IN_PROGRESS",
            ReviewerStatus::Finished => "FINISHED",
            ReviewerStatus::Cancelled => "CANCELLED",
            ReviewerStatus::Error => "ERROR",
            ReviewerStatus::Blocked => "BLOCKED",
        }
    }

    /// Every value, in declaration order.
    pub fn values() -> (r: Vec<ReviewerStatus>)
        ensures
            r@ == Self::all_values(),
    {
        vec![ReviewerStatus::Initializing, ReviewerStatus::InProgress, ReviewerStatus::Finished, ReviewerStatus::Cancelled, ReviewerStatus::Error, ReviewerStatus::Blocked]
    }

    /// Parses a name, ignoring ASCII case; `None` where no value has that name.
    pub fn parse(s: &str) -> (r: Option<ReviewerStatus>)
        ensures
            match r {
                Some(v) => text_matches_ignoring_ascii_case(s@, v.wire_name()),
                None => forall|v: ReviewerStatus| !text_matches_ignoring_ascii_case(s@, #[trigger] v.wire_name()),
            },
    {
        if matches_ignoring_ascii_case(s, "INITIALIZING") {
            Some(ReviewerStatus::Initializing)
        } else if matches_ignoring_ascii_case(s, "IN_PROGRESS") {
            Some(ReviewerStatus::InProgress)
        } else if matches_ignoring_ascii_case(s, "FINISHED") {
            Some(ReviewerStatus::Finished)
        } else if matches_ignoring_ascii_case(s, "CANCELLED") {
            Some(ReviewerStatus::Cancelled)
        } else if matches_ignoring_ascii_case(s, "ERROR") {
            Some(ReviewerStatus::Error)
        } else if matches_ignoring_ascii_case(s, "BLOCKED") {
            Some(ReviewerStatus::Blocked)
        } else {
            None
        }
    }
}

/// Applicator-owned state for consuming a review entry.
#[derive(Clone, Copy, Debug, PartialEq, Eq, Structural)]
pub enum InitiatorStatus {
    /// Review requested; waiting for reviewing agents.
    Requesting,
    /// Watching reviews in progress.
    Observing,
    /// Completed review received.
    Received,
    /// Feedback assessed.
    Reviewed,
    /// Applying accepted feedback.
    Applying,
    /// Finished processing the feedback.
    Applied,
    /// Request cancelled.
    Cancelled,
}

impl InitiatorStatus {
    /// The name of this value in the session document and on the command line.
    pub open spec fn wire_name(self) -> Seq<char> {
        match self {
            InitiatorStatus::Requesting => "REQUESTING"@,
            InitiatorStatus::Observing => "OBSERVING"@,
            InitiatorStatus::Received => "RECEIVED"@,
            InitiatorStatus::Reviewed => "REVIEWED"@,
            InitiatorStatus::Applying => "APPLYING"@,
            InitiatorStatus::Applied => "APPLIED"@,
            InitiatorStatus::Cancelled => "CANCELLED"@,
        }
    }

    /// Every value, in declaration order.
    pub open spec fn all_values() -> Seq<InitiatorStatus> {
        seq![InitiatorStatus::Requesting, InitiatorStatus::Observing, InitiatorStatus::Received, InitiatorStatus::Reviewed, InitiatorStatus::Applying, InitiatorStatus::Applied, InitiatorStatus::Cancelled]
    }

    /// The name of this value in the session document and on the command line.
    pub fn as_str(self) -> (r: &'static str)
        ensures
            r@ == self.wire_name(),
    {
        match self {
            InitiatorStatus::Requesting => "REQUESTING",
            InitiatorStatus::Observing => "OBSERVING",
            InitiatorStatus::Received => "RECEIVED",
            InitiatorStatus::Reviewed => "REVIEWED",
            InitiatorStatus::Applying => "APPLYING",
            InitiatorStatus::Applied => "APPLIED",
            InitiatorStatus::Cancelled => "CANCELLED",
        }
    }

    /// Every value, in declaration order.
    pub fn values() -> (r: Vec<InitiatorStatus>)
        ensures
            r@ == Self::all_values(),
    {
        vec![InitiatorStatus::Requesting, InitiatorStatus::Observing, InitiatorStatus::Received, InitiatorStatus::Reviewed, InitiatorStatus::Applying, InitiatorStatus::Applied, InitiatorStatus::Cancelled]
    }

    /// Parses a name, ignoring ASCII case; `None` where no value has that name.
    pub fn parse(s: &str) -> (r: Option<InitiatorStatus>)
        ensures
            match r {
                Some(v) => text_matches_ignoring_ascii_case(s@, v.wire_name()),
                None => forall|v: InitiatorStatus| !text_matches_ignoring_ascii_case(s@, #[trigger] v.wire_name()),
            },
    {
        if matches_ignoring_ascii_case(s, "REQUESTING") {
            Some(InitiatorStatus::Requesting)
        } else if matches_ignoring_ascii_case(s, "OBSERVING") {
            Some(InitiatorStatus::Observing)
        } else if matches_ignoring_ascii_case(s, "RECEIVED") {
            Some(InitiatorStatus::Received)
        } else if matches_ignoring_ascii_case(s, "REVIEWED") {
            Some(InitiatorStatus::Reviewed)
        } else if matches_ignoring_ascii_case(s, "APPLYING") {
            Some(InitiatorStatus::Applying)
        } else if matches_ignoring_ascii_case(s, "APPLIED") {
            Some(InitiatorStatus::Applied)
        } else if matches_ignoring_ascii_case(s, "CANCELLED") {
            Some(InitiatorStatus::Cancelled)
        } else {
            None
        }
    }
}

/// Optional progress marker of the reviewing agent's workflow.
#[derive(Clone, Copy, Debug, PartialEq, Eq, Structural)]
pub enum ReviewPhase {
    /// Initial ingestion of context.
    Ingestion,
    /// Domain coverage mapping and scoping.
    DomainCoverage,
    /// Must-prove theorem generation.
    TheoremGeneration,
    /// Adversarial disproof attempts.
    AdversarialProofs,
    /// Synthesis of findings and mitigations.
    Synthesis,
    /// Final report writing.
    ReportWriting,
}

impl ReviewPhase {
    /// The name of this value in the session document and on the command line.
    pub open spec fn wire_name(self) -> Seq<char> {
        match self {
            ReviewPhase::Ingestion => "INGESTION"@,
            ReviewPhase::DomainCoverage => "DOMAIN_COVERAGE"@,
            ReviewPhase::TheoremGeneration => "THEOREM_GENERATION"@,
            ReviewPhase::AdversarialProofs => "ADVERSARIAL_PROOFS"@,
            ReviewPhase::Synthesis => "SYNTHESIS"@,
            ReviewPhase::ReportWriting => "REPORT_WRITING"@,
        }
    }

    /// Every value, in declaration order.
    pub open spec fn all_values() -> Seq<ReviewPhase> {
        seq![ReviewPhase::Ingestion, ReviewPhase::DomainCoverage, ReviewPhase::TheoremGeneration, ReviewPhase::AdversarialProofs, ReviewPhase::Synthesis, ReviewPhase::ReportWriting]
    }

    /// The name of this value in the session document and on the command line.
    pub fn as_str(self) -> (r: &'static str)
        ensures
            r@ == self.wire_name(),
    {
        match self {
            ReviewPhase::Ingestion => "INGESTION",
            ReviewPhase::DomainCoverage => "DOMAIN_COVERAGE",
            ReviewPhase::TheoremGeneration => "THEOREM_GENERATION",
            ReviewPhase::AdversarialProofs => "ADVERSARIAL_PROOFS",
            ReviewPhase::Synthesis => "SYNTHESIS",
            ReviewPhase::ReportWriting => "REPORT_WRITING",
        }
    }

    /// Every value, in declaration order.
    pub fn values() -> (r: Vec<ReviewPhase>)
        ensures
            r@ == Self::all_values(),
    {
        vec![ReviewPhase::Ingestion, ReviewPhase::DomainCoverage, ReviewPhase::TheoremGeneration, ReviewPhase::AdversarialProofs, ReviewPhase::Synthesis, ReviewPhase::ReportWriting]
    }

    /// Parses a name, ignoring ASCII case; `None` where no value has that name.
    pub fn parse(s: &str) -> (r: Option<ReviewPhase>)
        ensures
            match r {
                Some(v) => text_matches_ignoring_ascii_case(s@, v.wire_name()),
                None => forall|v: ReviewPhase| !text_matches_ignoring_ascii_case(s@, #[trigger] v.wire_name()),
            },
    {
        if matches_ignoring_ascii_case(s, "INGESTION") {
            Some(ReviewPhase::Ingestion)
        } else if matches_ignoring_ascii_case(s, "DOMAIN_COVERAGE") {
            Some(ReviewPhase::DomainCoverage)
        } else if matches_ignoring_ascii_case(s, "THEOREM_GENERATION") {
            Some(ReviewPhase::TheoremGeneration)
        } else if matches_ignoring_ascii_case(s, "ADVERSARIAL_PROOFS") {
            Some(ReviewPhase::AdversarialProofs)
        } else if matches_ignoring_ascii_case(s, "SYNTHESIS") {
            Some(ReviewPhase::Synthesis)
        } else if matches_ignoring_ascii_case(s, "REPORT_WRITING") {
            Some(ReviewPhase::ReportWriting)
        } else {
            None
        }
    }
}

/// Final verdict recorded when a review is finalized.
#[derive(Clone, Copy, Debug, PartialEq, Eq, Structural)]
pub enum ReviewVerdict {
    /// Accept the change as it is.
    Approve,
    /// Request changes before merge.
    RequestChanges,
    /// Block the merge.
    Block,
}


/// Author role of a session note.
#[derive(Clone, Copy, Debug, PartialEq, Eq, Structural)]
pub enum NoteRole {
    /// Note written by the reviewing agent.
    Reviewer,
    /// Note written by the feedback applicator.
    Applicator,
}


/// Structured type of a session note.
#[derive(Clone, Copy, Debug, PartialEq, Eq, Structural)]
pub enum NoteType {
    /// Flag for strict scrutiny of a high-risk area.
    EscalationTrigger,
    /// Observation scoped to a review domain.
    DomainObservation,
    /// Early warning of a likely blocker.
    BlockerPreview,
    /// A question that needs an answer.
    Question,
    /// Handoff context for another reviewing agent.
    Handoff,
    /// Details of an error met while coordinating.
    ErrorDetail,
    /// Applicator: feedback was applied.
    Applied,
    /// Applicator: feedback was declined.
    Declined,
    /// Applicator: feedback was deferred.
    Deferred,
    /// Applicator: clarification is needed.
    ClarificationNeeded,
    /// Applicator: already addressed elsewhere.
    AlreadyAddressed,
    /// Applicator: acknowledged; no action needed.
    Acknowledged,
}

impl NoteType {
    /// The name of this value in the session document and on the command line.
    pub open spec fn wire_name(self) -> Seq<char> {
        match self {
            NoteType::EscalationTrigger => "escalation_trigger"@,
            NoteType::DomainObservation => "domain_observation"@,
            NoteType::BlockerPreview => "blocker_preview"@,
            NoteType::Question => "question"@,
            NoteType::Handoff => "handoff"@,
            NoteType::ErrorDetail => "error_detail"@,
            NoteType::Applied => "applied"@,
            NoteType::Declined => "declined"@,
            NoteType::Deferred => "deferred"@,
            NoteType::ClarificationNeeded => "clarification_needed"@,
            NoteType::AlreadyAddressed => "already_addressed"@,
            NoteType::Acknowledged => "acknowledged"@,
        }
    }

    /// Every value, in declaration order.
    pub open spec fn all_values() -> Seq<NoteType> {
        seq![NoteType::EscalationTrigger, NoteType::DomainObservation, NoteType::BlockerPreview, NoteType::Question, NoteType::Handoff, NoteType::ErrorDetail, NoteType::Applied, NoteType::Declined, NoteType::Deferred, NoteType::ClarificationNeeded, NoteType::AlreadyAddressed, NoteType::Acknowledged]
    }

    /// The name of this value in the session document and on the command line.
    pub fn as_str(self) -> (r: &'static str)
        ensures
            r@ == self.wire_name(),
    {
        match self {
            NoteType::EscalationTrigger => "escalation_trigger",
            NoteType::DomainObservation => "domain_observation",
            NoteType::BlockerPreview => "blocker_preview",
            NoteType::Question => "question",
            NoteType::Handoff => "handoff",
            NoteType::ErrorDetail => "error_detail",
            NoteType::Applied => "applied",
            NoteType::Declined => "declined",
            NoteType::Deferred => "deferred",
            NoteType::ClarificationNeeded => "clarification_needed",
            NoteType::AlreadyAddressed => "already_addressed",
            NoteType::Acknowledged => "acknowledged",
        }
    }

    /// Every value, in declaration order.
    pub fn values() -> (r: Vec<NoteType>)
        ensures
            r@ == Self::all_values(),
    {
        vec![NoteType::EscalationTrigger, NoteType::DomainObservation, NoteType::BlockerPreview, NoteType::Question, NoteType::Handoff, NoteType::ErrorDetail, NoteType::Applied, NoteType::Declined, NoteType::Deferred, NoteType::ClarificationNeeded, NoteType::AlreadyAddressed, NoteType::Acknowledged]
    }

    /// Parses a name, ignoring ASCII case; `None` where no value has that name.
    pub fn parse(s: &str) -> (r: Option<NoteType>)
        ensures
            match r {
                Some(v) => text_matches_ignoring_ascii_case(s@, v.wire_name()),
                None => forall|v: NoteType| !text_matches_ignoring_ascii_case(s@, #[trigger] v.wire_name()),
            },
    {
        if matches_ignoring_ascii_case(s, "escalation_trigger") {
            Some(NoteType::EscalationTrigger)
        } else if matches_ignoring_ascii_case(s, "domain_observation") {
            Some(NoteType::DomainObservation)
        } else if matches_ignoring_ascii_case(s, "blocker_preview") {
            Some(NoteType::BlockerPreview)
        } else if matches_ignoring_ascii_case(s, "question") {
            Some(NoteType::Question)
        } else if matches_ignoring_ascii_case(s, "handoff") {
            Some(NoteType::Handoff)
        } else if matches_ignoring_ascii_case(s, "error_detail") {
            Some(NoteType::ErrorDetail)
        } else if matches_ignoring_ascii_case(s, "applied") {
            Some(NoteType::Applied)
        } else if matches_ignoring_ascii_case(s, "declined") {
            Some(NoteType::Declined)
        } else if matches_ignoring_ascii_case(s, "deferred") {
            Some(NoteType::Deferred)
        } else if matches_ignoring_ascii_case(s, "clarification_needed") {
            Some(NoteType::ClarificationNeeded)
        } else if matches_ignoring_ascii_case(s, "already_addressed") {
            Some(NoteType::AlreadyAddressed)
        } else if matches_ignoring_ascii_case(s, "acknowledged") {
            Some(NoteType::Acknowledged)
        } else {
            None
        }
    }
}

/// Which entries a report listing selects by their lifecycle state.
#[derive(Clone, Copy, Debug, PartialEq, Eq, Structural)]
pub enum ReportsView {
    /// Entries whose status is not terminal.
    Open,
    /// Entries whose status is terminal.
    Closed,
    /// Entries whose status is exactly in progress.
    InProgress,
}

impl ReportsView {
    /// The name of this value in the session document and on the command line.
    pub open spec fn wire_name(self) -> Seq<char> {
        match self {
            ReportsView::Open => "open"@,
            ReportsView::Closed => "closed"@,
            ReportsView::InProgress => "in_progress"@,
        }
    }

    /// Every value, in declaration order.
    pub open spec fn all_values() -> Seq<ReportsView> {
        seq![ReportsView::Open, ReportsView::Closed, ReportsView::InProgress]
    }

    /// The name of this value in the session document and on the command line.
    pub fn as_str(self) -> (r: &'static str)
        ensures
            r@ == self.wire_name(),
    {
        match self {
            ReportsView::Open => "open",
            ReportsView::Closed => "closed",
            ReportsView::InProgress => "in_progress",
        }
    }

    /// Every value, in declaration order.
    pub fn values() -> (r: Vec<ReportsView>)
        ensures
            r@ == Self::all_values(),
    {
        vec![ReportsView::Open, ReportsView::Closed, ReportsView::InProgress]
    }

    /// Parses a name, ignoring ASCII case; `None` where no value has that name.
    pub fn parse(s: &str) -> (r: Option<ReportsView>)
        ensures
            match r {
                Some(v) => text_matches_ignoring_ascii_case(s@, v.wire_name()),
                None => forall|v: ReportsView| !text_matches_ignoring_ascii_case(s@, #[trigger] v.wire_name()),
            },
    {
        if matches_ignoring_ascii_case(s, "open") {
            Some(ReportsView::Open)
        } else if matches_ignoring_ascii_case(s, "closed") {
            Some(ReportsView::Closed)
        } else if matches_ignoring_ascii_case(s, "in_progress") {
            Some(ReportsView::InProgress)
        } else {
            None
        }
    }
}

} // verus!
