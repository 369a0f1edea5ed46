//! Notifications that the engine attaches to a policy document.

use crate::error::Error;
use crate::text::{count_text, int_text};
use crate::v1_alpha1::LabelerStatus;
use vstd::prelude::*;

verus! {

/// Whether a notification reports ordinary progress or a problem.
#[derive(Debug, Clone, Copy, PartialEq, Eq, Structural)]
pub enum EventType {
    /// Ordinary progress.
    Normal,
    /// A problem that the operator should see.
    Warning,
}

/// A notification about a policy document.
#[derive(Debug)]
pub struct Notification {
    /// Ordinary progress or a problem.
    pub type_: EventType,
    /// Short code of what happened.
    pub reason: String,
    /// What the engine was doing.
    pub action: String,
    /// Free text for the operator.
    pub note: Option<String>,
}

/// The kind by which a candidate is named in a note: its own, or `resource`
/// where it has none.
pub open spec fn kind_or_default(kind: Option<String>) -> Seq<char> {
    match kind {
        Some(kind) => kind@,
        None => "resource"@,
    }
}

/// The note of the notification that precedes a patch.
pub open spec fn labeling_note(kind: Seq<char>, target: Seq<char>, rule: Seq<char>) -> Seq<char> {
    "Labeling "@ + kind + ": "@ + target + " with rule: "@ + rule
}

/// The note of the notification that ends a successful pass.
pub open spec fn completion_note(status: LabelerStatus) -> Seq<char> {
    "Labeled "@ + int_text(status.resources_labeled as int) + " of "@ + int_text(
        status.resources_matched as int,
    ) + " resources ("@ + int_text(status.resources_skipped as int) + " skipped)"@
}

/// The note of the notification that reports a failed pass.
pub open spec fn failure_note(error: Error) -> Seq<char> {
    "Error: "@ + error.spec_message()
}

impl Notification {
    /// This is the notification that precedes the patch of the candidate
    /// `target` of kind `kind` on behalf of the policy document `rule`.
    pub open spec fn is_labeling(&self, kind: Seq<char>, target: Seq<char>, rule: Seq<char>) -> bool {
        &&& self.type_ == EventType::Normal
        &&& self.reason@ == "AdjustingLabels"@
        &&& self.action@ == "Labeling"@
        &&& self.note matches Some(note)
        &&& note@ == labeling_note(kind, target, rule)
    }

    /// This is the notification that ends a successful pass with the counts
    /// of `status`.
    pub open spec fn is_completion(&self, status: LabelerStatus) -> bool {
        &&& self.type_ == EventType::Normal
        &&& self.reason@ == "ReconciliationComplete"@
        &&& self.action@ == "Reconcile"@
        &&& self.note matches Some(note)
        &&& note@ == completion_note(status)
    }

    /// This is the warning that reports the failure `error` of a pass.
    pub open spec fn is_failure(&self, error: Error) -> bool {
        &&& self.type_ == EventType::Warning
        &&& self.reason@ == "ReconciliationFailed"@
        &&& self.action@ == "Reconcile"@
        &&& self.note matches Some(note)
        &&& note@ == failure_note(error)
    }

    /// The notification that precedes the patch of the candidate `target` of
    /// kind `kind` on behalf of the policy document `rule`.
    pub fn labeling(kind: &Option<String>, target: &str, rule: &str) -> (notification: Self)
        ensures
            notification.is_labeling(kind_or_default(*kind), target@, rule@),
    {
        let kind_text = match kind {
            Some(kind) => kind.clone(),
            None => String::from_str("resource"),
        };
        let note = String::from_str("Labeling ").concat(kind_text.as_str()).concat(": ").concat(
            target,
        ).concat(" with rule: ").concat(rule);
        Notification {
            type_: EventType::Normal,
            reason: String::from_str("AdjustingLabels"),
            action: String::from_str("Labeling"),
            note: Some(note),
        }
    }

    /// The notification that ends a successful pass with the counts of
    /// `status`.
    pub fn completed(status: &LabelerStatus) -> (notification: Self)
        ensures
            notification.is_completion(*status),
    {
        let note = String::from_str("Labeled ").concat(
            count_text(status.resources_labeled).as_str(),
        ).concat(" of ").concat(count_text(status.resources_matched).as_str()).concat(
            " resources (",
        ).concat(count_text(status.resources_skipped).as_str()).concat(" skipped)");
        Notification {
            type_: EventType::Normal,
            reason: String::from_str("ReconciliationComplete"),
            action: String::from_str("Reconcile"),
            note: Some(note),
        }
    }

    /// The notification that reports the failure `error` of a pass.
    pub fn failed(error: &Error) -> (notification: Self)
        ensures
            notification.is_failure(*error),
    {
        let note = String::from_str("Error: ").concat(error.message().as_str());
        Notification {
            type_: EventType::Warning,
            reason: String::from_str("ReconciliationFailed"),
            action: String::from_str("Reconcile"),
            note: Some(note),
        }
    }
}

} // verus!
