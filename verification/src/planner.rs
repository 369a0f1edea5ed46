//! The patch planner: which labels a candidate must be given so that it
//! carries every required label.

use crate::json::{json_doc, json_string_object, json_wrap, single_member, string_members, JsonDoc};
use crate::labels::Labels;
use crate::v1_alpha1::{Labeler, ObjectMeta};
use vstd::prelude::*;

verus! {

/// A required label is missing from `current`, or has another value there.
pub open spec fn needs_update(
    required: Map<Seq<char>, Seq<char>>,
    current: Map<Seq<char>, Seq<char>>,
) -> bool {
    !required.submap_of(current)
}

/// The labels of the merge patch for a candidate that carries `current`:
/// none where nothing is to be changed, else every label of `current` and of
/// `required`, the value of `required` standing where both have the key.
pub open spec fn planned_labels(
    required: Map<Seq<char>, Seq<char>>,
    current: Map<Seq<char>, Seq<char>>,
) -> Option<Map<Seq<char>, Seq<char>>> {
    if needs_update(required, current) {
        Some(current.union_prefer_right(required))
    } else {
        None
    }
}

/// The labels of a candidate after a merge patch: the labels named in the
/// patch are set, every other label stays. Without a patch nothing changes.
pub open spec fn apply_plan(
    current: Map<Seq<char>, Seq<char>>,
    plan: Option<Map<Seq<char>, Seq<char>>>,
) -> Map<Seq<char>, Seq<char>> {
    match plan {
        Some(patch) => current.union_prefer_right(patch),
        None => current,
    }
}

/// The labels that a candidate carries once the plan for it has been carried
/// out.
pub open spec fn reconciled_labels(
    required: Map<Seq<char>, Seq<char>>,
    current: Map<Seq<char>, Seq<char>>,
) -> Map<Seq<char>, Seq<char>> {
    apply_plan(current, planned_labels(required, current))
}

/// The body of the merge patch that sets `labels` on an object.
pub open spec fn label_patch_doc(labels: Map<Seq<char>, Seq<char>>) -> JsonDoc {
    single_member(
        "metadata"@,
        single_member("labels"@, JsonDoc::Object(string_members(labels))),
    )
}

/// Plans the labels of one candidate.
pub fn plan_labels(required: &Labels, current: Option<&Labels>) -> (plan: Option<Labels>)
    ensures
        match plan {
            Some(labels) => Some(labels@) == planned_labels(
                required@,
                match current {
                    Some(c) => c@,
                    None => Map::empty(),
                },
            ),
            None => planned_labels(
                required@,
                match current {
                    Some(c) => c@,
                    None => Map::empty(),
                },
            ) is None,
        },
{
    let mut merged = match current {
        Some(labels) => labels.clone(),
        None => Labels::new(),
    };
    if merged.covers(required) {
        return None;
    }
    merged.extend(required);
    Some(merged)
}

/// The body of the merge patch that sets `labels` on an object.
pub fn merge_patch_body(labels: &Labels) -> (body: serde_json::Value)
    ensures
        json_doc(body) == label_patch_doc(labels@),
{
    let pairs = labels.to_pairs();
    json_wrap("metadata", json_wrap("labels", json_string_object(&pairs)))
}

/// Compares the labels of an object with those that `labeler` requires and
/// returns the body of the merge patch that brings the object up to date, or
/// nothing where it already carries every required label.
pub fn patch_resource_labels(labeler: &Labeler, meta: &ObjectMeta) -> (patch: Option<
    serde_json::Value,
>)
    ensures
        match planned_labels(labeler.spec.labels@, meta.label_map()) {
            Some(labels) => patch matches Some(body) && json_doc(body) == label_patch_doc(labels),
            None => patch is None,
        },
{
    match plan_labels(&labeler.spec.labels, meta.labels.as_ref()) {
        Some(labels) => Some(merge_patch_body(&labels)),
        None => None,
    }
}

/// Carrying out a plan a second time changes nothing: once the planned patch
/// has been applied, the planner has no patch left, and the labels stay as
/// they are.
pub proof fn lemma_plan_idempotent(
    required: Map<Seq<char>, Seq<char>>,
    current: Map<Seq<char>, Seq<char>>,
)
    ensures
        planned_labels(required, reconciled_labels(required, current)) is None,
        reconciled_labels(required, reconciled_labels(required, current)) == reconciled_labels(
            required,
            current,
        ),
{
    lemma_plan_keeps_keys(required, current);
}

/// Planning never removes a label: after the plan has been carried out the
/// candidate has every key that it had before and every required key, each
/// required key with its required value and every other key with the value
/// it had.
pub proof fn lemma_plan_keeps_keys(
    required: Map<Seq<char>, Seq<char>>,
    current: Map<Seq<char>, Seq<char>>,
)
    ensures
        current.dom().union(required.dom()).subset_of(reconciled_labels(required, current).dom()),
        required.submap_of(reconciled_labels(required, current)),
        forall|key: Seq<char>|
            current.contains_key(key) && !required.contains_key(key) ==> #[trigger] reconciled_labels(
                required,
                current,
            )[key] == current[key],
{
}

/// The planner has no patch exactly for the candidates that already carry
/// every required label with its required value.
pub proof fn lemma_plan_noop(required: Map<Seq<char>, Seq<char>>, current: Map<Seq<char>, Seq<char>>)
    ensures
        required.submap_of(current) <==> planned_labels(required, current) is None,
{
}

} // verus!
