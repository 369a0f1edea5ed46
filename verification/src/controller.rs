//! The reconciler: one pass over the candidates of one policy document.
//!
//! A pass alternates between decisions, which are made here, and requests to
//! the cluster, which the caller carries out. `Pass::start` and `Pass::step`
//! return the next request as an `Action`; the caller answers with an
//! `Event`. Requests that change the cluster are made only while the replica
//! leads. A pass keeps what the predicate answered for each candidate, so
//! that its contract can say which candidate is patched.

use crate::diagnostics::{Diagnostics, Timestamp};
use crate::discovery::{
    discover_target_resources, first_of_kind, kind_not_found, parse_api_version,
    split_group_version, CatalogEntry, GroupVersion, TargetResource,
};
use crate::error::Error;
use crate::events::{kind_or_default, Notification};
use crate::json::{
    json_doc, json_empty_object, json_number, json_set_member, json_wrap, single_member, JsonDoc,
};
use crate::labels::Labels;
use crate::planner::{label_patch_doc, merge_patch_body, plan_labels, planned_labels};
use crate::predicate::{evaluate_candidate, handle_rego_rule, policy_path};
use crate::rego::{engine_is_v1, engine_policies, input_refused, paths_of, rego_added};
use crate::v1_alpha1::{Labeler, LabelerStatus, ObjectMeta};
use vstd::prelude::*;

verus! {

/// Seconds after which a policy document is looked at again when a pass
/// succeeded.
pub const SUCCESS_REQUEUE_SECS: u64 = 300;

/// Seconds after which a pass is tried again when it failed.
pub const FAILURE_REQUEUE_SECS: u64 = 60;

/// What every pass shares: the diagnostics of the process and the counts of
/// the last pass that decided every candidate.
#[derive(Debug)]
pub struct Context {
    /// Diagnostics of the process.
    pub diagnostics: Diagnostics,
    /// Counts held in memory.
    pub state: LabelerStatus,
}

/// The state of the whole process.
#[derive(Debug)]
pub struct State {
    /// Diagnostics of the process.
    pub diagnostics: Diagnostics,
}

impl State {
    /// The state of a process that starts at `now`.
    pub fn new(now: Timestamp) -> (state: Self)
        ensures
            state.diagnostics.last_event == now,
            state.diagnostics.reporter@ == crate::diagnostics::reporter_name(),
    {
        State { diagnostics: Diagnostics::new(now) }
    }

    /// A copy of the diagnostics.
    pub fn diagnostics(&self) -> (diagnostics: Diagnostics)
        ensures
            diagnostics == self.diagnostics,
    {
        self.diagnostics.clone()
    }

    /// The context with which passes start: the diagnostics of the process
    /// and counts of zero.
    pub fn to_ctrl_context(&self) -> (context: Context)
        ensures
            context.diagnostics == self.diagnostics,
            context.state == (LabelerStatus {
                resources_matched: 0,
                resources_labeled: 0,
                resources_skipped: 0,
            }),
    {
        Context {
            diagnostics: self.diagnostics.clone(),
            state: LabelerStatus { resources_skipped: 0, resources_labeled: 0, resources_matched: 0 },
        }
    }
}

/// A candidate: one object of the target kind.
#[derive(Debug)]
pub struct Candidate {
    /// Name, namespace and labels of the object.
    pub metadata: ObjectMeta,
    /// Kind of the object, where the cluster reported one.
    pub kind: Option<String>,
    /// The object as JSON text, or the reason why it could not be written as
    /// JSON.
    pub document: Result<String, String>,
}

/// The request to set labels on one candidate, preceded by a notification.
#[derive(Debug)]
pub struct LabelPatch {
    /// Notification to emit before the patch.
    pub notification: Notification,
    /// Name of the candidate.
    pub name: String,
    /// Namespace of the candidate; none for a cluster-scoped object.
    pub namespace: Option<String>,
    /// Labels of the merge patch.
    pub labels: Labels,
}

impl LabelPatch {
    /// The body of the merge patch.
    pub fn body(&self) -> (body: serde_json::Value)
        ensures
            json_doc(body) == label_patch_doc(self.labels@),
    {
        merge_patch_body(&self.labels)
    }
}

/// The request to write counts to the status of a policy document.
#[derive(Debug)]
pub struct StatusFlush {
    /// Namespace of the policy document.
    pub namespace: String,
    /// Name of the policy document.
    pub name: String,
    /// Counts to write.
    pub status: LabelerStatus,
}

/// The body of the merge patch that writes `status`.
pub open spec fn status_patch_doc(status: LabelerStatus) -> JsonDoc {
    single_member(
        "status"@,
        JsonDoc::Object(
            Map::empty().insert(
                "resourcesMatched"@,
                JsonDoc::Number(status.resources_matched as int),
            ).insert("resourcesLabeled"@, JsonDoc::Number(status.resources_labeled as int)).insert(
                "resourcesSkipped"@,
                JsonDoc::Number(status.resources_skipped as int),
            ),
        ),
    )
}

impl StatusFlush {
    /// The body of the merge patch.
    pub fn body(&self) -> (body: serde_json::Value)
        ensures
            json_doc(body) == status_patch_doc(self.status),
    {
        let mut counts = json_empty_object();
        json_set_member(&mut counts, "resourcesMatched", json_number(self.status.resources_matched));
        json_set_member(&mut counts, "resourcesLabeled", json_number(self.status.resources_labeled));
        json_set_member(&mut counts, "resourcesSkipped", json_number(self.status.resources_skipped));
        json_wrap("status", counts)
    }
}

/// The text of the failure to find the namespace of a policy document.
pub open spec fn missing_namespace() -> Seq<char> {
    "Unable to get source namespace"@
}

/// The text of the failure to find the name of a policy document.
pub open spec fn missing_name() -> Seq<char> {
    "Object has a missing name"@
}

/// The text of the failure to find the identifier of a policy document.
pub open spec fn missing_uid() -> Seq<char> {
    "Unable to find objectId"@
}

/// Prepares the request that writes the counts held in `ctx` to the status of
/// `doc`. A replica that does not lead writes nothing: it gets no request.
/// On a leading replica the request fails with `Error::Identity` when the
/// document has no namespace, and otherwise when it has no name.
pub fn flush_state_to_api(doc: &Labeler, ctx: &Context, is_leader: bool) -> (flush: Result<
    Option<StatusFlush>,
    Error,
>)
    ensures
        !is_leader ==> flush matches Ok(None),
        is_leader ==> match (doc.metadata.namespace, doc.metadata.name) {
            (Some(namespace), Some(name)) => {
                &&& flush matches Ok(Some(request))
                &&& request.namespace == namespace
                &&& request.name == name
                &&& request.status == ctx.state
            },
            (Some(_), None) => flush matches Err(Error::Identity(text)) && text@ == missing_name(),
            (None, _) => flush matches Err(Error::Identity(text)) && text@ == missing_namespace(),
        },
{
    if !is_leader {
        return Ok(None);
    }
    let namespace = match &doc.metadata.namespace {
        Some(namespace) => namespace.clone(),
        None => {
            return Err(Error::Identity(String::from_str("Unable to get source namespace")));
        },
    };
    let name = match &doc.metadata.name {
        Some(name) => name.clone(),
        None => {
            return Err(Error::Identity(String::from_str("Object has a missing name")));
        },
    };
    Ok(Some(StatusFlush { namespace, name, status: ctx.state }))
}

/// What follows a failed pass: a warning for the operator, if the replica
/// leads, and the delay after which the pass is tried again.
#[derive(Debug)]
pub struct Retry {
    /// Warning to emit; emitting it may fail without consequence.
    pub notification: Option<Notification>,
    /// Seconds until the next attempt.
    pub requeue_after_secs: u64,
}

/// Decides what follows the failure `error` of a pass. The delay is the same
/// for every failure and every attempt.
pub fn error_policy(error: &Error, is_leader: bool) -> (retry: Retry)
    ensures
        retry.requeue_after_secs == FAILURE_REQUEUE_SECS,
        match retry.notification {
            Some(warning) => is_leader && warning.is_failure(*error),
            None => !is_leader,
        },
{
    let notification = if is_leader {
        Some(Notification::failed(error))
    } else {
        None
    };
    Retry { notification, requeue_after_secs: FAILURE_REQUEUE_SECS }
}

/// What is done with one candidate.
#[derive(Debug)]
pub enum Decision {
    /// The candidate is patched with these labels.
    Patch(Labels),
    /// The candidate is left as it is.
    Skip,
}

/// Decides what is done with a candidate: it is patched when the predicate
/// holds of it, the planner has a patch for it and the replica leads, and
/// skipped otherwise.
pub fn decide(eligible: bool, plan: Option<Labels>, is_leader: bool) -> (decision: Decision)
    ensures
        match decision {
            Decision::Patch(labels) => eligible && is_leader && plan == Some(labels),
            Decision::Skip => !(eligible && is_leader && plan is Some),
        },
{
    match plan {
        Some(labels) => if eligible && is_leader {
            Decision::Patch(labels)
        } else {
            Decision::Skip
        },
        None => Decision::Skip,
    }
}

/// What a pass is waiting for.
#[derive(Debug, Clone, Copy, PartialEq, Eq, Structural)]
pub enum Phase {
    /// The catalog of the group and version of the target.
    Discovering,
    /// The candidates of the target kind.
    Listing,
    /// The result of the patch of one candidate.
    Labeling,
    /// The result of writing the counts to the policy document.
    Flushing,
    /// Nothing: the pass has ended.
    Done,
}

/// What the cluster answered to the last request of a pass. A failed
/// request is reported with the text of its failure.
#[derive(Debug)]
pub enum Event {
    /// The resources that the cluster serves for the group and version.
    Catalog(Result<Vec<CatalogEntry>, String>),
    /// The objects of the target kind, across all namespaces.
    Candidates(Result<Vec<Candidate>, String>),
    /// The patch of the candidate was applied.
    Patched(Result<(), String>),
    /// The counts were written to the policy document.
    StatusFlushed(Result<(), String>),
}

/// What a pass asks its caller to do next.
#[derive(Debug)]
pub enum Action {
    /// Read the catalog of a group and version; answered by
    /// `Event::Catalog`.
    Discover(GroupVersion),
    /// List the objects of the resource across all namespaces; answered by
    /// `Event::Candidates`.
    List(TargetResource),
    /// Emit the notification, then patch the candidate; answered by
    /// `Event::Patched`.
    Patch(LabelPatch),
    /// Write the counts to the status of the policy document; answered by
    /// `Event::StatusFlushed`.
    FlushStatus(StatusFlush),
    /// The pass succeeded: emit the notification, if there is one, and look
    /// at the policy document again after the delay.
    Finish { notification: Option<Notification>, status: LabelerStatus, requeue_after_secs: u64 },
    /// The pass failed: hand the failure to `error_policy`.
    Fail(Error),
}

impl Action {
    /// The action changes the cluster: it patches a candidate, writes a
    /// status or emits a notification.
    pub open spec fn is_write(&self) -> bool {
        match self {
            Action::Patch(_) => true,
            Action::FlushStatus(_) => true,
            Action::Finish { notification, .. } => notification is Some,
            _ => false,
        }
    }

    /// The action reports a failure of discovery with the text `text`.
    pub open spec fn is_discovery_failure(&self, text: Seq<char>) -> bool {
        self matches Action::Fail(Error::Discovery(found)) && found@ == text
    }

    /// The action reports a failed request to the cluster with the text
    /// `text`.
    pub open spec fn is_api_failure(&self, text: Seq<char>) -> bool {
        self matches Action::Fail(Error::Api(found)) && found@ == text
    }
}

/// The counts of a pass that found `total` candidates.
pub open spec fn counts(total: int, labeled: int, skipped: int) -> LabelerStatus {
    LabelerStatus {
        resources_matched: total as i32,
        resources_labeled: labeled as i32,
        resources_skipped: skipped as i32,
    }
}

/// `patch` is the request to bring `candidate` up to date with `labeler`.
pub open spec fn patches(labeler: Labeler, candidate: Candidate, patch: LabelPatch) -> bool {
    &&& Some(patch.labels@) == planned_labels(labeler.spec.labels@, candidate.metadata.label_map())
    &&& patch.name@ == candidate.metadata.spec_name_any()
    &&& patch.namespace == candidate.metadata.namespace
    &&& patch.notification.is_labeling(
        kind_or_default(candidate.kind),
        candidate.metadata.spec_name_any(),
        labeler.metadata.spec_name_any(),
    )
}

/// `candidate` needs a patch to carry the labels that `labeler` requires.
pub open spec fn needs_patch(labeler: Labeler, candidate: Candidate) -> bool {
    planned_labels(labeler.spec.labels@, candidate.metadata.label_map()) is Some
}

/// From position `from` up to `to`, no candidate was both answered true by
/// the predicate and in need of a patch.
pub open spec fn none_due(
    labeler: Labeler,
    candidates: Seq<Candidate>,
    answers: Seq<bool>,
    from: int,
    to: int,
) -> bool {
    forall|j: int|
        from <= j < to ==> !(#[trigger] answers[j] && needs_patch(labeler, candidates[j]))
}

/// From position `from` up to `to`, every answer is that of a document
/// without a predicate: the candidate is eligible.
pub open spec fn all_eligible(answers: Seq<bool>, from: int, to: int) -> bool {
    forall|j: int| from <= j < to ==> #[trigger] answers[j]
}

/// The predicate could be asked about `candidate`: the candidate was written
/// as JSON and the engine takes that text as input.
pub open spec fn readable(candidate: Candidate) -> bool {
    candidate.document matches Ok(text) && input_refused(text@) is None
}

/// From position `from` up to `to`, the predicate could be asked about every
/// candidate.
pub open spec fn all_readable(candidates: Seq<Candidate>, from: int, to: int) -> bool {
    forall|j: int| from <= j < to ==> readable(#[trigger] candidates[j])
}

/// `error` is the failure to ask the predicate about `candidate`: the reason
/// why it was not written as JSON, else the reason why the engine refuses
/// its text as input, else a query without a boolean answer.
pub open spec fn fails_on(candidate: Candidate, error: Error) -> bool {
    match candidate.document {
        Err(reason) => error == Error::Serialization(reason),
        Ok(text) => match input_refused(text@) {
            Some(reason) => error matches Error::Serialization(found) && found@ == reason,
            None => error is PredicateEval,
        },
    }
}

/// The text of the failure to hold a number of candidates in a count.
pub open spec fn count_out_of_range() -> Seq<char> {
    "out of range integral type conversion attempted"@
}

/// The text of the failure that an event which answers no request causes.
pub open spec fn event_out_of_order() -> Seq<char> {
    "event out of order"@
}

/// The number of candidates as a count of the status. Fails with
/// `Error::Conversion` exactly when the number does not fit.
pub fn count_candidates(total: usize) -> (count: Result<i32, Error>)
    ensures
        match count {
            Ok(n) => n == total,
            Err(error) => {
                &&& total > i32::MAX
                &&& error matches Error::Conversion(text)
                &&& text@ == count_out_of_range()
            },
        },
{
    if total > 2147483647 {
        Err(Error::Conversion(String::from_str("out of range integral type conversion attempted")))
    } else {
        Ok(total as i32)
    }
}

/// One pass over the candidates of one policy document.
#[derive(Debug)]
pub struct Pass {
    phase: Phase,
    uid: String,
    engine: regorus::Engine,
    candidates: Vec<Candidate>,
    answers: Vec<bool>,
    cursor: usize,
    labeled: i32,
    skipped: i32,
}

impl Pass {
    #[verifier::type_invariant]
    spec fn counted(&self) -> bool {
        &&& self.candidates@.len() <= i32::MAX
        &&& 0 <= self.labeled
        &&& 0 <= self.skipped
        &&& self.labeled + self.skipped == self.cursor
        &&& self.cursor <= self.candidates@.len()
        &&& self.answers@.len() <= self.candidates@.len()
        &&& self.phase == Phase::Labeling ==> self.cursor < self.candidates@.len()
            && self.answers@.len() == self.cursor + 1
        &&& self.phase == Phase::Flushing ==> self.cursor == self.candidates@.len()
    }

    /// What the predicate answered for the candidates that it was asked
    /// about, in their order.
    pub closed spec fn answers(&self) -> Seq<bool> {
        self.answers@
    }

    /// Whether the engine of the pass reads rule sources in version 1 of the
    /// rule language.
    pub closed spec fn current_dialect(&self) -> bool {
        engine_is_v1(self.engine)
    }

    /// What the engine answers to the rule source `rule` of the policy
    /// document of the pass.
    pub open spec fn load_answer(&self, rule: crate::v1_alpha1::RegoRule) -> Result<
        Seq<char>,
        Seq<char>,
    > {
        rego_added(self.current_dialect(), policy_path(self.uid()), rule.policy@)
    }

    /// What the pass is waiting for.
    pub closed spec fn current_phase(&self) -> Phase {
        self.phase
    }

    /// The identifier of the policy document of the pass.
    pub closed spec fn uid(&self) -> Seq<char> {
        self.uid@
    }

    /// The candidates of the pass; none before they were listed.
    pub closed spec fn candidates(&self) -> Seq<Candidate> {
        self.candidates@
    }

    /// The number of candidates that have been decided. While the pass waits
    /// for a patch, this is the position of the candidate being patched.
    pub closed spec fn cursor(&self) -> int {
        self.cursor as int
    }

    /// The number of candidates that were patched.
    pub closed spec fn labeled(&self) -> int {
        self.labeled as int
    }

    /// The number of candidates that were left as they were.
    pub closed spec fn skipped(&self) -> int {
        self.skipped as int
    }

    /// The policies that the engine of the pass holds: of each its path and
    /// its source.
    pub closed spec fn policies(&self) -> Seq<(Seq<char>, Seq<char>)> {
        engine_policies(self.engine)
    }

    /// The engine of the pass holds a policy under the path that belongs to
    /// the identifier of its policy document.
    pub open spec fn holds_predicate(&self) -> bool {
        paths_of(self.policies()).contains(policy_path(self.uid()))
    }

    /// The predicate of a pass: the path that belongs to the identifier of
    /// its policy document, and the rule source.
    pub open spec fn predicate_of(&self, rule: crate::v1_alpha1::RegoRule) -> (Seq<char>, Seq<char>) {
        (policy_path(self.uid()), rule.policy@)
    }

    /// What the pass is waiting for.
    pub fn phase(&self) -> (phase: Phase)
        ensures
            phase == self.current_phase(),
    {
        self.phase
    }

    /// Begins a pass over `labeler`. A document without an identifier has
    /// not been persisted yet: the pass fails with `Error::Identity`.
    /// Otherwise the pass asks for the catalog of the group and version that
    /// the document names. Nothing is kept from an earlier pass.
    pub fn start(labeler: &Labeler) -> (next: (Pass, Action))
        ensures
            !next.1.is_write(),
            next.0.candidates().len() == 0,
            next.0.answers().len() == 0,
            next.0.policies().len() == 0,
            next.0.current_dialect(),
            match labeler.metadata.uid {
                None => {
                    &&& next.0.current_phase() == Phase::Done
                    &&& next.1 matches Action::Fail(Error::Identity(text))
                    &&& text@ == missing_uid()
                },
                Some(uid) => {
                    &&& next.0.current_phase() == Phase::Discovering
                    &&& next.0.uid() == uid@
                    &&& next.1 matches Action::Discover(gv)
                    &&& (gv.group@, gv.version@) == split_group_version(labeler.spec.resource_api@)
                },
            },
    {
        let engine = regorus::Engine::new();
        match &labeler.metadata.uid {
            None => (
                Pass {
                    phase: Phase::Done,
                    uid: String::new(),
                    engine,
                    candidates: Vec::new(),
                    answers: Vec::new(),
                    cursor: 0,
                    labeled: 0,
                    skipped: 0,
                },
                Action::Fail(Error::Identity(String::from_str("Unable to find objectId"))),
            ),
            Some(uid) => match parse_api_version(labeler.spec.resource_api.as_str()) {
                Ok(gv) => (
                    Pass {
                        phase: Phase::Discovering,
                        uid: uid.clone(),
                        engine,
                        candidates: Vec::new(),
                        answers: Vec::new(),
                        cursor: 0,
                        labeled: 0,
                        skipped: 0,
                    },
                    Action::Discover(gv),
                ),
                Err(error) => (
                    Pass {
                        phase: Phase::Done,
                        uid: uid.clone(),
                        engine,
                        candidates: Vec::new(),
                        answers: Vec::new(),
                        cursor: 0,
                        labeled: 0,
                        skipped: 0,
                    },
                    Action::Fail(error),
                ),
            },
        }
    }

    /// What the pass does with the candidates from position `start` on, having
    /// patched `labeled` and skipped `skipped` candidates before and heard the
    /// answers `answered` of the predicate.
    ///
    /// The candidates are asked about in order, and each answer is kept. The
    /// pass asks for the patch of the first candidate that was answered true
    /// and needs a patch. Without such a candidate it replaces the counts in
    /// the context and, on a leading replica, asks for them to be written,
    /// while another replica finishes at once. A candidate that the predicate
    /// cannot be asked about ends the pass at that candidate.
    pub open spec fn continues(
        labeler: Labeler,
        before: Context,
        after: Context,
        candidates: Seq<Candidate>,
        answered: Seq<bool>,
        start: int,
        labeled: int,
        skipped: int,
        is_leader: bool,
        now: Timestamp,
        next: Pass,
        action: Action,
    ) -> bool {
        let total = candidates.len() as int;
        let last = counts(total, labeled, skipped + (total - start));
        let heard = next.answers();
        let at = next.cursor();
        &&& heard.take(start) == answered
        &&& start <= at <= total
        &&& labeler.spec.rego is None ==> all_eligible(heard, start, heard.len() as int)
        &&& labeler.spec.rego is Some ==> all_readable(candidates, start, heard.len() as int)
        &&& is_leader ==> none_due(labeler, candidates, heard, start, at)
        &&& match action {
            Action::Patch(patch) => {
                &&& is_leader
                &&& next.current_phase() == Phase::Labeling
                &&& at < total
                &&& heard.len() == at + 1
                &&& heard[at]
                &&& next.labeled() == labeled
                &&& next.skipped() == skipped + (at - start)
                &&& patches(labeler, candidates[at], patch)
                &&& after == before
            },
            Action::FlushStatus(flush) => {
                &&& is_leader
                &&& next.current_phase() == Phase::Flushing
                &&& at == total
                &&& heard.len() == total
                &&& next.labeled() == labeled
                &&& next.skipped() == skipped + (total - start)
                &&& flush.status == last
                &&& last.is_consistent()
                &&& Some(flush.namespace) == labeler.metadata.namespace
                &&& Some(flush.name) == labeler.metadata.name
                &&& after.state == last
                &&& after.diagnostics == before.diagnostics
            },
            Action::Finish { notification, status, requeue_after_secs } => {
                &&& !is_leader
                &&& next.current_phase() == Phase::Done
                &&& at == total
                &&& heard.len() == total
                &&& notification is None
                &&& status == last
                &&& last.is_consistent()
                &&& requeue_after_secs == SUCCESS_REQUEUE_SECS
                &&& after.state == last
                &&& after.diagnostics.last_event == now
                &&& after.diagnostics.reporter == before.diagnostics.reporter
            },
            Action::Fail(error) => {
                &&& next.current_phase() == Phase::Done
                &&& if error is Identity {
                    &&& is_leader
                    &&& at == total
                    &&& heard.len() == total
                    &&& labeler.metadata.namespace is None || labeler.metadata.name is None
                    &&& after.state == last
                    &&& after.diagnostics == before.diagnostics
                } else {
                    &&& labeler.spec.rego is Some
                    &&& at < total
                    &&& heard.len() == at
                    &&& fails_on(candidates[at], error)
                    &&& after == before
                }
            },
            _ => false,
        }
    }

    /// A pass that has ended.
    fn ended(
        uid: String,
        engine: regorus::Engine,
        candidates: Vec<Candidate>,
        answers: Vec<bool>,
        cursor: usize,
        labeled: i32,
        skipped: i32,
    ) -> (pass: Pass)
        requires
            candidates@.len() <= i32::MAX,
            answers@.len() <= candidates@.len(),
            0 <= labeled,
            0 <= skipped,
            labeled + skipped == cursor <= candidates@.len(),
        ensures
            pass.current_phase() == Phase::Done,
            pass.uid() == uid@,
            pass.candidates() == candidates@,
            pass.answers() == answers@,
            pass.policies() == engine_policies(engine),
            pass.current_dialect() == engine_is_v1(engine),
            pass.cursor() == cursor,
            pass.labeled() == labeled,
            pass.skipped() == skipped,
    {
        Pass { phase: Phase::Done, uid, engine, candidates, answers, cursor, labeled, skipped }
    }

    /// Decides the candidates from `start` on.
    fn scan(
        labeler: &Labeler,
        ctx: &mut Context,
        uid: String,
        engine: regorus::Engine,
        candidates: Vec<Candidate>,
        answered: Vec<bool>,
        start: usize,
        labeled: i32,
        skipped: i32,
        is_leader: bool,
        now: Timestamp,
    ) -> (next: (Pass, Action))
        requires
            candidates@.len() <= i32::MAX,
            answered@.len() == start,
            0 <= labeled,
            0 <= skipped,
            labeled + skipped == start <= candidates@.len(),
        ensures
            Self::continues(
                *labeler,
                *old(ctx),
                *final(ctx),
                candidates@,
                answered@,
                start as int,
                labeled as int,
                skipped as int,
                is_leader,
                now,
                next.0,
                next.1,
            ),
            next.0.uid() == uid@,
            next.0.candidates() == candidates@,
            next.0.policies() == engine_policies(engine),
            next.0.current_dialect() == engine_is_v1(engine),
    {
        let mut machine = engine;
        let mut heard = answered;
        let mut passed = skipped;
        let rule_name = labeler.metadata.name_any();
        let mut i: usize = start;
        proof {
            assert(heard@.take(start as int) =~= answered@);
        }
        while i < candidates.len()
            invariant
                start <= i <= candidates@.len() <= i32::MAX,
                0 <= labeled,
                0 <= skipped,
                passed == skipped + (i - start),
                labeled + passed == i,
                heard@.len() == i,
                heard@.take(start as int) == answered@,
                *ctx == *old(ctx),
                engine_policies(machine) == engine_policies(engine),
                engine_is_v1(machine) == engine_is_v1(engine),
                rule_name@ == labeler.metadata.spec_name_any(),
                labeler.spec.rego is None ==> all_eligible(heard@, start as int, i as int),
                labeler.spec.rego is Some ==> all_readable(candidates@, start as int, i as int),
                is_leader ==> none_due(*labeler, candidates@, heard@, start as int, i as int),
            decreases candidates@.len() - i,
        {
            let eligible = match evaluate_candidate(
                &mut machine,
                labeler.spec.rego.as_ref(),
                &candidates[i].document,
            ) {
                Ok(eligible) => eligible,
                Err(error) => {
                    return (
                        Self::ended(uid, machine, candidates, heard, i, labeled, passed),
                        Action::Fail(error),
                    );
                },
            };
            let ghost earlier = heard@;
            heard.push(eligible);
            proof {
                assert(heard@.take(start as int) =~= earlier.take(start as int));
            }
            let plan = plan_labels(&labeler.spec.labels, candidates[i].metadata.labels.as_ref());
            match decide(eligible, plan, is_leader) {
                Decision::Patch(labels) => {
                    let name = candidates[i].metadata.name_any();
                    let notification = Notification::labeling(
                        &candidates[i].kind,
                        name.as_str(),
                        rule_name.as_str(),
                    );
                    let namespace = match &candidates[i].metadata.namespace {
                        Some(namespace) => Some(namespace.clone()),
                        None => None,
                    };
                    let patch = LabelPatch { notification, name, namespace, labels };
                    return (
                        Pass {
                            phase: Phase::Labeling,
                            uid,
                            engine: machine,
                            candidates,
                            answers: heard,
                            cursor: i,
                            labeled,
                            skipped: passed,
                        },
                        Action::Patch(patch),
                    );
                },
                Decision::Skip => {
                    passed = passed + 1;
                },
            }
            i += 1;
        }
        let status = LabelerStatus {
            resources_matched: candidates.len() as i32,
            resources_labeled: labeled,
            resources_skipped: passed,
        };
        ctx.state = status;
        match flush_state_to_api(labeler, ctx, is_leader) {
            Ok(Some(flush)) => (
                Pass {
                    phase: Phase::Flushing,
                    uid,
                    engine: machine,
                    candidates,
                    answers: heard,
                    cursor: i,
                    labeled,
                    skipped: passed,
                },
                Action::FlushStatus(flush),
            ),
            Ok(None) => {
                ctx.diagnostics.record_success(now);
                (
                    Self::ended(uid, machine, candidates, heard, i, labeled, passed),
                    Action::Finish {
                        notification: None,
                        status,
                        requeue_after_secs: SUCCESS_REQUEUE_SECS,
                    },
                )
            },
            Err(error) => (
                Self::ended(uid, machine, candidates, heard, i, labeled, passed),
                Action::Fail(error),
            ),
        }
    }

    /// The counts of the pass.
    pub open spec fn status(&self) -> LabelerStatus {
        counts(self.candidates().len() as int, self.labeled(), self.skipped())
    }

    /// Takes the answer to the last request and decides what is done next.
    ///
    /// * The catalog arrives: the kind of the document is resolved in it and
    ///   the candidates are asked for.
    /// * The candidates arrive: the predicate is loaded, unless the engine
    ///   holds it already, and the pass fails exactly when the engine refuses
    ///   its source; then the candidates are decided in order, as
    ///   `continues` says.
    /// * A patch was applied: the candidate counts as labeled and the
    ///   candidates after it are decided.
    /// * The counts were written: the pass finishes, with a notification if
    ///   the replica leads, and the time of success is recorded.
    ///
    /// A failed request ends the pass, and so does an event that does not
    /// answer the last request. Whether the replica leads is asked anew at
    /// every step: while it does not, no action that changes the cluster is
    /// returned. The counts in `ctx` are replaced only once every candidate
    /// has been decided.
    pub fn step(
        self,
        labeler: &Labeler,
        ctx: &mut Context,
        event: Event,
        is_leader: bool,
        now: Timestamp,
    ) -> (next: (Pass, Action))
        ensures
            !is_leader ==> !next.1.is_write(),
            next.0.uid() == self.uid(),
            next.0.current_dialect() == self.current_dialect(),
            next.0.candidates().len() <= i32::MAX,
            next.1 is Fail || next.1 is Finish <==> next.0.current_phase() == Phase::Done,
            !(next.1 is Discover),
            final(ctx).state == old(ctx).state || (final(ctx).state.is_consistent()
                && final(ctx).state.resources_matched == next.0.candidates().len()),
            match (self.current_phase(), event) {
                (Phase::Discovering, Event::Catalog(Err(reason))) => {
                    &&& next.1.is_discovery_failure("Kube Error: "@ + reason@)
                    &&& *final(ctx) == *old(ctx)
                },
                (Phase::Discovering, Event::Catalog(Ok(catalog))) => {
                    &&& *final(ctx) == *old(ctx)
                    &&& next.0.policies() == self.policies()
                    &&& match first_of_kind(catalog@, labeler.spec.resource_kind@) {
                        Some(at) => {
                            &&& next.0.current_phase() == Phase::Listing
                            &&& next.1 matches Action::List(target)
                            &&& (target.group@, target.version@) == split_group_version(
                                labeler.spec.resource_api@,
                            )
                            &&& target.kind == catalog@[at].kind
                            &&& target.plural == catalog@[at].plural
                            &&& target.namespaced == catalog@[at].namespaced
                            &&& target.verbs@ == catalog@[at].verbs@
                        },
                        None => next.1.is_discovery_failure(kind_not_found()),
                    }
                },
                (Phase::Listing, Event::Candidates(Err(reason))) => {
                    &&& next.1.is_api_failure(reason@)
                    &&& *final(ctx) == *old(ctx)
                },
                (Phase::Listing, Event::Candidates(Ok(list))) => {
                    if list@.len() > i32::MAX {
                        &&& next.1 matches Action::Fail(Error::Conversion(text))
                        &&& text@ == count_out_of_range()
                        &&& *final(ctx) == *old(ctx)
                    } else if labeler.spec.rego matches Some(rule) && !self.holds_predicate()
                        && self.load_answer(rule) is Err {
                        &&& next.1 matches Action::Fail(Error::PredicateLoad(reason))
                        &&& self.load_answer(labeler.spec.rego->Some_0) == Err::<
                            Seq<char>,
                            Seq<char>,
                        >(reason@)
                        &&& *final(ctx) == *old(ctx)
                    } else {
                        &&& next.0.candidates() == list@
                        &&& next.0.policies() == match labeler.spec.rego {
                            Some(rule) if !self.holds_predicate() => self.policies().push(
                                self.predicate_of(rule),
                            ),
                            _ => self.policies(),
                        }
                        &&& Self::continues(
                            *labeler,
                            *old(ctx),
                            *final(ctx),
                            list@,
                            Seq::empty(),
                            0,
                            0,
                            0,
                            is_leader,
                            now,
                            next.0,
                            next.1,
                        )
                    }
                },
                (Phase::Labeling, Event::Patched(Err(reason))) => {
                    &&& next.1.is_api_failure(reason@)
                    &&& *final(ctx) == *old(ctx)
                },
                (Phase::Labeling, Event::Patched(Ok(_))) => {
                    &&& next.0.candidates() == self.candidates()
                    &&& next.0.policies() == self.policies()
                    &&& Self::continues(
                        *labeler,
                        *old(ctx),
                        *final(ctx),
                        self.candidates(),
                        self.answers(),
                        self.cursor() + 1,
                        self.labeled() + 1,
                        self.skipped(),
                        is_leader,
                        now,
                        next.0,
                        next.1,
                    )
                },
                (Phase::Flushing, Event::StatusFlushed(Err(reason))) => {
                    &&& next.1.is_api_failure(reason@)
                    &&& *final(ctx) == *old(ctx)
                },
                (Phase::Flushing, Event::StatusFlushed(Ok(_))) => {
                    &&& next.1 matches Action::Finish { notification, status, requeue_after_secs }
                    &&& status == self.status()
                    &&& status.is_consistent()
                    &&& requeue_after_secs == SUCCESS_REQUEUE_SECS
                    &&& match notification {
                        Some(notice) => is_leader && notice.is_completion(status),
                        None => !is_leader,
                    }
                    &&& final(ctx).state == old(ctx).state
                    &&& final(ctx).diagnostics.last_event == now
                    &&& final(ctx).diagnostics.reporter == old(ctx).diagnostics.reporter
                },
                _ => {
                    &&& next.1.is_api_failure(event_out_of_order())
                    &&& *final(ctx) == *old(ctx)
                },
            },
    {
        proof {
            use_type_invariant(&self);
        }
        let Pass { phase, uid, engine, candidates, answers, cursor, labeled, skipped } = self;
        match (phase, event) {
            (Phase::Discovering, Event::Catalog(Err(reason))) => {
                let text = String::from_str("Kube Error: ").concat(reason.as_str());
                (
                    Self::ended(uid, engine, candidates, answers, cursor, labeled, skipped),
                    Action::Fail(Error::Discovery(text)),
                )
            },
            (Phase::Discovering, Event::Catalog(Ok(catalog))) => {
                match discover_target_resources(labeler, &catalog) {
                    Ok(target) => (
                        Pass {
                            phase: Phase::Listing,
                            uid,
                            engine,
                            candidates,
                            answers,
                            cursor,
                            labeled,
                            skipped,
                        },
                        Action::List(target),
                    ),
                    Err(error) => (
                        Self::ended(uid, engine, candidates, answers, cursor, labeled, skipped),
                        Action::Fail(error),
                    ),
                }
            },
            (Phase::Listing, Event::Candidates(Err(reason))) => (
                Self::ended(uid, engine, candidates, answers, cursor, labeled, skipped),
                Action::Fail(Error::Api(reason)),
            ),
            (Phase::Listing, Event::Candidates(Ok(list))) => {
                match count_candidates(list.len()) {
                    Ok(_) => {},
                    Err(error) => {
                        return (
                            Self::ended(uid, engine, candidates, answers, cursor, labeled, skipped),
                            Action::Fail(error),
                        );
                    },
                }
                let mut machine = engine;
                match handle_rego_rule(&mut machine, labeler.spec.rego.as_ref(), uid.as_str()) {
                    Ok(_) => {},
                    Err(error) => {
                        return (
                            Self::ended(uid, machine, candidates, answers, cursor, labeled, skipped),
                            Action::Fail(error),
                        );
                    },
                }
                Self::scan(labeler, ctx, uid, machine, list, Vec::new(), 0, 0, 0, is_leader, now)
            },
            (Phase::Labeling, Event::Patched(Err(reason))) => (
                Self::ended(uid, engine, candidates, answers, cursor, labeled, skipped),
                Action::Fail(Error::Api(reason)),
            ),
            (Phase::Labeling, Event::Patched(Ok(_))) => Self::scan(
                labeler,
                ctx,
                uid,
                engine,
                candidates,
                answers,
                cursor + 1,
                labeled + 1,
                skipped,
                is_leader,
                now,
            ),
            (Phase::Flushing, Event::StatusFlushed(Err(reason))) => (
                Self::ended(uid, engine, candidates, answers, cursor, labeled, skipped),
                Action::Fail(Error::Api(reason)),
            ),
            (Phase::Flushing, Event::StatusFlushed(Ok(_))) => {
                let status = LabelerStatus {
                    resources_matched: candidates.len() as i32,
                    resources_labeled: labeled,
                    resources_skipped: skipped,
                };
                let notification = if is_leader {
                    Some(Notification::completed(&status))
                } else {
                    None
                };
                ctx.diagnostics.record_success(now);
                (
                    Self::ended(uid, engine, candidates, answers, cursor, labeled, skipped),
                    Action::Finish {
                        notification,
                        status,
                        requeue_after_secs: SUCCESS_REQUEUE_SECS,
                    },
                )
            },
            _ => (
                Self::ended(uid, engine, candidates, answers, cursor, labeled, skipped),
                Action::Fail(Error::Api(String::from_str("event out of order"))),
            ),
        }
    }
}

} // verus!
