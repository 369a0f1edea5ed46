//! The policy document (`Labeler`, group `stickerbomb.dev`, version
//! `v1alpha1`) and the parts of an object's metadata that the engine reads.

use crate::labels::Labels;
use vstd::prelude::*;

verus! {

/// Longest rule source, in characters, that a policy document may carry.
pub const MAX_POLICY_LEN: usize = 65536;

/// Longest query, in characters, that a policy document may carry.
pub const MAX_QUERY_LEN: usize = 1024;

/// The optional predicate of a policy document: rule source and a query that
/// is evaluated as a boolean for every candidate.
#[derive(Debug)]
pub struct RegoRule {
    /// Rule source that is loaded into the evaluation engine.
    pub policy: String,
    /// Query whose boolean result decides whether a candidate is labeled.
    pub query: String,
}

impl RegoRule {
    /// Both strings are present and within their limits.
    pub open spec fn is_valid(&self) -> bool {
        &&& 1 <= self.policy@.len() <= MAX_POLICY_LEN
        &&& 1 <= self.query@.len() <= MAX_QUERY_LEN
    }

    /// Checks the limits on the two strings.
    pub fn validate(&self) -> (valid: bool)
        ensures
            valid == self.is_valid(),
    {
        let policy_len = self.policy.as_str().unicode_len();
        let query_len = self.query.as_str().unicode_len();
        1 <= policy_len && policy_len <= MAX_POLICY_LEN && 1 <= query_len && query_len
            <= MAX_QUERY_LEN
    }
}

impl Clone for RegoRule {
    fn clone(&self) -> (copy: Self)
        ensures
            copy == *self,
    {
        RegoRule { policy: self.policy.clone(), query: self.query.clone() }
    }
}

/// What a policy document asks for.
#[derive(Debug)]
pub struct LabelerSpec {
    /// Group and version of the target resources, such as `v1` or `apps/v1`.
    pub resource_api: String,
    /// Kind of the target resources, such as `Pod`.
    pub resource_kind: String,
    /// Predicate that a candidate must satisfy; without one every candidate
    /// is eligible.
    pub rego: Option<RegoRule>,
    /// Labels that every eligible candidate must carry.
    pub labels: Labels,
}

impl LabelerSpec {
    /// At least one label is required and the predicate, if there is one, is
    /// valid.
    pub open spec fn is_valid(&self) -> bool {
        &&& self.labels@.len() >= 1
        &&& self.labels@.dom().finite()
        &&& self.rego matches Some(rule) ==> rule.is_valid()
    }

    /// Checks that a policy document can be enforced.
    pub fn validate(&self) -> (valid: bool)
        ensures
            valid == self.is_valid(),
    {
        if self.labels.len() == 0 {
            return false;
        }
        match &self.rego {
            Some(rule) => rule.validate(),
            None => true,
        }
    }
}

/// Outcome counts of the last successful pass over one policy document.
#[derive(Debug, Clone, Copy, PartialEq, Eq, Structural)]
pub struct LabelerStatus {
    /// Number of candidates of the target kind that were found.
    pub resources_matched: i32,
    /// Number of candidates that were patched.
    pub resources_labeled: i32,
    /// Number of candidates that were left as they were.
    pub resources_skipped: i32,
}

impl LabelerStatus {
    /// Every count is non-negative and each candidate was either labeled or
    /// skipped.
    pub open spec fn is_consistent(&self) -> bool {
        &&& 0 <= self.resources_labeled
        &&& 0 <= self.resources_skipped
        &&& self.resources_matched == self.resources_labeled + self.resources_skipped
    }
}

impl Default for LabelerStatus {
    fn default() -> (status: Self)
        ensures
            status == (LabelerStatus {
                resources_matched: 0,
                resources_labeled: 0,
                resources_skipped: 0,
            }),
    {
        LabelerStatus { resources_matched: 0, resources_labeled: 0, resources_skipped: 0 }
    }
}

/// The metadata of a cluster object, as far as the engine reads it.
#[derive(Debug)]
pub struct ObjectMeta {
    /// Name of the object.
    pub name: Option<String>,
    /// Prefix from which the server generates a name.
    pub generate_name: Option<String>,
    /// Namespace of the object; none for a cluster-scoped object.
    pub namespace: Option<String>,
    /// Identifier that the server assigns when it persists the object.
    pub uid: Option<String>,
    /// Labels that the object carries.
    pub labels: Option<Labels>,
}

impl ObjectMeta {
    /// The labels of the object as a mapping: empty where it has none.
    pub open spec fn label_map(&self) -> Map<Seq<char>, Seq<char>> {
        match self.labels {
            Some(labels) => labels@,
            None => Map::empty(),
        }
    }

    /// The name by which the object is reported: its name, else the prefix of
    /// its generated name, else nothing.
    pub open spec fn spec_name_any(&self) -> Seq<char> {
        match self.name {
            Some(name) => name@,
            None => match self.generate_name {
                Some(prefix) => prefix@,
                None => Seq::empty(),
            },
        }
    }

    /// The name by which the object is reported.
    pub fn name_any(&self) -> (name: String)
        ensures
            name@ == self.spec_name_any(),
    {
        match &self.name {
            Some(name) => name.clone(),
            None => match &self.generate_name {
                Some(prefix) => prefix.clone(),
                None => String::new(),
            },
        }
    }
}

impl Default for ObjectMeta {
    fn default() -> (meta: Self)
        ensures
            meta.name is None,
            meta.generate_name is None,
            meta.namespace is None,
            meta.uid is None,
            meta.labels is None,
    {
        ObjectMeta { name: None, generate_name: None, namespace: None, uid: None, labels: None }
    }
}

/// A policy document: metadata, what it asks for, and the counts of the last
/// successful pass.
#[derive(Debug)]
pub struct Labeler {
    /// Identity of the document.
    pub metadata: ObjectMeta,
    /// What the document asks for.
    pub spec: LabelerSpec,
    /// Counts that were last written back.
    pub status: Option<LabelerStatus>,
}

} // verus!
