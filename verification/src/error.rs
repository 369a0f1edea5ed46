//! Failures of a reconciliation pass.

use vstd::prelude::*;

verus! {

/// Why a reconciliation pass stopped. Each variant carries the text that
/// describes the failure.
#[derive(Debug)]
pub enum Error {
    /// The group and version could not be resolved, the cluster does not serve
    /// them, or they hold no resource of the requested kind.
    Discovery(String),
    /// The rule source of the predicate was rejected.
    PredicateLoad(String),
    /// The query of the predicate could not be evaluated to a boolean.
    PredicateEval(String),
    /// The policy document lacks a part of its identity.
    Identity(String),
    /// The cluster refused or failed a list or patch request.
    Api(String),
    /// A candidate could not be turned into input for the predicate.
    Serialization(String),
    /// A count does not fit in the status of the policy document.
    Conversion(String),
}

impl Error {
    /// The text that the variant carries.
    pub open spec fn detail(&self) -> Seq<char> {
        match self {
            Error::Discovery(text) => text@,
            Error::PredicateLoad(text) => text@,
            Error::PredicateEval(text) => text@,
            Error::Identity(text) => text@,
            Error::Api(text) => text@,
            Error::Serialization(text) => text@,
            Error::Conversion(text) => text@,
        }
    }

    /// What precedes the carried text in the message of the variant.
    pub open spec fn prefix(&self) -> Seq<char> {
        match self {
            Error::Discovery(_) => Seq::empty(),
            Error::PredicateLoad(_) => "Rego Error: "@,
            Error::PredicateEval(_) => "Rego Error: "@,
            Error::Identity(_) => Seq::empty(),
            Error::Api(_) => "Kube Error: "@,
            Error::Serialization(_) => "Serialization Error: "@,
            Error::Conversion(_) => "Conversion Error: "@,
        }
    }

    /// The message of the failure: the prefix of its variant, then its text.
    pub open spec fn spec_message(&self) -> Seq<char> {
        self.prefix() + self.detail()
    }

    /// The message of the failure, as it is logged and reported.
    pub fn message(&self) -> (text: String)
        ensures
            text@ == self.spec_message(),
    {
        match self {
            Error::Discovery(detail) => {
                assert(Seq::<char>::empty() + detail@ =~= detail@);
                detail.clone()
            },
            Error::PredicateLoad(detail) => String::from_str("Rego Error: ").concat(
                detail.as_str(),
            ),
            Error::PredicateEval(detail) => String::from_str("Rego Error: ").concat(
                detail.as_str(),
            ),
            Error::Identity(detail) => {
                assert(Seq::<char>::empty() + detail@ =~= detail@);
                detail.clone()
            },
            Error::Api(detail) => String::from_str("Kube Error: ").concat(detail.as_str()),
            Error::Serialization(detail) => String::from_str("Serialization Error: ").concat(
                detail.as_str(),
            ),
            Error::Conversion(detail) => String::from_str("Conversion Error: ").concat(
                detail.as_str(),
            ),
        }
    }
}

impl Clone for Error {
    fn clone(&self) -> (copy: Self)
        ensures
            copy == *self,
    {
        match self {
            Error::Discovery(text) => Error::Discovery(text.clone()),
            Error::PredicateLoad(text) => Error::PredicateLoad(text.clone()),
            Error::PredicateEval(text) => Error::PredicateEval(text.clone()),
            Error::Identity(text) => Error::Identity(text.clone()),
            Error::Api(text) => Error::Api(text.clone()),
            Error::Serialization(text) => Error::Serialization(text.clone()),
            Error::Conversion(text) => Error::Conversion(text.clone()),
        }
    }
}

} // verus!
