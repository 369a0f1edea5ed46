//! The predicate engine: loads the rule source of a policy document once and
//! evaluates its query against every candidate.
//!
//! The rules are parsed and evaluated by `regorus`. Its calls stand behind
//! stated assumptions; what this module decides around them is verified.

use crate::error::Error;
use crate::rego::{
    add_policy, engine_is_v1, engine_policies, eval_bool_query, input_refused, loaded_paths,
    policy_paths, rego_added, set_input_json,
};
use crate::v1_alpha1::RegoRule;
use vstd::prelude::*;

verus! {

/// The path under which the rule source of the policy document with
/// identifier `uid` is loaded.
pub open spec fn policy_path(uid: Seq<char>) -> Seq<char> {
    uid + ".rego"@
}

/// What loading a rule source amounts to for the pass: success, or a failure
/// of the predicate to load.
pub fn load_outcome(added: Result<String, String>) -> (outcome: Result<(), Error>)
    ensures
        match added {
            Ok(_) => outcome is Ok,
            Err(reason) => outcome == Err::<(), Error>(Error::PredicateLoad(reason)),
        },
{
    match added {
        Ok(_) => Ok(()),
        Err(reason) => Err(Error::PredicateLoad(reason)),
    }
}

/// What setting the input document amounts to for the pass: success, or a
/// candidate that could not be turned into input.
pub fn input_outcome(set: Result<(), String>) -> (outcome: Result<(), Error>)
    ensures
        match set {
            Ok(_) => outcome is Ok,
            Err(reason) => outcome == Err::<(), Error>(Error::Serialization(reason)),
        },
{
    match set {
        Ok(_) => Ok(()),
        Err(reason) => Err(Error::Serialization(reason)),
    }
}

/// What the answer to a query amounts to for the pass: the boolean, or a
/// failure of the predicate to evaluate.
pub fn query_outcome(answer: Result<bool, String>) -> (outcome: Result<bool, Error>)
    ensures
        match answer {
            Ok(eligible) => outcome == Ok::<bool, Error>(eligible),
            Err(reason) => outcome == Err::<bool, Error>(Error::PredicateEval(reason)),
        },
{
    match answer {
        Ok(eligible) => Ok(eligible),
        Err(reason) => Err(Error::PredicateEval(reason)),
    }
}

/// Whether one of `paths` is `wanted`.
fn has_path(paths: &Vec<String>, wanted: &String) -> (found: bool)
    ensures
        found == exists|i: int| 0 <= i < paths@.len() && (#[trigger] paths@[i])@ == wanted@,
{
    let mut i: usize = 0;
    while i < paths.len()
        invariant
            i <= paths@.len(),
            forall|j: int| 0 <= j < i ==> (#[trigger] paths@[j])@ != wanted@,
        decreases paths@.len() - i,
    {
        if paths[i] == *wanted {
            return true;
        }
        i += 1;
    }
    false
}

/// Loads the rule source of `rule` into `engine` under the path that belongs
/// to `uid`, unless the engine already holds a policy under that path.
/// Without a rule nothing is loaded.
///
/// A rule source that the engine holds no policy for is loaded exactly when
/// the engine accepts it; a refused source is reported as
/// `Error::PredicateLoad` with the reason that the engine gave.
pub fn handle_rego_rule(engine: &mut regorus::Engine, rule: Option<&RegoRule>, uid: &str) -> (loaded:
    Result<(), Error>)
    ensures
        engine_is_v1(*final(engine)) == engine_is_v1(*old(engine)),
        match rule {
            None => loaded is Ok && *final(engine) == *old(engine),
            Some(rule) => if policy_paths(*old(engine)).contains(policy_path(uid@)) {
                loaded is Ok && *final(engine) == *old(engine)
            } else {
                let answer = rego_added(
                    engine_is_v1(*old(engine)),
                    policy_path(uid@),
                    rule.policy@,
                );
                match loaded {
                    Ok(_) => {
                        &&& answer is Ok
                        &&& engine_policies(*final(engine)) == engine_policies(*old(engine)).push(
                            (policy_path(uid@), rule.policy@),
                        )
                    },
                    Err(error) => {
                        &&& error matches Error::PredicateLoad(reason)
                        &&& answer == Err::<Seq<char>, Seq<char>>(reason@)
                        &&& engine_policies(*final(engine)) == engine_policies(*old(engine))
                            || engine_policies(*final(engine)) == engine_policies(
                            *old(engine),
                        ).push((policy_path(uid@), rule.policy@))
                    },
                }
            },
        },
{
    let rule = match rule {
        Some(rule) => rule,
        None => {
            return Ok(());
        },
    };
    let path = String::from_str(uid).concat(".rego");
    let paths = match loaded_paths(engine) {
        Ok(paths) => paths,
        Err(reason) => {
            return Err(Error::PredicateLoad(reason));
        },
    };
    let present = has_path(&paths, &path);
    proof {
        let held = policy_paths(*engine);
        if present {
            let i = choose|i: int| 0 <= i < paths@.len() && (#[trigger] paths@[i])@ == path@;
            assert(held[i] == path@);
        }
        if held.contains(path@) {
            let i = choose|i: int| 0 <= i < held.len() && held[i] == path@;
            assert(paths@[i]@ == path@);
        }
    }
    if present {
        return Ok(());
    }
    load_outcome(add_policy(engine, path, rule.policy.clone()))
}

/// What is handed to the engine to ask the predicate about one candidate.
#[derive(Debug)]
pub struct PredicateRequest {
    /// The input document: the candidate as JSON text.
    pub input: String,
    /// The query that is evaluated as a boolean.
    pub query: String,
}

/// Makes what is handed to the engine for one candidate: the candidate's
/// JSON text as the input document and the query of `rule`. A candidate that
/// could not be written as JSON is reported as `Error::Serialization` with
/// the reason.
pub fn predicate_request(rule: &RegoRule, document: &Result<String, String>) -> (request: Result<
    PredicateRequest,
    Error,
>)
    ensures
        match *document {
            Ok(text) => request matches Ok(made) && made.input == text && made.query == rule.query,
            Err(reason) => request == Err::<PredicateRequest, Error>(Error::Serialization(reason)),
        },
{
    match document {
        Ok(text) => Ok(PredicateRequest { input: text.clone(), query: rule.query.clone() }),
        Err(reason) => Err(Error::Serialization(reason.clone())),
    }
}

/// Decides whether a candidate is eligible for labeling. Without a rule every
/// candidate is. With one, the engine is handed what `predicate_request`
/// makes: the candidate's JSON text becomes its input document and the query
/// of the rule is evaluated as a boolean.
///
/// `document` is the candidate as JSON text, or the reason why it could not
/// be written as JSON. A text that the engine refuses as input is reported as
/// `Error::Serialization` with the reason that the engine gave. The answer to
/// the query is the engine's; a query without a boolean answer is reported as
/// `Error::PredicateEval`.
pub fn evaluate_candidate(
    engine: &mut regorus::Engine,
    rule: Option<&RegoRule>,
    document: &Result<String, String>,
) -> (eligible: Result<bool, Error>)
    ensures
        engine_policies(*final(engine)) == engine_policies(*old(engine)),
        engine_is_v1(*final(engine)) == engine_is_v1(*old(engine)),
        rule is None ==> eligible == Ok::<bool, Error>(true) && *final(engine) == *old(engine),
        rule is Some ==> match *document {
            Ok(text) => match input_refused(text@) {
                Some(reason) => {
                    &&& eligible matches Err(Error::Serialization(found))
                    &&& found@ == reason
                },
                None => eligible matches Err(error) ==> error is PredicateEval,
            },
            Err(reason) => eligible == Err::<bool, Error>(Error::Serialization(reason))
                && *final(engine) == *old(engine),
        },
{
    let rule = match rule {
        Some(rule) => rule,
        None => {
            return Ok(true);
        },
    };
    let request = match predicate_request(rule, document) {
        Ok(request) => request,
        Err(error) => {
            return Err(error);
        },
    };
    match input_outcome(set_input_json(engine, request.input.as_str())) {
        Ok(_) => {},
        Err(error) => {
            return Err(error);
        },
    }
    query_outcome(eval_bool_query(engine, request.query))
}

} // verus!
