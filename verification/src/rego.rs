//! What is assumed of the rule engine `regorus`.
//!
//! The engine reports failures as values of an error type of its own; the
//! functions here hand on the text of such a value.

use vstd::prelude::*;

verus! {

/// `regorus::Engine`, the rule engine. Nothing is assumed of its inside;
/// contracts speak of the policies it holds through `engine_policies` and of
/// the dialect it reads through `engine_is_v1`.
#[verifier::external_type_specification]
#[verifier::external_body]
pub struct ExEngine(regorus::Engine);

/// The policies that an engine holds, in the order in which they were added:
/// of each its path and its source.
pub uninterp spec fn engine_policies(engine: regorus::Engine) -> Seq<(Seq<char>, Seq<char>)>;

/// Whether an engine reads rule sources in version 1 of the rule language.
pub uninterp spec fn engine_is_v1(engine: regorus::Engine) -> bool;

/// What `regorus::Engine::add_policy` answers for the rule source `source`
/// under `path`, on an engine that reads version 1 if `v1`: the package that
/// the source declares, or the text of the reason why the source is refused.
pub uninterp spec fn rego_added(v1: bool, path: Seq<char>, source: Seq<char>) -> Result<
    Seq<char>,
    Seq<char>,
>;

/// The text of the reason why `regorus::Engine::set_input_json` refuses
/// `text` as an input document, if it does.
pub uninterp spec fn input_refused(text: Seq<char>) -> Option<Seq<char>>;

/// The paths of `policies`.
pub open spec fn paths_of(policies: Seq<(Seq<char>, Seq<char>)>) -> Seq<Seq<char>> {
    policies.map_values(|policy: (Seq<char>, Seq<char>)| policy.0)
}

/// The paths of the policies that an engine holds.
pub open spec fn policy_paths(engine: regorus::Engine) -> Seq<Seq<char>> {
    paths_of(engine_policies(engine))
}

/// `regorus::Engine::new` makes an engine that holds no policy and reads
/// version 1 of the rule language.
pub assume_specification[ regorus::Engine::new ]() -> (engine: regorus::Engine)
    ensures
        engine_policies(engine) == Seq::<(Seq<char>, Seq<char>)>::empty(),
        engine_is_v1(engine),
;

/// `regorus::Engine::add_policy` parses `rego` and, if that succeeds, appends
/// it to the policies of the engine under `path`. When the source is
/// rejected the policies stay as they were; a failure after parsing may leave
/// the policy appended. The answer depends on the dialect of the engine, the
/// path and the source alone, and the dialect stays. The error is handed on as
/// its text.
#[verifier::external_body]
pub(crate) fn add_policy(engine: &mut regorus::Engine, path: String, rego: String) -> (added:
    Result<String, String>)
    ensures
        added is Ok ==> engine_policies(*final(engine)) == engine_policies(*old(engine)).push(
            (path@, rego@),
        ),
        added is Err ==> engine_policies(*final(engine)) == engine_policies(*old(engine))
            || engine_policies(*final(engine)) == engine_policies(*old(engine)).push(
            (path@, rego@),
        ),
        match added {
            Ok(package) => rego_added(engine_is_v1(*old(engine)), path@, rego@) == Ok::<
                Seq<char>,
                Seq<char>,
            >(package@),
            Err(reason) => rego_added(engine_is_v1(*old(engine)), path@, rego@) == Err::<
                Seq<char>,
                Seq<char>,
            >(reason@),
        },
        engine_is_v1(*final(engine)) == engine_is_v1(*old(engine)),
{
    engine.add_policy(path, rego).map_err(|error| error.to_string())
}

/// `regorus::Engine::set_input_json` parses `input_json` as JSON and, if that
/// succeeds, makes it the input document. Whether the text is refused depends
/// on the text alone. Policies and dialect stay. The error is handed on as its
/// text.
#[verifier::external_body]
pub(crate) fn set_input_json(engine: &mut regorus::Engine, input_json: &str) -> (set: Result<
    (),
    String,
>)
    ensures
        engine_policies(*final(engine)) == engine_policies(*old(engine)),
        engine_is_v1(*final(engine)) == engine_is_v1(*old(engine)),
        match set {
            Ok(_) => input_refused(input_json@) is None,
            Err(reason) => input_refused(input_json@) == Some(reason@),
        },
{
    engine.set_input_json(input_json).map_err(|error| error.to_string())
}

/// `regorus::Engine::eval_bool_query`, without tracing, evaluates a query and
/// leaves policies and dialect alone. Rules may ask for the time or for a
/// random number, so nothing is said of the answer. The error is handed on as
/// its text.
#[verifier::external_body]
pub(crate) fn eval_bool_query(engine: &mut regorus::Engine, query: String) -> (answer: Result<
    bool,
    String,
>)
    ensures
        engine_policies(*final(engine)) == engine_policies(*old(engine)),
        engine_is_v1(*final(engine)) == engine_is_v1(*old(engine)),
{
    engine.eval_bool_query(query, false).map_err(|error| error.to_string())
}

/// `regorus::Engine::get_policies`, each policy reduced to its path
/// (`regorus::Source::get_path`). The call returns the source of every
/// policy, in the order of loading, and does not fail.
#[verifier::external_body]
pub(crate) fn loaded_paths(engine: &regorus::Engine) -> (paths: Result<Vec<String>, String>)
    ensures
        paths matches Ok(list) && list@.len() == engine_policies(*engine).len() && forall|
            i: int,
        |
            0 <= i < list@.len() ==> (#[trigger] list@[i])@ == engine_policies(*engine)[i].0,
{
    let sources = engine.get_policies().map_err(|error| error.to_string())?;
    Ok(sources.iter().map(|source| source.get_path().clone()).collect())
}

} // verus!
