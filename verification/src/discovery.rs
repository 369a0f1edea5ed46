//! Resource discovery: from the group/version string and the kind of a policy
//! document to the resource that is listed and patched.
//!
//! The catalog of a group and version is read from the cluster by the caller
//! on every pass; nothing here is kept between passes.

use crate::error::Error;
use crate::v1_alpha1::Labeler;
use vstd::prelude::*;

verus! {

/// An API group and one of its versions. The core group has the empty name.
#[derive(Debug)]
pub struct GroupVersion {
    /// Name of the group.
    pub group: String,
    /// Name of the version.
    pub version: String,
}

/// One resource of the catalog that the cluster serves for a group and
/// version.
#[derive(Debug)]
pub struct CatalogEntry {
    /// Kind of the objects of the resource, such as `Pod`.
    pub kind: String,
    /// Plural name under which the resource is addressed, such as `pods`.
    pub plural: String,
    /// Whether the objects of the resource live in namespaces.
    pub namespaced: bool,
    /// Operations that the resource supports, such as `list` and `patch`.
    pub verbs: Vec<String>,
}

/// The resource that a policy document targets.
#[derive(Debug)]
pub struct TargetResource {
    /// Group of the resource; empty for the core group.
    pub group: String,
    /// Version of the resource.
    pub version: String,
    /// Kind as the catalog spells it.
    pub kind: String,
    /// Plural name under which the resource is addressed.
    pub plural: String,
    /// Whether the objects of the resource live in namespaces.
    pub namespaced: bool,
    /// Operations that the resource supports.
    pub verbs: Vec<String>,
}

/// Group and version named by `text`: what stands before the first `/` is
/// the group and what follows it the version; without a `/` the whole text
/// is the version and the group is the core group.
pub open spec fn split_group_version(text: Seq<char>) -> (Seq<char>, Seq<char>) {
    match text.index_of_first('/') {
        Some(at) => (text.subrange(0, at), text.subrange(at + 1, text.len() as int)),
        None => (Seq::empty(), text),
    }
}

/// `kube::core::gvk::GroupVersion`'s `FromStr`: the text is split at its
/// first `/` into group and version, and a text without `/` is a version of
/// the core group. Every text has one of these two shapes, so the call does
/// not fail. The error, were there one, is handed on as its text.
#[verifier::external_body]
fn parse_group_version(text: &str) -> (parsed: Result<(String, String), String>)
    ensures
        parsed is Ok,
        parsed matches Ok(pair) ==> pair.0@ == split_group_version(text@).0 && pair.1@
            == split_group_version(text@).1,
{
    text.parse::<kube::core::gvk::GroupVersion>().map(|gv| (gv.group, gv.version)).map_err(
        |error| error.to_string(),
    )
}

/// The code point of `c`, that of its lower-case form where `c` is an ASCII
/// capital.
pub open spec fn folded(c: char) -> int {
    if 'A' <= c <= 'Z' {
        c as int + 32
    } else {
        c as int
    }
}

/// Two kinds are the same when they differ at most in the case of ASCII
/// letters.
pub open spec fn same_kind(a: Seq<char>, b: Seq<char>) -> bool {
    &&& a.len() == b.len()
    &&& forall|i: int| 0 <= i < a.len() ==> folded(#[trigger] a[i]) == folded(b[i])
}

/// Position of the first entry of `catalog` whose kind is `kind`, if any.
pub open spec fn first_of_kind(catalog: Seq<CatalogEntry>, kind: Seq<char>) -> Option<int> {
    if exists|i: int| 0 <= i < catalog.len() && same_kind(#[trigger] catalog[i].kind@, kind) {
        Some(
            choose|i: int|
                0 <= i < catalog.len() && same_kind(#[trigger] catalog[i].kind@, kind) && forall|
                    j: int,
                |
                    0 <= j < i ==> !same_kind(#[trigger] catalog[j].kind@, kind),
        )
    } else {
        None
    }
}

/// What `first_of_kind` returns is the least matching position.
pub proof fn lemma_first_of_kind(catalog: Seq<CatalogEntry>, kind: Seq<char>, at: int)
    requires
        0 <= at < catalog.len(),
        same_kind(catalog[at].kind@, kind),
        forall|j: int| 0 <= j < at ==> !same_kind(#[trigger] catalog[j].kind@, kind),
    ensures
        first_of_kind(catalog, kind) == Some(at),
{
    let found = first_of_kind(catalog, kind)->Some_0;
    assert(0 <= found < catalog.len() && same_kind(catalog[found].kind@, kind));
    assert(forall|j: int| 0 <= j < found ==> !same_kind(#[trigger] catalog[j].kind@, kind));
    if found < at {
        assert(!same_kind(catalog[found].kind@, kind));
    }
    if at < found {
        assert(!same_kind(catalog[at].kind@, kind));
    }
}

fn fold_char(c: char) -> (code: u32)
    ensures
        code == folded(c),
{
    let code = c as u32;
    if 65 <= code && code <= 90 {
        code + 32
    } else {
        code
    }
}

/// Compares two kinds without regard to the case of ASCII letters.
pub fn kinds_match(a: &str, b: &str) -> (same: bool)
    ensures
        same == same_kind(a@, b@),
{
    let len = a.unicode_len();
    if len != b.unicode_len() {
        return false;
    }
    let mut i: usize = 0;
    while i < len
        invariant
            i <= len == a@.len() == b@.len(),
            forall|j: int| 0 <= j < i ==> folded(#[trigger] a@[j]) == folded(b@[j]),
        decreases len - i,
    {
        if fold_char(a.get_char(i)) != fold_char(b.get_char(i)) {
            return false;
        }
        i += 1;
    }
    true
}

/// Parses the group/version string of a policy document.
pub fn parse_api_version(text: &str) -> (parsed: Result<GroupVersion, Error>)
    ensures
        parsed matches Ok(gv) && (gv.group@, gv.version@) == split_group_version(text@),
{
    match parse_group_version(text) {
        Ok(pair) => Ok(GroupVersion { group: pair.0, version: pair.1 }),
        Err(reason) => Err(Error::Discovery(String::from_str("Parse Error: ").concat(reason.as_str()))),
    }
}

/// Finds the resource of `kind` in the catalog of a group and version: the
/// first entry whose kind is `kind`, letter case aside.
pub fn resolve_kind(catalog: &Vec<CatalogEntry>, kind: &str) -> (found: Option<usize>)
    ensures
        match found {
            Some(at) => at < catalog@.len() && same_kind(catalog@[at as int].kind@, kind@)
                && first_of_kind(catalog@, kind@) == Some(at as int),
            None => first_of_kind(catalog@, kind@) is None,
        },
{
    let mut i: usize = 0;
    while i < catalog.len()
        invariant
            i <= catalog@.len(),
            forall|j: int| 0 <= j < i ==> !same_kind(#[trigger] catalog@[j].kind@, kind@),
        decreases catalog@.len() - i,
    {
        if kinds_match(catalog[i].kind.as_str(), kind) {
            proof {
                lemma_first_of_kind(catalog@, kind@, i as int);
            }
            return Some(i);
        }
        i += 1;
    }
    None
}

/// The message of the failure to find a kind in a catalog.
pub open spec fn kind_not_found() -> Seq<char> {
    "Unable to find API kind"@
}

/// Resolves the target of `labeler` against the catalog that the cluster
/// serves for its group and version. Fails with `Error::Discovery` exactly
/// when no entry of the catalog has the kind of the document.
pub fn discover_target_resources(labeler: &Labeler, catalog: &Vec<CatalogEntry>) -> (target:
    Result<TargetResource, Error>)
    ensures
        match first_of_kind(catalog@, labeler.spec.resource_kind@) {
            Some(at) => target matches Ok(resource) && {
                &&& (resource.group@, resource.version@) == split_group_version(
                    labeler.spec.resource_api@,
                )
                &&& resource.kind == catalog@[at].kind
                &&& resource.plural == catalog@[at].plural
                &&& resource.namespaced == catalog@[at].namespaced
                &&& resource.verbs@ == catalog@[at].verbs@
            },
            None => {
                &&& target matches Err(Error::Discovery(text))
                &&& text@ == kind_not_found()
            },
        },
{
    let gv = match parse_api_version(labeler.spec.resource_api.as_str()) {
        Ok(gv) => gv,
        Err(error) => {
            return Err(error);
        },
    };
    match resolve_kind(catalog, labeler.spec.resource_kind.as_str()) {
        Some(at) => {
            let entry = &catalog[at];
            let mut verbs: Vec<String> = Vec::new();
            let mut i: usize = 0;
            while i < entry.verbs.len()
                invariant
                    i <= entry.verbs@.len(),
                    verbs@.len() == i,
                    forall|j: int| 0 <= j < i ==> #[trigger] verbs@[j] == entry.verbs@[j],
                decreases entry.verbs@.len() - i,
            {
                verbs.push(entry.verbs[i].clone());
                i += 1;
            }
            assert(verbs@ =~= entry.verbs@);
            Ok(
                TargetResource {
                    group: gv.group,
                    version: gv.version,
                    kind: entry.kind.clone(),
                    plural: entry.plural.clone(),
                    namespaced: entry.namespaced,
                    verbs,
                },
            )
        },
        None => Err(Error::Discovery(String::from_str("Unable to find API kind"))),
    }
}

} // verus!
