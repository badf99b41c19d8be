//! Relative paths of the API: a resource kind, an identifier, and for a
//! relationship its name, joined by slashes.

use crate::decimal::{decimal, u64_to_string};
use vstd::prelude::*;

verus! {

/// The path of one instance: `{kind}/{identifier}`.
pub open spec fn entity_path(kind: Seq<char>, identifier: Seq<char>) -> Seq<char> {
    kind + "/"@ + identifier
}

/// The path of a relationship of one instance: `{kind}/{identifier}/{relation}`.
pub open spec fn connection_path(kind: Seq<char>, identifier: Seq<char>, relation: Seq<char>) -> Seq<
    char,
> {
    kind + "/"@ + identifier + "/"@ + relation
}

/// Joins a resource kind and an identifier.
pub fn make_entity_path(kind: &str, identifier: &str) -> (path: String)
    ensures
        path@ == entity_path(kind@, identifier@),
{
    let mut path = String::from_str(kind);
    path.append("/");
    path.append(identifier);
    path
}

/// Joins a resource kind and a numeric id, written in decimal.
pub fn make_numbered_path(kind: &str, id: u64) -> (path: String)
    ensures
        path@ == entity_path(kind@, decimal(id as nat)),
{
    let number = u64_to_string(id);
    make_entity_path(kind, number.as_str())
}

/// Joins a resource kind, an identifier and the name of a relationship.
pub fn make_connection_path(kind: &str, identifier: &str, relation: &str) -> (path: String)
    ensures
        path@ == connection_path(kind@, identifier@, relation@),
{
    let mut path = make_entity_path(kind, identifier);
    path.append("/");
    path.append(relation);
    path
}

/// A relationship path is the path of its owner, a slash, and the
/// relationship's name.
pub proof fn lemma_connection_extends_entity(
    kind: Seq<char>,
    identifier: Seq<char>,
    relation: Seq<char>,
)
    ensures
        connection_path(kind, identifier, relation) == entity_path(kind, identifier) + "/"@
            + relation,
        entity_path(kind, identifier).is_prefix_of(connection_path(kind, identifier, relation)),
{
    let owner = entity_path(kind, identifier);
    let whole = connection_path(kind, identifier, relation);
    assert(whole =~= owner + "/"@ + relation);
    assert(whole.subrange(0, owner.len() as int) =~= owner);
}

} // verus!
