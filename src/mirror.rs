use vstd::prelude::*;
use vstd::string::*;

verus! {

/// The two namespaces of the mirror.
#[derive(PartialEq, Eq, Structural, Clone, Copy, Debug)]
pub enum Namespace {
    Collections,
    Entities,
}

pub open spec fn prefix_of(ns: Namespace) -> Seq<char> {
    match ns {
        Namespace::Collections => "databases/"@,
        Namespace::Entities => "pages/"@,
    }
}

/// Where a document lives: its namespace's directory, the identity, and
/// the extension. A title never enters the key.
pub open spec fn key_of(ns: Namespace, id: Seq<char>) -> Seq<char> {
    prefix_of(ns) + id + ".json"@
}

pub fn destination_key(ns: Namespace, id: &String) -> (r: String)
    ensures
        r@ == key_of(ns, id@),
{
    let head = match ns {
        Namespace::Collections => String::from_str("databases/"),
        Namespace::Entities => String::from_str("pages/"),
    };
    let r = head.concat(id.as_str()).concat(".json");
    r
}

pub fn collection_key(id: &String) -> (r: String)
    ensures
        r@ == key_of(Namespace::Collections, id@),
{
    destination_key(Namespace::Collections, id)
}

pub fn entity_key(id: &String) -> (r: String)
    ensures
        r@ == key_of(Namespace::Entities, id@),
{
    destination_key(Namespace::Entities, id)
}

/// Two documents share a key only if they are the same document: same
/// namespace and same identity.
pub proof fn lemma_keys_collision_free(n1: Namespace, i1: Seq<char>, n2: Namespace, i2: Seq<char>)
    requires
        key_of(n1, i1) == key_of(n2, i2),
    ensures
        n1 == n2,
        i1 == i2,
{
    reveal_strlit("databases/");
    reveal_strlit("pages/");
    reveal_strlit(".json");
    let k1 = key_of(n1, i1);
    let k2 = key_of(n2, i2);
    assert(k1[0] == prefix_of(n1)[0]);
    assert(k2[0] == prefix_of(n2)[0]);
    let p = prefix_of(n1);
    assert(k1.subrange(p.len() as int, k1.len() - 5) =~= i1);
    assert(k2.subrange(p.len() as int, k2.len() - 5) =~= i2);
}

} // verus!
