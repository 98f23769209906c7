//! A manifest document as a tree, and the insertion of the policy annotation.
use crate::text::{clone_string, same_str};
use vstd::prelude::*;

verus! {

/// A manifest document. Mappings keep their keys in document order.
#[derive(Debug)]
pub enum Doc {
    Null,
    Bool(bool),
    /// A number, in its written form.
    Number(String),
    Text(String),
    List(Vec<Doc>),
    Mapping(Vec<(String, Doc)>),
    /// A node with an explicit tag.
    Tagged(String, Box<Doc>),
}

/// The entries of a mapping; nothing for any other node.
pub open spec fn entries_of(d: Doc) -> Seq<(String, Doc)> {
    match d {
        Doc::Mapping(es) => es@,
        _ => Seq::empty(),
    }
}

/// The position of the first entry with key `key`.
pub open spec fn first_key(es: Seq<(String, Doc)>, key: Seq<char>) -> Option<int>
    decreases es.len(),
{
    if es.len() == 0 {
        None
    } else {
        match first_key(es.drop_last(), key) {
            Some(i) => Some(i),
            None => if es.last().0@ == key {
                Some(es.len() - 1)
            } else {
                None
            },
        }
    }
}

/// The node at `path`, a sequence of mapping keys, if there is one.
pub open spec fn lookup(d: Doc, path: Seq<Seq<char>>) -> Option<Doc>
    decreases path.len(),
{
    if path.len() == 0 {
        Some(d)
    } else {
        match first_key(entries_of(d), path[0]) {
            Some(i) => lookup(entries_of(d)[i].1, path.drop_first()),
            None => None,
        }
    }
}

/// `r` is `d` with `v` written at `path`: along the path the first entry of
/// each key is descended into, or a new entry is appended at the end of the
/// mapping (a node that is not a mapping becomes one); every other entry,
/// and the order of the keys, stay as they were.
pub open spec fn is_patch(d: Doc, r: Doc, path: Seq<Seq<char>>, v: Doc) -> bool
    decreases path.len(),
{
    if path.len() == 0 {
        r == v
    } else {
        let es = entries_of(d);
        let rs = entries_of(r);
        &&& r is Mapping
        &&& match first_key(es, path[0]) {
            Some(i) => {
                &&& rs.len() == es.len()
                &&& forall|j: int| 0 <= j < es.len() && j != i ==> rs[j] == es[j]
                &&& rs[i].0 == es[i].0
                &&& is_patch(es[i].1, rs[i].1, path.drop_first(), v)
            },
            None => {
                &&& rs.len() == es.len() + 1
                &&& forall|j: int| 0 <= j < es.len() ==> rs[j] == es[j]
                &&& rs[es.len() as int].0@ == path[0]
                &&& is_patch(Doc::Null, rs[es.len() as int].1, path.drop_first(), v)
            },
        }
    }
}

/// The paths `p` and `q` part ways: at some depth their keys differ.
pub open spec fn diverges(p: Seq<Seq<char>>, q: Seq<Seq<char>>) -> bool {
    exists|k: int| 0 <= k < p.len() && k < q.len() && p[k] != q[k]
}

pub open spec fn keys_view(path: Seq<String>) -> Seq<Seq<char>> {
    path.map_values(|s: String| s@)
}

proof fn lemma_first_key_found(es: Seq<(String, Doc)>, key: Seq<char>)
    ensures
        first_key(es, key) matches Some(i) ==> 0 <= i < es.len() && es[i].0@ == key
            && forall|j: int| 0 <= j < i ==> es[j].0@ != key,
        first_key(es, key) is None ==> forall|j: int| 0 <= j < es.len() ==> es[j].0@ != key,
    decreases es.len(),
{
    if es.len() > 0 {
        lemma_first_key_found(es.drop_last(), key);
        assert forall|j: int| 0 <= j < es.len() - 1 implies es[j] == es.drop_last()[j] by {}
    }
}

proof fn lemma_first_key_is(es: Seq<(String, Doc)>, key: Seq<char>, i: int)
    requires
        0 <= i <= es.len(),
        i < es.len() ==> es[i].0@ == key,
        forall|j: int| 0 <= j < i ==> es[j].0@ != key,
    ensures
        first_key(es, key) == if i < es.len() {
            Some(i)
        } else {
            None::<int>
        },
{
    lemma_first_key_found(es, key);
    match first_key(es, key) {
        Some(f) => {
            if f < i {
                assert(es[f].0@ != key);
            } else if f > i {
                assert(es[i].0@ != key);
            }
        },
        None => {
            if i < es.len() {
                assert(es[i].0@ != key);
            }
        },
    }
}

/// `first_key` reads the keys only.
proof fn lemma_first_key_same_keys(es: Seq<(String, Doc)>, rs: Seq<(String, Doc)>, key: Seq<char>)
    requires
        rs.len() == es.len(),
        forall|j: int| 0 <= j < es.len() ==> rs[j].0@ == es[j].0@,
    ensures
        first_key(rs, key) == first_key(es, key),
{
    lemma_first_key_found(es, key);
    match first_key(es, key) {
        Some(i) => lemma_first_key_is(rs, key, i),
        None => lemma_first_key_is(rs, key, rs.len() as int),
    }
}

/// Writing at `path` leaves every path that parts ways with it as it was.
proof fn lemma_patch_elsewhere(d: Doc, r: Doc, path: Seq<Seq<char>>, v: Doc, p: Seq<Seq<char>>)
    requires
        is_patch(d, r, path, v),
        diverges(p, path),
    ensures
        lookup(r, p) == lookup(d, p),
    decreases path.len(),
{
    let k = choose|k: int| 0 <= k < p.len() && k < path.len() && p[k] != path[k];
    let es = entries_of(d);
    let rs = entries_of(r);
    lemma_first_key_found(es, path[0]);
    lemma_first_key_found(es, p[0]);
    match first_key(es, path[0]) {
        Some(i) => {
            lemma_first_key_same_keys(es, rs, p[0]);
            if p[0] == path[0] {
                assert(k > 0);
                assert(p.drop_first()[k - 1] != path.drop_first()[k - 1]);
                lemma_patch_elsewhere(es[i].1, rs[i].1, path.drop_first(), v, p.drop_first());
            }
        },
        None => {
            assert(rs.drop_last() =~= es);
            if p[0] == path[0] {
                assert(k > 0);
                assert(p.drop_first()[k - 1] != path.drop_first()[k - 1]);
                lemma_first_key_is(rs, p[0], es.len() as int);
                lemma_patch_elsewhere(
                    Doc::Null,
                    rs[es.len() as int].1,
                    path.drop_first(),
                    v,
                    p.drop_first(),
                );
                assert(p.drop_first().len() > 0);
                assert(lookup(Doc::Null, p.drop_first()) is None);
            } else {
                assert(first_key(rs, p[0]) == first_key(es, p[0]));
            }
        },
    }
}

/// After writing `v` at `path`, `v` is found there.
proof fn lemma_patch_here(d: Doc, r: Doc, path: Seq<Seq<char>>, v: Doc)
    requires
        is_patch(d, r, path, v),
    ensures
        lookup(r, path) == Some(v),
    decreases path.len(),
{
    if path.len() > 0 {
        let es = entries_of(d);
        let rs = entries_of(r);
        match first_key(es, path[0]) {
            Some(i) => {
                lemma_first_key_found(es, path[0]);
                lemma_first_key_same_keys(es, rs, path[0]);
                lemma_patch_here(es[i].1, rs[i].1, path.drop_first(), v);
            },
            None => {
                lemma_first_key_found(es, path[0]);
                lemma_first_key_is(rs, path[0], es.len() as int);
                lemma_patch_here(Doc::Null, rs[es.len() as int].1, path.drop_first(), v);
            },
        }
    }
}

/// Writes `v` at the keys `path[depth..]` of `d`.
fn set_at(d: Doc, path: &Vec<String>, depth: usize, v: Doc) -> (r: Doc)
    requires
        depth <= path@.len(),
    ensures
        is_patch(d, r, keys_view(path@).subrange(depth as int, path@.len() as int), v),
    decreases path@.len() - depth,
{
    let ghost rest = keys_view(path@).subrange(depth as int, path@.len() as int);
    if depth == path.len() {
        return v;
    }
    assert(rest[0] == path@[depth as int]@);
    assert(rest.drop_first() =~= keys_view(path@).subrange(depth + 1, path@.len() as int));
    let ghost es0 = entries_of(d);
    let mut es = match d {
        Doc::Mapping(es) => es,
        _ => Vec::new(),
    };
    assert(es@ == es0);
    let key = &path[depth];
    let mut i: usize = 0;
    let mut found = false;
    while i < es.len() && !found
        invariant
            es@ == es0,
            i <= es@.len(),
            found ==> i < es@.len() && es@[i as int].0@ == key@,
            forall|j: int| 0 <= j < i ==> es@[j].0@ != key@,
        decreases es@.len() - i + if found { 0int } else { 1int },
    {
        if same_str(es[i].0.as_str(), key.as_str()) {
            found = true;
        } else {
            i = i + 1;
        }
    }
    proof {
        lemma_first_key_is(es0, key@, if found { i as int } else { es0.len() as int });
    }
    if found {
        let (k, child) = es.remove(i);
        let c2 = set_at(child, path, depth + 1, v);
        es.insert(i, (k, c2));
        assert forall|j: int| 0 <= j < es0.len() && j != i implies es@[j] == es0[j] by {
            if j < i {
            } else {
            }
        }
    } else {
        let c2 = set_at(Doc::Null, path, depth + 1, v);
        es.push((clone_string(key), c2));
    }
    Doc::Mapping(es)
}

/// Writes `v` at the keys `path` of `d`, creating the mappings on the way
/// that are missing.
pub fn set_path(d: Doc, path: &Vec<String>, v: Doc) -> (r: Doc)
    ensures
        is_patch(d, r, keys_view(path@), v),
        lookup(r, keys_view(path@)) == Some(v),
        forall|p: Seq<Seq<char>>| diverges(p, keys_view(path@)) ==> #[trigger] lookup(r, p) == lookup(d, p),
{
    let r = set_at(d, path, 0, v);
    assert(keys_view(path@).subrange(0, path@.len() as int) =~= keys_view(path@));
    proof {
        lemma_patch_here(d, r, keys_view(path@), v);
        assert forall|p: Seq<Seq<char>>| diverges(p, keys_view(path@)) implies #[trigger] lookup(r, p) == lookup(d, p) by {
            lemma_patch_elsewhere(d, r, keys_view(path@), v, p);
        }
    }
    r
}

/// Patching leaves the rest of the document alone: after `set_path`, every
/// path that parts ways with the written one finds what it found before,
/// and the written path finds the new value.
pub proof fn lemma_patch_round_trip(
    d: Doc,
    r: Doc,
    path: Seq<Seq<char>>,
    v: Doc,
    p: Seq<Seq<char>>,
)
    requires
        is_patch(d, r, path, v),
    ensures
        lookup(r, path) == Some(v),
        diverges(p, path) ==> lookup(r, p) == lookup(d, p),
{
    lemma_patch_here(d, r, path, v);
    if diverges(p, path) {
        lemma_patch_elsewhere(d, r, path, v, p);
    }
}

} // verus!
