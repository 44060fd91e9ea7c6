use vstd::prelude::*;

verus! {

broadcast use vstd::std_specs::vec::group_vec_axioms;

/// Mathematical model of a structural document: scalars, ordered lists,
/// and ordered mappings with string keys.
#[verifier::ext_equal]
pub enum Val {
    Scalar(Seq<char>),
    List(Seq<Val>),
    Mapping(Seq<(Seq<char>, Val)>),
}

/// One key/value member of a mapping node.
#[derive(Debug, PartialEq, Eq)]
pub struct Entry {
    pub key: String,
    pub val: Node,
}

/// An untyped structural document node (the in-memory form of a
/// fetched manifest or of a configuration document).
#[derive(Debug, PartialEq, Eq)]
pub enum Node {
    Scalar(String),
    List(Vec<Node>),
    Mapping(Vec<Entry>),
}

pub open spec fn node_view(n: Node) -> Val
    decreases n,
{
    match n {
        Node::Scalar(s) => Val::Scalar(s@),
        Node::List(items) => Val::List(nodes_view(items@)),
        Node::Mapping(entries) => Val::Mapping(entries_view(entries@)),
    }
}

/// Model of a list's items, in order.
pub open spec fn nodes_view(items: Seq<Node>) -> Seq<Val>
    decreases items,
{
    if items.len() == 0 {
        Seq::empty()
    } else {
        seq![node_view(items[0])] + nodes_view(items.drop_first())
    }
}

/// Model of a mapping's members, in order.
pub open spec fn entries_view(es: Seq<Entry>) -> Seq<(Seq<char>, Val)>
    decreases es,
{
    if es.len() == 0 {
        Seq::empty()
    } else {
        seq![(es[0].key@, node_view(es[0].val))] + entries_view(es.drop_first())
    }
}

pub proof fn lemma_nodes_view(items: Seq<Node>)
    ensures
        nodes_view(items).len() == items.len(),
        forall|i: int|
            0 <= i < items.len() ==> #[trigger] nodes_view(items)[i] == node_view(items[i]),
    decreases items.len(),
{
    if items.len() > 0 {
        lemma_nodes_view(items.drop_first());
    }
}

pub proof fn lemma_entries_view(es: Seq<Entry>)
    ensures
        entries_view(es).len() == es.len(),
        forall|i: int|
            0 <= i < es.len() ==> #[trigger] entries_view(es)[i] == (
                es[i].key@,
                node_view(es[i].val),
            ),
    decreases es.len(),
{
    if es.len() > 0 {
        lemma_entries_view(es.drop_first());
    }
}

impl View for Node {
    type V = Val;

    open spec fn view(&self) -> Val {
        node_view(*self)
    }
}

/// The value under `k` in an ordered mapping: the first member with that key.
pub open spec fn fields_get(fs: Seq<(Seq<char>, Val)>, k: Seq<char>) -> Option<Val>
    decreases fs.len(),
{
    if fs.len() == 0 {
        None
    } else if fs[0].0 == k {
        Some(fs[0].1)
    } else {
        fields_get(fs.drop_first(), k)
    }
}

/// Setting `k` to `v` in an ordered mapping: replaces the first member with
/// that key in place, or appends a new member at the end.
pub open spec fn fields_set(fs: Seq<(Seq<char>, Val)>, k: Seq<char>, v: Val) -> Seq<
    (Seq<char>, Val),
>
    decreases fs.len(),
{
    if fs.len() == 0 {
        seq![(k, v)]
    } else if fs[0].0 == k {
        seq![(k, v)] + fs.drop_first()
    } else {
        seq![fs[0]] + fields_set(fs.drop_first(), k, v)
    }
}

pub proof fn lemma_fields_get_by_index(fs: Seq<(Seq<char>, Val)>, k: Seq<char>)
    ensures
        (forall|j: int| 0 <= j < fs.len() ==> fs[j].0 != k) ==> fields_get(fs, k) is None,
        forall|i: int|
            0 <= i < fs.len() && fs[i].0 == k && (forall|j: int| 0 <= j < i ==> fs[j].0 != k)
                ==> fields_get(fs, k) == Some(fs[i].1),
    decreases fs.len(),
{
    if fs.len() > 0 {
        lemma_fields_get_by_index(fs.drop_first(), k);
        assert forall|i: int|
            0 <= i < fs.len() && fs[i].0 == k && (forall|j: int| 0 <= j < i ==> fs[j].0 != k)
                implies fields_get(fs, k) == Some(fs[i].1) by {
            if i > 0 {
                assert(fs.drop_first()[i - 1] == fs[i]);
                assert(forall|j: int| 0 <= j < i - 1 ==> fs.drop_first()[j] == fs[j + 1]);
            }
        }
    }
}

pub proof fn lemma_fields_set_append(fs: Seq<(Seq<char>, Val)>, k: Seq<char>, v: Val)
    requires
        forall|j: int| 0 <= j < fs.len() ==> fs[j].0 != k,
    ensures
        fields_set(fs, k, v) =~= fs.push((k, v)),
    decreases fs.len(),
{
    if fs.len() > 0 {
        lemma_fields_set_append(fs.drop_first(), k, v);
    }
}

pub proof fn lemma_fields_set_update(fs: Seq<(Seq<char>, Val)>, k: Seq<char>, v: Val, i: int)
    requires
        0 <= i < fs.len(),
        fs[i].0 == k,
        forall|j: int| 0 <= j < i ==> fs[j].0 != k,
    ensures
        fields_set(fs, k, v) =~= fs.update(i, (k, v)),
    decreases fs.len(),
{
    if i > 0 {
        assert(fs.drop_first()[i - 1] == fs[i]);
        assert(forall|j: int| 0 <= j < i - 1 ==> fs.drop_first()[j] == fs[j + 1]);
        lemma_fields_set_update(fs.drop_first(), k, v, i - 1);
    }
}

pub proof fn lemma_fields_get_set(fs: Seq<(Seq<char>, Val)>, k: Seq<char>, v: Val)
    ensures
        fields_get(fields_set(fs, k, v), k) == Some(v),
    decreases fs.len(),
{
    if fs.len() > 0 && fs[0].0 != k {
        lemma_fields_get_set(fs.drop_first(), k, v);
        assert((seq![fs[0]] + fields_set(fs.drop_first(), k, v)).drop_first() =~= fields_set(
            fs.drop_first(),
            k,
            v,
        ));
    }
}

pub proof fn lemma_fields_get_set_other(fs: Seq<(Seq<char>, Val)>, k: Seq<char>, k2: Seq<char>, v: Val)
    requires
        k2 != k,
    ensures
        fields_get(fields_set(fs, k, v), k2) == fields_get(fs, k2),
    decreases fs.len(),
{
    reveal_with_fuel(fields_get, 3);
    if fs.len() == 0 {
        assert(seq![(k, v)].drop_first() =~= Seq::<(Seq<char>, Val)>::empty());
    } else if fs[0].0 == k {
        assert((seq![(k, v)] + fs.drop_first()).drop_first() =~= fs.drop_first());
    } else {
        lemma_fields_get_set_other(fs.drop_first(), k, k2, v);
        assert((seq![fs[0]] + fields_set(fs.drop_first(), k, v)).drop_first() =~= fields_set(
            fs.drop_first(),
            k,
            v,
        ));
    }
}

/// Setting a key to the value it already holds leaves the mapping unchanged.
pub proof fn lemma_fields_set_noop(fs: Seq<(Seq<char>, Val)>, k: Seq<char>, v: Val)
    requires
        fields_get(fs, k) == Some(v),
    ensures
        fields_set(fs, k, v) == fs,
    decreases fs.len(),
{
    if fs.len() > 0 {
        if fs[0].0 == k {
            assert(fs[0] == (fs[0].0, fs[0].1));
            assert(fields_set(fs, k, v) =~= fs);
        } else {
            lemma_fields_set_noop(fs.drop_first(), k, v);
            assert(fields_set(fs, k, v) =~= fs);
        }
    }
}

/// Model of one path segment: descend under a key, or into a list position.
pub enum SegV {
    Key(Seq<char>),
    Index(int),
}

/// One segment of a fixed structural path.
pub enum Seg {
    Key(String),
    Index(usize),
}

impl View for Seg {
    type V = SegV;

    open spec fn view(&self) -> SegV {
        match self {
            Seg::Key(k) => SegV::Key(k@),
            Seg::Index(i) => SegV::Index(*i as int),
        }
    }
}

pub open spec fn segs_view(path: Seq<Seg>) -> Seq<SegV> {
    Seq::new(path.len(), |i: int| path[i]@)
}

/// Descending one segment into a value, when the segment is present.
pub open spec fn step_into(v: Val, s: SegV) -> Option<Val> {
    match s {
        SegV::Key(k) => match v {
            Val::Mapping(fs) => fields_get(fs, k),
            _ => None,
        },
        SegV::Index(i) => match v {
            Val::List(items) => if 0 <= i < items.len() {
                Some(items[i])
            } else {
                None
            },
            _ => None,
        },
    }
}

/// The value reached by following `path` from `v`, when every segment is present.
pub open spec fn val_at(v: Val, path: Seq<SegV>) -> Option<Val>
    decreases path.len(),
{
    if path.len() == 0 {
        Some(v)
    } else {
        match step_into(v, path[0]) {
            Some(c) => val_at(c, path.drop_first()),
            None => None,
        }
    }
}

/// The document with `key` set to `x` in the mapping reached by `path`;
/// `None` when a segment is absent or the target is not a mapping.
pub open spec fn val_set_at(v: Val, path: Seq<SegV>, key: Seq<char>, x: Val) -> Option<Val>
    decreases path.len(),
{
    if path.len() == 0 {
        match v {
            Val::Mapping(fs) => Some(Val::Mapping(fields_set(fs, key, x))),
            _ => None,
        }
    } else {
        match step_into(v, path[0]) {
            Some(c) => match val_set_at(c, path.drop_first(), key, x) {
                Some(c2) => match (v, path[0]) {
                    (Val::Mapping(fs), SegV::Key(k)) => Some(Val::Mapping(fields_set(fs, k, c2))),
                    (Val::List(items), SegV::Index(i)) => Some(Val::List(items.update(i, c2))),
                    _ => None,
                },
                None => None,
            },
            None => None,
        }
    }
}

/// Which structural element a failed navigation stopped at.
pub enum ErrV {
    MissingKey(Seq<char>),
    MissingIndex(int),
    NotAMapping,
}

/// The first segment of `path` that cannot be followed from `v`
/// (meaningful when `val_set_at` returns `None`).
pub open spec fn fail_of(v: Val, path: Seq<SegV>) -> ErrV
    decreases path.len(),
{
    if path.len() == 0 {
        ErrV::NotAMapping
    } else {
        match step_into(v, path[0]) {
            Some(c) => fail_of(c, path.drop_first()),
            None => match path[0] {
                SegV::Key(k) => ErrV::MissingKey(k),
                SegV::Index(i) => ErrV::MissingIndex(i),
            },
        }
    }
}

/// Following a concatenated path is following the two parts in turn.
pub proof fn lemma_val_at_append(v: Val, p: Seq<SegV>, q: Seq<SegV>)
    ensures
        val_at(v, p + q) == (match val_at(v, p) {
            Some(w) => val_at(w, q),
            None => None::<Val>,
        }),
    decreases p.len(),
{
    if p.len() == 0 {
        assert(p + q =~= q);
    } else {
        assert((p + q)[0] == p[0]);
        assert((p + q).drop_first() =~= p.drop_first() + q);
        match step_into(v, p[0]) {
            Some(c) => lemma_val_at_append(c, p.drop_first(), q),
            None => {},
        }
    }
}

/// After a successful set through `path`, the value at `path` is the original
/// mapping there with `key` set to `x`.
pub proof fn lemma_val_at_set_at(v: Val, path: Seq<SegV>, key: Seq<char>, x: Val)
    requires
        val_set_at(v, path, key, x) is Some,
    ensures
        val_at(v, path) is Some,
        val_at(v, path).unwrap() is Mapping,
        val_at(val_set_at(v, path, key, x).unwrap(), path) == Some(
            Val::Mapping(fields_set(val_at(v, path).unwrap()->Mapping_0, key, x)),
        ),
    decreases path.len(),
{
    if path.len() > 0 {
        let c = step_into(v, path[0]).unwrap();
        lemma_val_at_set_at(c, path.drop_first(), key, x);
        let c2 = val_set_at(c, path.drop_first(), key, x).unwrap();
        let w = val_set_at(v, path, key, x).unwrap();
        match (v, path[0]) {
            (Val::Mapping(fs), SegV::Key(k)) => {
                lemma_fields_get_set(fs, k, c2);
                assert(step_into(w, path[0]) == Some(c2));
            },
            (Val::List(items), SegV::Index(i)) => {
                assert(step_into(w, path[0]) == Some(c2));
            },
            _ => {
                assert(false);
            },
        }
    }
}

/// A set through a concatenated path, observed at the front part: the value
/// there becomes the back-part set applied to the value that was there.
pub proof fn lemma_val_set_at_append(v: Val, p: Seq<SegV>, q: Seq<SegV>, key: Seq<char>, x: Val)
    ensures
        val_set_at(v, p + q, key, x) is Some <==> (val_at(v, p) is Some && val_set_at(
            val_at(v, p).unwrap(),
            q,
            key,
            x,
        ) is Some),
        val_set_at(v, p + q, key, x) is Some ==> val_at(val_set_at(v, p + q, key, x).unwrap(), p)
            == Some(val_set_at(val_at(v, p).unwrap(), q, key, x).unwrap()),
    decreases p.len(),
{
    if p.len() == 0 {
        assert(p + q =~= q);
    } else {
        assert((p + q)[0] == p[0]);
        assert((p + q).drop_first() =~= p.drop_first() + q);
        match step_into(v, p[0]) {
            Some(c) => {
                lemma_val_set_at_append(c, p.drop_first(), q, key, x);
                if val_set_at(c, p.drop_first() + q, key, x) is Some {
                    let c2 = val_set_at(c, p.drop_first() + q, key, x).unwrap();
                    let w = val_set_at(v, p + q, key, x).unwrap();
                    match (v, p[0]) {
                        (Val::Mapping(fs), SegV::Key(k)) => {
                            lemma_fields_get_set(fs, k, c2);
                            assert(step_into(w, p[0]) == Some(c2));
                        },
                        (Val::List(items), SegV::Index(i)) => {
                            assert(step_into(w, p[0]) == Some(c2));
                        },
                        _ => {
                            assert(false);
                        },
                    }
                }
            },
            None => {},
        }
    }
}

/// Setting a key to the value it already holds, through any path, leaves the
/// whole document unchanged.
pub proof fn lemma_val_set_at_noop(v: Val, path: Seq<SegV>, key: Seq<char>, x: Val)
    requires
        val_at(v, path) is Some,
        val_at(v, path).unwrap() is Mapping,
        fields_get(val_at(v, path).unwrap()->Mapping_0, key) == Some(x),
    ensures
        val_set_at(v, path, key, x) == Some(v),
    decreases path.len(),
{
    if path.len() == 0 {
        lemma_fields_set_noop(v->Mapping_0, key, x);
    } else {
        let c = step_into(v, path[0]).unwrap();
        lemma_val_set_at_noop(c, path.drop_first(), key, x);
        match (v, path[0]) {
            (Val::Mapping(fs), SegV::Key(k)) => {
                lemma_fields_set_noop(fs, k, c);
            },
            (Val::List(items), SegV::Index(i)) => {
                assert(items.update(i, c) =~= items);
            },
            _ => {
                assert(false);
            },
        }
    }
}

/// A fetched manifest did not have the expected structure: a path segment is
/// absent, or the insertion target is not a mapping.
#[derive(Debug, Clone, PartialEq, Eq)]
pub enum ManifestError {
    MissingKey(String),
    MissingIndex(usize),
    NotAMapping,
}

impl View for ManifestError {
    type V = ErrV;

    open spec fn view(&self) -> ErrV {
        match self {
            ManifestError::MissingKey(k) => ErrV::MissingKey(k@),
            ManifestError::MissingIndex(i) => ErrV::MissingIndex(*i as int),
            ManifestError::NotAMapping => ErrV::NotAMapping,
        }
    }
}

/// The position of the first member with key `key`, scanning in order.
pub fn mapping_find(entries: &Vec<Entry>, key: &String) -> (r: Option<usize>)
    ensures
        match r {
            Some(i) => i < entries@.len() && entries@[i as int].key@ == key@ && (forall|j: int|
                0 <= j < i ==> entries@[j].key@ != key@),
            None => forall|j: int| 0 <= j < entries@.len() ==> entries@[j].key@ != key@,
        },
{
    let mut i: usize = 0;
    while i < entries.len()
        invariant
            i <= entries@.len(),
            forall|j: int| 0 <= j < i ==> entries@[j].key@ != key@,
        decreases entries@.len() - i,
    {
        if entries[i].key == *key {
            return Some(i);
        }
        i = i + 1;
    }
    None
}

/// The value under `key` in a mapping's members, when present.
pub fn mapping_get<'a>(entries: &'a Vec<Entry>, key: &String) -> (r: Option<&'a Node>)
    ensures
        match r {
            Some(n) => fields_get(entries_view(entries@), key@) == Some(n@),
            None => fields_get(entries_view(entries@), key@) is None,
        },
{
    let ghost fs = entries_view(entries@);
    proof {
        lemma_entries_view(entries@);
        lemma_fields_get_by_index(fs, key@);
    }
    match mapping_find(entries, key) {
        Some(i) => {
            proof {
                assert(fs[i as int].0 == key@);
                assert forall|j: int| 0 <= j < i implies fs[j].0 != key@ by {
                    assert(fs[j].0 == entries@[j].key@);
                }
            }
            Some(&entries[i].val)
        },
        None => {
            proof {
                assert forall|j: int| 0 <= j < fs.len() implies fs[j].0 != key@ by {
                    assert(fs[j].0 == entries@[j].key@);
                }
            }
            None
        },
    }
}

/// Sets `key` to `val` in a mapping's members: replaces the first member
/// with that key in place, or appends a new member.
pub fn mapping_set(entries: &mut Vec<Entry>, key: String, val: Node)
    ensures
        entries_view(final(entries)@) == fields_set(entries_view(old(entries)@), key@, val@),
{
    let ghost es0 = old(entries)@;
    let ghost fs0 = entries_view(es0);
    proof {
        lemma_entries_view(es0);
    }
    match mapping_find(entries, &key) {
        Some(i) => {
            let ghost kv = key@;
            let ghost vv = val@;
            entries.remove(i);
            entries.insert(i, Entry { key, val });
            proof {
                assert(entries@ =~= es0.update(i as int, entries@[i as int]));
                lemma_entries_view(entries@);
                lemma_fields_set_update(fs0, kv, vv, i as int);
                assert(entries_view(entries@) =~~= fs0.update(i as int, (kv, vv)));
            }
        },
        None => {
            let ghost kv = key@;
            let ghost vv = val@;
            entries.push(Entry { key, val });
            proof {
                lemma_entries_view(entries@);
                lemma_fields_set_append(fs0, kv, vv);
                assert(entries_view(entries@) =~~= fs0.push((kv, vv)));
            }
        },
    }
}

/// Follows `path[i..]` down from `n` and sets `key` to `value` in the mapping
/// it reaches; an absent segment, or a target that is not a mapping, is
/// reported as the structural error it runs into.
pub fn insert_at(n: Node, path: &Vec<Seg>, i: usize, key: &String, value: Node) -> (r: Result<
    Node,
    ManifestError,
>)
    requires
        i <= path@.len(),
    ensures
        match r {
            Ok(out) => val_set_at(n@, segs_view(path@).skip(i as int), key@, value@) == Some(out@),
            Err(e) => val_set_at(n@, segs_view(path@).skip(i as int), key@, value@) is None && e@
                == fail_of(n@, segs_view(path@).skip(i as int)),
        },
    decreases path@.len() - i,
{
    let ghost sp = segs_view(path@).skip(i as int);
    if i == path.len() {
        match n {
            Node::Mapping(mut entries) => {
                proof {
                    assert(sp.len() == 0);
                }
                mapping_set(&mut entries, key.clone(), value);
                Ok(Node::Mapping(entries))
            },
            _ => Err(ManifestError::NotAMapping),
        }
    } else {
        proof {
            assert(sp[0] == path@[i as int]@);
            assert(sp.drop_first() =~= segs_view(path@).skip(i as int + 1));
        }
        match &path[i] {
            Seg::Key(k) => match n {
                Node::Mapping(mut entries) => {
                    let ghost es0 = entries@;
                    let ghost fs0 = entries_view(es0);
                    proof {
                        lemma_entries_view(es0);
                        lemma_fields_get_by_index(fs0, k@);
                    }
                    match mapping_find(&entries, k) {
                        Some(j) => {
                            let ent = entries.remove(j);
                            proof {
                                assert(fields_get(fs0, k@) == Some(fs0[j as int].1));
                            }
                            match insert_at(ent.val, path, i + 1, key, value) {
                                Ok(child) => {
                                    let ghost cv = child@;
                                    entries.insert(j, Entry { key: ent.key, val: child });
                                    proof {
                                        assert(entries@ =~= es0.update(
                                            j as int,
                                            entries@[j as int],
                                        ));
                                        lemma_entries_view(entries@);
                                        lemma_fields_set_update(fs0, k@, cv, j as int);
                                        assert(entries_view(entries@) =~~= fs0.update(
                                            j as int,
                                            (k@, cv),
                                        ));
                                    }
                                    Ok(Node::Mapping(entries))
                                },
                                Err(e) => Err(e),
                            }
                        },
                        None => Err(ManifestError::MissingKey(k.clone())),
                    }
                },
                _ => Err(ManifestError::MissingKey(k.clone())),
            },
            Seg::Index(ix) => match n {
                Node::List(mut items) => {
                    let ghost items0 = items@;
                    proof {
                        lemma_nodes_view(items0);
                    }
                    if *ix < items.len() {
                        let item = items.remove(*ix);
                        match insert_at(item, path, i + 1, key, value) {
                            Ok(child) => {
                                let ghost cv = child@;
                                items.insert(*ix, child);
                                proof {
                                    assert(items@ =~= items0.update(*ix as int, child));
                                    lemma_nodes_view(items@);
                                    assert(nodes_view(items@) =~~= nodes_view(items0).update(
                                        *ix as int,
                                        cv,
                                    ));
                                }
                                Ok(Node::List(items))
                            },
                            Err(e) => Err(e),
                        }
                    } else {
                        Err(ManifestError::MissingIndex(*ix))
                    }
                },
                _ => Err(ManifestError::MissingIndex(*ix)),
            },
        }
    }
}

} // verus!
