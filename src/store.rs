use vstd::prelude::*;
use vstd::string::*;
use indexmap::IndexMap;
use crate::arch::Architecture;

verus! {

#[verifier::external_type_specification]
#[verifier::external_body]
#[verifier::reject_recursive_types(K)]
#[verifier::reject_recursive_types(V)]
#[verifier::reject_recursive_types(S)]
pub struct ExIndexMap<K, V, S>(IndexMap<K, V, S>);

/// A scope (`None` for the top level, or the head of a block such as
/// `impl Foo`) and a declaration body, as text.
pub type DeclKeyView = (Option<Seq<char>>, Seq<char>);

/// A declaration together with the architectures it was emitted for.
pub type EntryView = (DeclKeyView, Seq<Architecture>);

pub open spec fn scope_view(o: Option<String>) -> Option<Seq<char>> {
    match o {
        Some(s) => Some(s@),
        None => None,
    }
}

pub open spec fn key_view(k: (Option<String>, String)) -> DeclKeyView {
    (scope_view(k.0), k.1@)
}

/// The entries of a declaration map, in the map's order.
pub uninterp spec fn decl_entries(
    m: IndexMap<(Option<String>, String), Vec<Architecture>>,
) -> Seq<EntryView>;

/// Relies on `IndexMap::new`: a new map is empty.
#[verifier::external_body]
fn map_new() -> (r: IndexMap<(Option<String>, String), Vec<Architecture>>)
    ensures
        decl_entries(r) == Seq::<EntryView>::empty(),
{
    IndexMap::new()
}

/// Relies on `IndexMap::len`: the number of entries.
#[verifier::external_body]
fn map_len(m: &IndexMap<(Option<String>, String), Vec<Architecture>>) -> (r: usize)
    ensures
        r == decl_entries(*m).len(),
{
    m.len()
}

/// Relies on `IndexMap::get_index_of`: the position of an equal key, if any.
#[verifier::external_body]
fn map_get_index_of(
    m: &IndexMap<(Option<String>, String), Vec<Architecture>>,
    key: &(Option<String>, String),
) -> (r: Option<usize>)
    ensures
        match r {
            Some(i) => i < decl_entries(*m).len() && decl_entries(*m)[i as int].0 == key_view(*key),
            None => forall|i: int|
                0 <= i < decl_entries(*m).len() ==> decl_entries(*m)[i].0 != key_view(*key),
        },
{
    m.get_index_of(key)
}

/// Relies on `IndexMap::get_index`: the entry at a position, if in range.
#[verifier::external_body]
fn map_get_index(m: &IndexMap<(Option<String>, String), Vec<Architecture>>, i: usize) -> (r:
    Option<(&(Option<String>, String), &Vec<Architecture>)>)
    ensures
        i < decl_entries(*m).len() ==> r.is_some() && key_view(*r.unwrap().0) == decl_entries(*m)[i as int].0
            && r.unwrap().1@ == decl_entries(*m)[i as int].1,
        i >= decl_entries(*m).len() ==> r.is_none(),
{
    m.get_index(i)
}

/// Relies on `IndexMap::insert`: an equal key keeps its place and takes the
/// new value; a new key goes last.
#[verifier::external_body]
fn map_insert(
    m: &mut IndexMap<(Option<String>, String), Vec<Architecture>>,
    key: (Option<String>, String),
    value: Vec<Architecture>,
)
    ensures
        forall|i: int|
            0 <= i < decl_entries(*old(m)).len() && decl_entries(*old(m))[i].0 == key_view(key)
                ==> decl_entries(*final(m)) == decl_entries(*old(m)).update(i, (key_view(key), value@)),
        (forall|i: int|
            0 <= i < decl_entries(*old(m)).len() ==> decl_entries(*old(m))[i].0 != key_view(key))
            ==> decl_entries(*final(m)) == decl_entries(*old(m)).push((key_view(key), value@)),
{
    m.insert(key, value);
}

pub open spec fn keys_unique(s: Seq<EntryView>) -> bool {
    forall|i: int, j: int| 0 <= i < s.len() && 0 <= j < s.len() && i != j ==> s[i].0 != s[j].0
}

pub open spec fn has_key(s: Seq<EntryView>, k: DeclKeyView) -> bool {
    exists|i: int| 0 <= i < s.len() && s[i].0 == k
}

/// The store after adding body `k` for architecture `a`: an equal body in
/// the same scope gains `a` in its set; otherwise a new entry goes last.
pub open spec fn add_entry(s: Seq<EntryView>, k: DeclKeyView, a: Architecture) -> Seq<EntryView> {
    if has_key(s, k) {
        let i = choose|i: int| 0 <= i < s.len() && s[i].0 == k;
        s.update(
            i,
            (k, if s[i].1.contains(a) {
                s[i].1
            } else {
                s[i].1.push(a)
            }),
        )
    } else {
        s.push((k, seq![a]))
    }
}

/// Each entry's architectures: none missing, none twice.
pub open spec fn archs_ok(s: Seq<EntryView>) -> bool {
    forall|i: int| 0 <= i < s.len() ==> s[i].1.len() > 0 && s[i].1.no_duplicates()
}

/// Adding an entry keeps bodies unique per scope and each architecture
/// list non-empty and free of repeats.
pub proof fn lemma_add_entry_ok(s: Seq<EntryView>, k: DeclKeyView, a: Architecture)
    requires
        keys_unique(s),
        archs_ok(s),
    ensures
        keys_unique(add_entry(s, k, a)),
        archs_ok(add_entry(s, k, a)),
        add_entry(s, k, a).len() >= s.len(),
        forall|i: int, j: int|
            0 <= i < add_entry(s, k, a).len() && 0 <= j < add_entry(s, k, a)[i].1.len() ==> (
            add_entry(s, k, a)[i].1[j] == a || (i < s.len() && s[i].1.contains(
                add_entry(s, k, a)[i].1[j],
            ))),
{
    let r = add_entry(s, k, a);
    if has_key(s, k) {
        let i = choose|i: int| 0 <= i < s.len() && s[i].0 == k;
        assert forall|x: int| 0 <= x < r.len() implies r[x].1.len() > 0 && r[x].1.no_duplicates() by {
            if x == i && !s[i].1.contains(a) {
                assert forall|p: int, q: int|
                    0 <= p < r[x].1.len() && 0 <= q < r[x].1.len() && p != q implies r[x].1[p]
                    != r[x].1[q] by {
                    if p == s[x].1.len() {
                        assert(s[x].1[q] == r[x].1[q]);
                    } else if q == s[x].1.len() {
                        assert(s[x].1[p] == r[x].1[p]);
                    }
                }
            }
        }
        assert forall|x: int, j: int| 0 <= x < r.len() && 0 <= j < r[x].1.len() implies (r[x].1[j]
            == a || (x < s.len() && s[x].1.contains(r[x].1[j]))) by {
            if j < s[x].1.len() {
                assert(s[x].1[j] == r[x].1[j]);
            }
        }
    } else {
        assert(seq![a].no_duplicates());
        assert forall|x: int, j: int| 0 <= x < r.len() && 0 <= j < r[x].1.len() implies (r[x].1[j]
            == a || (x < s.len() && s[x].1.contains(r[x].1[j]))) by {
            if x < s.len() {
                assert(s[x].1[j] == r[x].1[j]);
            }
        }
    }
}

/// Declarations collected for several architectures, in first-insertion order
/// of scopes and of bodies.
pub struct DeclStore {
    map: IndexMap<(Option<String>, String), Vec<Architecture>>,
}

impl View for DeclStore {
    type V = Seq<EntryView>;

    closed spec fn view(&self) -> Seq<EntryView> {
        decl_entries(self.map)
    }
}

impl DeclStore {
    pub open spec fn wf(&self) -> bool {
        keys_unique(self@) && archs_ok(self@)
    }

    pub fn new() -> (r: DeclStore)
        ensures
            r@ == Seq::<EntryView>::empty(),
            r.wf(),
    {
        DeclStore { map: map_new() }
    }

    pub fn len(&self) -> (r: usize)
        ensures
            r == self@.len(),
    {
        map_len(&self.map)
    }

    pub fn get(&self, i: usize) -> (r: (&Option<String>, &String, &Vec<Architecture>))
        requires
            i < self@.len(),
        ensures
            scope_view(*r.0) == self@[i as int].0.0,
            r.1@ == self@[i as int].0.1,
            r.2@ == self@[i as int].1,
    {
        let e = map_get_index(&self.map, i).unwrap();
        (&e.0.0, &e.0.1, e.1)
    }

    /// Adds `body` under `scope` for `architecture`.
    pub fn add_decl(&mut self, scope: Option<String>, architecture: Architecture, body: String)
        requires
            old(self).wf(),
        ensures
            final(self).wf(),
            final(self)@ == add_entry(old(self)@, (scope_view(scope), body@), architecture),
    {
        let key = (scope, body);
        let ghost k = key_view(key);
        let ghost s = self@;
        match map_get_index_of(&self.map, &key) {
            Some(i) => {
                let archs = map_get_index(&self.map, i).unwrap().1;
                let mut v: Vec<Architecture> = Vec::new();
                let mut found = false;
                let mut j: usize = 0;
                while j < archs.len()
                    invariant
                        j <= archs@.len(),
                        v@ == archs@.subrange(0, j as int),
                        found == archs@.subrange(0, j as int).contains(architecture),
                    decreases archs@.len() - j,
                {
                    let a = archs[j];
                    if a == architecture {
                        found = true;
                    }
                    v.push(a);
                    proof {
                        let s0 = archs@.subrange(0, j as int);
                        let s1 = archs@.subrange(0, j + 1);
                        assert(s1 =~= s0.push(a));
                        if s0.contains(architecture) {
                            let w = choose|w: int| 0 <= w < s0.len() && s0[w] == architecture;
                            assert(s1[w] == architecture);
                        }
                        if a == architecture {
                            assert(s1[j as int] == architecture);
                        }
                        if s1.contains(architecture) {
                            let w = choose|w: int| 0 <= w < s1.len() && s1[w] == architecture;
                            if w < j {
                                assert(s0[w] == architecture);
                            }
                        }
                    }
                    j = j + 1;
                }
                proof {
                    assert(archs@.subrange(0, j as int) =~= archs@);
                    assert(s[i as int].0 == k);
                }
                if !found {
                    v.push(architecture);
                }
                map_insert(&mut self.map, key, v);
                proof {
                    assert(has_key(s, k));
                    let c = choose|x: int| 0 <= x < s.len() && s[x].0 == k;
                    assert(c == i);
                    assert(self@ == add_entry(s, k, architecture));
                    lemma_add_entry_ok(s, k, architecture);
                }
            },
            None => {
                let mut v: Vec<Architecture> = Vec::new();
                v.push(architecture);
                map_insert(&mut self.map, key, v);
                proof {
                    assert(!has_key(s, k));
                    assert(v@ =~= seq![architecture]);
                    assert(self@ == add_entry(s, k, architecture));
                    lemma_add_entry_ok(s, k, architecture);
                }
            },
        }
    }
}

} // verus!
