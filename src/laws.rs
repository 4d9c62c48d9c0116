use vstd::prelude::*;
use crate::arch::Architecture;
use crate::driver::{add_all, build, build_types, emitted, type_decls};
use crate::store::{DeclKeyView, EntryView, add_entry, archs_ok, has_key, keys_unique, lemma_add_entry_ok};
use crate::names::{derive_text, derived_names, join_names};
use crate::types::{RocType, TypeId, Types};

verus! {

/// Generation is a function of its input: the same registries give the same
/// text, byte for byte.
pub proof fn lemma_emit_deterministic(a: Seq<(Architecture, Types)>, b: Seq<(Architecture, Types)>)
    requires
        a == b,
    ensures
        emitted(a) == emitted(b),
{
}

/// A body emitted in one scope for two architectures is kept once, with
/// both architectures in the order they came.
pub proof fn lemma_merge_identical_bodies(s: Seq<EntryView>, k: DeclKeyView, a: Architecture, b: Architecture)
    requires
        keys_unique(s),
        !has_key(s, k),
        a != b,
    ensures
        add_entry(add_entry(s, k, a), k, b) == s.push((k, seq![a, b])),
{
    let s1 = add_entry(s, k, a);
    assert(s1 == s.push((k, seq![a])));
    assert(s1[s.len() as int].0 == k);
    assert(has_key(s1, k));
    let i = choose|i: int| 0 <= i < s1.len() && s1[i].0 == k;
    if i < s.len() {
        assert(s[i].0 == k);
    }
    assert(i == s.len());
    assert(!seq![a].contains(b)) by {
        if seq![a].contains(b) {
            let w = choose|w: int| 0 <= w < 1 && seq![a][w] == b;
        }
    }
    assert(seq![a].push(b) =~= seq![a, b]);
    assert(add_entry(s1, k, b) =~= s.push((k, seq![a, b])));
}

/// The derive line lists exactly the derived names: `Copy` iff the type is
/// pointer-free, `Default` iff it is enumeration-free, `Eq`, `Ord` and `Hash`
/// iff it is float-free, `Debug` iff asked for; `Clone`, `PartialEq` and
/// `PartialOrd` always.
pub proof fn lemma_derivation_coherence(has_pointer: bool, include_debug: bool, has_enumeration: bool, has_float: bool)
    ensures
        derive_text(has_pointer, include_debug, has_enumeration, has_float) == "#[derive("@
            + join_names(derived_names(has_pointer, include_debug, has_enumeration, has_float))
            + ")]"@,
        derived_names(has_pointer, include_debug, has_enumeration, has_float).contains("Copy"@)
            == !has_pointer,
        derived_names(has_pointer, include_debug, has_enumeration, has_float).contains("Debug"@)
            == include_debug,
        derived_names(has_pointer, include_debug, has_enumeration, has_float).contains("Default"@)
            == !has_enumeration,
        derived_names(has_pointer, include_debug, has_enumeration, has_float).contains("Eq"@)
            == !has_float,
        derived_names(has_pointer, include_debug, has_enumeration, has_float).contains("Ord"@)
            == !has_float,
        derived_names(has_pointer, include_debug, has_enumeration, has_float).contains("Hash"@)
            == !has_float,
        derived_names(has_pointer, include_debug, has_enumeration, has_float).contains("Clone"@),
        derived_names(has_pointer, include_debug, has_enumeration, has_float).contains("PartialEq"@),
        derived_names(has_pointer, include_debug, has_enumeration, has_float).contains("PartialOrd"@),
{
    reveal_strlit("Clone");
    reveal_strlit("Copy");
    reveal_strlit("Debug");
    reveal_strlit("Default");
    reveal_strlit("Eq");
    reveal_strlit("Ord");
    reveal_strlit("Hash");
    reveal_strlit("PartialEq");
    reveal_strlit("PartialOrd");
    assert("Clone"@.len() == 5 && "Copy"@.len() == 4 && "Debug"@.len() == 5 && "Default"@.len() == 7);
    assert("Eq"@.len() == 2 && "Ord"@.len() == 3 && "Hash"@.len() == 4);
    assert("PartialEq"@.len() == 9 && "PartialOrd"@.len() == 10);
    assert("Copy"@ != "Hash"@) by {
        assert("Copy"@[0] != "Hash"@[0]);
    }
    assert("Clone"@ != "Debug"@) by {
        assert("Clone"@[0] != "Debug"@[0]);
    }
    let e = Seq::<Seq<char>>::empty();
    let b0 = seq!["Clone"@];
    let b1 = if has_pointer { e } else { seq!["Copy"@] };
    let b2 = if include_debug { seq!["Debug"@] } else { e };
    let b3 = if has_enumeration { e } else { seq!["Default"@] };
    let b4 = if has_float { e } else { seq!["Eq"@, "Ord"@, "Hash"@] };
    let b5 = seq!["PartialEq"@, "PartialOrd"@];
    let ns = derived_names(has_pointer, include_debug, has_enumeration, has_float);
    assert(ns == b0 + b1 + b2 + b3 + b4 + b5);
    let names = seq!["Clone"@, "Copy"@, "Debug"@, "Default"@, "Eq"@, "Ord"@, "Hash"@, "PartialEq"@, "PartialOrd"@];
    assert forall|k: int| 0 <= k < 9 implies ns.contains(#[trigger] names[k]) == (
        in_block(b0, names[k]) || in_block(b1, names[k]) || in_block(b2, names[k]) || in_block(b3, names[k])
            || in_block(b4, names[k]) || in_block(b5, names[k])) by {
        let x = names[k];
        lemma_concat_contains(b0, b1, x);
        lemma_concat_contains(b0 + b1, b2, x);
        lemma_concat_contains(b0 + b1 + b2, b3, x);
        lemma_concat_contains(b0 + b1 + b2 + b3, b4, x);
        lemma_concat_contains(b0 + b1 + b2 + b3 + b4, b5, x);
        lemma_block_contains(b0, x);
        lemma_block_contains(b1, x);
        lemma_block_contains(b2, x);
        lemma_block_contains(b3, x);
        lemma_block_contains(b4, x);
        lemma_block_contains(b5, x);
    }
    assert(names[0] == "Clone"@);
    assert(names[1] == "Copy"@);
    assert(names[2] == "Debug"@);
    assert(names[3] == "Default"@);
    assert(names[4] == "Eq"@);
    assert(names[5] == "Ord"@);
    assert(names[6] == "Hash"@);
    assert(names[7] == "PartialEq"@);
    assert(names[8] == "PartialOrd"@);
}

/// Whether one of the (at most three) names of `b` is `x`.
pub open spec fn in_block(b: Seq<Seq<char>>, x: Seq<char>) -> bool {
    (b.len() > 0 && b[0] == x) || (b.len() > 1 && b[1] == x) || (b.len() > 2 && b[2] == x)
}

proof fn lemma_block_contains(b: Seq<Seq<char>>, x: Seq<char>)
    requires
        b.len() <= 3,
    ensures
        b.contains(x) == in_block(b, x),
{
    if b.contains(x) {
        let w = choose|w: int| 0 <= w < b.len() && b[w] == x;
        assert(w == 0 || w == 1 || w == 2);
    }
    if in_block(b, x) {
        if b.len() > 0 && b[0] == x {
            assert(b[0] == x);
        } else if b.len() > 1 && b[1] == x {
            assert(b[1] == x);
        } else {
            assert(b[2] == x);
        }
    }
}

proof fn lemma_concat_contains(a: Seq<Seq<char>>, b: Seq<Seq<char>>, x: Seq<char>)
    ensures
        (a + b).contains(x) == (a.contains(x) || b.contains(x)),
{
    if a.contains(x) {
        let w = choose|w: int| 0 <= w < a.len() && a[w] == x;
        assert((a + b)[w] == x);
    }
    if b.contains(x) {
        let w = choose|w: int| 0 <= w < b.len() && b[w] == x;
        assert((a + b)[a.len() + w] == x);
    }
    if (a + b).contains(x) {
        let w = choose|w: int| 0 <= w < (a + b).len() && (a + b)[w] == x;
        if w < a.len() {
            assert(a[w] == x);
        } else {
            assert(b[w - a.len()] == x);
        }
    }
}

/// Every architecture named in `e` is one of `inputs`.
pub open spec fn archs_within(e: Seq<EntryView>, inputs: Seq<(Architecture, Types)>) -> bool {
    forall|i: int, j: int|
        0 <= i < e.len() && 0 <= j < e[i].1.len() ==> exists|k: int|
            0 <= k < inputs.len() && inputs[k].0 == #[trigger] e[i].1[j]
}

pub open spec fn gates_ok(e: Seq<EntryView>, inputs: Seq<(Architecture, Types)>) -> bool {
    keys_unique(e) && archs_ok(e) && archs_within(e, inputs)
}

proof fn lemma_add_all_ok(e: Seq<EntryView>, arch: Architecture, d: Seq<DeclKeyView>, inputs: Seq<(Architecture, Types)>, k: int)
    requires
        gates_ok(e, inputs),
        0 <= k < inputs.len(),
        inputs[k].0 == arch,
    ensures
        gates_ok(add_all(e, arch, d), inputs),
    decreases d.len(),
{
    if d.len() > 0 {
        let p = add_all(e, arch, d.drop_last());
        lemma_add_all_ok(e, arch, d.drop_last(), inputs, k);
        lemma_add_entry_ok(p, d.last(), arch);
        let r = add_entry(p, d.last(), arch);
        assert forall|i: int, j: int| 0 <= i < r.len() && 0 <= j < r[i].1.len() implies exists|m: int|
            0 <= m < inputs.len() && inputs[m].0 == #[trigger] r[i].1[j] by {
            if r[i].1[j] == arch {
                assert(inputs[k].0 == r[i].1[j]);
            } else {
                let w = choose|w: int| 0 <= w < p[i].1.len() && p[i].1[w] == r[i].1[j];
                assert(p[i].1[w] == r[i].1[j]);
            }
        }
    }
}

proof fn lemma_build_types_ok(e: Seq<EntryView>, arch: Architecture, s: Seq<RocType>, n: nat, inputs: Seq<(Architecture, Types)>, k: int)
    requires
        gates_ok(e, inputs),
        0 <= k < inputs.len(),
        inputs[k].0 == arch,
    ensures
        build_types(e, arch, s, n) matches Ok(r) ==> gates_ok(r, inputs),
    decreases n,
{
    if n > 0 {
        lemma_build_types_ok(e, arch, s, (n - 1) as nat, inputs, k);
        if let Ok(e2) = build_types(e, arch, s, (n - 1) as nat) {
            if let Ok(d) = crate::driver::type_decls(arch, s, crate::types::TypeId((n - 1) as usize)) {
                lemma_add_all_ok(e2, arch, d, inputs, k);
            }
        }
    }
}

proof fn lemma_build_ok(inputs: Seq<(Architecture, Types)>, n: nat)
    requires
        n <= inputs.len(),
    ensures
        build(inputs, n) matches Ok(r) ==> gates_ok(r, inputs),
    decreases n,
{
    if n > 0 {
        lemma_build_ok(inputs, (n - 1) as nat);
        if let Ok(e) = build(inputs, (n - 1) as nat) {
            lemma_build_types_ok(e, inputs[n - 1].0, inputs[n - 1].1.types@, inputs[n - 1].1.types@.len(), inputs, n - 1);
        }
    } else {
        assert(gates_ok(Seq::<EntryView>::empty(), inputs));
    }
}

/// Every declaration of the output sits behind one gate, and that gate names
/// a non-empty set of the input architectures, each once; no body appears
/// twice in one scope.
pub proof fn lemma_gate_totality(inputs: Seq<(Architecture, Types)>)
    ensures
        build(inputs, inputs.len()) matches Ok(e) ==> (forall|i: int|
            0 <= i < e.len() ==> e[i].1.len() > 0 && e[i].1.no_duplicates()) && archs_within(e, inputs)
            && keys_unique(e),
{
    lemma_build_ok(inputs, inputs.len());
}


/// The architectures of the entry for body `k`, or none.
pub open spec fn archs_of(s: Seq<EntryView>, k: DeclKeyView) -> Seq<Architecture> {
    if has_key(s, k) {
        s[choose|i: int| 0 <= i < s.len() && s[i].0 == k].1
    } else {
        Seq::empty()
    }
}

pub open spec fn add_once(v: Seq<Architecture>, a: Architecture) -> Seq<Architecture> {
    if v.contains(a) {
        v
    } else {
        v.push(a)
    }
}

/// Whether one of the first `n` types of `s` declares body `k` on `arch`.
pub open spec fn produces(arch: Architecture, s: Seq<RocType>, n: nat, k: DeclKeyView) -> bool
    decreases n,
{
    n > 0 && (produces(arch, s, (n - 1) as nat, k) || match type_decls(arch, s, TypeId((n - 1) as usize)) {
        Ok(d) => d.contains(k),
        Err(_) => false,
    })
}

/// The architectures, in input order and each once, whose registry among the
/// first `n` declares body `k`.
pub open spec fn producing_archs(inputs: Seq<(Architecture, Types)>, n: nat, k: DeclKeyView) -> Seq<Architecture>
    decreases n,
{
    if n == 0 {
        Seq::empty()
    } else {
        let p = producing_archs(inputs, (n - 1) as nat, k);
        if produces(inputs[n - 1].0, inputs[n - 1].1.types@, inputs[n - 1].1.types@.len(), k) {
            add_once(p, inputs[n - 1].0)
        } else {
            p
        }
    }
}

proof fn lemma_choose_unique(s: Seq<EntryView>, k: DeclKeyView, j: int)
    requires
        keys_unique(s),
        0 <= j < s.len(),
        s[j].0 == k,
    ensures
        has_key(s, k),
        archs_of(s, k) == s[j].1,
{
    let c = choose|i: int| 0 <= i < s.len() && s[i].0 == k;
    assert(c == j);
}

proof fn lemma_add_once_twice(v: Seq<Architecture>, a: Architecture)
    ensures
        add_once(add_once(v, a), a) == add_once(v, a),
{
    if !v.contains(a) {
        assert(v.push(a)[v.len() as int] == a);
    }
}

proof fn lemma_archs_after_entry(s: Seq<EntryView>, k2: DeclKeyView, a: Architecture, k: DeclKeyView)
    requires
        keys_unique(s),
        archs_ok(s),
    ensures
        archs_of(add_entry(s, k2, a), k) == if k2 == k {
            add_once(archs_of(s, k), a)
        } else {
            archs_of(s, k)
        },
{
    lemma_add_entry_ok(s, k2, a);
    let r = add_entry(s, k2, a);
    if has_key(s, k) {
        let j = choose|i: int| 0 <= i < s.len() && s[i].0 == k;
        lemma_choose_unique(s, k, j);
        assert(r[j].0 == k);
        lemma_choose_unique(r, k, j);
    } else if k2 == k {
        assert(r == s.push((k, seq![a])));
        assert(r[s.len() as int].0 == k);
        lemma_choose_unique(r, k, s.len() as int);
        assert(Seq::<Architecture>::empty().push(a) =~= seq![a]);
    } else {
        if has_key(r, k) {
            let j = choose|i: int| 0 <= i < r.len() && r[i].0 == k;
            if has_key(s, k2) {
                assert(s[j].0 == k);
            } else if j < s.len() {
                assert(s[j].0 == k);
            }
        }
    }
}

proof fn lemma_archs_after_all(s: Seq<EntryView>, a: Architecture, d: Seq<DeclKeyView>, k: DeclKeyView)
    requires
        keys_unique(s),
        archs_ok(s),
    ensures
        keys_unique(add_all(s, a, d)),
        archs_ok(add_all(s, a, d)),
        archs_of(add_all(s, a, d), k) == if d.contains(k) {
            add_once(archs_of(s, k), a)
        } else {
            archs_of(s, k)
        },
    decreases d.len(),
{
    if d.len() > 0 {
        let d2 = d.drop_last();
        lemma_archs_after_all(s, a, d2, k);
        let p = add_all(s, a, d2);
        lemma_add_entry_ok(p, d.last(), a);
        lemma_archs_after_entry(p, d.last(), a, k);
        lemma_add_once_twice(archs_of(s, k), a);
        if d.contains(k) && !d2.contains(k) {
            let w = choose|w: int| 0 <= w < d.len() && d[w] == k;
            if w < d2.len() {
                assert(d2[w] == k);
            }
        }
        if d2.contains(k) {
            let w = choose|w: int| 0 <= w < d2.len() && d2[w] == k;
            assert(d[w] == k);
        }
        if d.last() == k {
            assert(d[d.len() - 1] == k);
        }
    }
}

proof fn lemma_archs_after_types(e: Seq<EntryView>, arch: Architecture, s: Seq<RocType>, n: nat, k: DeclKeyView)
    requires
        keys_unique(e),
        archs_ok(e),
    ensures
        build_types(e, arch, s, n) matches Ok(r) ==> keys_unique(r) && archs_ok(r) && archs_of(r, k)
            == if produces(arch, s, n, k) {
            add_once(archs_of(e, k), arch)
        } else {
            archs_of(e, k)
        },
    decreases n,
{
    if n > 0 {
        lemma_archs_after_types(e, arch, s, (n - 1) as nat, k);
        if let Ok(e2) = build_types(e, arch, s, (n - 1) as nat) {
            if let Ok(d) = type_decls(arch, s, TypeId((n - 1) as usize)) {
                lemma_archs_after_all(e2, arch, d, k);
                lemma_add_once_twice(archs_of(e, k), arch);
            }
        }
    }
}

proof fn lemma_archs_after_build(inputs: Seq<(Architecture, Types)>, n: nat, k: DeclKeyView)
    requires
        n <= inputs.len(),
    ensures
        build(inputs, n) matches Ok(e) ==> keys_unique(e) && archs_ok(e) && archs_of(e, k)
            == producing_archs(inputs, n, k),
    decreases n,
{
    if n > 0 {
        lemma_archs_after_build(inputs, (n - 1) as nat, k);
        if let Ok(e) = build(inputs, (n - 1) as nat) {
            lemma_archs_after_types(e, inputs[n - 1].0, inputs[n - 1].1.types@, inputs[n - 1].1.types@.len(), k);
        }
    }
}

/// Across the whole output: a body `k` is kept as a single entry, and the
/// architectures its gate names are exactly those whose registry declares
/// it, in input order, each once.
pub proof fn lemma_merge_across_architectures(inputs: Seq<(Architecture, Types)>, k: DeclKeyView)
    ensures
        build(inputs, inputs.len()) matches Ok(e) ==> keys_unique(e) && archs_of(e, k) == producing_archs(
            inputs,
            inputs.len(),
            k,
        ),
{
    lemma_archs_after_build(inputs, inputs.len(), k);
}

} // verus!
