use vstd::prelude::*;
use crate::arch::{Architecture, max_pointer_tagged_variants, max_tagged};
use crate::assemble::render;
use crate::emit_basic::{Decl, add_enumeration, add_struct, decl_views, enumeration_decls, push_top, strings_view, struct_decls, unit_struct_body, unit_struct_text, wrapper_body, wrapper_text};
use crate::nullable::{add_nullable_unwrapped, nullable_decls};
use crate::store::{DeclKeyView, DeclStore, EntryView, add_entry, key_view};
use crate::tag_impls::{add_tag_union, tag_union_decls};
use crate::types::{RocTagUnion, RocType, TypeId, Types};

verus! {

/// Why bindings could not be generated.
#[derive(Clone, Copy, Debug, PartialEq, Eq, Structural)]
pub enum BindgenError {
    /// A nullable-wrapped or non-nullable-unwrapped tag union.
    Unsupported { type_id: TypeId, architecture: Architecture },
    /// A recursive tag union with more tags than the pointer's spare low bits
    /// can tell apart on this architecture.
    TooManyTags { type_id: TypeId, architecture: Architecture, tag_count: usize },
}

/// The declarations that type `id` contributes on `arch`, or why it cannot.
pub open spec fn type_decls(arch: Architecture, s: Seq<RocType>, id: TypeId) -> Result<Seq<DeclKeyView>, BindgenError> {
    if id.0 >= s.len() {
        Ok(Seq::empty())
    } else {
        match s[id.0 as int] {
            RocType::Struct { name, fields } => Ok(struct_decls(s, id, name@, fields@)),
            RocType::TransparentWrapper { name, content } => Ok(seq![(None, wrapper_body(s, id, name@, content))]),
            RocType::TagUnion(u) => match u {
                RocTagUnion::Enumeration { name, tags } => if tags@.len() == 1 {
                    Ok(seq![(None, unit_struct_body(s, id))])
                } else {
                    Ok(enumeration_decls(name@, strings_view(tags@)))
                },
                RocTagUnion::NonRecursive { name, tags, size, discriminant_offset } => if tags@.len() == 0 {
                    Ok(Seq::empty())
                } else {
                    Ok(tag_union_decls(false, arch, s, id, name@, tags@, size as nat, discriminant_offset as nat))
                },
                RocTagUnion::Recursive { name, tags, size, discriminant_offset } => if tags@.len() == 0 {
                    Ok(Seq::empty())
                } else if tags@.len() > max_tagged(arch) {
                    Err(BindgenError::TooManyTags { type_id: id, architecture: arch, tag_count: tags@.len() as usize })
                } else {
                    Ok(tag_union_decls(true, arch, s, id, name@, tags@, size as nat, discriminant_offset as nat))
                },
                RocTagUnion::NullableUnwrapped { name, null_tag, non_null_tag, non_null_payload, .. } => Ok(
                    nullable_decls(s, id, name@, null_tag@, non_null_tag@, non_null_payload),
                ),
                _ => Err(BindgenError::Unsupported { type_id: id, architecture: arch }),
            },
            _ => Ok(Seq::empty()),
        }
    }
}

/// Adds the declarations of type `id`; primitives and containers need none.
pub fn add_type(architecture: Architecture, id: TypeId, types: &Types, out: &mut Vec<Decl>) -> (r: Result<(), BindgenError>)
    ensures
        match type_decls(architecture, types.types@, id) {
            Ok(d) => r is Ok && decl_views(final(out)@) == decl_views(old(out)@) + d,
            Err(e) => r == Err::<(), BindgenError>(e),
        },
{
    if id.0 >= types.types.len() {
        proof {
            assert(decl_views(out@) =~= decl_views(out@) + Seq::<DeclKeyView>::empty());
        }
        return Ok(());
    }
    match types.get(id) {
        RocType::Struct { name, fields } => {
            add_struct(name, fields, id, types, out);
            Ok(())
        },
        RocType::TransparentWrapper { name, content } => {
            push_top(out, wrapper_text(id, types, name, *content));
            proof {
                assert(decl_views(out@) =~= decl_views(old(out)@) + seq![(None::<Seq<char>>, wrapper_body(types.types@, id, name@, *content))]);
            }
            Ok(())
        },
        RocType::TagUnion(u) => match u {
            RocTagUnion::Enumeration { name, tags } => {
                if tags.len() == 1 {
                    push_top(out, unit_struct_text(id, types));
                    proof {
                        assert(decl_views(out@) =~= decl_views(old(out)@) + seq![(None::<Seq<char>>, unit_struct_body(types.types@, id))]);
                    }
                } else {
                    add_enumeration(name, tags, out);
                }
                Ok(())
            },
            RocTagUnion::NonRecursive { name, tags, size, discriminant_offset } => {
                if tags.len() == 0 {
                    proof {
                        assert(decl_views(out@) =~= decl_views(out@) + Seq::<DeclKeyView>::empty());
                    }
                } else {
                    add_tag_union(false, name, architecture, id, tags, *size, *discriminant_offset, types, out);
                }
                Ok(())
            },
            RocTagUnion::Recursive { name, tags, size, discriminant_offset } => {
                if tags.len() == 0 {
                    proof {
                        assert(decl_views(out@) =~= decl_views(out@) + Seq::<DeclKeyView>::empty());
                    }
                    Ok(())
                } else if tags.len() > max_pointer_tagged_variants(architecture) {
                    Err(BindgenError::TooManyTags { type_id: id, architecture, tag_count: tags.len() })
                } else {
                    add_tag_union(true, name, architecture, id, tags, *size, *discriminant_offset, types, out);
                    Ok(())
                }
            },
            RocTagUnion::NullableUnwrapped { name, null_tag, non_null_tag, non_null_payload, .. } => {
                add_nullable_unwrapped(name, id, null_tag, non_null_tag, *non_null_payload, types, out);
                Ok(())
            },
            RocTagUnion::NullableWrapped { .. } => Err(BindgenError::Unsupported { type_id: id, architecture }),
            RocTagUnion::NonNullableUnwrapped { .. } => Err(BindgenError::Unsupported { type_id: id, architecture }),
        },
        _ => {
            proof {
                assert(decl_views(out@) =~= decl_views(out@) + Seq::<DeclKeyView>::empty());
            }
            Ok(())
        },
    }
}

/// The store after adding each of `decls` for `arch`, in order.
pub open spec fn add_all(e: Seq<EntryView>, arch: Architecture, decls: Seq<DeclKeyView>) -> Seq<EntryView>
    decreases decls.len(),
{
    if decls.len() == 0 {
        e
    } else {
        add_entry(add_all(e, arch, decls.drop_last()), decls.last(), arch)
    }
}

/// The store after the first `n` types of `s`, in id order, on `arch`.
pub open spec fn build_types(e: Seq<EntryView>, arch: Architecture, s: Seq<RocType>, n: nat) -> Result<Seq<EntryView>, BindgenError>
    decreases n,
{
    if n == 0 {
        Ok(e)
    } else {
        match build_types(e, arch, s, (n - 1) as nat) {
            Err(x) => Err(x),
            Ok(e2) => match type_decls(arch, s, TypeId((n - 1) as usize)) {
                Err(x) => Err(x),
                Ok(d) => Ok(add_all(e2, arch, d)),
            },
        }
    }
}

/// The store after the first `n` registries.
pub open spec fn build(inputs: Seq<(Architecture, Types)>, n: nat) -> Result<Seq<EntryView>, BindgenError>
    decreases n,
{
    if n == 0 {
        Ok(Seq::empty())
    } else {
        match build(inputs, (n - 1) as nat) {
            Err(x) => Err(x),
            Ok(e) => build_types(e, inputs[n - 1].0, inputs[n - 1].1.types@, inputs[n - 1].1.types@.len()),
        }
    }
}

/// The source text for all registries: the rendered store, or the first
/// error in registry order and then id order.
pub open spec fn emitted(inputs: Seq<(Architecture, Types)>) -> Result<Seq<char>, BindgenError> {
    match build(inputs, inputs.len()) {
        Ok(e) => Ok(render(e)),
        Err(x) => Err(x),
    }
}

pub open spec fn result_view(r: Result<String, BindgenError>) -> Result<Seq<char>, BindgenError> {
    match r {
        Ok(s) => Ok(s@),
        Err(e) => Err(e),
    }
}

fn clone_scope(a: &Option<String>) -> (r: Option<String>)
    ensures
        r == *a,
{
    match a {
        Some(x) => Some(x.clone()),
        None => None,
    }
}

fn add_decls(store: &mut DeclStore, architecture: Architecture, out: &Vec<Decl>)
    requires
        old(store).wf(),
    ensures
        final(store).wf(),
        final(store)@ == add_all(old(store)@, architecture, decl_views(out@)),
{
    let n = out.len();
    let mut i: usize = 0;
    proof {
        assert(decl_views(out@).subrange(0, 0) =~= Seq::<DeclKeyView>::empty());
    }
    while i < n
        invariant
            n == out@.len(),
            i <= n,
            store.wf(),
            store@ == add_all(old(store)@, architecture, decl_views(out@).subrange(0, i as int)),
        decreases n - i,
    {
        let scope = clone_scope(&out[i].0);
        let body = out[i].1.clone();
        store.add_decl(scope, architecture, body);
        proof {
            let d = decl_views(out@);
            assert(d.subrange(0, i + 1).drop_last() =~= d.subrange(0, i as int));
            assert(d.subrange(0, i + 1).last() == key_view(out@[i as int]));
        }
        i = i + 1;
    }
    proof {
        assert(decl_views(out@).subrange(0, n as int) =~= decl_views(out@));
    }
}

fn add_registry(store: &mut DeclStore, architecture: Architecture, types: &Types) -> (r: Result<(), BindgenError>)
    requires
        old(store).wf(),
    ensures
        final(store).wf(),
        match build_types(old(store)@, architecture, types.types@, types.types@.len()) {
            Ok(e) => r is Ok && final(store)@ == e,
            Err(x) => r == Err::<(), BindgenError>(x),
        },
{
    let ids = types.sorted_ids();
    let n = ids.len();
    let mut i: usize = 0;
    while i < n
        invariant
            n == ids@.len(),
            n == types.types@.len(),
            forall|j: int| 0 <= j < ids@.len() ==> ids@[j].0 == j,
            i <= n,
            store.wf(),
            build_types(old(store)@, architecture, types.types@, i as nat) == Ok::<Seq<EntryView>, BindgenError>(store@),
        decreases n - i,
    {
        let mut out: Vec<Decl> = Vec::new();
        let id = ids[i];
        assert(id == TypeId(i));
        let res = add_type(architecture, id, types, &mut out);
        proof {
            assert(decl_views(Seq::<Decl>::empty()) =~= Seq::<DeclKeyView>::empty());
        }
        match res {
            Err(e) => {
                proof {
                    let mut k: nat = (i + 1) as nat;
                    assert(build_types(old(store)@, architecture, types.types@, k) == Err::<Seq<EntryView>, BindgenError>(e));
                    lemma_build_types_err(old(store)@, architecture, types.types@, k, n as nat);
                }
                return Err(e);
            },
            Ok(()) => {
                proof {
                    assert(decl_views(out@) =~= Seq::<DeclKeyView>::empty() + decl_views(out@));
                }
                add_decls(store, architecture, &out);
            },
        }
        i = i + 1;
    }
    Ok(())
}

proof fn lemma_build_types_err(e: Seq<EntryView>, arch: Architecture, s: Seq<RocType>, k: nat, n: nat)
    requires
        k <= n,
        build_types(e, arch, s, k) is Err,
    ensures
        build_types(e, arch, s, n) == build_types(e, arch, s, k),
    decreases n - k,
{
    if k < n {
        lemma_build_types_err(e, arch, s, k, (n - 1) as nat);
    }
}

proof fn lemma_build_err(inputs: Seq<(Architecture, Types)>, k: nat, n: nat)
    requires
        k <= n,
        build(inputs, k) is Err,
    ensures
        build(inputs, n) == build(inputs, k),
    decreases n - k,
{
    if k < n {
        lemma_build_err(inputs, k, (n - 1) as nat);
    }
}

/// Generates the bindings for every `(architecture, registry)` pair as one
/// source text: a declaration that comes out identical on several
/// architectures appears once, behind a gate naming all of them.
pub fn emit(types_by_architecture: &[(Architecture, Types)]) -> (r: Result<String, BindgenError>)
    requires
        forall|i: int|
            0 <= i < types_by_architecture@.len() ==> (#[trigger] types_by_architecture@[i]).1.wf(),
    ensures
        result_view(r) == emitted(types_by_architecture@),
{
    let mut store = DeclStore::new();
    let n = types_by_architecture.len();
    let mut i: usize = 0;
    while i < n
        invariant
            n == types_by_architecture@.len(),
            i <= n,
            store.wf(),
            build(types_by_architecture@, i as nat) == Ok::<Seq<EntryView>, BindgenError>(store@),
        decreases n - i,
    {
        let (architecture, types) = &types_by_architecture[i];
        match add_registry(&mut store, *architecture, types) {
            Err(e) => {
                proof {
                    lemma_build_err(types_by_architecture@, (i + 1) as nat, n as nat);
                }
                return Err(e);
            },
            Ok(()) => {},
        }
        i = i + 1;
    }
    Ok(store.render())
}

} // verus!
