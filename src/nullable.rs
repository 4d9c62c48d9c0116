use vstd::prelude::*;
use vstd::string::*;
use crate::emit_basic::{Decl, add_discriminant, decl_views, discriminant_name, enumeration_decls, push_scoped, push_top, strings_view};
use crate::names::roc_type_name;
use crate::store::DeclKeyView;
use crate::tag_union::tn;
use crate::templates::{impl_scope_str, impl_scope_text, nu_as_str, nu_as_text, nu_clone_str, nu_clone_text, nu_constructor_str, nu_constructor_text, nu_copy_out_str, nu_copy_out_text, nu_debug_str, nu_debug_text, nu_drop_str, nu_drop_text, nu_into_str, nu_into_text, nu_null_constant_str, nu_null_constant_text, nu_storage_str, nu_storage_text, nu_struct_str, nu_struct_text, nu_take_str, nu_take_text, nu_variant_str, nu_variant_text, trait_scope_str, trait_scope_text, unit_as_str, unit_as_text, unit_into_str, unit_into_text};
use crate::types::{Query, RocType, TypeId, Types, has_float, has_pointer, holds_at};

verus! {

/// Lexicographic order of strings by code point, as `String`'s `Ord` orders them.
pub open spec fn lex_le(a: Seq<char>, b: Seq<char>) -> bool
    decreases a.len(),
{
    if a.len() == 0 {
        true
    } else if b.len() == 0 {
        false
    } else if (a[0] as u32) < (b[0] as u32) {
        true
    } else if (a[0] as u32) > (b[0] as u32) {
        false
    } else {
        lex_le(a.drop_first(), b.drop_first())
    }
}

pub fn lex_le_str(a: &String, b: &String) -> (r: bool)
    ensures
        r == lex_le(a@, b@),
{
    let sa = a.as_str();
    let sb = b.as_str();
    let na = sa.unicode_len();
    let nb = sb.unicode_len();
    let mut i: usize = 0;
    proof {
        assert(a@.subrange(0, na as int) =~= a@);
        assert(b@.subrange(0, nb as int) =~= b@);
    }
    while i < na
        invariant
            na == a@.len(),
            nb == b@.len(),
            sa@ == a@,
            sb@ == b@,
            i <= na,
            i <= nb,
            lex_le(a@, b@) == lex_le(a@.subrange(i as int, na as int), b@.subrange(i as int, nb as int)),
        decreases na - i,
    {
        let ghost x = a@.subrange(i as int, na as int);
        let ghost y = b@.subrange(i as int, nb as int);
        if i >= nb {
            return false;
        }
        let ca = sa.get_char(i);
        let cb = sb.get_char(i);
        proof {
            assert(x[0] == ca);
            assert(y[0] == cb);
            assert(x.drop_first() =~= a@.subrange(i + 1, na as int));
            assert(y.drop_first() =~= b@.subrange(i + 1, nb as int));
        }
        if (ca as u32) < (cb as u32) {
            return true;
        }
        if (ca as u32) > (cb as u32) {
            return false;
        }
        i = i + 1;
    }
    true
}

/// The two tags of a nullable union in sorted order: the discriminant's
/// ordinals follow that order.
pub open spec fn sorted_pair(a: Seq<char>, b: Seq<char>) -> Seq<Seq<char>> {
    if lex_le(a, b) {
        seq![a, b]
    } else {
        seq![b, a]
    }
}

/// Every declaration of a nullable-unwrapped union: its discriminant
/// enumeration, a struct holding one raw pointer, the helpers, constructor,
/// accessors and null constant, and `Clone` (bumps the refcount), `Drop`
/// (releases it) and `Debug`.
pub open spec fn nullable_decls(
    s: Seq<RocType>,
    id: TypeId,
    name: Seq<char>,
    null_tag: Seq<char>,
    non_null_tag: Seq<char>,
    payload: TypeId,
) -> Seq<DeclKeyView> {
    let d = discriminant_name(name);
    let p = tn(s, payload);
    let sc = Some(impl_scope_text(""@, name));
    let ptr = has_pointer(s, payload);
    enumeration_decls(d, sorted_pair(null_tag, non_null_tag)) + nullable_members(
        s,
        id,
        name,
        null_tag,
        non_null_tag,
        payload,
    )
}

/// The struct, helpers, accessors and trait impls of a nullable-unwrapped union.
pub open spec fn nullable_members(
    s: Seq<RocType>,
    id: TypeId,
    name: Seq<char>,
    null_tag: Seq<char>,
    non_null_tag: Seq<char>,
    payload: TypeId,
) -> Seq<DeclKeyView> {
    let d = discriminant_name(name);
    let p = tn(s, payload);
    let sc = Some(impl_scope_text(""@, name));
    let ptr = has_pointer(s, payload);
    seq![
        (None, nu_struct_text(if has_float(s, id) { ""@ } else { ", Eq, Ord, Hash"@ }, name, p)),
        (sc, nu_storage_text()),
        (sc, nu_variant_text(d, null_tag, non_null_tag)),
        (sc, nu_constructor_text(non_null_tag, p)),
        (sc, nu_into_text(name, non_null_tag, p, d, if ptr { nu_take_text() } else { nu_copy_out_text() })),
        (sc, nu_as_text(name, non_null_tag, p, d)),
        (sc, nu_null_constant_text(null_tag)),
        (sc, unit_into_text(null_tag)),
        (sc, unit_as_text(null_tag)),
        (Some(trait_scope_text(""@, "Clone"@, name)), nu_clone_text()),
        (Some(trait_scope_text(""@, "Drop"@, name)), nu_drop_text(p)),
        (Some(trait_scope_text(""@, "core::fmt::Debug"@, name)), nu_debug_text(name, null_tag, non_null_tag, if ptr { "*"@ } else { ""@ })),
    ]
}

pub fn add_nullable_unwrapped(
    name: &String,
    id: TypeId,
    null_tag: &String,
    non_null_tag: &String,
    non_null_payload: TypeId,
    types: &Types,
    out: &mut Vec<Decl>,
)
    ensures
        decl_views(final(out)@) == decl_views(old(out)@) + nullable_decls(
            types.types@,
            id,
            name@,
            null_tag@,
            non_null_tag@,
            non_null_payload,
        ),
{
    let mut tag_names: Vec<String> = Vec::new();
    if lex_le_str(null_tag, non_null_tag) {
        tag_names.push(null_tag.clone());
        tag_names.push(non_null_tag.clone());
    } else {
        tag_names.push(non_null_tag.clone());
        tag_names.push(null_tag.clone());
    }
    proof {
        assert(strings_view(tag_names@) =~= sorted_pair(null_tag@, non_null_tag@));
    }
    let d = add_discriminant(name, &tag_names, out);
    add_nullable_members(name, &d, id, null_tag, non_null_tag, non_null_payload, types, out);
    proof {
        assert(decl_views(out@) =~= decl_views(old(out)@) + nullable_decls(
            types.types@,
            id,
            name@,
            null_tag@,
            non_null_tag@,
            non_null_payload,
        ));
    }
}

fn add_nullable_members(
    name: &String,
    d: &String,
    id: TypeId,
    null_tag: &String,
    non_null_tag: &String,
    non_null_payload: TypeId,
    types: &Types,
    out: &mut Vec<Decl>,
)
    requires
        d@ == discriminant_name(name@),
    ensures
        decl_views(final(out)@) == decl_views(old(out)@) + nullable_members(
            types.types@,
            id,
            name@,
            null_tag@,
            non_null_tag@,
            non_null_payload,
        ),
{
    let p = roc_type_name(non_null_payload, types);
    let ptr = holds_at(Query::Pointer, types, non_null_payload.0);
    let float = holds_at(Query::Float, types, id.0);
    let extras = if float {
        ""
    } else {
        ", Eq, Ord, Hash"
    };
    push_top(out, nu_struct_str(extras, name.as_str(), p.as_str()));
    let sc = impl_scope_str("", name.as_str());
    let n = null_tag.as_str();
    let nn = non_null_tag.as_str();
    push_scoped(out, sc.clone(), nu_storage_str());
    push_scoped(out, sc.clone(), nu_variant_str(d.as_str(), n, nn));
    push_scoped(out, sc.clone(), nu_constructor_str(nn, p.as_str()));
    let take = if ptr {
        nu_take_str()
    } else {
        nu_copy_out_str()
    };
    push_scoped(out, sc.clone(), nu_into_str(name.as_str(), nn, p.as_str(), d.as_str(), take.as_str()));
    push_scoped(out, sc.clone(), nu_as_str(name.as_str(), nn, p.as_str(), d.as_str()));
    push_scoped(out, sc.clone(), nu_null_constant_str(n));
    push_scoped(out, sc.clone(), unit_into_str(n));
    push_scoped(out, sc, unit_as_str(n));
    push_scoped(out, trait_scope_str("", "Clone", name.as_str()), nu_clone_str());
    push_scoped(out, trait_scope_str("", "Drop", name.as_str()), nu_drop_str(p.as_str()));
    let deref = if ptr {
        "*"
    } else {
        ""
    };
    push_scoped(out, trait_scope_str("", "core::fmt::Debug", name.as_str()), nu_debug_str(name.as_str(), n, nn, deref));
    proof {
        assert(decl_views(out@) =~= decl_views(old(out)@) + nullable_members(
            types.types@,
            id,
            name@,
            null_tag@,
            non_null_tag@,
            non_null_payload,
        ));
    }
}

} // verus!
