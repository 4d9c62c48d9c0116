use vstd::prelude::*;
use vstd::string::*;
use crate::arch::{Architecture, bitmask_literal, mask_literal, max_tagged};
use crate::emit_basic::{Decl, add_discriminant, decl_views, discriminant_name, enumeration_decls, push_scoped, push_top, strings_view};
use crate::store::DeclKeyView;
use crate::tag_union::{carrier_from, payload_parts, payload_parts_str, recursive_pointer_field, union_body, union_body_str};
use crate::templates::{arm_str, arm_text, as_payload_str, as_payload_text, clone_branch_str, clone_branch_text, clone_impl_str, clone_impl_text, clone_unit_branch_str, clone_unit_branch_text, cmp_branch_str, cmp_branch_text, cmp_impl_str, cmp_impl_text, constructor_str, constructor_text, debug_branch_str, debug_branch_text, debug_impl_str, debug_impl_text, debug_unit_branch_str, debug_unit_branch_text, drop_branch_str, drop_branch_text, drop_impl_str, drop_impl_text, eq_branch_str, eq_branch_text, eq_impl_str, eq_impl_text, hash_branch_str, hash_branch_text, hash_impl_str, hash_impl_text, hash_unit_branch_str, hash_unit_branch_text, impl_scope_str, impl_scope_text, into_payload_str, into_payload_text, marker_impl_str, marker_impl_text, partial_cmp_branch_str, partial_cmp_branch_text, partial_cmp_impl_str, partial_cmp_impl_text, self_field_str, self_field_text, set_discriminant_nonrec_str, set_discriminant_nonrec_text, set_discriminant_rec_str, set_discriminant_rec_text, take_field_str, take_field_text, trait_scope_str, trait_scope_text, unit_as_str, unit_as_text, unit_constant_str, unit_constant_text, unit_into_str, unit_into_text, variant_nonrec_str, variant_nonrec_text, variant_rec_str, variant_rec_text};
use crate::text::{decimal, decimal_string, indents, write_indents};
use crate::types::{Query, RocType, TypeId, Types, has_float, has_pointer, holds_at};

verus! {

/// The three members that tag `tag` adds to its union's `impl`: a
/// constructor, `into_` and `as_`; for a tag without payload a constant and
/// two no-op methods.
pub open spec fn tag_member_bodies(
    s: Seq<RocType>,
    name: Seq<char>,
    d: Seq<char>,
    tag: (String, Option<TypeId>),
    offset: Seq<char>,
    mask: Seq<char>,
) -> Seq<Seq<char>> {
    let t = tag.0@;
    match tag.1 {
        Some(p) => {
            let parts = payload_parts(s, p, mask);
            let ptr = has_pointer(s, p);
            seq![
                constructor_text(t, parts.0, parts.1, parts.2, d),
                into_payload_text(
                    name,
                    t,
                    if ptr {
                        "mut self"@
                    } else {
                        "self"@
                    },
                    parts.3,
                    if ptr {
                        take_field_text(t)
                    } else {
                        self_field_text(t)
                    },
                    parts.4,
                    d,
                ),
                as_payload_text(name, t, parts.5, parts.6, d),
            ]
        },
        None => seq![unit_constant_text(name, t, d, offset), unit_into_text(t), unit_as_text(t)],
    }
}

pub open spec fn tag_members(
    s: Seq<RocType>,
    name: Seq<char>,
    d: Seq<char>,
    tags: Seq<(String, Option<TypeId>)>,
    offset: Seq<char>,
    mask: Seq<char>,
    n: nat,
) -> Seq<DeclKeyView>
    decreases n,
{
    if n == 0 || n > tags.len() {
        Seq::empty()
    } else {
        let b = tag_member_bodies(s, name, d, tags[n - 1], offset, mask);
        let sc = Some(impl_scope_text(""@, name));
        tag_members(s, name, d, tags, offset, mask, (n - 1) as nat) + seq![
            (sc, b[0]),
            (sc, b[1]),
            (sc, b[2]),
        ]
    }
}

fn tag_member_strs(
    types: &Types,
    name: &String,
    d: &String,
    tag: &(String, Option<TypeId>),
    offset: &String,
    mask: &str,
) -> (r: (String, String, String))
    ensures
        seq![r.0@, r.1@, r.2@] == tag_member_bodies(types.types@, name@, d@, *tag, offset@, mask@),
{
    let t = tag.0.as_str();
    match &tag.1 {
        Some(p) => {
            let parts = payload_parts_str(types, *p, mask);
            let ptr = holds_at(Query::Pointer, types, p.0);
            let self_arg = if ptr {
                "mut self"
            } else {
                "self"
            };
            let get = if ptr {
                take_field_str(t)
            } else {
                self_field_str(t)
            };
            let c = constructor_str(t, parts.0.as_str(), parts.1.as_str(), parts.2.as_str(), d.as_str());
            let i = into_payload_str(name.as_str(), t, self_arg, parts.3.as_str(), get.as_str(), parts.4.as_str(), d.as_str());
            let a = as_payload_str(name.as_str(), t, parts.5.as_str(), parts.6.as_str(), d.as_str());
            (c, i, a)
        },
        None => (
            unit_constant_str(name.as_str(), t, d.as_str(), offset.as_str()),
            unit_into_str(t),
            unit_as_str(t),
        ),
    }
}

/// The handwritten trait impls of a tag union, each a match on `variant()`.
#[derive(Clone, Copy, PartialEq, Eq, Structural)]
pub enum Branch {
    Drop,
    Eq,
    PartialCmp,
    Cmp,
    Clone,
    Hash,
    Debug,
}

pub open spec fn branch_text(b: Branch, s: Seq<RocType>, name: Seq<char>, d: Seq<char>, tag: (String, Option<TypeId>)) -> Seq<char> {
    let t = tag.0@;
    match b {
        Branch::Drop => match tag.1 {
            Some(p) => if has_pointer(s, p) {
                drop_branch_text(t)
            } else {
                "{}"@
            },
            None => "{}"@,
        },
        Branch::Eq => if tag.1 is Some {
            eq_branch_text(t)
        } else {
            "true,"@
        },
        Branch::PartialCmp => if tag.1 is Some {
            partial_cmp_branch_text(t)
        } else {
            "Some(core::cmp::Ordering::Equal),"@
        },
        Branch::Cmp => if tag.1 is Some {
            cmp_branch_text(t)
        } else {
            "core::cmp::Ordering::Equal,"@
        },
        Branch::Clone => if tag.1 is Some {
            clone_branch_text(t)
        } else {
            clone_unit_branch_text(name)
        },
        Branch::Hash => if tag.1 is Some {
            hash_branch_text(d, t)
        } else {
            hash_unit_branch_text(d, t)
        },
        Branch::Debug => match tag.1 {
            Some(p) => debug_branch_text(
                t,
                if has_pointer(s, p) {
                    "&*"@
                } else {
                    "&"@
                },
            ),
            None => debug_unit_branch_text(t),
        },
    }
}

fn branch_str(b: Branch, types: &Types, name: &String, d: &String, tag: &(String, Option<TypeId>)) -> (r: String)
    ensures
        r@ == branch_text(b, types.types@, name@, d@, *tag),
{
    let t = tag.0.as_str();
    let has = tag.1.is_some();
    match b {
        Branch::Drop => match &tag.1 {
            Some(p) => if holds_at(Query::Pointer, types, p.0) {
                drop_branch_str(t)
            } else {
                String::from_str("{}")
            },
            None => String::from_str("{}"),
        },
        Branch::Eq => if has {
            eq_branch_str(t)
        } else {
            String::from_str("true,")
        },
        Branch::PartialCmp => if has {
            partial_cmp_branch_str(t)
        } else {
            String::from_str("Some(core::cmp::Ordering::Equal),")
        },
        Branch::Cmp => if has {
            cmp_branch_str(t)
        } else {
            String::from_str("core::cmp::Ordering::Equal,")
        },
        Branch::Clone => if has {
            clone_branch_str(t)
        } else {
            clone_unit_branch_str(name.as_str())
        },
        Branch::Hash => if has {
            hash_branch_str(d.as_str(), t)
        } else {
            hash_unit_branch_str(d.as_str(), t)
        },
        Branch::Debug => match &tag.1 {
            Some(p) => debug_branch_str(
                t,
                if holds_at(Query::Pointer, types, p.0) {
                    "&*"
                } else {
                    "&"
                },
            ),
            None => debug_unit_branch_str(t),
        },
    }
}

pub open spec fn match_arms(
    b: Branch,
    s: Seq<RocType>,
    name: Seq<char>,
    d: Seq<char>,
    tags: Seq<(String, Option<TypeId>)>,
    ind: nat,
    n: nat,
) -> Seq<char>
    decreases n,
{
    if n == 0 || n > tags.len() {
        Seq::empty()
    } else {
        match_arms(b, s, name, d, tags, ind, (n - 1) as nat) + indents(ind + 1) + arm_text(
            d,
            tags[n - 1].0@,
            branch_text(b, s, name, d, tags[n - 1]),
        )
    }
}

/// `match self.variant() { ... }` with one arm per tag.
pub open spec fn impl_match(
    b: Branch,
    s: Seq<RocType>,
    name: Seq<char>,
    d: Seq<char>,
    tags: Seq<(String, Option<TypeId>)>,
    ind: nat,
) -> Seq<char> {
    indents(ind) + "match self.variant() {\n"@ + match_arms(b, s, name, d, tags, ind, tags.len())
        + indents(ind) + "}\n"@
}

pub fn write_impl_tags(
    b: Branch,
    indentations: usize,
    types: &Types,
    name: &String,
    discriminant_name: &String,
    tags: &Vec<(String, Option<TypeId>)>,
    buf: &mut String,
)
    requires
        indentations < usize::MAX,
    ensures
        final(buf)@ == old(buf)@ + impl_match(
            b,
            types.types@,
            name@,
            discriminant_name@,
            tags@,
            indentations as nat,
        ),
{
    write_indents(indentations, buf);
    buf.append("match self.variant() {\n");
    let ghost start = buf@;
    let n = tags.len();
    let mut i: usize = 0;
    while i < n
        invariant
            n == tags@.len(),
            i <= n,
            indentations < usize::MAX,
            buf@ == start + match_arms(b, types.types@, name@, discriminant_name@, tags@, indentations as nat, i as nat),
        decreases n - i,
    {
        write_indents(indentations + 1, buf);
        let br = branch_str(b, types, name, discriminant_name, &tags[i]);
        buf.append(arm_str(discriminant_name.as_str(), tags[i].0.as_str(), br.as_str()).as_str());
        i = i + 1;
        proof {
            assert(buf@ =~= start + match_arms(b, types.types@, name@, discriminant_name@, tags@, indentations as nat, i as nat));
        }
    }
    write_indents(indentations, buf);
    buf.append("}\n");
    proof {
        assert(buf@ =~= old(buf)@ + impl_match(b, types.types@, name@, discriminant_name@, tags@, indentations as nat));
    }
}

fn impl_match_str(
    b: Branch,
    indentations: usize,
    types: &Types,
    name: &String,
    d: &String,
    tags: &Vec<(String, Option<TypeId>)>,
) -> (r: String)
    requires
        indentations < usize::MAX,
    ensures
        r@ == impl_match(b, types.types@, name@, d@, tags@, indentations as nat),
{
    let mut buf = String::new();
    write_impl_tags(b, indentations, types, name, d, tags, &mut buf);
    proof {
        assert(buf@ =~= impl_match(b, types.types@, name@, d@, tags@, indentations as nat));
    }
    buf
}

pub open spec fn tag_names(tags: Seq<(String, Option<TypeId>)>) -> Seq<Seq<char>> {
    tags.map_values(|t: (String, Option<TypeId>)| t.0@)
}

/// The discriminant enumeration, the storage, and the `variant` and
/// `set_discriminant` helpers of a tag union.
pub open spec fn tag_union_head(
    recursive: bool,
    arch: Architecture,
    s: Seq<RocType>,
    name: Seq<char>,
    tags: Seq<(String, Option<TypeId>)>,
    size: nat,
    offset: nat,
) -> Seq<DeclKeyView> {
    let d = discriminant_name(name);
    let sc = Some(impl_scope_text(""@, name));
    let mask = mask_literal(arch);
    let carrier = carrier_from(s, tags);
    let off = decimal(offset);
    enumeration_decls(d, tag_names(tags)) + seq![
        (None, union_body(s, name, tags, size)),
        (sc, if recursive {
            variant_rec_text(d, carrier, mask)
        } else {
            variant_nonrec_text(d, off)
        }),
        (sc, if recursive {
            set_discriminant_rec_text(d, carrier, mask)
        } else {
            set_discriminant_nonrec_text(d, name, off)
        }),
    ]
}

/// The handwritten trait impls of a tag union: `Drop`, `PartialEq` (with
/// `Eq` when float-free), `PartialOrd`, `Ord` (float-free only), `Clone`
/// (with `Copy` when pointer-free), `Hash` (float-free only) and `Debug`.
pub open spec fn tag_union_traits(
    s: Seq<RocType>,
    id: TypeId,
    name: Seq<char>,
    tags: Seq<(String, Option<TypeId>)>,
) -> Seq<DeclKeyView> {
    let d = discriminant_name(name);
    let float = has_float(s, id);
    seq![
        (Some(trait_scope_text(""@, "Drop"@, name)), drop_impl_text(impl_match(Branch::Drop, s, name, d, tags, 2))),
        (Some(trait_scope_text(if float { ""@ } else { marker_impl_text("Eq"@, name) }, "PartialEq"@, name)),
            eq_impl_text(impl_match(Branch::Eq, s, name, d, tags, 3))),
        (Some(trait_scope_text(""@, "PartialOrd"@, name)), partial_cmp_impl_text(impl_match(Branch::PartialCmp, s, name, d, tags, 3))),
    ] + (if float {
        Seq::empty()
    } else {
        seq![(Some(trait_scope_text(""@, "Ord"@, name)), cmp_impl_text(impl_match(Branch::Cmp, s, name, d, tags, 3)))]
    }) + seq![
        (Some(trait_scope_text(if has_pointer(s, id) { ""@ } else { marker_impl_text("Copy"@, name) }, "Clone"@, name)),
            clone_impl_text(impl_match(Branch::Clone, s, name, d, tags, 3))),
    ] + (if float {
        Seq::empty()
    } else {
        seq![(Some(trait_scope_text(""@, "core::hash::Hash"@, name)), hash_impl_text(impl_match(Branch::Hash, s, name, d, tags, 2)))]
    }) + seq![
        (Some(trait_scope_text(""@, "core::fmt::Debug"@, name)), debug_impl_text(name, impl_match(Branch::Debug, s, name, d, tags, 3))),
    ]
}

/// Every declaration of a tag union, in order: the head, each tag's members,
/// then the trait impls.
pub open spec fn tag_union_decls(
    recursive: bool,
    arch: Architecture,
    s: Seq<RocType>,
    id: TypeId,
    name: Seq<char>,
    tags: Seq<(String, Option<TypeId>)>,
    size: nat,
    offset: nat,
) -> Seq<DeclKeyView> {
    tag_union_head(recursive, arch, s, name, tags, size, offset) + tag_members(
        s,
        name,
        discriminant_name(name),
        tags,
        decimal(offset),
        mask_literal(arch),
        tags.len(),
    ) + tag_union_traits(s, id, name, tags)
}

fn tag_names_of(tags: &Vec<(String, Option<TypeId>)>) -> (r: Vec<String>)
    ensures
        strings_view(r@) == tag_names(tags@),
{
    let mut r: Vec<String> = Vec::new();
    let n = tags.len();
    let mut i: usize = 0;
    while i < n
        invariant
            n == tags@.len(),
            i <= n,
            strings_view(r@) == tag_names(tags@.subrange(0, i as int)),
        decreases n - i,
    {
        let ghost prev = r@;
        r.push(tags[i].0.clone());
        proof {
            assert(tags@.subrange(0, i + 1) =~= tags@.subrange(0, i as int).push(tags@[i as int]));
            assert(tag_names(tags@.subrange(0, i + 1)) =~= tag_names(tags@.subrange(0, i as int)).push(
                tags@[i as int].0@,
            ));
            assert(strings_view(r@) =~= strings_view(prev).push(tags@[i as int].0@));
        }
        i = i + 1;
    }
    proof {
        assert(tags@.subrange(0, n as int) =~= tags@);
    }
    r
}

fn add_union_head(
    recursive: bool,
    name: &String,
    architecture: Architecture,
    tags: &Vec<(String, Option<TypeId>)>,
    size: usize,
    discriminant_offset: usize,
    types: &Types,
    out: &mut Vec<Decl>,
)
    ensures
        decl_views(final(out)@) == decl_views(old(out)@) + tag_union_head(
            recursive,
            architecture,
            types.types@,
            name@,
            tags@,
            size as nat,
            discriminant_offset as nat,
        ),
{
    let names = tag_names_of(tags);
    let d = add_discriminant(name, &names, out);
    push_top(out, union_body_str(types, name, tags, size));
    let mask = bitmask_literal(architecture);
    let carrier = recursive_pointer_field(types, tags);
    let off = decimal_string(discriminant_offset);
    let scope = impl_scope_str("", name.as_str());
    if recursive {
        push_scoped(out, scope.clone(), variant_rec_str(d.as_str(), carrier.as_str(), mask));
        push_scoped(out, scope, set_discriminant_rec_str(d.as_str(), carrier.as_str(), mask));
    } else {
        push_scoped(out, scope.clone(), variant_nonrec_str(d.as_str(), off.as_str()));
        push_scoped(out, scope, set_discriminant_nonrec_str(d.as_str(), name.as_str(), off.as_str()));
    }
    proof {
        assert(strings_view(names@) == tag_names(tags@));
        assert(decl_views(out@) =~= decl_views(old(out)@) + tag_union_head(
            recursive,
            architecture,
            types.types@,
            name@,
            tags@,
            size as nat,
            discriminant_offset as nat,
        ));
    }
}

fn add_tag_members(
    name: &String,
    d: &String,
    tags: &Vec<(String, Option<TypeId>)>,
    off: &String,
    mask: &str,
    types: &Types,
    out: &mut Vec<Decl>,
)
    ensures
        decl_views(final(out)@) == decl_views(old(out)@) + tag_members(
            types.types@,
            name@,
            d@,
            tags@,
            off@,
            mask@,
            tags@.len(),
        ),
{
    let scope = impl_scope_str("", name.as_str());
    let ghost mid = decl_views(out@);
    let n = tags.len();
    let mut i: usize = 0;
    proof {
        assert(decl_views(out@) =~= mid + tag_members(types.types@, name@, d@, tags@, off@, mask@, 0));
    }
    while i < n
        invariant
            n == tags@.len(),
            i <= n,
            scope@ == impl_scope_text(""@, name@),
            decl_views(out@) == mid + tag_members(types.types@, name@, d@, tags@, off@, mask@, i as nat),
        decreases n - i,
    {
        let (c, into, as_) = tag_member_strs(types, name, d, &tags[i], off, mask);
        push_scoped(out, scope.clone(), c);
        push_scoped(out, scope.clone(), into);
        push_scoped(out, scope.clone(), as_);
        i = i + 1;
        proof {
            assert(decl_views(out@) =~= mid + tag_members(types.types@, name@, d@, tags@, off@, mask@, i as nat));
        }
    }
}

fn add_union_traits(
    name: &String,
    type_id: TypeId,
    tags: &Vec<(String, Option<TypeId>)>,
    types: &Types,
    out: &mut Vec<Decl>,
)
    ensures
        decl_views(final(out)@) == decl_views(old(out)@) + tag_union_traits(
            types.types@,
            type_id,
            name@,
            tags@,
        ),
{
    let mut d = String::from_str("variant_");
    d.append(name.as_str());
    let float = holds_at(Query::Float, types, type_id.0);
    let ptr = holds_at(Query::Pointer, types, type_id.0);
    push_scoped(out, trait_scope_str("", "Drop", name.as_str()), drop_impl_str(impl_match_str(Branch::Drop, 2, types, name, &d, tags).as_str()));
    let eq_prefix = if float {
        String::from_str("")
    } else {
        marker_impl_str("Eq", name.as_str())
    };
    push_scoped(out, trait_scope_str(eq_prefix.as_str(), "PartialEq", name.as_str()), eq_impl_str(impl_match_str(Branch::Eq, 3, types, name, &d, tags).as_str()));
    push_scoped(out, trait_scope_str("", "PartialOrd", name.as_str()), partial_cmp_impl_str(impl_match_str(Branch::PartialCmp, 3, types, name, &d, tags).as_str()));
    let ghost before_ord = decl_views(out@);
    if !float {
        push_scoped(out, trait_scope_str("", "Ord", name.as_str()), cmp_impl_str(impl_match_str(Branch::Cmp, 3, types, name, &d, tags).as_str()));
    }
    let ghost after_ord = decl_views(out@);
    let copy_prefix = if ptr {
        String::from_str("")
    } else {
        marker_impl_str("Copy", name.as_str())
    };
    push_scoped(out, trait_scope_str(copy_prefix.as_str(), "Clone", name.as_str()), clone_impl_str(impl_match_str(Branch::Clone, 3, types, name, &d, tags).as_str()));
    let ghost before_hash = decl_views(out@);
    if !float {
        push_scoped(out, trait_scope_str("", "core::hash::Hash", name.as_str()), hash_impl_str(impl_match_str(Branch::Hash, 2, types, name, &d, tags).as_str()));
    }
    let ghost after_hash = decl_views(out@);
    push_scoped(out, trait_scope_str("", "core::fmt::Debug", name.as_str()), debug_impl_str(name.as_str(), impl_match_str(Branch::Debug, 3, types, name, &d, tags).as_str()));
    proof {
        assert(d@ =~= discriminant_name(name@));
        if float {
            assert(after_ord =~= before_ord);
            assert(after_hash =~= before_hash);
        }
        assert(decl_views(out@) =~= decl_views(old(out)@) + tag_union_traits(
            types.types@,
            type_id,
            name@,
            tags@,
        ));
    }
}

/// Declares a tag union whose discriminant sits at a byte offset
/// (`recursive == false`) or in the low bits of its recursive pointer; a
/// recursive union must have no more tags than those bits can tell apart.
#[verifier::rlimit(40)]
pub fn add_tag_union(
    recursive: bool,
    name: &String,
    architecture: Architecture,
    type_id: TypeId,
    tags: &Vec<(String, Option<TypeId>)>,
    size: usize,
    discriminant_offset: usize,
    types: &Types,
    out: &mut Vec<Decl>,
)
    requires
        !recursive || tags@.len() <= max_tagged(architecture),
    ensures
        decl_views(final(out)@) == decl_views(old(out)@) + tag_union_decls(
            recursive,
            architecture,
            types.types@,
            type_id,
            name@,
            tags@,
            size as nat,
            discriminant_offset as nat,
        ),
{
    add_union_head(recursive, name, architecture, tags, size, discriminant_offset, types, out);
    let ghost a = decl_views(out@);
    let mut d = String::from_str("variant_");
    d.append(name.as_str());
    let off = decimal_string(discriminant_offset);
    add_tag_members(name, &d, tags, &off, bitmask_literal(architecture), types, out);
    let ghost b = decl_views(out@);
    add_union_traits(name, type_id, tags, types, out);
    proof {
        assert(d@ =~= discriminant_name(name@));
        let o = decl_views(old(out)@);
        let h = tag_union_head(recursive, architecture, types.types@, name@, tags@, size as nat, discriminant_offset as nat);
        let m = tag_members(types.types@, name@, d@, tags@, off@, mask_literal(architecture), tags@.len());
        let t = tag_union_traits(types.types@, type_id, name@, tags@);
        assert(decl_views(out@) == o + h + m + t);
        assert(o + h + m + t =~= o + (h + m + t));
        assert(decl_views(out@) =~= decl_views(old(out)@) + tag_union_decls(
            recursive,
            architecture,
            types.types@,
            type_id,
            name@,
            tags@,
            size as nat,
            discriminant_offset as nat,
        ));
    }
}

} // verus!
