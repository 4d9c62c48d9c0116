use vstd::prelude::*;
use vstd::string::*;
use crate::arch::discriminant_bytes;
use crate::arch::discriminant_size;
use crate::names::{derive_from_flags, derive_str, derive_text, roc_type_name, type_name_of};
use crate::store::{DeclKeyView, key_view};
use crate::text::{decimal, decimal_string, indent, indents, write_indents};
use crate::types::{Field, TypeId, Types, has_enumeration, has_float, has_pointer};

verus! {

/// A declaration: its scope (`None` for the top level) and its body.
pub type Decl = (Option<String>, String);

pub open spec fn decl_views(v: Seq<Decl>) -> Seq<DeclKeyView> {
    v.map_values(|d: Decl| key_view(d))
}

pub proof fn lemma_push_decl(v: Seq<Decl>, d: Decl)
    ensures
        decl_views(v.push(d)) == decl_views(v).push(key_view(d)),
{
    assert(decl_views(v.push(d)) =~= decl_views(v).push(key_view(d)));
}

pub fn push_top(out: &mut Vec<Decl>, body: String)
    ensures
        decl_views(final(out)@) == decl_views(old(out)@).push((None, body@)),
{
    proof {
        lemma_push_decl(out@, (None, body));
    }
    out.push((None, body));
}

pub fn push_scoped(out: &mut Vec<Decl>, scope: String, body: String)
    ensures
        decl_views(final(out)@) == decl_views(old(out)@).push((Some(scope@), body@)),
{
    proof {
        lemma_push_decl(out@, (Some(scope), body));
    }
    out.push((Some(scope), body));
}

pub open spec fn strings_view(v: Seq<String>) -> Seq<Seq<char>> {
    v.map_values(|x: String| x@)
}

/// Lines `Tag = ordinal,` for the first `n` tags.
pub open spec fn enum_variants(tags: Seq<Seq<char>>, n: nat) -> Seq<char>
    decreases n,
{
    if n == 0 || n > tags.len() {
        Seq::empty()
    } else {
        enum_variants(tags, (n - 1) as nat) + indent() + tags[n - 1] + " = "@ + decimal(
            (n - 1) as nat,
        ) + ",\n"@
    }
}

/// Arms of the `Debug` match that print `Name::Tag`, for the first `n` tags.
pub open spec fn debug_arms(name: Seq<char>, tags: Seq<Seq<char>>, n: nat) -> Seq<char>
    decreases n,
{
    if n == 0 || n > tags.len() {
        Seq::empty()
    } else {
        debug_arms(name, tags, (n - 1) as nat) + indents(3) + "Self::"@ + tags[n - 1]
            + " => f.write_str(\""@ + name + "::"@ + tags[n - 1] + "\"),\n"@
    }
}

/// An enumeration with ordinals `0..n-1` and a discriminant just wide
/// enough for its tags.
pub open spec fn enumeration_body(name: Seq<char>, tags: Seq<Seq<char>>) -> Seq<char> {
    derive_text(false, false, true, false) + "\n#[repr(u"@ + decimal(
        discriminant_bytes(tags.len()) * 8,
    ) + ")]\npub enum "@ + name + " {\n"@ + enum_variants(tags, tags.len()) + "}"@
}

/// The `Debug` impl of an enumeration, which prints `Name::Tag`.
pub open spec fn enumeration_debug_body(name: Seq<char>, tags: Seq<Seq<char>>) -> Seq<char> {
    "impl core::fmt::Debug for "@ + name + " {\n"@
        + "    fn fmt(&self, f: &mut core::fmt::Formatter<'_>) -> core::fmt::Result {\n"@
        + "        match self {\n"@ + debug_arms(name, tags, tags.len()) + "        }\n    }\n}"@
}

pub fn enumeration_text(name: &String, tags: &Vec<String>) -> (r: String)
    ensures
        r@ == enumeration_body(name@, strings_view(tags@)),
{
    let n = tags.len();
    let bytes = discriminant_size(n);
    let mut buf = derive_from_flags(false, false, true, false);
    buf.append("\n#[repr(u");
    buf.append(decimal_string(bytes * 8).as_str());
    buf.append(")]\npub enum ");
    buf.append(name.as_str());
    buf.append(" {\n");
    let ghost start = buf@;
    let mut i: usize = 0;
    while i < n
        invariant
            n == tags@.len(),
            i <= n,
            buf@ == start + enum_variants(strings_view(tags@), i as nat),
        decreases n - i,
    {
        buf.append("    ");
        buf.append(tags[i].as_str());
        buf.append(" = ");
        buf.append(decimal_string(i).as_str());
        buf.append(",\n");
        i = i + 1;
        proof {
            assert(buf@ =~= start + enum_variants(strings_view(tags@), i as nat));
        }
    }
    buf.append("}");
    proof {
        assert(buf@ =~= enumeration_body(name@, strings_view(tags@)));
    }
    buf
}

pub fn enumeration_debug_text(name: &String, tags: &Vec<String>) -> (r: String)
    ensures
        r@ == enumeration_debug_body(name@, strings_view(tags@)),
{
    let n = tags.len();
    let mut buf = String::from_str("impl core::fmt::Debug for ");
    buf.append(name.as_str());
    buf.append(" {\n");
    buf.append("    fn fmt(&self, f: &mut core::fmt::Formatter<'_>) -> core::fmt::Result {\n");
    buf.append("        match self {\n");
    let ghost mid = buf@;
    let mut j: usize = 0;
    while j < n
        invariant
            n == tags@.len(),
            j <= n,
            buf@ == mid + debug_arms(name@, strings_view(tags@), j as nat),
        decreases n - j,
    {
        write_indents(3, &mut buf);
        buf.append("Self::");
        buf.append(tags[j].as_str());
        buf.append(" => f.write_str(\"");
        buf.append(name.as_str());
        buf.append("::");
        buf.append(tags[j].as_str());
        buf.append("\"),\n");
        j = j + 1;
        proof {
            assert(buf@ =~= mid + debug_arms(name@, strings_view(tags@), j as nat));
        }
    }
    buf.append("        }\n    }\n}");
    proof {
        assert(buf@ =~= enumeration_debug_body(name@, strings_view(tags@)));
    }
    buf
}

/// The two top-level declarations of an enumeration, each gated on its own:
/// the enum and its `Debug` impl.
pub open spec fn enumeration_decls(name: Seq<char>, tags: Seq<Seq<char>>) -> Seq<DeclKeyView> {
    seq![(None, enumeration_body(name, tags)), (None, enumeration_debug_body(name, tags))]
}

pub fn add_enumeration(name: &String, tags: &Vec<String>, out: &mut Vec<Decl>)
    ensures
        decl_views(final(out)@) == decl_views(old(out)@) + enumeration_decls(name@, strings_view(tags@)),
{
    push_top(out, enumeration_text(name, tags));
    push_top(out, enumeration_debug_text(name, tags));
    proof {
        assert(decl_views(out@) =~= decl_views(old(out)@) + enumeration_decls(name@, strings_view(tags@)));
    }
}

/// The name of the enumeration that lists a tag union's tags.
pub open spec fn discriminant_name(name: Seq<char>) -> Seq<char> {
    "variant_"@ + name
}

/// Declares the discriminant enumeration of tag union `name` and returns its name.
pub fn add_discriminant(name: &String, tag_names: &Vec<String>, out: &mut Vec<Decl>) -> (r: String)
    ensures
        r@ == discriminant_name(name@),
        decl_views(final(out)@) == decl_views(old(out)@) + enumeration_decls(
            discriminant_name(name@),
            strings_view(tag_names@),
        ),
{
    let mut d = String::from_str("variant_");
    d.append(name.as_str());
    add_enumeration(&d, tag_names, out);
    d
}

/// A zero-sized struct standing for an enumeration with a single tag.
pub open spec fn unit_struct_body(s: Seq<crate::types::RocType>, id: TypeId) -> Seq<char> {
    derive_text(has_pointer(s, id), true, has_enumeration(s, id), has_float(s, id)) + "\nstruct "@
        + type_name_of(s, id.0 as nat) + "();"@
}

pub fn unit_struct_text(id: TypeId, types: &Types) -> (r: String)
    ensures
        r@ == unit_struct_body(types.types@, id),
{
    let mut buf = derive_str(id, types, true);
    buf.append("\nstruct ");
    buf.append(roc_type_name(id, types).as_str());
    buf.append("();");
    proof {
        assert(buf@ =~= unit_struct_body(types.types@, id));
    }
    buf
}

/// One line declaring a public field: a recursive field is a raw pointer.
pub open spec fn struct_field_line(s: Seq<crate::types::RocType>, f: Field) -> Seq<char> {
    indent() + "pub "@ + f.label_view() + ": "@ + (if f is Recursive {
        "*mut "@
    } else {
        Seq::empty()
    }) + type_name_of(s, f.target().0 as nat) + ",\n"@
}

pub open spec fn struct_field_lines(s: Seq<crate::types::RocType>, fields: Seq<Field>, n: nat) -> Seq<char>
    decreases n,
{
    if n == 0 || n > fields.len() {
        Seq::empty()
    } else {
        struct_field_lines(s, fields, (n - 1) as nat) + struct_field_line(s, fields[n - 1])
    }
}

/// A C-layout struct with the fields in declared order.
pub open spec fn struct_body(s: Seq<crate::types::RocType>, id: TypeId, name: Seq<char>, fields: Seq<Field>) -> Seq<char> {
    derive_text(has_pointer(s, id), true, has_enumeration(s, id), has_float(s, id))
        + "\n#[repr(C)]\npub struct "@ + name + " {\n"@ + struct_field_lines(s, fields, fields.len())
        + "}"@
}

pub fn struct_text(id: TypeId, types: &Types, name: &String, fields: &Vec<Field>) -> (r: String)
    ensures
        r@ == struct_body(types.types@, id, name@, fields@),
{
    let mut buf = derive_str(id, types, true);
    buf.append("\n#[repr(C)]\npub struct ");
    buf.append(name.as_str());
    buf.append(" {\n");
    let ghost start = buf@;
    let n = fields.len();
    let mut i: usize = 0;
    while i < n
        invariant
            n == fields@.len(),
            i <= n,
            buf@ == start + struct_field_lines(types.types@, fields@, i as nat),
        decreases n - i,
    {
        let f = &fields[i];
        buf.append("    ");
        buf.append("pub ");
        buf.append(f.label().as_str());
        buf.append(": ");
        let ghost b0 = buf@;
        if let Field::Recursive(_, _) = f {
            buf.append("*mut ");
        }
        proof {
            assert(buf@ =~= b0 + (if *f is Recursive {
                "*mut "@
            } else {
                Seq::empty()
            }));
        }
        buf.append(roc_type_name(f.type_id(), types).as_str());
        buf.append(",\n");
        i = i + 1;
        proof {
            assert(buf@ =~= start + struct_field_lines(types.types@, fields@, i as nat));
        }
    }
    buf.append("}");
    proof {
        assert(buf@ =~= struct_body(types.types@, id, name@, fields@));
    }
    buf
}

/// The declarations of a struct: none for zero or one field (such a struct is
/// zero-sized or stands for its only field), else one C-layout struct.
pub open spec fn struct_decls(s: Seq<crate::types::RocType>, id: TypeId, name: Seq<char>, fields: Seq<Field>) -> Seq<DeclKeyView> {
    if fields.len() <= 1 {
        Seq::empty()
    } else {
        seq![(None, struct_body(s, id, name, fields))]
    }
}

pub fn add_struct(name: &String, fields: &Vec<Field>, struct_id: TypeId, types: &Types, out: &mut Vec<Decl>)
    ensures
        decl_views(final(out)@) == decl_views(old(out)@) + struct_decls(types.types@, struct_id, name@, fields@),
{
    if fields.len() <= 1 {
        proof {
            assert(decl_views(out@) =~= decl_views(out@) + Seq::<DeclKeyView>::empty());
        }
    } else {
        let body = struct_text(struct_id, types, name, fields);
        push_top(out, body);
        proof {
            assert(decl_views(out@) =~= decl_views(old(out)@) + struct_decls(types.types@, struct_id, name@, fields@));
        }
    }
}

/// A transparent one-field struct; it always derives `Debug`.
pub open spec fn wrapper_body(s: Seq<crate::types::RocType>, id: TypeId, name: Seq<char>, content: TypeId) -> Seq<char> {
    derive_text(has_pointer(s, id), true, has_enumeration(s, id), has_float(s, id))
        + "\n#[repr(transparent)]\npub struct "@ + name + "(pub "@ + type_name_of(s, content.0 as nat)
        + ");"@
}

pub fn wrapper_text(id: TypeId, types: &Types, name: &String, content: TypeId) -> (r: String)
    ensures
        r@ == wrapper_body(types.types@, id, name@, content),
{
    let mut buf = derive_str(id, types, true);
    buf.append("\n#[repr(transparent)]\npub struct ");
    buf.append(name.as_str());
    buf.append("(pub ");
    buf.append(roc_type_name(content, types).as_str());
    buf.append(");");
    proof {
        assert(buf@ =~= wrapper_body(types.types@, id, name@, content));
    }
    buf
}

} // verus!
