use vstd::prelude::*;
use vstd::string::*;
use crate::names::{roc_type_name, type_name_of};
use crate::order::{field_keys, numeric_field_order, numeric_order};
use crate::templates::{arg_decl_str, arg_decl_text, assign_line_str, assign_line_text, carrier_path_str, carrier_path_text, field_access_str, field_access_text, manually_drop_new_str, manually_drop_new_text, manually_drop_type_str, manually_drop_type_text, parenthesized_str, parenthesized_text, record_literal_str, record_literal_text, ref_value_line_str, ref_value_line_text, reference_str, reference_text, single_arg_str, single_arg_text, tuple_lines_str, tuple_lines_text, union_field_line_str, union_field_line_text, union_head_str, union_head_text, union_sizer_str, union_sizer_text, untagged_value_str, untagged_value_text, value_line_str, value_line_text, wrap_call_str, wrap_call_text};
use crate::text::{decimal, decimal_string};
use crate::types::{Field, Query, RocType, TypeId, Types, has_pointer, holds_at};

verus! {

pub open spec fn tn(s: Seq<RocType>, id: TypeId) -> Seq<char> {
    type_name_of(s, id.0 as nat)
}

/// A payload that holds pointers sits in a manual-drop cell.
pub open spec fn in_drop_cell(ptr: bool, x: Seq<char>) -> Seq<char> {
    if ptr {
        manually_drop_new_text(x)
    } else {
        x
    }
}

pub open spec fn union_slot_type(s: Seq<RocType>, p: TypeId) -> Seq<char> {
    if has_pointer(s, p) {
        manually_drop_type_text(tn(s, p))
    } else {
        tn(s, p)
    }
}

pub open spec fn union_field_lines(s: Seq<RocType>, tags: Seq<(String, Option<TypeId>)>, n: nat) -> Seq<char>
    decreases n,
{
    if n == 0 || n > tags.len() {
        Seq::empty()
    } else {
        union_field_lines(s, tags, (n - 1) as nat) + match tags[n - 1].1 {
            Some(p) => union_field_line_text(tags[n - 1].0@, union_slot_type(s, p)),
            None => Seq::empty(),
        }
    }
}

/// The overlapping storage of a tag union: one slot per payload, and a byte
/// array that gives the union its full size.
pub open spec fn union_body(s: Seq<RocType>, name: Seq<char>, tags: Seq<(String, Option<TypeId>)>, size: nat) -> Seq<char> {
    union_head_text(name) + union_field_lines(s, tags, tags.len()) + union_sizer_text(decimal(size))
}

fn pointer_bearing(types: &Types, p: TypeId) -> (r: bool)
    ensures
        r == has_pointer(types.types@, p),
{
    holds_at(Query::Pointer, types, p.0)
}

pub fn union_body_str(types: &Types, name: &String, tags: &Vec<(String, Option<TypeId>)>, size: usize) -> (r: String)
    ensures
        r@ == union_body(types.types@, name@, tags@, size as nat),
{
    let mut buf = union_head_str(name.as_str());
    let ghost start = buf@;
    let n = tags.len();
    let mut i: usize = 0;
    while i < n
        invariant
            n == tags@.len(),
            i <= n,
            buf@ == start + union_field_lines(types.types@, tags@, i as nat),
        decreases n - i,
    {
        match &tags[i].1 {
            Some(p) => {
                let tyn = roc_type_name(*p, types);
                let slot = if pointer_bearing(types, *p) {
                    manually_drop_type_str(tyn.as_str())
                } else {
                    tyn
                };
                buf.append(union_field_line_str(tags[i].0.as_str(), slot.as_str()).as_str());
            },
            None => {},
        }
        i = i + 1;
        proof {
            assert(buf@ =~= start + union_field_lines(types.types@, tags@, i as nat));
        }
    }
    buf.append(union_sizer_str(decimal_string(size).as_str()).as_str());
    proof {
        assert(buf@ =~= union_body(types.types@, name@, tags@, size as nat));
    }
    buf
}

/// What a record field turns into when a payload is taken apart; a
/// recursive field has its tag bits cleared before it is followed.
pub open spec fn field_value(s: Seq<RocType>, f: Field, mask: Seq<char>) -> Seq<char> {
    match f {
        Field::NonRecursive(l, _) => field_access_text(l@),
        Field::Recursive(l, t) => untagged_value_text(l@, mask, tn(s, t)),
    }
}

/// The pieces a record payload is spelled with, one per field.
#[derive(Clone, Copy, PartialEq, Eq, Structural)]
pub enum RecordPiece {
    ArgDecl,
    TypeName,
    RefTypeName,
    Value,
    RefValue,
    Assign,
}

pub open spec fn record_item(
    piece: RecordPiece,
    s: Seq<RocType>,
    fields: Seq<Field>,
    order: Seq<usize>,
    k: nat,
    mask: Seq<char>,
) -> Seq<char> {
    let f = fields[order[k as int] as int];
    match piece {
        RecordPiece::ArgDecl => arg_decl_text(decimal(k), tn(s, f.target())),
        RecordPiece::TypeName => tn(s, f.target()),
        RecordPiece::RefTypeName => reference_text(tn(s, f.target())),
        RecordPiece::Value => value_line_text(field_value(s, f, mask)),
        RecordPiece::RefValue => ref_value_line_text(field_value(s, f, mask)),
        RecordPiece::Assign => assign_line_text(f.label_view(), decimal(k)),
    }
}

/// The first `n` items, in `order`, joined by `sep`.
pub open spec fn record_items(
    piece: RecordPiece,
    s: Seq<RocType>,
    fields: Seq<Field>,
    order: Seq<usize>,
    mask: Seq<char>,
    sep: Seq<char>,
    n: nat,
) -> Seq<char>
    decreases n,
{
    if n == 0 {
        Seq::empty()
    } else if n == 1 {
        record_item(piece, s, fields, order, 0, mask)
    } else {
        record_items(piece, s, fields, order, mask, sep, (n - 1) as nat) + sep + record_item(
            piece,
            s,
            fields,
            order,
            (n - 1) as nat,
            mask,
        )
    }
}

fn field_value_str(types: &Types, f: &Field, mask: &str) -> (r: String)
    ensures
        r@ == field_value(types.types@, *f, mask@),
{
    match f {
        Field::NonRecursive(l, _) => field_access_str(l.as_str()),
        Field::Recursive(l, t) => untagged_value_str(
            l.as_str(),
            mask,
            roc_type_name(*t, types).as_str(),
        ),
    }
}

fn record_item_str(
    piece: RecordPiece,
    types: &Types,
    fields: &Vec<Field>,
    order: &Vec<usize>,
    k: usize,
    mask: &str,
) -> (r: String)
    requires
        k < order@.len(),
        order@[k as int] < fields@.len(),
    ensures
        r@ == record_item(piece, types.types@, fields@, order@, k as nat, mask@),
{
    let f = &fields[order[k]];
    match piece {
        RecordPiece::ArgDecl => arg_decl_str(
            decimal_string(k).as_str(),
            roc_type_name(f.type_id(), types).as_str(),
        ),
        RecordPiece::TypeName => roc_type_name(f.type_id(), types),
        RecordPiece::RefTypeName => reference_str(roc_type_name(f.type_id(), types).as_str()),
        RecordPiece::Value => value_line_str(field_value_str(types, f, mask).as_str()),
        RecordPiece::RefValue => ref_value_line_str(field_value_str(types, f, mask).as_str()),
        RecordPiece::Assign => assign_line_str(f.label().as_str(), decimal_string(k).as_str()),
    }
}

fn record_items_str(
    piece: RecordPiece,
    types: &Types,
    fields: &Vec<Field>,
    order: &Vec<usize>,
    mask: &str,
    sep: &str,
) -> (r: String)
    requires
        forall|k: int| 0 <= k < order@.len() ==> order@[k] < fields@.len(),
    ensures
        r@ == record_items(piece, types.types@, fields@, order@, mask@, sep@, order@.len()),
{
    let mut buf = String::new();
    let n = order.len();
    let mut k: usize = 0;
    proof {
        assert(buf@ =~= record_items(piece, types.types@, fields@, order@, mask@, sep@, 0));
    }
    while k < n
        invariant
            n == order@.len(),
            k <= n,
            forall|j: int| 0 <= j < order@.len() ==> order@[j] < fields@.len(),
            buf@ == record_items(piece, types.types@, fields@, order@, mask@, sep@, k as nat),
        decreases n - k,
    {
        if k > 0 {
            buf.append(sep);
        }
        let item = record_item_str(piece, types, fields, order, k, mask);
        buf.append(item.as_str());
        k = k + 1;
        proof {
            if k == 1 {
                assert(buf@ =~= record_items(piece, types.types@, fields@, order@, mask@, sep@, k as nat));
            } else {
                assert(buf@ =~= record_items(piece, types.types@, fields@, order@, mask@, sep@, k as nat));
            }
        }
    }
    buf
}

/// How a payload appears in the generated API: the constructor's parameters,
/// how they become the payload, how the payload is stored, and the owned and
/// borrowed return types and values of `into_` and `as_`. A record is taken
/// apart into a tuple in the numeric order of its labels; a transparent
/// wrapper is hidden behind its content.
pub open spec fn payload_parts(s: Seq<RocType>, p: TypeId, mask: Seq<char>) -> (
    Seq<char>,
    Seq<char>,
    Seq<char>,
    Seq<char>,
    Seq<char>,
    Seq<char>,
    Seq<char>,
) {
    let ptr = has_pointer(s, p);
    let plain = (
        single_arg_text(tn(s, p)),
        "arg"@,
        in_drop_cell(ptr, "payload"@),
        tn(s, p),
        "payload"@,
        reference_text(tn(s, p)),
        "payload"@,
    );
    if p.0 < s.len() {
        match s[p.0 as int] {
            RocType::Struct { fields, .. } => {
                let o = numeric_order(field_keys(fields@), fields@.len());
                (
                    record_items(RecordPiece::ArgDecl, s, fields@, o, mask, ", "@, o.len()),
                    record_literal_text(
                        tn(s, p),
                        record_items(RecordPiece::Assign, s, fields@, o, mask, "\n"@, o.len()),
                    ),
                    in_drop_cell(ptr, "payload"@),
                    parenthesized_text(
                        record_items(RecordPiece::TypeName, s, fields@, o, mask, ", "@, o.len()),
                    ),
                    tuple_lines_text(
                        record_items(RecordPiece::Value, s, fields@, o, mask, ", "@, o.len()),
                    ),
                    parenthesized_text(
                        record_items(RecordPiece::RefTypeName, s, fields@, o, mask, ", "@, o.len()),
                    ),
                    tuple_lines_text(
                        record_items(RecordPiece::RefValue, s, fields@, o, mask, ", "@, o.len()),
                    ),
                )
            },
            RocType::TransparentWrapper { content, .. } => (
                single_arg_text(tn(s, content)),
                "arg"@,
                in_drop_cell(ptr, wrap_call_text(tn(s, p))),
                tn(s, content),
                "payload.0"@,
                reference_text(tn(s, content)),
                "&payload.0"@,
            ),
            _ => plain,
        }
    } else {
        plain
    }
}

fn in_drop_cell_str(ptr: bool, x: String) -> (r: String)
    ensures
        r@ == in_drop_cell(ptr, x@),
{
    if ptr {
        manually_drop_new_str(x.as_str())
    } else {
        x
    }
}

pub fn payload_parts_str(types: &Types, p: TypeId, mask: &str) -> (r: (
    String,
    String,
    String,
    String,
    String,
    String,
    String,
))
    ensures
        (r.0@, r.1@, r.2@, r.3@, r.4@, r.5@, r.6@) == payload_parts(types.types@, p, mask@),
{
    let ptr = pointer_bearing(types, p);
    let tyn = roc_type_name(p, types);
    if p.0 < types.types.len() {
        match types.get(p) {
            RocType::Struct { fields, .. } => {
                let o = numeric_field_order(fields);
                return (
                    record_items_str(RecordPiece::ArgDecl, types, fields, &o, mask, ", "),
                    record_literal_str(
                        tyn.as_str(),
                        record_items_str(RecordPiece::Assign, types, fields, &o, mask, "\n").as_str(),
                    ),
                    in_drop_cell_str(ptr, String::from_str("payload")),
                    parenthesized_str(
                        record_items_str(RecordPiece::TypeName, types, fields, &o, mask, ", ").as_str(),
                    ),
                    tuple_lines_str(
                        record_items_str(RecordPiece::Value, types, fields, &o, mask, ", ").as_str(),
                    ),
                    parenthesized_str(
                        record_items_str(RecordPiece::RefTypeName, types, fields, &o, mask, ", ").as_str(),
                    ),
                    tuple_lines_str(
                        record_items_str(RecordPiece::RefValue, types, fields, &o, mask, ", ").as_str(),
                    ),
                );
            },
            RocType::TransparentWrapper { content, .. } => {
                let cn = roc_type_name(*content, types);
                return (
                    single_arg_str(cn.as_str()),
                    String::from_str("arg"),
                    in_drop_cell_str(ptr, wrap_call_str(tyn.as_str())),
                    roc_type_name(*content, types),
                    String::from_str("payload.0"),
                    reference_str(cn.as_str()),
                    String::from_str("&payload.0"),
                );
            },
            _ => {},
        }
    }
    (
        single_arg_str(tyn.as_str()),
        String::from_str("arg"),
        in_drop_cell_str(ptr, String::from_str("payload")),
        roc_type_name(p, types),
        String::from_str("payload"),
        reference_str(tyn.as_str()),
        String::from_str("payload"),
    )
}

/// The label of the first recursive field.
pub open spec fn first_rec_label(fields: Seq<Field>) -> Option<Seq<char>>
    decreases fields.len(),
{
    if fields.len() == 0 {
        None
    } else if fields[0] is Recursive {
        Some(fields[0].label_view())
    } else {
        first_rec_label(fields.drop_first())
    }
}

pub open spec fn tag_carrier(s: Seq<RocType>, tag: (String, Option<TypeId>)) -> Option<Seq<char>> {
    match tag.1 {
        Some(p) => if p.0 < s.len() {
            match s[p.0 as int] {
                RocType::Struct { fields, .. } => first_rec_label(fields@),
                _ => None,
            }
        } else {
            None
        },
        None => None,
    }
}

/// The path `Tag.label` of the first recursive field over all payloads: the
/// pointer whose low bits hold a recursive union's discriminant.
pub open spec fn carrier_from(s: Seq<RocType>, tags: Seq<(String, Option<TypeId>)>) -> Seq<char>
    decreases tags.len(),
{
    if tags.len() == 0 {
        ""@
    } else {
        match tag_carrier(s, tags[0]) {
            Some(l) => carrier_path_text(tags[0].0@, l),
            None => carrier_from(s, tags.drop_first()),
        }
    }
}

fn first_rec_label_of(fields: &Vec<Field>) -> (r: Option<&String>)
    ensures
        match r {
            Some(l) => first_rec_label(fields@) == Some(l@),
            None => first_rec_label(fields@) is None,
        },
{
    let n = fields.len();
    let mut i: usize = 0;
    proof {
        assert(fields@.subrange(0, n as int) =~= fields@);
    }
    while i < n
        invariant
            n == fields@.len(),
            i <= n,
            first_rec_label(fields@) == first_rec_label(fields@.subrange(i as int, n as int)),
        decreases n - i,
    {
        proof {
            assert(fields@.subrange(i as int, n as int).drop_first() =~= fields@.subrange(
                i + 1,
                n as int,
            ));
            assert(fields@.subrange(i as int, n as int)[0] == fields@[i as int]);
        }
        if let Field::Recursive(l, _) = &fields[i] {
            return Some(l);
        }
        i = i + 1;
    }
    None
}

pub fn recursive_pointer_field(types: &Types, tags: &Vec<(String, Option<TypeId>)>) -> (r: String)
    ensures
        r@ == carrier_from(types.types@, tags@),
{
    let n = tags.len();
    let mut i: usize = 0;
    proof {
        assert(tags@.subrange(0, n as int) =~= tags@);
    }
    while i < n
        invariant
            n == tags@.len(),
            i <= n,
            carrier_from(types.types@, tags@) == carrier_from(
                types.types@,
                tags@.subrange(i as int, n as int),
            ),
        decreases n - i,
    {
        proof {
            assert(tags@.subrange(i as int, n as int).drop_first() =~= tags@.subrange(
                i + 1,
                n as int,
            ));
            assert(tags@.subrange(i as int, n as int)[0] == tags@[i as int]);
        }
        if let Some(p) = &tags[i].1 {
            if p.0 < types.types.len() {
                if let RocType::Struct { fields, .. } = types.get(*p) {
                    if let Some(l) = first_rec_label_of(fields) {
                        return carrier_path_str(tags[i].0.as_str(), l.as_str());
                    }
                }
            }
        }
        i = i + 1;
    }
    String::from_str("")
}

} // verus!
