use vstd::prelude::*;
use vstd::string::*;
use crate::types::{Query, RocTagUnion, RocType, TypeId, Types, has_enumeration, has_float, has_pointer, holds_at};

verus! {

pub open spec fn union_name(u: RocTagUnion) -> Seq<char> {
    match u {
        RocTagUnion::Enumeration { name, .. } => name@,
        RocTagUnion::NonRecursive { name, .. } => name@,
        RocTagUnion::Recursive { name, .. } => name@,
        RocTagUnion::NullableWrapped { name } => name@,
        RocTagUnion::NullableUnwrapped { name, .. } => name@,
        RocTagUnion::NonNullableUnwrapped { name } => name@,
    }
}

/// The spelling of type `id` in emitted code. A reference to a type that
/// does not come before `id`, which a registry satisfying `Types::wf` never
/// holds, is spelled empty.
pub open spec fn type_name_of(s: Seq<RocType>, id: nat) -> Seq<char>
    decreases id,
{
    if id >= s.len() {
        Seq::empty()
    } else {
        match s[id as int] {
            RocType::U8 => "u8"@,
            RocType::U16 => "u16"@,
            RocType::U32 => "u32"@,
            RocType::U64 => "u64"@,
            RocType::U128 => "roc_std::U128"@,
            RocType::I8 => "i8"@,
            RocType::I16 => "i16"@,
            RocType::I32 => "i32"@,
            RocType::I64 => "i64"@,
            RocType::I128 => "roc_std::I128"@,
            RocType::F32 => "f32"@,
            RocType::F64 => "f64"@,
            RocType::F128 => "roc_std::F128"@,
            RocType::Bool => "bool"@,
            RocType::RocDec => "roc_std::RocDec"@,
            RocType::RocStr => "roc_std::RocStr"@,
            RocType::RocDict(k, v) => "roc_std::RocDict<"@ + (if k.0 < id {
                type_name_of(s, k.0 as nat)
            } else {
                Seq::empty()
            }) + ", "@ + (if v.0 < id {
                type_name_of(s, v.0 as nat)
            } else {
                Seq::empty()
            }) + ">"@,
            RocType::RocSet(e) => "roc_std::RocSet<"@ + (if e.0 < id {
                type_name_of(s, e.0 as nat)
            } else {
                Seq::empty()
            }) + ">"@,
            RocType::RocList(e) => "roc_std::RocList<"@ + (if e.0 < id {
                type_name_of(s, e.0 as nat)
            } else {
                Seq::empty()
            }) + ">"@,
            RocType::RocBox(e) => "roc_std::RocBox<"@ + (if e.0 < id {
                type_name_of(s, e.0 as nat)
            } else {
                Seq::empty()
            }) + ">"@,
            RocType::Struct { name, .. } => name@,
            RocType::TransparentWrapper { name, .. } => name@,
            RocType::TagUnion(u) => union_name(u),
        }
    }
}

fn child_name(types: &Types, id: usize, c: TypeId, buf: &mut String)
    ensures
        final(buf)@ == old(buf)@ + (if c.0 < id {
            type_name_of(types.types@, c.0 as nat)
        } else {
            Seq::empty()
        }),
    decreases id, 0nat,
{
    if c.0 < id {
        let n = roc_type_name(c, types);
        buf.append(n.as_str());
    } else {
        proof {
            assert(buf@ =~= old(buf)@ + Seq::<char>::empty());
        }
    }
}

fn union_name_str(u: &RocTagUnion) -> (r: &String)
    ensures
        r@ == union_name(*u),
{
    match u {
        RocTagUnion::Enumeration { name, .. } => name,
        RocTagUnion::NonRecursive { name, .. } => name,
        RocTagUnion::Recursive { name, .. } => name,
        RocTagUnion::NullableWrapped { name } => name,
        RocTagUnion::NullableUnwrapped { name, .. } => name,
        RocTagUnion::NonNullableUnwrapped { name } => name,
    }
}

/// The spelling of a type in emitted code.
pub fn roc_type_name(id: TypeId, types: &Types) -> (r: String)
    ensures
        r@ == type_name_of(types.types@, id.0 as nat),
    decreases id.0, 1nat,
{
    if id.0 >= types.types.len() {
        return String::new();
    }
    let mut buf = String::new();
    match &types.types[id.0] {
        RocType::U8 => buf.append("u8"),
        RocType::U16 => buf.append("u16"),
        RocType::U32 => buf.append("u32"),
        RocType::U64 => buf.append("u64"),
        RocType::U128 => buf.append("roc_std::U128"),
        RocType::I8 => buf.append("i8"),
        RocType::I16 => buf.append("i16"),
        RocType::I32 => buf.append("i32"),
        RocType::I64 => buf.append("i64"),
        RocType::I128 => buf.append("roc_std::I128"),
        RocType::F32 => buf.append("f32"),
        RocType::F64 => buf.append("f64"),
        RocType::F128 => buf.append("roc_std::F128"),
        RocType::Bool => buf.append("bool"),
        RocType::RocDec => buf.append("roc_std::RocDec"),
        RocType::RocStr => buf.append("roc_std::RocStr"),
        RocType::RocDict(k, v) => {
            buf.append("roc_std::RocDict<");
            child_name(types, id.0, *k, &mut buf);
            buf.append(", ");
            child_name(types, id.0, *v, &mut buf);
            buf.append(">");
        },
        RocType::RocSet(e) => {
            buf.append("roc_std::RocSet<");
            child_name(types, id.0, *e, &mut buf);
            buf.append(">");
        },
        RocType::RocList(e) => {
            buf.append("roc_std::RocList<");
            child_name(types, id.0, *e, &mut buf);
            buf.append(">");
        },
        RocType::RocBox(e) => {
            buf.append("roc_std::RocBox<");
            child_name(types, id.0, *e, &mut buf);
            buf.append(">");
        },
        RocType::Struct { name, .. } => buf.append(name.as_str()),
        RocType::TransparentWrapper { name, .. } => buf.append(name.as_str()),
        RocType::TagUnion(u) => buf.append(union_name_str(u).as_str()),
    }
    proof {
        assert(buf@ =~= type_name_of(types.types@, id.0 as nat));
    }
    buf
}

/// The traits derived for a type with the given properties: always `Clone`,
/// `PartialEq` and `PartialOrd`; `Copy` only without pointers; `Debug` when
/// asked for; `Default` only without enumerations; `Eq`, `Ord` and `Hash`
/// only without floats.
pub open spec fn derived_names(has_pointer: bool, include_debug: bool, has_enumeration: bool, has_float: bool) -> Seq<Seq<char>> {
    seq!["Clone"@] + (if has_pointer {
        Seq::empty()
    } else {
        seq!["Copy"@]
    }) + (if include_debug {
        seq!["Debug"@]
    } else {
        Seq::empty()
    }) + (if has_enumeration {
        Seq::empty()
    } else {
        seq!["Default"@]
    }) + (if has_float {
        Seq::empty()
    } else {
        seq!["Eq"@, "Ord"@, "Hash"@]
    }) + seq!["PartialEq"@, "PartialOrd"@]
}

/// Names separated by `", "`.
pub open spec fn join_names(ns: Seq<Seq<char>>) -> Seq<char>
    decreases ns.len(),
{
    if ns.len() == 0 {
        Seq::empty()
    } else if ns.len() == 1 {
        ns[0]
    } else {
        join_names(ns.drop_last()) + ", "@ + ns.last()
    }
}

/// The derive attribute for a type with the given properties.
pub open spec fn derive_text(has_pointer: bool, include_debug: bool, has_enumeration: bool, has_float: bool) -> Seq<char> {
    "#[derive("@ + join_names(derived_names(has_pointer, include_debug, has_enumeration, has_float))
        + ")]"@
}

pub open spec fn strs_view(v: Seq<&str>) -> Seq<Seq<char>> {
    v.map_values(|x: &str| x@)
}

pub fn derive_from_flags(has_pointer: bool, include_debug: bool, has_enumeration: bool, has_float: bool) -> (r: String)
    ensures
        r@ == derive_text(has_pointer, include_debug, has_enumeration, has_float),
{
    let mut names: Vec<&'static str> = Vec::new();
    names.push("Clone");
    if !has_pointer {
        names.push("Copy");
    }
    if include_debug {
        names.push("Debug");
    }
    if !has_enumeration {
        names.push("Default");
    }
    if !has_float {
        names.push("Eq");
        names.push("Ord");
        names.push("Hash");
    }
    names.push("PartialEq");
    names.push("PartialOrd");
    let ghost ns = derived_names(has_pointer, include_debug, has_enumeration, has_float);
    proof {
        assert(strs_view(names@) =~= ns);
    }
    let mut buf = String::from_str("#[derive(");
    let ghost start = buf@;
    let n = names.len();
    let mut k: usize = 0;
    proof {
        assert(strs_view(names@).subrange(0, 0) =~= Seq::<Seq<char>>::empty());
        assert(buf@ =~= start + join_names(strs_view(names@).subrange(0, 0)));
    }
    while k < n
        invariant
            n == names@.len(),
            k <= n,
            buf@ == start + join_names(strs_view(names@).subrange(0, k as int)),
        decreases n - k,
    {
        if k > 0 {
            buf.append(", ");
        }
        buf.append(names[k]);
        proof {
            let sub = strs_view(names@).subrange(0, k + 1);
            assert(sub.drop_last() =~= strs_view(names@).subrange(0, k as int));
            assert(sub.last() == names@[k as int]@);
            if k == 0 {
                assert(sub =~= seq![names@[0]@]);
            }
            assert(buf@ =~= start + join_names(sub));
        }
        k = k + 1;
    }
    buf.append(")]");
    proof {
        assert(strs_view(names@).subrange(0, n as int) =~= ns);
        assert(buf@ =~= derive_text(has_pointer, include_debug, has_enumeration, has_float));
    }
    buf
}

/// The derive attribute for type `id`: `Copy` only without pointers,
/// `Default` only without enumerations, `Eq, Ord, Hash` only without floats.
pub fn derive_str(id: TypeId, types: &Types, include_debug: bool) -> (r: String)
    ensures
        r@ == derive_text(
            has_pointer(types.types@, id),
            include_debug,
            has_enumeration(types.types@, id),
            has_float(types.types@, id),
        ),
{
    let p = holds_at(Query::Pointer, types, id.0);
    let e = holds_at(Query::Enumeration, types, id.0);
    let f = holds_at(Query::Float, types, id.0);
    derive_from_flags(p, include_debug, e, f)
}

} // verus!
