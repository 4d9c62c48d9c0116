use vstd::prelude::*;

verus! {

/// Index of a type in a [`Types`] registry.
#[derive(Clone, Copy, Debug, PartialEq, Eq, Structural, Hash)]
pub struct TypeId(pub usize);

/// A field of a record. A `Recursive` field points back to the tag union
/// that the record is a payload of.
pub enum Field {
    NonRecursive(String, TypeId),
    Recursive(String, TypeId),
}

impl Field {
    pub open spec fn label_view(&self) -> Seq<char> {
        match self {
            Field::NonRecursive(l, _) => l@,
            Field::Recursive(l, _) => l@,
        }
    }

    pub open spec fn target(&self) -> TypeId {
        match self {
            Field::NonRecursive(_, t) => *t,
            Field::Recursive(_, t) => *t,
        }
    }

    pub fn label(&self) -> (r: &String)
        ensures
            r@ == self.label_view(),
    {
        match self {
            Field::NonRecursive(l, _) => l,
            Field::Recursive(l, _) => l,
        }
    }

    pub fn type_id(&self) -> (r: TypeId)
        ensures
            r == self.target(),
    {
        match self {
            Field::NonRecursive(_, t) => *t,
            Field::Recursive(_, t) => *t,
        }
    }
}

/// The shapes of tag union. Layout facts (`size`, `discriminant_offset`)
/// come from the compiler's layout computation for the registry's architecture.
pub enum RocTagUnion {
    Enumeration { name: String, tags: Vec<String> },
    NonRecursive {
        name: String,
        tags: Vec<(String, Option<TypeId>)>,
        size: usize,
        discriminant_offset: usize,
    },
    Recursive {
        name: String,
        tags: Vec<(String, Option<TypeId>)>,
        size: usize,
        discriminant_offset: usize,
    },
    NullableWrapped { name: String },
    NullableUnwrapped {
        name: String,
        null_tag: String,
        non_null_tag: String,
        non_null_payload: TypeId,
        null_represents_first_tag: bool,
    },
    NonNullableUnwrapped { name: String },
}

pub enum RocType {
    RocStr,
    Bool,
    I8,
    U8,
    I16,
    U16,
    I32,
    U32,
    I64,
    U64,
    I128,
    U128,
    F32,
    F64,
    F128,
    RocDec,
    RocList(TypeId),
    RocDict(TypeId, TypeId),
    RocSet(TypeId),
    RocBox(TypeId),
    Struct { name: String, fields: Vec<Field> },
    TagUnion(RocTagUnion),
    TransparentWrapper { name: String, content: TypeId },
}

/// A registry of types for one architecture. Ids are indexes; a type refers
/// only to types with smaller ids, except through `Recursive` fields.
pub struct Types {
    pub types: Vec<RocType>,
}

/// A property that a type may have somewhere in its transitive shape.
#[derive(Clone, Copy, Debug, PartialEq, Eq, Structural)]
pub enum Query {
    Pointer,
    Float,
    Enumeration,
}

/// Whether type `id` of `s` has property `q` in its transitive shape.
/// A reference to a type that does not come before `id`, which a registry
/// satisfying `Types::wf` never holds, contributes nothing.
pub open spec fn holds(q: Query, s: Seq<RocType>, id: nat) -> bool
    decreases id + 1, 0nat,
{
    if id >= s.len() {
        false
    } else {
        match s[id as int] {
            RocType::RocStr => q == Query::Pointer,
            RocType::F32 | RocType::F64 | RocType::F128 => q == Query::Float,
            RocType::RocList(e) | RocType::RocSet(e) | RocType::RocBox(e) => q == Query::Pointer
                || (e.0 < id && holds(q, s, e.0 as nat)),
            RocType::RocDict(k, v) => q == Query::Pointer || (k.0 < id && holds(q, s, k.0 as nat))
                || (v.0 < id && holds(q, s, v.0 as nat)),
            RocType::Struct { fields, .. } => fields_hold(q, s, id, fields@, fields@.len()),
            RocType::TransparentWrapper { content, .. } => content.0 < id && holds(
                q,
                s,
                content.0 as nat,
            ),
            RocType::TagUnion(u) => match u {
                RocTagUnion::Enumeration { .. } => q == Query::Enumeration,
                RocTagUnion::NonRecursive { tags, .. } => q == Query::Enumeration || tags_hold(
                    q,
                    s,
                    id,
                    tags@,
                    tags@.len(),
                ),
                RocTagUnion::Recursive { tags, .. } => q != Query::Float || tags_hold(
                    q,
                    s,
                    id,
                    tags@,
                    tags@.len(),
                ),
                RocTagUnion::NullableUnwrapped { non_null_payload, .. } => q != Query::Float || (
                non_null_payload.0 < id && holds(q, s, non_null_payload.0 as nat)),
                _ => q != Query::Float,
            },
            _ => false,
        }
    }
}

/// Whether one of the first `k` fields has property `q`.
pub open spec fn fields_hold(q: Query, s: Seq<RocType>, id: nat, fields: Seq<Field>, k: nat) -> bool
    decreases id, k,
{
    if k == 0 || k > fields.len() {
        false
    } else {
        fields_hold(q, s, id, fields, (k - 1) as nat) || match fields[k - 1] {
            Field::Recursive(_, _) => q != Query::Float,
            Field::NonRecursive(_, c) => c.0 < id && holds(q, s, c.0 as nat),
        }
    }
}

/// Whether the payload of one of the first `k` tags has property `q`.
pub open spec fn tags_hold(
    q: Query,
    s: Seq<RocType>,
    id: nat,
    tags: Seq<(String, Option<TypeId>)>,
    k: nat,
) -> bool
    decreases id, k,
{
    if k == 0 || k > tags.len() {
        false
    } else {
        tags_hold(q, s, id, tags, (k - 1) as nat) || match tags[k - 1].1 {
            None => false,
            Some(c) => c.0 < id && holds(q, s, c.0 as nat),
        }
    }
}

pub open spec fn has_pointer(s: Seq<RocType>, id: TypeId) -> bool {
    holds(Query::Pointer, s, id.0 as nat)
}

pub open spec fn has_float(s: Seq<RocType>, id: TypeId) -> bool {
    holds(Query::Float, s, id.0 as nat)
}

pub open spec fn has_enumeration(s: Seq<RocType>, id: TypeId) -> bool {
    holds(Query::Enumeration, s, id.0 as nat)
}

impl Types {
    pub fn new() -> (r: Types)
        ensures
            r.types@.len() == 0,
    {
        Types { types: Vec::new() }
    }

    pub fn add(&mut self, typ: RocType) -> (r: TypeId)
        requires
            old(self).types@.len() < usize::MAX,
        ensures
            final(self).types@ == old(self).types@.push(typ),
            r.0 == old(self).types@.len(),
    {
        let id = TypeId(self.types.len());
        self.types.push(typ);
        id
    }

    pub fn len(&self) -> (r: usize)
        ensures
            r == self.types@.len(),
    {
        self.types.len()
    }

    pub fn get(&self, id: TypeId) -> (r: &RocType)
        requires
            id.0 < self.types@.len(),
        ensures
            *r == self.types@[id.0 as int],
    {
        &self.types[id.0]
    }

    /// Every id in dependency order: dependencies come first.
    pub fn sorted_ids(&self) -> (r: Vec<TypeId>)
        ensures
            r@.len() == self.types@.len(),
            forall|i: int| 0 <= i < r@.len() ==> r@[i].0 == i,
    {
        let mut r: Vec<TypeId> = Vec::new();
        let mut i: usize = 0;
        while i < self.types.len()
            invariant
                i <= self.types@.len(),
                r@.len() == i,
                forall|j: int| 0 <= j < i ==> r@[j].0 == j,
            decreases self.types@.len() - i,
        {
            r.push(TypeId(i));
            i = i + 1;
        }
        r
    }
}

/// Every payload of `tags` comes before `id`.
pub open spec fn tags_before(tags: Seq<(String, Option<TypeId>)>, id: nat) -> bool {
    forall|i: int| 0 <= i < tags.len() ==> match #[trigger] tags[i].1 {
        Some(p) => p.0 < id,
        None => true,
    }
}

/// Every field of a record comes before `id`, except a recursive one,
/// which may point anywhere in the registry.
pub open spec fn fields_before(fields: Seq<Field>, id: nat, len: nat) -> bool {
    forall|i: int| 0 <= i < fields.len() ==> match #[trigger] fields[i] {
        Field::NonRecursive(_, t) => t.0 < id,
        Field::Recursive(_, t) => t.0 < len,
    }
}

/// Type `id` refers only to types that come before it (dependencies first),
/// except through recursive fields.
pub open spec fn refs_before(s: Seq<RocType>, id: nat) -> bool {
    match s[id as int] {
        RocType::RocList(e) | RocType::RocSet(e) | RocType::RocBox(e) => e.0 < id,
        RocType::RocDict(k, v) => k.0 < id && v.0 < id,
        RocType::Struct { fields, .. } => fields_before(fields@, id, s.len()),
        RocType::TransparentWrapper { content, .. } => content.0 < id,
        RocType::TagUnion(u) => match u {
            RocTagUnion::NonRecursive { tags, .. } => tags_before(tags@, id),
            RocTagUnion::Recursive { tags, .. } => tags_before(tags@, id),
            RocTagUnion::NullableUnwrapped { non_null_payload, .. } => non_null_payload.0 < id,
            _ => true,
        },
        _ => true,
    }
}

impl Types {
    /// The ids are in dependency order.
    pub open spec fn wf(&self) -> bool {
        forall|i: int| 0 <= i < self.types@.len() ==> #[trigger] refs_before(self.types@, i as nat)
    }

    /// Whether the ids are in dependency order.
    pub fn is_well_formed(&self) -> (r: bool)
        ensures
            r == self.wf(),
    {
        let n = self.types.len();
        let mut i: usize = 0;
        while i < n
            invariant
                n == self.types@.len(),
                i <= n,
                forall|j: int| 0 <= j < i ==> #[trigger] refs_before(self.types@, j as nat),
            decreases n - i,
        {
            if !refs_before_at(self, i) {
                proof {
                    let k = i as int;
                    assert(!refs_before(self.types@, k as nat));
                }
                return false;
            }
            i = i + 1;
        }
        true
    }
}

fn tags_before_at(tags: &Vec<(String, Option<TypeId>)>, id: usize) -> (r: bool)
    ensures
        r == tags_before(tags@, id as nat),
{
    let n = tags.len();
    let mut i: usize = 0;
    while i < n
        invariant
            n == tags@.len(),
            i <= n,
            forall|j: int| 0 <= j < i ==> match #[trigger] tags@[j].1 {
                Some(p) => p.0 < id,
                None => true,
            },
        decreases n - i,
    {
        if let Some(p) = &tags[i].1 {
            if p.0 >= id {
                return false;
            }
        }
        i = i + 1;
    }
    true
}

fn fields_before_at(fields: &Vec<Field>, id: usize, len: usize) -> (r: bool)
    ensures
        r == fields_before(fields@, id as nat, len as nat),
{
    let n = fields.len();
    let mut i: usize = 0;
    while i < n
        invariant
            n == fields@.len(),
            i <= n,
            forall|j: int| 0 <= j < i ==> match #[trigger] fields@[j] {
                Field::NonRecursive(_, t) => t.0 < id,
                Field::Recursive(_, t) => t.0 < len,
            },
        decreases n - i,
    {
        match &fields[i] {
            Field::NonRecursive(_, t) => if t.0 >= id {
                return false;
            },
            Field::Recursive(_, t) => if t.0 >= len {
                return false;
            },
        }
        i = i + 1;
    }
    true
}

fn refs_before_at(types: &Types, id: usize) -> (r: bool)
    requires
        id < types.types@.len(),
    ensures
        r == refs_before(types.types@, id as nat),
{
    match &types.types[id] {
        RocType::RocList(e) | RocType::RocSet(e) | RocType::RocBox(e) => e.0 < id,
        RocType::RocDict(k, v) => k.0 < id && v.0 < id,
        RocType::Struct { fields, .. } => fields_before_at(fields, id, types.types.len()),
        RocType::TransparentWrapper { content, .. } => content.0 < id,
        RocType::TagUnion(u) => match u {
            RocTagUnion::NonRecursive { tags, .. } => tags_before_at(tags, id),
            RocTagUnion::Recursive { tags, .. } => tags_before_at(tags, id),
            RocTagUnion::NullableUnwrapped { non_null_payload, .. } => non_null_payload.0 < id,
            _ => true,
        },
        _ => true,
    }
}

pub fn holds_at(q: Query, types: &Types, id: usize) -> (r: bool)
    ensures
        r == holds(q, types.types@, id as nat),
    decreases id + 1, 0nat,
{
    if id >= types.types.len() {
        return false;
    }
    match &types.types[id] {
        RocType::RocStr => q == Query::Pointer,
        RocType::F32 | RocType::F64 | RocType::F128 => q == Query::Float,
        RocType::RocList(e) | RocType::RocSet(e) | RocType::RocBox(e) => q == Query::Pointer || (e.0
            < id && holds_at(q, types, e.0)),
        RocType::RocDict(k, v) => q == Query::Pointer || (k.0 < id && holds_at(q, types, k.0)) || (
        v.0 < id && holds_at(q, types, v.0)),
        RocType::Struct { fields, .. } => fields_hold_at(q, types, id, fields, fields.len()),
        RocType::TransparentWrapper { content, .. } => content.0 < id && holds_at(
            q,
            types,
            content.0,
        ),
        RocType::TagUnion(u) => match u {
            RocTagUnion::Enumeration { .. } => q == Query::Enumeration,
            RocTagUnion::NonRecursive { tags, .. } => q == Query::Enumeration || tags_hold_at(
                q,
                types,
                id,
                tags,
                tags.len(),
            ),
            RocTagUnion::Recursive { tags, .. } => q != Query::Float || tags_hold_at(
                q,
                types,
                id,
                tags,
                tags.len(),
            ),
            RocTagUnion::NullableUnwrapped { non_null_payload, .. } => q != Query::Float || (
            non_null_payload.0 < id && holds_at(q, types, non_null_payload.0)),
            _ => q != Query::Float,
        },
        _ => false,
    }
}

fn fields_hold_at(q: Query, types: &Types, id: usize, fields: &Vec<Field>, k: usize) -> (r: bool)
    ensures
        r == fields_hold(q, types.types@, id as nat, fields@, k as nat),
    decreases id, k,
{
    if k == 0 || k > fields.len() {
        false
    } else {
        fields_hold_at(q, types, id, fields, k - 1) || match &fields[k - 1] {
            Field::Recursive(_, _) => q != Query::Float,
            Field::NonRecursive(_, c) => c.0 < id && holds_at(q, types, c.0),
        }
    }
}

fn tags_hold_at(
    q: Query,
    types: &Types,
    id: usize,
    tags: &Vec<(String, Option<TypeId>)>,
    k: usize,
) -> (r: bool)
    ensures
        r == tags_hold(q, types.types@, id as nat, tags@, k as nat),
    decreases id, k,
{
    if k == 0 || k > tags.len() {
        false
    } else {
        tags_hold_at(q, types, id, tags, k - 1) || match &tags[k - 1].1 {
            None => false,
            Some(c) => c.0 < id && holds_at(q, types, c.0),
        }
    }
}

} // verus!
