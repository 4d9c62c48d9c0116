use vstd::prelude::*;
use vstd::string::*;
use crate::text::{indents, write_indents};

verus! {

pub open spec fn union_head_text(n: Seq<char>) -> Seq<char> {
    "#[repr(C)]\npub union "@
        + n
        + " {\n"@
}

pub(crate) fn union_head_str(n: &str) -> (r: String)
    ensures
        r@ == union_head_text(n@),
{
    let mut buf = String::new();
    buf.append("#[repr(C)]\npub union ");
    buf.append(n);
    buf.append(" {\n");
    proof {
        assert(buf@ =~= union_head_text(n@));
    }
    buf
}

pub open spec fn union_sizer_text(size: Seq<char>) -> Seq<char> {
    indents(1)
        + "_sizer: [u8; "@
        + size
        + "],\n}"@
}

pub(crate) fn union_sizer_str(size: &str) -> (r: String)
    ensures
        r@ == union_sizer_text(size@),
{
    let mut buf = String::new();
    write_indents(1, &mut buf);
    buf.append("_sizer: [u8; ");
    buf.append(size);
    buf.append("],\n}");
    proof {
        assert(buf@ =~= union_sizer_text(size@));
    }
    buf
}

/// Reads the discriminant from the low bits of the recursive pointer.
pub open spec fn variant_rec_text(d: Seq<char>, carrier: Seq<char>, mask: Seq<char>) -> Seq<char> {
    "/// Returns which variant this tag union holds. Note that this never includes a payload!\n    pub fn variant(&self) -> "@
        + d
        + " {\n        // The discriminant is stored in the unused low bits of the recursive pointer\n        unsafe { core::mem::transmute::<u8, "@
        + d
        + ">((self."@
        + carrier
        + " as u8) & "@
        + mask
        + ") }\n    }"@
}

pub(crate) fn variant_rec_str(d: &str, carrier: &str, mask: &str) -> (r: String)
    ensures
        r@ == variant_rec_text(d@, carrier@, mask@),
{
    let mut buf = String::new();
    buf.append("/// Returns which variant this tag union holds. Note that this never includes a payload!\n    pub fn variant(&self) -> ");
    buf.append(d);
    buf.append(" {\n        // The discriminant is stored in the unused low bits of the recursive pointer\n        unsafe { core::mem::transmute::<u8, ");
    buf.append(d);
    buf.append(">((self.");
    buf.append(carrier);
    buf.append(" as u8) & ");
    buf.append(mask);
    buf.append(") }\n    }");
    proof {
        assert(buf@ =~= variant_rec_text(d@, carrier@, mask@));
    }
    buf
}

/// Clears the low bits of the recursive pointer and stores the discriminant in them.
pub open spec fn set_discriminant_rec_text(d: Seq<char>, carrier: Seq<char>, mask: Seq<char>) -> Seq<char> {
    "/// Internal helper\n    fn set_discriminant(&mut self, discriminant: "@
        + d
        + ") {\n        // The discriminant is stored in the unused low bits of the recursive pointer\n        unsafe {\n            let untagged = (self."@
        + carrier
        + " as usize) & (!"@
        + mask
        + " as usize);\n            let tagged = untagged | (discriminant as usize);\n\n            self."@
        + carrier
        + " = tagged as *mut Self;\n        }\n    }"@
}

pub(crate) fn set_discriminant_rec_str(d: &str, carrier: &str, mask: &str) -> (r: String)
    ensures
        r@ == set_discriminant_rec_text(d@, carrier@, mask@),
{
    let mut buf = String::new();
    buf.append("/// Internal helper\n    fn set_discriminant(&mut self, discriminant: ");
    buf.append(d);
    buf.append(") {\n        // The discriminant is stored in the unused low bits of the recursive pointer\n        unsafe {\n            let untagged = (self.");
    buf.append(carrier);
    buf.append(" as usize) & (!");
    buf.append(mask);
    buf.append(" as usize);\n            let tagged = untagged | (discriminant as usize);\n\n            self.");
    buf.append(carrier);
    buf.append(" = tagged as *mut Self;\n        }\n    }");
    proof {
        assert(buf@ =~= set_discriminant_rec_text(d@, carrier@, mask@));
    }
    buf
}

/// Reads the discriminant byte at its offset.
pub open spec fn variant_nonrec_text(d: Seq<char>, offset: Seq<char>) -> Seq<char> {
    "/// Returns which variant this tag union holds. Note that this never includes a payload!\n    pub fn variant(&self) -> "@
        + d
        + " {\n        unsafe {\n            let bytes = core::mem::transmute::<&Self, &[u8; core::mem::size_of::<Self>()]>(self);\n\n            core::mem::transmute::<u8, "@
        + d
        + ">(*bytes.as_ptr().add("@
        + offset
        + "))\n        }\n    }"@
}

pub(crate) fn variant_nonrec_str(d: &str, offset: &str) -> (r: String)
    ensures
        r@ == variant_nonrec_text(d@, offset@),
{
    let mut buf = String::new();
    buf.append("/// Returns which variant this tag union holds. Note that this never includes a payload!\n    pub fn variant(&self) -> ");
    buf.append(d);
    buf.append(" {\n        unsafe {\n            let bytes = core::mem::transmute::<&Self, &[u8; core::mem::size_of::<Self>()]>(self);\n\n            core::mem::transmute::<u8, ");
    buf.append(d);
    buf.append(">(*bytes.as_ptr().add(");
    buf.append(offset);
    buf.append("))\n        }\n    }");
    proof {
        assert(buf@ =~= variant_nonrec_text(d@, offset@));
    }
    buf
}

/// Writes the discriminant byte at its offset.
pub open spec fn set_discriminant_nonrec_text(d: Seq<char>, n: Seq<char>, offset: Seq<char>) -> Seq<char> {
    "/// Internal helper\n    fn set_discriminant(&mut self, discriminant: "@
        + d
        + ") {\n        let discriminant_ptr: *mut u8 = (self as *mut "@
        + n
        + ").cast();\n\n        unsafe {\n            *(discriminant_ptr.add("@
        + offset
        + ")) = discriminant as u8;\n        }\n    }"@
}

pub(crate) fn set_discriminant_nonrec_str(d: &str, n: &str, offset: &str) -> (r: String)
    ensures
        r@ == set_discriminant_nonrec_text(d@, n@, offset@),
{
    let mut buf = String::new();
    buf.append("/// Internal helper\n    fn set_discriminant(&mut self, discriminant: ");
    buf.append(d);
    buf.append(") {\n        let discriminant_ptr: *mut u8 = (self as *mut ");
    buf.append(n);
    buf.append(").cast();\n\n        unsafe {\n            *(discriminant_ptr.add(");
    buf.append(offset);
    buf.append(")) = discriminant as u8;\n        }\n    }");
    proof {
        assert(buf@ =~= set_discriminant_nonrec_text(d@, n@, offset@));
    }
    buf
}

pub open spec fn constructor_text(t: Seq<char>, args: Seq<char>, to_payload: Seq<char>, init: Seq<char>, d: Seq<char>) -> Seq<char> {
    "/// Construct a tag named "@
        + t
        + ", with the appropriate payload\n    pub fn "@
        + t
        + "("@
        + args
        + ") -> Self {\n        let payload = "@
        + to_payload
        + ";\n        let mut answer = Self {\n            "@
        + t
        + ": "@
        + init
        + "\n        };\n\n        answer.set_discriminant("@
        + d
        + "::"@
        + t
        + ");\n\n        answer\n    }"@
}

pub(crate) fn constructor_str(t: &str, args: &str, to_payload: &str, init: &str, d: &str) -> (r: String)
    ensures
        r@ == constructor_text(t@, args@, to_payload@, init@, d@),
{
    let mut buf = String::new();
    buf.append("/// Construct a tag named ");
    buf.append(t);
    buf.append(", with the appropriate payload\n    pub fn ");
    buf.append(t);
    buf.append("(");
    buf.append(args);
    buf.append(") -> Self {\n        let payload = ");
    buf.append(to_payload);
    buf.append(";\n        let mut answer = Self {\n            ");
    buf.append(t);
    buf.append(": ");
    buf.append(init);
    buf.append("\n        };\n\n        answer.set_discriminant(");
    buf.append(d);
    buf.append("::");
    buf.append(t);
    buf.append(");\n\n        answer\n    }");
    proof {
        assert(buf@ =~= constructor_text(t@, args@, to_payload@, init@, d@));
    }
    buf
}

pub open spec fn into_payload_text(n: Seq<char>, t: Seq<char>, self_arg: Seq<char>, ret_type: Seq<char>, get_payload: Seq<char>, ret: Seq<char>, d: Seq<char>) -> Seq<char> {
    "/// Unsafely assume the given "@
        + n
        + " has a .variant() of "@
        + t
        + " and convert it to "@
        + t
        + "'s payload.\n    /// (Always examine .variant() first to make sure this is the correct variant!)\n    /// Panics in debug builds if the .variant() doesn't return "@
        + t
        + ".\n    pub unsafe fn into_"@
        + t
        + "("@
        + self_arg
        + ") -> "@
        + ret_type
        + " {\n        debug_assert_eq!(self.variant(), "@
        + d
        + "::"@
        + t
        + ");\n\n        let payload = "@
        + get_payload
        + ";\n\n        // The payload has been moved out, so `Drop` must not run on it again.\n        core::mem::forget(self);\n\n        "@
        + ret
        + "\n    }"@
}

pub(crate) fn into_payload_str(n: &str, t: &str, self_arg: &str, ret_type: &str, get_payload: &str, ret: &str, d: &str) -> (r: String)
    ensures
        r@ == into_payload_text(n@, t@, self_arg@, ret_type@, get_payload@, ret@, d@),
{
    let mut buf = String::new();
    buf.append("/// Unsafely assume the given ");
    buf.append(n);
    buf.append(" has a .variant() of ");
    buf.append(t);
    buf.append(" and convert it to ");
    buf.append(t);
    buf.append("'s payload.\n    /// (Always examine .variant() first to make sure this is the correct variant!)\n    /// Panics in debug builds if the .variant() doesn't return ");
    buf.append(t);
    buf.append(".\n    pub unsafe fn into_");
    buf.append(t);
    buf.append("(");
    buf.append(self_arg);
    buf.append(") -> ");
    buf.append(ret_type);
    buf.append(" {\n        debug_assert_eq!(self.variant(), ");
    buf.append(d);
    buf.append("::");
    buf.append(t);
    buf.append(");\n\n        let payload = ");
    buf.append(get_payload);
    buf.append(";\n\n        // The payload has been moved out, so `Drop` must not run on it again.\n        core::mem::forget(self);\n\n        ");
    buf.append(ret);
    buf.append("\n    }");
    proof {
        assert(buf@ =~= into_payload_text(n@, t@, self_arg@, ret_type@, get_payload@, ret@, d@));
    }
    buf
}

pub open spec fn as_payload_text(n: Seq<char>, t: Seq<char>, ret_type: Seq<char>, ret: Seq<char>, d: Seq<char>) -> Seq<char> {
    "/// Unsafely assume the given "@
        + n
        + " has a .variant() of "@
        + t
        + " and return its payload.\n    /// (Always examine .variant() first to make sure this is the correct variant!)\n    /// Panics in debug builds if the .variant() doesn't return "@
        + t
        + ".\n    pub unsafe fn as_"@
        + t
        + "(&self) -> "@
        + ret_type
        + " {\n        debug_assert_eq!(self.variant(), "@
        + d
        + "::"@
        + t
        + ");\n\n        let payload = &self."@
        + t
        + ";\n\n        "@
        + ret
        + "\n    }"@
}

pub(crate) fn as_payload_str(n: &str, t: &str, ret_type: &str, ret: &str, d: &str) -> (r: String)
    ensures
        r@ == as_payload_text(n@, t@, ret_type@, ret@, d@),
{
    let mut buf = String::new();
    buf.append("/// Unsafely assume the given ");
    buf.append(n);
    buf.append(" has a .variant() of ");
    buf.append(t);
    buf.append(" and return its payload.\n    /// (Always examine .variant() first to make sure this is the correct variant!)\n    /// Panics in debug builds if the .variant() doesn't return ");
    buf.append(t);
    buf.append(".\n    pub unsafe fn as_");
    buf.append(t);
    buf.append("(&self) -> ");
    buf.append(ret_type);
    buf.append(" {\n        debug_assert_eq!(self.variant(), ");
    buf.append(d);
    buf.append("::");
    buf.append(t);
    buf.append(");\n\n        let payload = &self.");
    buf.append(t);
    buf.append(";\n\n        ");
    buf.append(ret);
    buf.append("\n    }");
    proof {
        assert(buf@ =~= as_payload_text(n@, t@, ret_type@, ret@, d@));
    }
    buf
}

pub open spec fn unit_constant_text(n: Seq<char>, t: Seq<char>, d: Seq<char>, offset: Seq<char>) -> Seq<char> {
    "/// A tag named "@
        + t
        + ", which has no payload.\n    pub const "@
        + t
        + ": Self = unsafe {\n        let mut bytes = [0; core::mem::size_of::<"@
        + n
        + ">()];\n\n        bytes["@
        + offset
        + "] = "@
        + d
        + "::"@
        + t
        + " as u8;\n\n        core::mem::transmute::<[u8; core::mem::size_of::<"@
        + n
        + ">()], "@
        + n
        + ">(bytes)\n    };"@
}

pub(crate) fn unit_constant_str(n: &str, t: &str, d: &str, offset: &str) -> (r: String)
    ensures
        r@ == unit_constant_text(n@, t@, d@, offset@),
{
    let mut buf = String::new();
    buf.append("/// A tag named ");
    buf.append(t);
    buf.append(", which has no payload.\n    pub const ");
    buf.append(t);
    buf.append(": Self = unsafe {\n        let mut bytes = [0; core::mem::size_of::<");
    buf.append(n);
    buf.append(">()];\n\n        bytes[");
    buf.append(offset);
    buf.append("] = ");
    buf.append(d);
    buf.append("::");
    buf.append(t);
    buf.append(" as u8;\n\n        core::mem::transmute::<[u8; core::mem::size_of::<");
    buf.append(n);
    buf.append(">()], ");
    buf.append(n);
    buf.append(">(bytes)\n    };");
    proof {
        assert(buf@ =~= unit_constant_text(n@, t@, d@, offset@));
    }
    buf
}

pub open spec fn unit_into_text(t: Seq<char>) -> Seq<char> {
    "/// Other `into_` methods return a payload, but since the "@
        + t
        + " tag\n    /// has no payload, this does nothing and is only here for completeness.\n    pub fn into_"@
        + t
        + "(self) {\n        ()\n    }"@
}

pub(crate) fn unit_into_str(t: &str) -> (r: String)
    ensures
        r@ == unit_into_text(t@),
{
    let mut buf = String::new();
    buf.append("/// Other `into_` methods return a payload, but since the ");
    buf.append(t);
    buf.append(" tag\n    /// has no payload, this does nothing and is only here for completeness.\n    pub fn into_");
    buf.append(t);
    buf.append("(self) {\n        ()\n    }");
    proof {
        assert(buf@ =~= unit_into_text(t@));
    }
    buf
}

pub open spec fn unit_as_text(t: Seq<char>) -> Seq<char> {
    "/// Other `as` methods return a payload, but since the "@
        + t
        + " tag\n    /// has no payload, this does nothing and is only here for completeness.\n    pub unsafe fn as_"@
        + t
        + "(&self) {\n        ()\n    }"@
}

pub(crate) fn unit_as_str(t: &str) -> (r: String)
    ensures
        r@ == unit_as_text(t@),
{
    let mut buf = String::new();
    buf.append("/// Other `as` methods return a payload, but since the ");
    buf.append(t);
    buf.append(" tag\n    /// has no payload, this does nothing and is only here for completeness.\n    pub unsafe fn as_");
    buf.append(t);
    buf.append("(&self) {\n        ()\n    }");
    proof {
        assert(buf@ =~= unit_as_text(t@));
    }
    buf
}

pub open spec fn drop_impl_text(arms: Seq<char>) -> Seq<char> {
    "fn drop(&mut self) {\n"@
        + arms
        + indents(1)
        + "}"@
}

pub(crate) fn drop_impl_str(arms: &str) -> (r: String)
    ensures
        r@ == drop_impl_text(arms@),
{
    let mut buf = String::new();
    buf.append("fn drop(&mut self) {\n");
    buf.append(arms);
    write_indents(1, &mut buf);
    buf.append("}");
    proof {
        assert(buf@ =~= drop_impl_text(arms@));
    }
    buf
}

pub open spec fn eq_impl_text(arms: Seq<char>) -> Seq<char> {
    "fn eq(&self, other: &Self) -> bool {\n            if self.variant() != other.variant() {\n                return false;\n            }\n\n            unsafe {\n"@
        + arms
        + indents(2)
        + "}\n"@
        + indents(1)
        + "}"@
}

pub(crate) fn eq_impl_str(arms: &str) -> (r: String)
    ensures
        r@ == eq_impl_text(arms@),
{
    let mut buf = String::new();
    buf.append("fn eq(&self, other: &Self) -> bool {\n            if self.variant() != other.variant() {\n                return false;\n            }\n\n            unsafe {\n");
    buf.append(arms);
    write_indents(2, &mut buf);
    buf.append("}\n");
    write_indents(1, &mut buf);
    buf.append("}");
    proof {
        assert(buf@ =~= eq_impl_text(arms@));
    }
    buf
}

pub open spec fn partial_cmp_impl_text(arms: Seq<char>) -> Seq<char> {
    "fn partial_cmp(&self, other: &Self) -> Option<core::cmp::Ordering> {\n            match self.variant().partial_cmp(&other.variant()) {\n                Some(core::cmp::Ordering::Equal) => {}\n                not_eq => return not_eq,\n            }\n\n            unsafe {\n"@
        + arms
        + indents(2)
        + "}\n"@
        + indents(1)
        + "}"@
}

pub(crate) fn partial_cmp_impl_str(arms: &str) -> (r: String)
    ensures
        r@ == partial_cmp_impl_text(arms@),
{
    let mut buf = String::new();
    buf.append("fn partial_cmp(&self, other: &Self) -> Option<core::cmp::Ordering> {\n            match self.variant().partial_cmp(&other.variant()) {\n                Some(core::cmp::Ordering::Equal) => {}\n                not_eq => return not_eq,\n            }\n\n            unsafe {\n");
    buf.append(arms);
    write_indents(2, &mut buf);
    buf.append("}\n");
    write_indents(1, &mut buf);
    buf.append("}");
    proof {
        assert(buf@ =~= partial_cmp_impl_text(arms@));
    }
    buf
}

pub open spec fn cmp_impl_text(arms: Seq<char>) -> Seq<char> {
    "fn cmp(&self, other: &Self) -> core::cmp::Ordering {\n            match self.variant().cmp(&other.variant()) {\n                core::cmp::Ordering::Equal => {}\n                not_eq => return not_eq,\n            }\n\n            unsafe {\n"@
        + arms
        + indents(2)
        + "}\n"@
        + indents(1)
        + "}"@
}

pub(crate) fn cmp_impl_str(arms: &str) -> (r: String)
    ensures
        r@ == cmp_impl_text(arms@),
{
    let mut buf = String::new();
    buf.append("fn cmp(&self, other: &Self) -> core::cmp::Ordering {\n            match self.variant().cmp(&other.variant()) {\n                core::cmp::Ordering::Equal => {}\n                not_eq => return not_eq,\n            }\n\n            unsafe {\n");
    buf.append(arms);
    write_indents(2, &mut buf);
    buf.append("}\n");
    write_indents(1, &mut buf);
    buf.append("}");
    proof {
        assert(buf@ =~= cmp_impl_text(arms@));
    }
    buf
}

pub open spec fn clone_impl_text(arms: Seq<char>) -> Seq<char> {
    "fn clone(&self) -> Self {\n        let mut answer = unsafe {\n"@
        + arms
        + "\n        };\n\n        answer.set_discriminant(self.variant());\n\n        answer\n    }"@
}

pub(crate) fn clone_impl_str(arms: &str) -> (r: String)
    ensures
        r@ == clone_impl_text(arms@),
{
    let mut buf = String::new();
    buf.append("fn clone(&self) -> Self {\n        let mut answer = unsafe {\n");
    buf.append(arms);
    buf.append("\n        };\n\n        answer.set_discriminant(self.variant());\n\n        answer\n    }");
    proof {
        assert(buf@ =~= clone_impl_text(arms@));
    }
    buf
}

pub open spec fn hash_impl_text(arms: Seq<char>) -> Seq<char> {
    "fn hash<H: core::hash::Hasher>(&self, state: &mut H) {\n"@
        + arms
        + indents(1)
        + "}"@
}

pub(crate) fn hash_impl_str(arms: &str) -> (r: String)
    ensures
        r@ == hash_impl_text(arms@),
{
    let mut buf = String::new();
    buf.append("fn hash<H: core::hash::Hasher>(&self, state: &mut H) {\n");
    buf.append(arms);
    write_indents(1, &mut buf);
    buf.append("}");
    proof {
        assert(buf@ =~= hash_impl_text(arms@));
    }
    buf
}

pub open spec fn debug_impl_text(n: Seq<char>, arms: Seq<char>) -> Seq<char> {
    "fn fmt(&self, f: &mut core::fmt::Formatter<'_>) -> core::fmt::Result {\n            f.write_str(\""@
        + n
        + "::\")?;\n\n            unsafe {\n"@
        + arms
        + indents(2)
        + "}\n"@
        + indents(1)
        + "}"@
}

pub(crate) fn debug_impl_str(n: &str, arms: &str) -> (r: String)
    ensures
        r@ == debug_impl_text(n@, arms@),
{
    let mut buf = String::new();
    buf.append("fn fmt(&self, f: &mut core::fmt::Formatter<'_>) -> core::fmt::Result {\n            f.write_str(\"");
    buf.append(n);
    buf.append("::\")?;\n\n            unsafe {\n");
    buf.append(arms);
    write_indents(2, &mut buf);
    buf.append("}\n");
    write_indents(1, &mut buf);
    buf.append("}");
    proof {
        assert(buf@ =~= debug_impl_text(n@, arms@));
    }
    buf
}

pub open spec fn drop_branch_text(t: Seq<char>) -> Seq<char> {
    "unsafe { core::mem::ManuallyDrop::drop(&mut self."@
        + t
        + ") },"@
}

pub(crate) fn drop_branch_str(t: &str) -> (r: String)
    ensures
        r@ == drop_branch_text(t@),
{
    let mut buf = String::new();
    buf.append("unsafe { core::mem::ManuallyDrop::drop(&mut self.");
    buf.append(t);
    buf.append(") },");
    proof {
        assert(buf@ =~= drop_branch_text(t@));
    }
    buf
}

pub open spec fn eq_branch_text(t: Seq<char>) -> Seq<char> {
    "self."@
        + t
        + " == other."@
        + t
        + ","@
}

pub(crate) fn eq_branch_str(t: &str) -> (r: String)
    ensures
        r@ == eq_branch_text(t@),
{
    let mut buf = String::new();
    buf.append("self.");
    buf.append(t);
    buf.append(" == other.");
    buf.append(t);
    buf.append(",");
    proof {
        assert(buf@ =~= eq_branch_text(t@));
    }
    buf
}

pub open spec fn partial_cmp_branch_text(t: Seq<char>) -> Seq<char> {
    "self."@
        + t
        + ".partial_cmp(&other."@
        + t
        + "),"@
}

pub(crate) fn partial_cmp_branch_str(t: &str) -> (r: String)
    ensures
        r@ == partial_cmp_branch_text(t@),
{
    let mut buf = String::new();
    buf.append("self.");
    buf.append(t);
    buf.append(".partial_cmp(&other.");
    buf.append(t);
    buf.append("),");
    proof {
        assert(buf@ =~= partial_cmp_branch_text(t@));
    }
    buf
}

pub open spec fn cmp_branch_text(t: Seq<char>) -> Seq<char> {
    "self."@
        + t
        + ".cmp(&other."@
        + t
        + "),"@
}

pub(crate) fn cmp_branch_str(t: &str) -> (r: String)
    ensures
        r@ == cmp_branch_text(t@),
{
    let mut buf = String::new();
    buf.append("self.");
    buf.append(t);
    buf.append(".cmp(&other.");
    buf.append(t);
    buf.append("),");
    proof {
        assert(buf@ =~= cmp_branch_text(t@));
    }
    buf
}

pub open spec fn clone_branch_text(t: Seq<char>) -> Seq<char> {
    "Self {\n                    "@
        + t
        + ": self."@
        + t
        + ".clone(),\n                },"@
}

pub(crate) fn clone_branch_str(t: &str) -> (r: String)
    ensures
        r@ == clone_branch_text(t@),
{
    let mut buf = String::new();
    buf.append("Self {\n                    ");
    buf.append(t);
    buf.append(": self.");
    buf.append(t);
    buf.append(".clone(),\n                },");
    proof {
        assert(buf@ =~= clone_branch_text(t@));
    }
    buf
}

pub open spec fn clone_unit_branch_text(n: Seq<char>) -> Seq<char> {
    "core::mem::transmute::<\n                    core::mem::MaybeUninit<"@
        + n
        + ">,\n                    "@
        + n
        + ",\n                >(core::mem::MaybeUninit::uninit()),"@
}

pub(crate) fn clone_unit_branch_str(n: &str) -> (r: String)
    ensures
        r@ == clone_unit_branch_text(n@),
{
    let mut buf = String::new();
    buf.append("core::mem::transmute::<\n                    core::mem::MaybeUninit<");
    buf.append(n);
    buf.append(">,\n                    ");
    buf.append(n);
    buf.append(",\n                >(core::mem::MaybeUninit::uninit()),");
    proof {
        assert(buf@ =~= clone_unit_branch_text(n@));
    }
    buf
}

pub open spec fn hash_branch_text(d: Seq<char>, t: Seq<char>) -> Seq<char> {
    "unsafe {\n                    "@
        + d
        + "::"@
        + t
        + ".hash(state);\n                    self."@
        + t
        + ".hash(state);\n                },"@
}

pub(crate) fn hash_branch_str(d: &str, t: &str) -> (r: String)
    ensures
        r@ == hash_branch_text(d@, t@),
{
    let mut buf = String::new();
    buf.append("unsafe {\n                    ");
    buf.append(d);
    buf.append("::");
    buf.append(t);
    buf.append(".hash(state);\n                    self.");
    buf.append(t);
    buf.append(".hash(state);\n                },");
    proof {
        assert(buf@ =~= hash_branch_text(d@, t@));
    }
    buf
}

pub open spec fn hash_unit_branch_text(d: Seq<char>, t: Seq<char>) -> Seq<char> {
    d
        + "::"@
        + t
        + ".hash(state),"@
}

pub(crate) fn hash_unit_branch_str(d: &str, t: &str) -> (r: String)
    ensures
        r@ == hash_unit_branch_text(d@, t@),
{
    let mut buf = String::new();
    buf.append(d);
    buf.append("::");
    buf.append(t);
    buf.append(".hash(state),");
    proof {
        assert(buf@ =~= hash_unit_branch_text(d@, t@));
    }
    buf
}

pub open spec fn debug_branch_text(t: Seq<char>, deref: Seq<char>) -> Seq<char> {
    "f.debug_tuple(\""@
        + t
        + "\").field("@
        + deref
        + "self."@
        + t
        + ").finish(),"@
}

pub(crate) fn debug_branch_str(t: &str, deref: &str) -> (r: String)
    ensures
        r@ == debug_branch_text(t@, deref@),
{
    let mut buf = String::new();
    buf.append("f.debug_tuple(\"");
    buf.append(t);
    buf.append("\").field(");
    buf.append(deref);
    buf.append("self.");
    buf.append(t);
    buf.append(").finish(),");
    proof {
        assert(buf@ =~= debug_branch_text(t@, deref@));
    }
    buf
}

pub open spec fn debug_unit_branch_text(t: Seq<char>) -> Seq<char> {
    "f.write_str(\""@
        + t
        + "\"),"@
}

pub(crate) fn debug_unit_branch_str(t: &str) -> (r: String)
    ensures
        r@ == debug_unit_branch_text(t@),
{
    let mut buf = String::new();
    buf.append("f.write_str(\"");
    buf.append(t);
    buf.append("\"),");
    proof {
        assert(buf@ =~= debug_unit_branch_text(t@));
    }
    buf
}

pub open spec fn arm_text(d: Seq<char>, t: Seq<char>, branch: Seq<char>) -> Seq<char> {
    d
        + "::"@
        + t
        + " => "@
        + branch
        + "\n"@
}

pub(crate) fn arm_str(d: &str, t: &str, branch: &str) -> (r: String)
    ensures
        r@ == arm_text(d@, t@, branch@),
{
    let mut buf = String::new();
    buf.append(d);
    buf.append("::");
    buf.append(t);
    buf.append(" => ");
    buf.append(branch);
    buf.append("\n");
    proof {
        assert(buf@ =~= arm_text(d@, t@, branch@));
    }
    buf
}

pub open spec fn manually_drop_new_text(inner: Seq<char>) -> Seq<char> {
    "core::mem::ManuallyDrop::new("@
        + inner
        + ")"@
}

pub(crate) fn manually_drop_new_str(inner: &str) -> (r: String)
    ensures
        r@ == manually_drop_new_text(inner@),
{
    let mut buf = String::new();
    buf.append("core::mem::ManuallyDrop::new(");
    buf.append(inner);
    buf.append(")");
    proof {
        assert(buf@ =~= manually_drop_new_text(inner@));
    }
    buf
}

pub open spec fn manually_drop_type_text(inner: Seq<char>) -> Seq<char> {
    "core::mem::ManuallyDrop<"@
        + inner
        + ">"@
}

pub(crate) fn manually_drop_type_str(inner: &str) -> (r: String)
    ensures
        r@ == manually_drop_type_text(inner@),
{
    let mut buf = String::new();
    buf.append("core::mem::ManuallyDrop<");
    buf.append(inner);
    buf.append(">");
    proof {
        assert(buf@ =~= manually_drop_type_text(inner@));
    }
    buf
}

pub open spec fn take_field_text(t: Seq<char>) -> Seq<char> {
    "core::mem::ManuallyDrop::take(&mut self."@
        + t
        + ")"@
}

pub(crate) fn take_field_str(t: &str) -> (r: String)
    ensures
        r@ == take_field_text(t@),
{
    let mut buf = String::new();
    buf.append("core::mem::ManuallyDrop::take(&mut self.");
    buf.append(t);
    buf.append(")");
    proof {
        assert(buf@ =~= take_field_text(t@));
    }
    buf
}

pub open spec fn self_field_text(t: Seq<char>) -> Seq<char> {
    "self."@
        + t
}

pub(crate) fn self_field_str(t: &str) -> (r: String)
    ensures
        r@ == self_field_text(t@),
{
    let mut buf = String::new();
    buf.append("self.");
    buf.append(t);
    proof {
        assert(buf@ =~= self_field_text(t@));
    }
    buf
}

pub open spec fn wrap_call_text(w: Seq<char>) -> Seq<char> {
    w
        + "(payload)"@
}

pub(crate) fn wrap_call_str(w: &str) -> (r: String)
    ensures
        r@ == wrap_call_text(w@),
{
    let mut buf = String::new();
    buf.append(w);
    buf.append("(payload)");
    proof {
        assert(buf@ =~= wrap_call_text(w@));
    }
    buf
}

pub open spec fn single_arg_text(ty: Seq<char>) -> Seq<char> {
    "arg: "@
        + ty
}

pub(crate) fn single_arg_str(ty: &str) -> (r: String)
    ensures
        r@ == single_arg_text(ty@),
{
    let mut buf = String::new();
    buf.append("arg: ");
    buf.append(ty);
    proof {
        assert(buf@ =~= single_arg_text(ty@));
    }
    buf
}

pub open spec fn reference_text(ty: Seq<char>) -> Seq<char> {
    "&"@
        + ty
}

pub(crate) fn reference_str(ty: &str) -> (r: String)
    ensures
        r@ == reference_text(ty@),
{
    let mut buf = String::new();
    buf.append("&");
    buf.append(ty);
    proof {
        assert(buf@ =~= reference_text(ty@));
    }
    buf
}

pub open spec fn union_field_line_text(t: Seq<char>, ty: Seq<char>) -> Seq<char> {
    indents(1)
        + t
        + ": "@
        + ty
        + ",\n"@
}

pub(crate) fn union_field_line_str(t: &str, ty: &str) -> (r: String)
    ensures
        r@ == union_field_line_text(t@, ty@),
{
    let mut buf = String::new();
    write_indents(1, &mut buf);
    buf.append(t);
    buf.append(": ");
    buf.append(ty);
    buf.append(",\n");
    proof {
        assert(buf@ =~= union_field_line_text(t@, ty@));
    }
    buf
}

pub open spec fn record_literal_text(p: Seq<char>, assigns: Seq<char>) -> Seq<char> {
    p
        + " {\n"@
        + assigns
        + "\n"@
        + indents(2)
        + "}"@
}

pub(crate) fn record_literal_str(p: &str, assigns: &str) -> (r: String)
    ensures
        r@ == record_literal_text(p@, assigns@),
{
    let mut buf = String::new();
    buf.append(p);
    buf.append(" {\n");
    buf.append(assigns);
    buf.append("\n");
    write_indents(2, &mut buf);
    buf.append("}");
    proof {
        assert(buf@ =~= record_literal_text(p@, assigns@));
    }
    buf
}

pub open spec fn parenthesized_text(items: Seq<char>) -> Seq<char> {
    "("@
        + items
        + ")"@
}

pub(crate) fn parenthesized_str(items: &str) -> (r: String)
    ensures
        r@ == parenthesized_text(items@),
{
    let mut buf = String::new();
    buf.append("(");
    buf.append(items);
    buf.append(")");
    proof {
        assert(buf@ =~= parenthesized_text(items@));
    }
    buf
}

pub open spec fn tuple_lines_text(items: Seq<char>) -> Seq<char> {
    "("@
        + items
        + "\n"@
        + indents(2)
        + ")"@
}

pub(crate) fn tuple_lines_str(items: &str) -> (r: String)
    ensures
        r@ == tuple_lines_text(items@),
{
    let mut buf = String::new();
    buf.append("(");
    buf.append(items);
    buf.append("\n");
    write_indents(2, &mut buf);
    buf.append(")");
    proof {
        assert(buf@ =~= tuple_lines_text(items@));
    }
    buf
}

pub open spec fn arg_decl_text(k: Seq<char>, ty: Seq<char>) -> Seq<char> {
    "arg"@
        + k
        + ": "@
        + ty
}

pub(crate) fn arg_decl_str(k: &str, ty: &str) -> (r: String)
    ensures
        r@ == arg_decl_text(k@, ty@),
{
    let mut buf = String::new();
    buf.append("arg");
    buf.append(k);
    buf.append(": ");
    buf.append(ty);
    proof {
        assert(buf@ =~= arg_decl_text(k@, ty@));
    }
    buf
}

pub open spec fn assign_line_text(label: Seq<char>, k: Seq<char>) -> Seq<char> {
    indents(3)
        + label
        + ": arg"@
        + k
        + ","@
}

pub(crate) fn assign_line_str(label: &str, k: &str) -> (r: String)
    ensures
        r@ == assign_line_text(label@, k@),
{
    let mut buf = String::new();
    write_indents(3, &mut buf);
    buf.append(label);
    buf.append(": arg");
    buf.append(k);
    buf.append(",");
    proof {
        assert(buf@ =~= assign_line_text(label@, k@));
    }
    buf
}

pub open spec fn value_line_text(v: Seq<char>) -> Seq<char> {
    "\n"@
        + indents(3)
        + v
}

pub(crate) fn value_line_str(v: &str) -> (r: String)
    ensures
        r@ == value_line_text(v@),
{
    let mut buf = String::new();
    buf.append("\n");
    write_indents(3, &mut buf);
    buf.append(v);
    proof {
        assert(buf@ =~= value_line_text(v@));
    }
    buf
}

pub open spec fn ref_value_line_text(v: Seq<char>) -> Seq<char> {
    "\n"@
        + indents(3)
        + "&"@
        + v
}

pub(crate) fn ref_value_line_str(v: &str) -> (r: String)
    ensures
        r@ == ref_value_line_text(v@),
{
    let mut buf = String::new();
    buf.append("\n");
    write_indents(3, &mut buf);
    buf.append("&");
    buf.append(v);
    proof {
        assert(buf@ =~= ref_value_line_text(v@));
    }
    buf
}

pub open spec fn field_access_text(label: Seq<char>) -> Seq<char> {
    "payload."@
        + label
}

pub(crate) fn field_access_str(label: &str) -> (r: String)
    ensures
        r@ == field_access_text(label@),
{
    let mut buf = String::new();
    buf.append("payload.");
    buf.append(label);
    proof {
        assert(buf@ =~= field_access_text(label@));
    }
    buf
}

pub open spec fn untagged_value_text(label: Seq<char>, mask: Seq<char>, ty: Seq<char>) -> Seq<char> {
    "*((payload."@
        + label
        + " as usize & !"@
        + mask
        + ") as *mut "@
        + ty
        + ")"@
}

pub(crate) fn untagged_value_str(label: &str, mask: &str, ty: &str) -> (r: String)
    ensures
        r@ == untagged_value_text(label@, mask@, ty@),
{
    let mut buf = String::new();
    buf.append("*((payload.");
    buf.append(label);
    buf.append(" as usize & !");
    buf.append(mask);
    buf.append(") as *mut ");
    buf.append(ty);
    buf.append(")");
    proof {
        assert(buf@ =~= untagged_value_text(label@, mask@, ty@));
    }
    buf
}

pub open spec fn carrier_path_text(t: Seq<char>, label: Seq<char>) -> Seq<char> {
    t
        + "."@
        + label
}

pub(crate) fn carrier_path_str(t: &str, label: &str) -> (r: String)
    ensures
        r@ == carrier_path_text(t@, label@),
{
    let mut buf = String::new();
    buf.append(t);
    buf.append(".");
    buf.append(label);
    proof {
        assert(buf@ =~= carrier_path_text(t@, label@));
    }
    buf
}

pub open spec fn impl_scope_text(prefix: Seq<char>, n: Seq<char>) -> Seq<char> {
    prefix
        + "impl "@
        + n
}

pub(crate) fn impl_scope_str(prefix: &str, n: &str) -> (r: String)
    ensures
        r@ == impl_scope_text(prefix@, n@),
{
    let mut buf = String::new();
    buf.append(prefix);
    buf.append("impl ");
    buf.append(n);
    proof {
        assert(buf@ =~= impl_scope_text(prefix@, n@));
    }
    buf
}

pub open spec fn trait_scope_text(prefix: Seq<char>, tr: Seq<char>, n: Seq<char>) -> Seq<char> {
    prefix
        + "impl "@
        + tr
        + " for "@
        + n
}

pub(crate) fn trait_scope_str(prefix: &str, tr: &str, n: &str) -> (r: String)
    ensures
        r@ == trait_scope_text(prefix@, tr@, n@),
{
    let mut buf = String::new();
    buf.append(prefix);
    buf.append("impl ");
    buf.append(tr);
    buf.append(" for ");
    buf.append(n);
    proof {
        assert(buf@ =~= trait_scope_text(prefix@, tr@, n@));
    }
    buf
}

pub open spec fn marker_impl_text(tr: Seq<char>, n: Seq<char>) -> Seq<char> {
    "impl "@
        + tr
        + " for "@
        + n
        + " {}\n\n"@
}

pub(crate) fn marker_impl_str(tr: &str, n: &str) -> (r: String)
    ensures
        r@ == marker_impl_text(tr@, n@),
{
    let mut buf = String::new();
    buf.append("impl ");
    buf.append(tr);
    buf.append(" for ");
    buf.append(n);
    buf.append(" {}\n\n");
    proof {
        assert(buf@ =~= marker_impl_text(tr@, n@));
    }
    buf
}

pub open spec fn nu_struct_text(extras: Seq<char>, n: Seq<char>, p: Seq<char>) -> Seq<char> {
    "#[repr(C)]\n#[derive(PartialEq, PartialOrd"@
        + extras
        + ")]\npub struct "@
        + n
        + " {\n    pointer: *mut core::mem::ManuallyDrop<"@
        + p
        + ">,\n}"@
}

pub(crate) fn nu_struct_str(extras: &str, n: &str, p: &str) -> (r: String)
    ensures
        r@ == nu_struct_text(extras@, n@, p@),
{
    let mut buf = String::new();
    buf.append("#[repr(C)]\n#[derive(PartialEq, PartialOrd");
    buf.append(extras);
    buf.append(")]\npub struct ");
    buf.append(n);
    buf.append(" {\n    pointer: *mut core::mem::ManuallyDrop<");
    buf.append(p);
    buf.append(">,\n}");
    proof {
        assert(buf@ =~= nu_struct_text(extras@, n@, p@));
    }
    buf
}

pub open spec fn nu_storage_text() -> Seq<char> {
    "#[inline(always)]\n    fn storage(&self) -> Option<&core::cell::Cell<roc_std::Storage>> {\n        if self.pointer.is_null() {\n            None\n        } else {\n            unsafe {\n                Some(&*self.pointer.cast::<core::cell::Cell<roc_std::Storage>>().sub(1))\n            }\n        }\n    }"@
}

pub(crate) fn nu_storage_str() -> (r: String)
    ensures
        r@ == nu_storage_text(),
{
    let mut buf = String::new();
    buf.append("#[inline(always)]\n    fn storage(&self) -> Option<&core::cell::Cell<roc_std::Storage>> {\n        if self.pointer.is_null() {\n            None\n        } else {\n            unsafe {\n                Some(&*self.pointer.cast::<core::cell::Cell<roc_std::Storage>>().sub(1))\n            }\n        }\n    }");
    proof {
        assert(buf@ =~= nu_storage_text());
    }
    buf
}

pub open spec fn nu_variant_text(d: Seq<char>, null: Seq<char>, nonnull: Seq<char>) -> Seq<char> {
    "/// Returns which variant this tag union holds. Note that this never includes a payload!\n    pub fn variant(&self) -> "@
        + d
        + " {\n        if self.pointer.is_null() {\n            "@
        + d
        + "::"@
        + null
        + "\n        } else {\n            "@
        + d
        + "::"@
        + nonnull
        + "\n        }\n    }"@
}

pub(crate) fn nu_variant_str(d: &str, null: &str, nonnull: &str) -> (r: String)
    ensures
        r@ == nu_variant_text(d@, null@, nonnull@),
{
    let mut buf = String::new();
    buf.append("/// Returns which variant this tag union holds. Note that this never includes a payload!\n    pub fn variant(&self) -> ");
    buf.append(d);
    buf.append(" {\n        if self.pointer.is_null() {\n            ");
    buf.append(d);
    buf.append("::");
    buf.append(null);
    buf.append("\n        } else {\n            ");
    buf.append(d);
    buf.append("::");
    buf.append(nonnull);
    buf.append("\n        }\n    }");
    proof {
        assert(buf@ =~= nu_variant_text(d@, null@, nonnull@));
    }
    buf
}

pub open spec fn nu_constructor_text(nonnull: Seq<char>, p: Seq<char>) -> Seq<char> {
    "/// Construct a tag named "@
        + nonnull
        + ", with the appropriate payload\n    pub fn "@
        + nonnull
        + "(payload: "@
        + p
        + ") -> Self {\n        let alignment = core::mem::align_of::<Self>().max(core::mem::align_of::<roc_std::Storage>());\n        let size = alignment + core::mem::size_of::<"@
        + p
        + ">();\n\n        unsafe {\n            // Store the payload at `alignment` bytes after the allocation,\n            // to leave room for the refcount.\n            let alloc_ptr = crate::roc_alloc(size, alignment as u32);\n            let payload_ptr = alloc_ptr.cast::<u8>().add(alignment).cast::<core::mem::ManuallyDrop<"@
        + p
        + ">>();\n\n            *payload_ptr = core::mem::ManuallyDrop::new(payload);\n\n            // The reference count is stored immediately before the payload.\n            let storage_ptr = payload_ptr.cast::<roc_std::Storage>().sub(1);\n            storage_ptr.write(roc_std::Storage::new_reference_counted());\n\n            Self { pointer: payload_ptr }\n        }\n    }"@
}

pub(crate) fn nu_constructor_str(nonnull: &str, p: &str) -> (r: String)
    ensures
        r@ == nu_constructor_text(nonnull@, p@),
{
    let mut buf = String::new();
    buf.append("/// Construct a tag named ");
    buf.append(nonnull);
    buf.append(", with the appropriate payload\n    pub fn ");
    buf.append(nonnull);
    buf.append("(payload: ");
    buf.append(p);
    buf.append(") -> Self {\n        let alignment = core::mem::align_of::<Self>().max(core::mem::align_of::<roc_std::Storage>());\n        let size = alignment + core::mem::size_of::<");
    buf.append(p);
    buf.append(">();\n\n        unsafe {\n            // Store the payload at `alignment` bytes after the allocation,\n            // to leave room for the refcount.\n            let alloc_ptr = crate::roc_alloc(size, alignment as u32);\n            let payload_ptr = alloc_ptr.cast::<u8>().add(alignment).cast::<core::mem::ManuallyDrop<");
    buf.append(p);
    buf.append(">>();\n\n            *payload_ptr = core::mem::ManuallyDrop::new(payload);\n\n            // The reference count is stored immediately before the payload.\n            let storage_ptr = payload_ptr.cast::<roc_std::Storage>().sub(1);\n            storage_ptr.write(roc_std::Storage::new_reference_counted());\n\n            Self { pointer: payload_ptr }\n        }\n    }");
    proof {
        assert(buf@ =~= nu_constructor_text(nonnull@, p@));
    }
    buf
}

pub open spec fn nu_into_text(n: Seq<char>, nonnull: Seq<char>, p: Seq<char>, d: Seq<char>, take: Seq<char>) -> Seq<char> {
    "/// Unsafely assume the given "@
        + n
        + " has a .variant() of "@
        + nonnull
        + " and convert it to "@
        + nonnull
        + "'s payload.\n    /// (Always examine .variant() first to make sure this is the correct variant!)\n    /// Panics in debug builds if the .variant() doesn't return "@
        + nonnull
        + ".\n    pub unsafe fn into_"@
        + nonnull
        + "(self) -> "@
        + p
        + " {\n        debug_assert_eq!(self.variant(), "@
        + d
        + "::"@
        + nonnull
        + ");\n\n        let payload = "@
        + take
        + ";\n\n        // Release this reference by hand: the payload has been moved out,\n        // so `Drop` must not run on it again.\n        if let Some(storage) = self.storage() {\n            let mut new_storage = storage.get();\n\n            if !new_storage.is_readonly() {\n                if new_storage.decrease() {\n                    let alignment = core::mem::align_of::<Self>().max(core::mem::align_of::<roc_std::Storage>());\n                    let alloc_ptr = self.pointer.cast::<u8>().sub(alignment);\n\n                    crate::roc_dealloc(\n                        alloc_ptr as *mut core::ffi::c_void,\n                        alignment as u32,\n                    );\n                } else {\n                    storage.set(new_storage);\n                }\n            }\n        }\n\n        core::mem::forget(self);\n\n        payload\n    }"@
}

pub(crate) fn nu_into_str(n: &str, nonnull: &str, p: &str, d: &str, take: &str) -> (r: String)
    ensures
        r@ == nu_into_text(n@, nonnull@, p@, d@, take@),
{
    let mut buf = String::new();
    buf.append("/// Unsafely assume the given ");
    buf.append(n);
    buf.append(" has a .variant() of ");
    buf.append(nonnull);
    buf.append(" and convert it to ");
    buf.append(nonnull);
    buf.append("'s payload.\n    /// (Always examine .variant() first to make sure this is the correct variant!)\n    /// Panics in debug builds if the .variant() doesn't return ");
    buf.append(nonnull);
    buf.append(".\n    pub unsafe fn into_");
    buf.append(nonnull);
    buf.append("(self) -> ");
    buf.append(p);
    buf.append(" {\n        debug_assert_eq!(self.variant(), ");
    buf.append(d);
    buf.append("::");
    buf.append(nonnull);
    buf.append(");\n\n        let payload = ");
    buf.append(take);
    buf.append(";\n\n        // Release this reference by hand: the payload has been moved out,\n        // so `Drop` must not run on it again.\n        if let Some(storage) = self.storage() {\n            let mut new_storage = storage.get();\n\n            if !new_storage.is_readonly() {\n                if new_storage.decrease() {\n                    let alignment = core::mem::align_of::<Self>().max(core::mem::align_of::<roc_std::Storage>());\n                    let alloc_ptr = self.pointer.cast::<u8>().sub(alignment);\n\n                    crate::roc_dealloc(\n                        alloc_ptr as *mut core::ffi::c_void,\n                        alignment as u32,\n                    );\n                } else {\n                    storage.set(new_storage);\n                }\n            }\n        }\n\n        core::mem::forget(self);\n\n        payload\n    }");
    proof {
        assert(buf@ =~= nu_into_text(n@, nonnull@, p@, d@, take@));
    }
    buf
}

pub open spec fn nu_as_text(n: Seq<char>, nonnull: Seq<char>, p: Seq<char>, d: Seq<char>) -> Seq<char> {
    "/// Unsafely assume the given "@
        + n
        + " has a .variant() of "@
        + nonnull
        + " and return its payload.\n    /// (Always examine .variant() first to make sure this is the correct variant!)\n    /// Panics in debug builds if the .variant() doesn't return "@
        + nonnull
        + ".\n    pub unsafe fn as_"@
        + nonnull
        + "(&self) -> &"@
        + p
        + " {\n        debug_assert_eq!(self.variant(), "@
        + d
        + "::"@
        + nonnull
        + ");\n        &*self.pointer\n    }"@
}

pub(crate) fn nu_as_str(n: &str, nonnull: &str, p: &str, d: &str) -> (r: String)
    ensures
        r@ == nu_as_text(n@, nonnull@, p@, d@),
{
    let mut buf = String::new();
    buf.append("/// Unsafely assume the given ");
    buf.append(n);
    buf.append(" has a .variant() of ");
    buf.append(nonnull);
    buf.append(" and return its payload.\n    /// (Always examine .variant() first to make sure this is the correct variant!)\n    /// Panics in debug builds if the .variant() doesn't return ");
    buf.append(nonnull);
    buf.append(".\n    pub unsafe fn as_");
    buf.append(nonnull);
    buf.append("(&self) -> &");
    buf.append(p);
    buf.append(" {\n        debug_assert_eq!(self.variant(), ");
    buf.append(d);
    buf.append("::");
    buf.append(nonnull);
    buf.append(");\n        &*self.pointer\n    }");
    proof {
        assert(buf@ =~= nu_as_text(n@, nonnull@, p@, d@));
    }
    buf
}

pub open spec fn nu_null_constant_text(null: Seq<char>) -> Seq<char> {
    "/// A tag named "@
        + null
        + ", which has no payload.\n    pub const "@
        + null
        + ": Self = Self {\n        pointer: core::ptr::null_mut(),\n    };"@
}

pub(crate) fn nu_null_constant_str(null: &str) -> (r: String)
    ensures
        r@ == nu_null_constant_text(null@),
{
    let mut buf = String::new();
    buf.append("/// A tag named ");
    buf.append(null);
    buf.append(", which has no payload.\n    pub const ");
    buf.append(null);
    buf.append(": Self = Self {\n        pointer: core::ptr::null_mut(),\n    };");
    proof {
        assert(buf@ =~= nu_null_constant_text(null@));
    }
    buf
}

pub open spec fn nu_clone_text() -> Seq<char> {
    "fn clone(&self) -> Self {\n        if let Some(storage) = self.storage() {\n            let mut new_storage = storage.get();\n            if !new_storage.is_readonly() {\n                new_storage.increment_reference_count();\n                storage.set(new_storage);\n            }\n        }\n\n        Self {\n            pointer: self.pointer\n        }\n    }"@
}

pub(crate) fn nu_clone_str() -> (r: String)
    ensures
        r@ == nu_clone_text(),
{
    let mut buf = String::new();
    buf.append("fn clone(&self) -> Self {\n        if let Some(storage) = self.storage() {\n            let mut new_storage = storage.get();\n            if !new_storage.is_readonly() {\n                new_storage.increment_reference_count();\n                storage.set(new_storage);\n            }\n        }\n\n        Self {\n            pointer: self.pointer\n        }\n    }");
    proof {
        assert(buf@ =~= nu_clone_text());
    }
    buf
}

pub open spec fn nu_drop_text(p: Seq<char>) -> Seq<char> {
    "fn drop(&mut self) {\n        if let Some(storage) = self.storage() {\n            // Decrement the refcount and return early if no dealloc is needed\n            {\n                let mut new_storage = storage.get();\n\n                if new_storage.is_readonly() {\n                    return;\n                }\n\n                let needs_dealloc = new_storage.decrease();\n\n                if !needs_dealloc {\n                    // Write the storage back.\n                    storage.set(new_storage);\n\n                    return;\n                }\n            }\n\n            if !self.pointer.is_null() {\n                // If there is a payload, drop it first.\n                let payload = unsafe { core::mem::ManuallyDrop::take(&mut *self.pointer) };\n\n                core::mem::drop::<"@
        + p
        + ">(payload);\n            }\n\n            // Dealloc the pointer\n            unsafe {\n                let alignment = core::mem::align_of::<Self>().max(core::mem::align_of::<roc_std::Storage>());\n                let alloc_ptr = self.pointer.cast::<u8>().sub(alignment);\n\n                crate::roc_dealloc(\n                    alloc_ptr as *mut core::ffi::c_void,\n                    alignment as u32,\n                );\n            }\n        }\n    }"@
}

pub(crate) fn nu_drop_str(p: &str) -> (r: String)
    ensures
        r@ == nu_drop_text(p@),
{
    let mut buf = String::new();
    buf.append("fn drop(&mut self) {\n        if let Some(storage) = self.storage() {\n            // Decrement the refcount and return early if no dealloc is needed\n            {\n                let mut new_storage = storage.get();\n\n                if new_storage.is_readonly() {\n                    return;\n                }\n\n                let needs_dealloc = new_storage.decrease();\n\n                if !needs_dealloc {\n                    // Write the storage back.\n                    storage.set(new_storage);\n\n                    return;\n                }\n            }\n\n            if !self.pointer.is_null() {\n                // If there is a payload, drop it first.\n                let payload = unsafe { core::mem::ManuallyDrop::take(&mut *self.pointer) };\n\n                core::mem::drop::<");
    buf.append(p);
    buf.append(">(payload);\n            }\n\n            // Dealloc the pointer\n            unsafe {\n                let alignment = core::mem::align_of::<Self>().max(core::mem::align_of::<roc_std::Storage>());\n                let alloc_ptr = self.pointer.cast::<u8>().sub(alignment);\n\n                crate::roc_dealloc(\n                    alloc_ptr as *mut core::ffi::c_void,\n                    alignment as u32,\n                );\n            }\n        }\n    }");
    proof {
        assert(buf@ =~= nu_drop_text(p@));
    }
    buf
}

pub open spec fn nu_debug_text(n: Seq<char>, null: Seq<char>, nonnull: Seq<char>, deref: Seq<char>) -> Seq<char> {
    "fn fmt(&self, f: &mut core::fmt::Formatter<'_>) -> core::fmt::Result {\n        if self.pointer.is_null() {\n            f.write_str(\""@
        + n
        + "::"@
        + null
        + "\")\n        } else {\n            f.write_str(\""@
        + n
        + "::\")?;\n\n            unsafe { f.debug_tuple(\""@
        + nonnull
        + "\").field(&*"@
        + deref
        + "self.pointer).finish() }\n        }\n    }"@
}

pub(crate) fn nu_debug_str(n: &str, null: &str, nonnull: &str, deref: &str) -> (r: String)
    ensures
        r@ == nu_debug_text(n@, null@, nonnull@, deref@),
{
    let mut buf = String::new();
    buf.append("fn fmt(&self, f: &mut core::fmt::Formatter<'_>) -> core::fmt::Result {\n        if self.pointer.is_null() {\n            f.write_str(\"");
    buf.append(n);
    buf.append("::");
    buf.append(null);
    buf.append("\")\n        } else {\n            f.write_str(\"");
    buf.append(n);
    buf.append("::\")?;\n\n            unsafe { f.debug_tuple(\"");
    buf.append(nonnull);
    buf.append("\").field(&*");
    buf.append(deref);
    buf.append("self.pointer).finish() }\n        }\n    }");
    proof {
        assert(buf@ =~= nu_debug_text(n@, null@, nonnull@, deref@));
    }
    buf
}

pub open spec fn nu_take_text() -> Seq<char> {
    "core::mem::ManuallyDrop::take(&mut *self.pointer)"@
}

pub(crate) fn nu_take_str() -> (r: String)
    ensures
        r@ == nu_take_text(),
{
    let mut buf = String::new();
    buf.append("core::mem::ManuallyDrop::take(&mut *self.pointer)");
    proof {
        assert(buf@ =~= nu_take_text());
    }
    buf
}

pub open spec fn nu_copy_out_text() -> Seq<char> {
    "**self.pointer"@
}

pub(crate) fn nu_copy_out_str() -> (r: String)
    ensures
        r@ == nu_copy_out_text(),
{
    let mut buf = String::new();
    buf.append("**self.pointer");
    proof {
        assert(buf@ =~= nu_copy_out_text());
    }
    buf
}

} // verus!
