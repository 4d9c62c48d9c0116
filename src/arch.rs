use vstd::prelude::*;

verus! {

/// A CPU architecture that bindings can be generated for.
#[derive(Clone, Copy, Debug, PartialEq, Eq, Structural, Hash)]
pub enum Architecture {
    X86_64,
    X86_32,
    Aarch64,
    Aarch32,
    Wasm32,
}

/// Pointer width in bytes.
pub open spec fn ptr_bytes(a: Architecture) -> nat {
    match a {
        Architecture::X86_64 | Architecture::Aarch64 => 8,
        _ => 4,
    }
}

/// The name that `target_arch` uses for an architecture.
pub open spec fn arch_name(a: Architecture) -> Seq<char> {
    match a {
        Architecture::X86_64 => "x86_64"@,
        Architecture::X86_32 => "x86"@,
        Architecture::Aarch64 => "aarch64"@,
        Architecture::Aarch32 => "arm"@,
        Architecture::Wasm32 => "wasm32"@,
    }
}

pub fn arch_to_str(architecture: &Architecture) -> (r: &'static str)
    ensures
        r@ == arch_name(*architecture),
{
    match architecture {
        Architecture::X86_64 => "x86_64",
        Architecture::X86_32 => "x86",
        Architecture::Aarch64 => "aarch64",
        Architecture::Aarch32 => "arm",
        Architecture::Wasm32 => "wasm32",
    }
}

/// How many variants fit in the spare low bits of an aligned pointer.
pub open spec fn max_tagged(a: Architecture) -> nat {
    if ptr_bytes(a) == 8 { 8 } else { 4 }
}

/// The mask that selects the spare low bits of an aligned pointer.
pub open spec fn tag_mask(a: Architecture) -> u8 {
    if ptr_bytes(a) == 8 { 7 } else { 3 }
}

pub fn max_pointer_tagged_variants(architecture: Architecture) -> (r: usize)
    ensures
        r == max_tagged(architecture),
{
    match architecture {
        Architecture::X86_64 | Architecture::Aarch64 => 8,
        Architecture::X86_32 | Architecture::Aarch32 | Architecture::Wasm32 => 4,
    }
}

pub fn tagged_pointer_bitmask(architecture: Architecture) -> (r: u8)
    ensures
        r == tag_mask(architecture),
        r as nat + 1 == max_tagged(architecture),
{
    match architecture {
        Architecture::X86_64 | Architecture::Aarch64 => 7,
        Architecture::X86_32 | Architecture::Aarch32 | Architecture::Wasm32 => 3,
    }
}

/// The bitmask written as a binary literal of the host language.
pub open spec fn mask_literal(a: Architecture) -> Seq<char> {
    if ptr_bytes(a) == 8 { "0b111"@ } else { "0b11"@ }
}

pub fn bitmask_literal(architecture: Architecture) -> (r: &'static str)
    ensures
        r@ == mask_literal(architecture),
{
    match architecture {
        Architecture::X86_64 | Architecture::Aarch64 => "0b111",
        Architecture::X86_32 | Architecture::Aarch32 | Architecture::Wasm32 => "0b11",
    }
}

/// The width in bytes of the integer that holds a discriminant of `n` tags:
/// one byte up to 256 tags, then the next power of two.
pub open spec fn discriminant_bytes(n: nat) -> nat {
    if n <= 0x100 {
        1
    } else if n <= 0x1_0000 {
        2
    } else if n <= 0x1_0000_0000 {
        4
    } else {
        8
    }
}

pub fn discriminant_size(tag_count: usize) -> (r: usize)
    ensures
        r == discriminant_bytes(tag_count as nat),
{
    if tag_count <= 0x100 {
        1
    } else if tag_count <= 0x1_0000 {
        2
    } else if (tag_count as u64) <= 0x1_0000_0000u64 {
        4
    } else {
        8
    }
}

} // verus!
