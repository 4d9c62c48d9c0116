use roc_bindgen::arch::Architecture;
use roc_bindgen::driver::{emit, BindgenError};
use roc_bindgen::types::{Field, RocTagUnion, RocType, TypeId, Types};

fn s(x: &str) -> String {
    x.to_string()
}

fn color_types() -> Types {
    Types {
        types: vec![RocType::TagUnion(RocTagUnion::Enumeration {
            name: s("Color"),
            tags: vec![s("Red"), s("Green"), s("Blue")],
        })],
    }
}

const COLOR_ENUM: &str = "#[derive(Clone, Copy, Eq, Ord, Hash, PartialEq, PartialOrd)]
#[repr(u8)]
pub enum Color {
    Red = 0,
    Green = 1,
    Blue = 2,
}";

const COLOR_DEBUG: &str = "impl core::fmt::Debug for Color {
    fn fmt(&self, f: &mut core::fmt::Formatter<'_>) -> core::fmt::Result {
        match self {
            Self::Red => f.write_str(\"Color::Red\"),
            Self::Green => f.write_str(\"Color::Green\"),
            Self::Blue => f.write_str(\"Color::Blue\"),
        }
    }
}";

#[test]
fn enumeration_three_tags_single_arch() {
    let out = emit(&[(Architecture::X86_64, color_types())]).unwrap();
    let gate = "\n#[cfg(target_arch = \"x86_64\")]\n";
    let expected = format!("{gate}{}\n{gate}{}\n", COLOR_ENUM, COLOR_DEBUG);
    assert_eq!(out, expected);
    assert_eq!(out.matches("#[cfg(").count(), 2);
}

#[test]
fn identical_enum_on_two_architectures_collapses() {
    let out = emit(&[
        (Architecture::X86_64, color_types()),
        (Architecture::Aarch64, color_types()),
    ])
    .unwrap();
    let gate = "\n#[cfg(any(\n    target_arch = \"x86_64\",\n    target_arch = \"aarch64\"\n))]\n";
    let expected = format!("{gate}{}\n{gate}{}\n", COLOR_ENUM, COLOR_DEBUG);
    assert_eq!(out, expected);
    assert_eq!(out.matches("pub enum Color").count(), 1);
    assert_eq!(out.matches("impl core::fmt::Debug for Color").count(), 1);
}

#[test]
fn same_architecture_twice_is_named_once() {
    let out = emit(&[
        (Architecture::Wasm32, color_types()),
        (Architecture::Wasm32, color_types()),
    ])
    .unwrap();
    assert!(out.starts_with("\n#[cfg(target_arch = \"wasm32\")]\n"));
    assert_eq!(out.matches("target_arch").count(), 2);
    assert_eq!(out.matches("#[cfg(any(").count(), 0);
}

#[test]
fn emit_is_deterministic() {
    let a = emit(&[(Architecture::X86_64, color_types()), (Architecture::Wasm32, color_types())]);
    let b = emit(&[(Architecture::X86_64, color_types()), (Architecture::Wasm32, color_types())]);
    assert_eq!(a, b);
}

#[test]
fn empty_input_emits_nothing() {
    assert_eq!(emit(&[]).unwrap(), "");
    assert_eq!(emit(&[(Architecture::X86_64, Types { types: vec![] })]).unwrap(), "");
}

#[test]
fn one_tag_enumeration_is_unit_struct() {
    let types = Types {
        types: vec![RocType::TagUnion(RocTagUnion::Enumeration {
            name: s("Unit"),
            tags: vec![s("Only")],
        })],
    };
    let out = emit(&[(Architecture::X86_64, types)]).unwrap();
    assert_eq!(
        out,
        "\n#[cfg(target_arch = \"x86_64\")]\n#[derive(Clone, Copy, Debug, Eq, Ord, Hash, PartialEq, PartialOrd)]\nstruct Unit();\n"
    );
    assert!(!out.contains("enum"));
}

fn record_union_types() -> Types {
    Types {
        types: vec![
            RocType::I64,
            RocType::U8,
            RocType::Bool,
            RocType::Struct {
                name: s("Payload"),
                fields: vec![
                    Field::NonRecursive(s("f10"), TypeId(0)),
                    Field::NonRecursive(s("f2"), TypeId(1)),
                    Field::NonRecursive(s("f1"), TypeId(2)),
                ],
            },
            RocType::TagUnion(RocTagUnion::NonRecursive {
                name: s("U"),
                tags: vec![(s("A"), Some(TypeId(3))), (s("B"), None)],
                size: 16,
                discriminant_offset: 15,
            }),
        ],
    }
}

#[test]
fn struct_fields_declared_order_args_numeric_order() {
    let out = emit(&[(Architecture::X86_64, record_union_types())]).unwrap();
    assert!(out.contains(
        "#[repr(C)]\npub struct Payload {\n    pub f10: i64,\n    pub f2: u8,\n    pub f1: bool,\n}"
    ));
    assert!(out.contains("pub fn A(arg0: bool, arg1: u8, arg2: i64) -> Self {"));
    assert!(out.contains(
        "let payload = Payload {\n            f1: arg0,\n            f2: arg1,\n            f10: arg2,\n        };"
    ));
    assert!(out.contains("pub unsafe fn into_A(self) -> (bool, u8, i64) {"));
    assert!(out.contains("pub unsafe fn as_A(&self) -> (&bool, &u8, &i64) {"));
}

#[test]
fn non_recursive_union_layout() {
    let out = emit(&[(Architecture::X86_64, record_union_types())]).unwrap();
    assert!(out.contains("#[repr(C)]\npub union U {\n    A: Payload,\n    _sizer: [u8; 16],\n}"));
    assert!(out.contains("pub enum variant_U {\n    A = 0,\n    B = 1,\n}\n\n#[cfg(target_arch = \"x86_64\")]\nimpl core::fmt::Debug for variant_U {"));
    assert!(out.contains("core::mem::transmute::<u8, variant_U>(*bytes.as_ptr().add(15))"));
    assert!(out.contains("*(discriminant_ptr.add(15)) = discriminant as u8;"));
    assert!(out.contains("bytes[15] = variant_U::B as u8;"));
    // pointer-free and float-free: Copy, Eq, Ord and Hash are all present
    assert!(out.contains("\nimpl Copy for U {}\n\nimpl Clone for U {"));
    assert!(out.contains("\nimpl Eq for U {}\n\nimpl PartialEq for U {"));
    assert!(out.contains("\nimpl Ord for U {"));
    assert!(out.contains("\nimpl core::hash::Hash for U {"));
    assert!(out.contains("\nimpl Drop for U {"));
    assert!(out.contains("f.debug_tuple(\"A\").field(&self.A).finish(),"));
}

#[test]
fn float_payload_drops_eq_ord_hash() {
    let types = Types {
        types: vec![
            RocType::F64,
            RocType::TagUnion(RocTagUnion::NonRecursive {
                name: s("F"),
                tags: vec![(s("X"), Some(TypeId(0))), (s("Y"), None)],
                size: 16,
                discriminant_offset: 8,
            }),
        ],
    };
    let out = emit(&[(Architecture::X86_64, types)]).unwrap();
    assert!(!out.contains("impl Eq for F"));
    assert!(!out.contains("impl Ord for F"));
    assert!(!out.contains("impl core::hash::Hash for F"));
    assert!(out.contains("\nimpl PartialEq for F {"));
    assert!(out.contains("\nimpl PartialOrd for F {"));
}

#[test]
fn pointer_payload_uses_manually_drop() {
    let types = Types {
        types: vec![
            RocType::RocStr,
            RocType::TagUnion(RocTagUnion::NonRecursive {
                name: s("S"),
                tags: vec![(s("Text"), Some(TypeId(0))), (s("Empty"), None)],
                size: 24,
                discriminant_offset: 23,
            }),
        ],
    };
    let out = emit(&[(Architecture::X86_64, types)]).unwrap();
    assert!(out.contains("    Text: core::mem::ManuallyDrop<roc_std::RocStr>,\n"));
    assert!(out.contains("Text: core::mem::ManuallyDrop::new(payload)"));
    assert!(out.contains("pub unsafe fn into_Text(mut self) -> roc_std::RocStr {"));
    assert!(out.contains(
        "let payload = core::mem::ManuallyDrop::take(&mut self.Text);\n\n        // The payload has been moved out, so `Drop` must not run on it again.\n        core::mem::forget(self);"
    ));
    assert!(out.contains("unsafe { core::mem::ManuallyDrop::drop(&mut self.Text) },"));
    assert!(out.contains("f.debug_tuple(\"Text\").field(&*self.Text).finish(),"));
    assert!(!out.contains("impl Copy for S"));
}

#[test]
fn transparent_wrapper_payload_is_hidden() {
    let types = Types {
        types: vec![
            RocType::U32,
            RocType::TransparentWrapper { name: s("Id"), content: TypeId(0) },
            RocType::TagUnion(RocTagUnion::NonRecursive {
                name: s("W"),
                tags: vec![(s("Has"), Some(TypeId(1))), (s("None"), None)],
                size: 8,
                discriminant_offset: 4,
            }),
        ],
    };
    let out = emit(&[(Architecture::X86_64, types)]).unwrap();
    assert!(out.contains(
        "#[derive(Clone, Copy, Debug, Default, Eq, Ord, Hash, PartialEq, PartialOrd)]\n#[repr(transparent)]\npub struct Id(pub u32);"
    ));
    assert!(out.contains("pub fn Has(arg: u32) -> Self {"));
    assert!(out.contains("Has: Id(payload)"));
    assert!(out.contains("pub unsafe fn into_Has(self) -> u32 {"));
    assert!(out.contains("pub unsafe fn as_Has(&self) -> &u32 {"));
}

fn list_types() -> Types {
    Types {
        types: vec![
            RocType::I64,
            RocType::Struct {
                name: s("Cell"),
                fields: vec![
                    Field::NonRecursive(s("head"), TypeId(0)),
                    Field::Recursive(s("tail"), TypeId(2)),
                ],
            },
            RocType::TagUnion(RocTagUnion::NullableUnwrapped {
                name: s("List"),
                null_tag: s("Nil"),
                non_null_tag: s("Cons"),
                non_null_payload: TypeId(1),
                null_represents_first_tag: true,
            }),
        ],
    }
}

#[test]
fn nullable_unwrapped_list_cell() {
    let out = emit(&[(Architecture::X86_64, list_types())]).unwrap();
    assert!(out.contains("pub enum variant_List {\n    Cons = 0,\n    Nil = 1,\n}"));
    assert!(out.contains(
        "#[repr(C)]\n#[derive(PartialEq, PartialOrd, Eq, Ord, Hash)]\npub struct List {\n    pointer: *mut core::mem::ManuallyDrop<Cell>,\n}"
    ));
    assert!(out.contains("pub const Nil: Self = Self {\n        pointer: core::ptr::null_mut(),\n    };"));
    assert!(out.contains("pub fn Cons(payload: Cell) -> Self {"));
    assert!(out.contains("let size = alignment + core::mem::size_of::<Cell>();"));
    assert!(out.contains("storage_ptr.write(roc_std::Storage::new_reference_counted());"));
    assert!(out.contains("*payload_ptr = core::mem::ManuallyDrop::new(payload);"));
    assert!(out.contains("pub struct Cell {\n    pub head: i64,\n    pub tail: *mut List,\n}"));
    assert!(out.contains("\nimpl Clone for List {"));
    assert!(out.contains("new_storage.increment_reference_count();"));
    assert!(out.contains("\nimpl Drop for List {"));
    assert!(out.contains("f.write_str(\"List::Nil\")"));
    // into_ releases the reference by hand and never runs Drop on the moved-out payload
    assert!(out.contains("pub unsafe fn into_Cons(self) -> Cell {"));
    assert!(out.contains("core::mem::forget(self);\n\n        payload\n    }"));
}

fn tree_types(tag_count: usize) -> Types {
    let mut tags = vec![(s("Node"), Some(TypeId(1)))];
    for k in 1..tag_count {
        tags.push((format!("Leaf{}", k), None));
    }
    Types {
        types: vec![
            RocType::I64,
            RocType::Struct {
                name: s("Branch"),
                fields: vec![
                    Field::Recursive(s("f0"), TypeId(2)),
                    Field::NonRecursive(s("f1"), TypeId(0)),
                    Field::Recursive(s("f2"), TypeId(2)),
                ],
            },
            RocType::TagUnion(RocTagUnion::Recursive {
                name: s("Tree"),
                tags,
                size: 8,
                discriminant_offset: 8,
            }),
        ],
    }
}

#[test]
fn recursive_union_too_many_tags_on_wasm32() {
    let r = emit(&[(Architecture::Wasm32, tree_types(5))]);
    assert_eq!(
        r,
        Err(BindgenError::TooManyTags {
            type_id: TypeId(2),
            architecture: Architecture::Wasm32,
            tag_count: 5
        })
    );
}

#[test]
fn recursive_union_five_tags_fits_on_x86_64() {
    let out = emit(&[(Architecture::X86_64, tree_types(5))]).unwrap();
    assert!(out.contains("(self.Node.f0 as u8) & 0b111"));
    assert!(out.contains("let untagged = (self.Node.f0 as usize) & (!0b111 as usize);"));
    assert!(out.contains("*((payload.f0 as usize & !0b111) as *mut Tree)"));
}

#[test]
fn recursive_union_mask_on_32_bit() {
    let out = emit(&[(Architecture::X86_32, tree_types(4))]).unwrap();
    assert!(out.contains("(self.Node.f0 as u8) & 0b11)"));
    assert!(!out.contains("0b111"));
}

#[test]
fn capacity_error_on_one_arch_fails_all() {
    let r = emit(&[(Architecture::X86_64, tree_types(8)), (Architecture::Aarch32, tree_types(8))]);
    assert_eq!(
        r,
        Err(BindgenError::TooManyTags {
            type_id: TypeId(2),
            architecture: Architecture::Aarch32,
            tag_count: 8
        })
    );
    assert!(emit(&[(Architecture::X86_64, tree_types(9))]).is_err());
}

#[test]
fn nullable_wrapped_is_unsupported() {
    let types = Types {
        types: vec![
            RocType::U8,
            RocType::TagUnion(RocTagUnion::NullableWrapped { name: s("N") }),
        ],
    };
    assert_eq!(
        emit(&[(Architecture::Aarch64, types)]),
        Err(BindgenError::Unsupported { type_id: TypeId(1), architecture: Architecture::Aarch64 })
    );
    let types = Types {
        types: vec![RocType::TagUnion(RocTagUnion::NonNullableUnwrapped { name: s("M") })],
    };
    assert_eq!(
        emit(&[(Architecture::X86_32, types)]),
        Err(BindgenError::Unsupported { type_id: TypeId(0), architecture: Architecture::X86_32 })
    );
}

#[test]
fn small_structs_and_empty_unions_emit_nothing() {
    let types = Types {
        types: vec![
            RocType::U8,
            RocType::Struct { name: s("Empty"), fields: vec![] },
            RocType::Struct { name: s("One"), fields: vec![Field::NonRecursive(s("a"), TypeId(0))] },
            RocType::TagUnion(RocTagUnion::NonRecursive {
                name: s("Never"),
                tags: vec![],
                size: 0,
                discriminant_offset: 0,
            }),
            RocType::RocList(TypeId(0)),
        ],
    };
    assert_eq!(emit(&[(Architecture::X86_64, types)]).unwrap(), "");
}
