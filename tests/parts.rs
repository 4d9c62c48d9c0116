use roc_bindgen::arch::{
    arch_to_str, discriminant_size, max_pointer_tagged_variants, tagged_pointer_bitmask, Architecture,
};
use roc_bindgen::names::{derive_str, roc_type_name};
use roc_bindgen::nullable::lex_le_str;
use roc_bindgen::order::{label_number_of, numeric_field_order};
use roc_bindgen::store::DeclStore;
use roc_bindgen::text::{decimal_string, write_indents};
use roc_bindgen::types::{Field, RocTagUnion, RocType, TypeId, Types};

fn s(x: &str) -> String {
    x.to_string()
}

#[test]
fn architecture_names() {
    assert_eq!(arch_to_str(&Architecture::X86_64), "x86_64");
    assert_eq!(arch_to_str(&Architecture::X86_32), "x86");
    assert_eq!(arch_to_str(&Architecture::Aarch64), "aarch64");
    assert_eq!(arch_to_str(&Architecture::Aarch32), "arm");
    assert_eq!(arch_to_str(&Architecture::Wasm32), "wasm32");
}

#[test]
fn pointer_tagging_parameters() {
    assert_eq!(max_pointer_tagged_variants(Architecture::X86_64), 8);
    assert_eq!(max_pointer_tagged_variants(Architecture::Aarch64), 8);
    assert_eq!(max_pointer_tagged_variants(Architecture::Wasm32), 4);
    assert_eq!(max_pointer_tagged_variants(Architecture::Aarch32), 4);
    assert_eq!(tagged_pointer_bitmask(Architecture::X86_64), 0b111);
    assert_eq!(tagged_pointer_bitmask(Architecture::X86_32), 0b11);
}

#[test]
fn discriminant_width_by_tag_count() {
    assert_eq!(discriminant_size(2), 1);
    assert_eq!(discriminant_size(256), 1);
    assert_eq!(discriminant_size(257), 2);
    assert_eq!(discriminant_size(65536), 2);
    assert_eq!(discriminant_size(65537), 4);
}

#[test]
fn decimal_spelling() {
    assert_eq!(decimal_string(0), "0");
    assert_eq!(decimal_string(7), "7");
    assert_eq!(decimal_string(1234), "1234");
    assert_eq!(decimal_string(1000), "1000");
}

#[test]
fn indentation() {
    let mut buf = s("x");
    write_indents(2, &mut buf);
    assert_eq!(buf, "x        ");
    write_indents(0, &mut buf);
    assert_eq!(buf, "x        ");
}

#[test]
fn label_numbers() {
    assert_eq!(label_number_of(&s("f12")), 12);
    assert_eq!(label_number_of(&s("f0")), 0);
    assert_eq!(label_number_of(&s("f")), 0);
    assert_eq!(label_number_of(&s("")), 0);
    assert_eq!(label_number_of(&s("f99999999999999999999999")), u64::MAX);
}

#[test]
fn numeric_order_of_fields() {
    let fields = vec![
        Field::NonRecursive(s("f10"), TypeId(0)),
        Field::NonRecursive(s("f2"), TypeId(0)),
        Field::Recursive(s("f1"), TypeId(0)),
        Field::NonRecursive(s("f2"), TypeId(0)),
    ];
    assert_eq!(numeric_field_order(&fields), vec![2, 1, 3, 0]);
    assert_eq!(numeric_field_order(&vec![]), Vec::<usize>::new());
}

#[test]
fn lexicographic_tag_order() {
    assert!(lex_le_str(&s("Cons"), &s("Nil")));
    assert!(!lex_le_str(&s("Nil"), &s("Cons")));
    assert!(lex_le_str(&s("A"), &s("AB")));
    assert!(!lex_le_str(&s("AB"), &s("A")));
    assert!(lex_le_str(&s("Same"), &s("Same")));
    assert!(lex_le_str(&s("Z"), &s("a")));
}

fn sample_types() -> Types {
    Types {
        types: vec![
            RocType::U8,
            RocType::F32,
            RocType::RocStr,
            RocType::RocDict(TypeId(2), TypeId(0)),
            RocType::RocList(TypeId(1)),
            RocType::Struct {
                name: s("Pair"),
                fields: vec![
                    Field::NonRecursive(s("a"), TypeId(0)),
                    Field::NonRecursive(s("b"), TypeId(0)),
                ],
            },
            RocType::TagUnion(RocTagUnion::Enumeration { name: s("E"), tags: vec![s("P"), s("Q")] }),
            RocType::Struct {
                name: s("Mixed"),
                fields: vec![
                    Field::NonRecursive(s("x"), TypeId(6)),
                    Field::NonRecursive(s("y"), TypeId(4)),
                ],
            },
            RocType::RocSet(TypeId(0)),
            RocType::RocBox(TypeId(5)),
            RocType::I128,
        ],
    }
}

#[test]
fn type_names() {
    let t = sample_types();
    assert_eq!(roc_type_name(TypeId(0), &t), "u8");
    assert_eq!(roc_type_name(TypeId(3), &t), "roc_std::RocDict<roc_std::RocStr, u8>");
    assert_eq!(roc_type_name(TypeId(4), &t), "roc_std::RocList<f32>");
    assert_eq!(roc_type_name(TypeId(5), &t), "Pair");
    assert_eq!(roc_type_name(TypeId(6), &t), "E");
    assert_eq!(roc_type_name(TypeId(8), &t), "roc_std::RocSet<u8>");
    assert_eq!(roc_type_name(TypeId(9), &t), "roc_std::RocBox<Pair>");
    assert_eq!(roc_type_name(TypeId(10), &t), "roc_std::I128");
}

#[test]
fn derivations_follow_properties() {
    let t = sample_types();
    assert_eq!(
        derive_str(TypeId(5), &t, true),
        "#[derive(Clone, Copy, Debug, Default, Eq, Ord, Hash, PartialEq, PartialOrd)]"
    );
    assert_eq!(derive_str(TypeId(7), &t, false), "#[derive(Clone, PartialEq, PartialOrd)]");
    assert_eq!(derive_str(TypeId(1), &t, false), "#[derive(Clone, Copy, Default, PartialEq, PartialOrd)]");
    assert_eq!(
        derive_str(TypeId(2), &t, true),
        "#[derive(Clone, Debug, Default, Eq, Ord, Hash, PartialEq, PartialOrd)]"
    );
    assert_eq!(derive_str(TypeId(6), &t, false), "#[derive(Clone, Copy, Eq, Ord, Hash, PartialEq, PartialOrd)]");
}

#[test]
fn registry_basics() {
    let mut t = Types::new();
    assert_eq!(t.len(), 0);
    let a = t.add(RocType::Bool);
    let b = t.add(RocType::RocList(a));
    assert_eq!(a, TypeId(0));
    assert_eq!(b, TypeId(1));
    assert_eq!(t.sorted_ids(), vec![TypeId(0), TypeId(1)]);
    assert!(matches!(t.get(b), RocType::RocList(TypeId(0))));
}

#[test]
fn store_merges_identical_bodies() {
    let mut st = DeclStore::new();
    st.add_decl(None, Architecture::X86_64, s("A"));
    st.add_decl(Some(s("impl T")), Architecture::X86_64, s("m"));
    st.add_decl(None, Architecture::Aarch64, s("A"));
    st.add_decl(None, Architecture::Aarch64, s("B"));
    st.add_decl(None, Architecture::X86_64, s("A"));
    assert_eq!(st.len(), 3);
    let (scope, body, archs) = st.get(0);
    assert_eq!(*scope, None);
    assert_eq!(body, "A");
    assert_eq!(*archs, vec![Architecture::X86_64, Architecture::Aarch64]);
    let (scope, body, archs) = st.get(1);
    assert_eq!(*scope, Some(s("impl T")));
    assert_eq!(body, "m");
    assert_eq!(*archs, vec![Architecture::X86_64]);
    let (_, body, _) = st.get(2);
    assert_eq!(body, "B");
}

#[test]
fn store_renders_scopes_in_first_use_order() {
    let mut st = DeclStore::new();
    st.add_decl(None, Architecture::X86_64, s("struct A;"));
    st.add_decl(Some(s("impl A")), Architecture::X86_64, s("fn f() {}"));
    st.add_decl(None, Architecture::Wasm32, s("struct B;"));
    st.add_decl(Some(s("impl A")), Architecture::Wasm32, s("fn f() {}"));
    let out = st.render();
    let expected = "\n#[cfg(target_arch = \"x86_64\")]\nstruct A;\n\n#[cfg(target_arch = \"wasm32\")]\nstruct B;\n\nimpl A {\n    #[cfg(any(\n        target_arch = \"x86_64\",\n        target_arch = \"wasm32\"\n    ))]\n    fn f() {}\n}\n";
    assert_eq!(out, expected);
}

#[test]
fn registry_dependency_order() {
    let good = Types {
        types: vec![
            RocType::I64,
            RocType::Struct {
                name: s("Cell"),
                fields: vec![
                    Field::NonRecursive(s("head"), TypeId(0)),
                    Field::Recursive(s("tail"), TypeId(2)),
                ],
            },
            RocType::TagUnion(RocTagUnion::NullableUnwrapped {
                name: s("List"),
                null_tag: s("Nil"),
                non_null_tag: s("Cons"),
                non_null_payload: TypeId(1),
                null_represents_first_tag: false,
            }),
        ],
    };
    assert!(good.is_well_formed());
    let forward = Types { types: vec![RocType::RocList(TypeId(1)), RocType::U8] };
    assert!(!forward.is_well_formed());
    let dangling = Types {
        types: vec![RocType::Struct {
            name: s("P"),
            fields: vec![Field::Recursive(s("next"), TypeId(5))],
        }],
    };
    assert!(!dangling.is_well_formed());
    let late_payload = Types {
        types: vec![
            RocType::TagUnion(RocTagUnion::NonRecursive {
                name: s("U"),
                tags: vec![(s("A"), Some(TypeId(1)))],
                size: 8,
                discriminant_offset: 4,
            }),
            RocType::U32,
        ],
    };
    assert!(!late_payload.is_well_formed());
    assert!(sample_types().is_well_formed());
}
