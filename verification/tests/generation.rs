use mmio_profile::diag::{
    DiagKind, MSG_GENERICS_UNSUPPORTED, MSG_MISSING_OFFSET, MSG_MISSING_WIDTH, MSG_UNNAMED_FIELD,
};
use mmio_profile::emit::{Accessor, BaseExpr};
use mmio_profile::mmio;
use mmio_profile::profile::WordType;

fn ts(source: &str) -> proc_macro2::TokenStream {
    source.parse().expect("test input must tokenize")
}

fn expected_type(source: &str) -> syn::Type {
    syn::parse_str(source).expect("test type must parse")
}

#[test]
fn static_base_u32_single_register() {
    let unit = mmio(
        &ts("u32, 0x40000000"),
        &ts("pub struct Block { #[offset(0x180)] pub Reg: foo::Cache, }"),
    )
    .expect("generation must succeed");

    assert!(unit.container.name == "Block");
    assert!(matches!(unit.container.vis, syn::Visibility::Public(_)));
    assert!(!unit.container.dynamic);
    assert_eq!(unit.container.doc.len(), 0);

    assert_eq!(unit.registers.len(), 1);
    let reg = &unit.registers[0];
    assert!(reg.handle.name == "Reg");
    assert!(matches!(reg.handle.vis, syn::Visibility::Public(_)));
    assert!(reg.cache_ty == expected_type("foo::Cache"));

    let accessor = Accessor {
        base: BaseExpr::Literal(0x4000_0000),
        offset: 0x180,
        width: WordType::U32,
    };
    assert!(reg.cache_op == accessor);
    assert!(reg.flush_op == accessor);
}

#[test]
fn dynamic_base_u32_single_register() {
    let unit = mmio(
        &ts("u32, DynBase"),
        &ts("pub struct Block { #[offset(0x180)] pub Reg: foo::Cache, }"),
    )
    .expect("generation must succeed");

    assert!(unit.container.dynamic);
    assert_eq!(unit.registers.len(), 1);
    let reg = &unit.registers[0];
    assert!(reg.cache_op.base == BaseExpr::ProfileField);
    assert!(reg.flush_op.base == BaseExpr::ProfileField);
    assert!(reg.cache_op.offset == 0x180);
    assert!(reg.cache_op.width == WordType::U32);
}

#[test]
fn default_base_is_static_zero() {
    let unit = mmio(&ts("u16"), &ts("struct Block { #[offset(8)] r: Cache, }"))
        .expect("generation must succeed");

    assert!(!unit.container.dynamic);
    let reg = &unit.registers[0];
    assert!(reg.cache_op == Accessor { base: BaseExpr::Literal(0), offset: 8, width: WordType::U16 });
    assert!(reg.flush_op == reg.cache_op.clone());
}

#[test]
fn missing_width_is_diagnosed() {
    let diag = mmio(
        &ts("DynBase, 0x1000"),
        &ts("pub struct Block { #[offset(0x180)] pub Reg: foo::Cache, }"),
    )
    .err()
    .expect("generation must fail");

    assert!(diag.kind == DiagKind::MissingWidth);
    assert_eq!(diag.error.to_string(), MSG_MISSING_WIDTH);
}

#[test]
fn generic_aggregate_is_diagnosed() {
    let diag = mmio(&ts("u32"), &ts("struct Block<T> { #[offset(0)] r: T, }"))
        .err()
        .expect("generation must fail");

    assert!(diag.kind == DiagKind::GenericsUnsupported);
    assert_eq!(diag.error.to_string(), MSG_GENERICS_UNSUPPORTED);
}

#[test]
fn missing_offset_is_diagnosed() {
    let diag = mmio(&ts("u32"), &ts("struct Block { r: Cache, }"))
        .err()
        .expect("generation must fail");

    assert!(diag.kind == DiagKind::MissingOffset);
    assert_eq!(diag.error.to_string(), MSG_MISSING_OFFSET);
}

#[test]
fn unnamed_field_is_diagnosed() {
    let diag = mmio(&ts("u32"), &ts("struct Block(Cache);"))
        .err()
        .expect("generation must fail");

    assert!(diag.kind == DiagKind::UnnamedField);
    assert_eq!(diag.error.to_string(), MSG_UNNAMED_FIELD);
}

#[test]
fn malformed_offset_is_diagnosed() {
    let diag = mmio(&ts("u32"), &ts("struct Block { #[offset(base)] r: Cache, }"))
        .err()
        .expect("generation must fail");

    assert!(diag.kind == DiagKind::MalformedOffset);
}

#[test]
fn negative_offset_is_diagnosed() {
    let diag = mmio(&ts("u32"), &ts("struct Block { #[offset(-4)] r: Cache, }"))
        .err()
        .expect("generation must fail");

    assert!(diag.kind == DiagKind::MalformedOffset);
}

#[test]
fn empty_attribute_list_is_a_syntax_error() {
    let diag = mmio(&ts(""), &ts("struct Block { #[offset(0)] r: Cache, }"))
        .err()
        .expect("generation must fail");

    assert!(diag.kind == DiagKind::SyntaxError);
}

#[test]
fn item_that_is_not_a_struct_is_a_syntax_error() {
    let diag = mmio(&ts("u32"), &ts("fn not_a_struct() {}"))
        .err()
        .expect("generation must fail");

    assert!(diag.kind == DiagKind::SyntaxError);
}

#[test]
fn later_width_wins() {
    let unit = mmio(&ts("u8, u64"), &ts("struct Block { #[offset(0)] r: Cache, }"))
        .expect("generation must succeed");

    assert!(unit.registers[0].cache_op.width == WordType::U64);
}

#[test]
fn later_literal_overrides_dyn_base() {
    let unit = mmio(&ts("u32, DynBase, 0x10"), &ts("struct Block { #[offset(0)] r: Cache, }"))
        .expect("generation must succeed");

    assert!(!unit.container.dynamic);
    assert!(unit.registers[0].cache_op.base == BaseExpr::Literal(0x10));
}

#[test]
fn later_dyn_base_overrides_literal() {
    let unit = mmio(&ts("u32, 0x10, DynBase"), &ts("struct Block { #[offset(0)] r: Cache, }"))
        .expect("generation must succeed");

    assert!(unit.container.dynamic);
    assert!(unit.registers[0].cache_op.base == BaseExpr::ProfileField);
}

#[test]
fn unrecognized_expressions_are_ignored() {
    let unit = mmio(
        &ts("u32, foo::bar, \"text\", (1 + 2)"),
        &ts("struct Block { #[offset(0)] r: Cache, }"),
    )
    .expect("generation must succeed");

    assert!(!unit.container.dynamic);
    assert!(unit.registers[0].cache_op.base == BaseExpr::Literal(0));
    assert!(unit.registers[0].cache_op.width == WordType::U32);
}

#[test]
fn first_offset_attribute_wins() {
    let unit = mmio(
        &ts("u32"),
        &ts("struct Block { #[offset(1)] #[offset(2)] r: Cache, }"),
    )
    .expect("generation must succeed");

    assert!(unit.registers[0].cache_op.offset == 1);
}

#[test]
fn later_offset_attributes_are_ignored_even_if_malformed() {
    let unit = mmio(
        &ts("u32"),
        &ts("struct Block { #[offset(1)] #[offset(bad)] r: Cache, }"),
    )
    .expect("generation must succeed");

    assert!(unit.registers[0].cache_op.offset == 1);
}

#[test]
fn documentation_is_preserved() {
    let unit = mmio(
        &ts("u32"),
        &ts("/// the block\n/// of registers\npub struct Block { /// one register\n#[offset(0)] pub r: Cache, }"),
    )
    .expect("generation must succeed");

    assert_eq!(unit.container.doc.len(), 2);
    assert!(unit.container.doc.iter().all(|a| a.path().is_ident("doc")));
    assert_eq!(unit.registers[0].handle.doc.len(), 1);
    assert!(unit.registers[0].handle.doc[0].path().is_ident("doc"));
}

#[test]
fn registers_keep_declaration_order() {
    let unit = mmio(
        &ts("u8, 0x2000"),
        &ts("struct Block { #[offset(0)] a: CacheA, #[offset(4)] b: CacheB, #[offset(8)] c: CacheC, }"),
    )
    .expect("generation must succeed");

    assert_eq!(unit.registers.len(), 3);
    assert!(unit.registers[0].handle.name == "a");
    assert!(unit.registers[1].handle.name == "b");
    assert!(unit.registers[2].handle.name == "c");
    assert!(unit.registers[0].cache_op.offset == 0);
    assert!(unit.registers[1].cache_op.offset == 4);
    assert!(unit.registers[2].cache_op.offset == 8);
    assert!(unit.registers[1].cache_ty == expected_type("CacheB"));
    for reg in &unit.registers {
        assert!(reg.cache_op == reg.flush_op);
        assert!(reg.cache_op.base == BaseExpr::Literal(0x2000));
        assert!(reg.cache_op.width == WordType::U8);
    }
}

#[test]
fn decimal_and_hex_offsets_agree() {
    let hex = mmio(&ts("u32"), &ts("struct Block { #[offset(0x180)] r: Cache, }"))
        .expect("generation must succeed");
    let dec = mmio(&ts("u32"), &ts("struct Block { #[offset(384)] r: Cache, }"))
        .expect("generation must succeed");

    assert!(hex.registers[0].cache_op == dec.registers[0].cache_op);
}

#[test]
fn restricted_visibility_is_propagated() {
    let unit = mmio(
        &ts("u32"),
        &ts("pub(crate) struct Block { #[offset(0)] pub(crate) r: Cache, }"),
    )
    .expect("generation must succeed");

    assert!(matches!(unit.container.vis, syn::Visibility::Restricted(_)));
    assert!(matches!(unit.registers[0].handle.vis, syn::Visibility::Restricted(_)));
}

#[test]
fn dynamic_container_keeps_documentation() {
    let unit = mmio(
        &ts("u8, DynBase"),
        &ts("/// remappable block\nstruct Block { #[offset(0)] r: Cache, }"),
    )
    .expect("generation must succeed");

    assert!(unit.container.dynamic);
    assert_eq!(unit.container.doc.len(), 1);
}

#[test]
fn suffixed_offset_literal_keeps_its_value() {
    let unit = mmio(&ts("u32"), &ts("struct Block { #[offset(12u32)] r: Cache, }"))
        .expect("generation must succeed");

    assert!(unit.registers[0].cache_op.offset == 12);
}

#[test]
fn identical_inputs_generate_identical_plans() {
    let attr = "u64, DynBase";
    let item = "pub struct Dma { #[offset(0)] pub ctrl: Ctrl, #[offset(8)] pub stat: Stat, }";
    let first = mmio(&ts(attr), &ts(item)).expect("generation must succeed");
    let second = mmio(&ts(attr), &ts(item)).expect("generation must succeed");

    assert!(first.container.name == second.container.name);
    assert!(first.container.dynamic == second.container.dynamic);
    assert_eq!(first.registers.len(), second.registers.len());
    for (a, b) in first.registers.iter().zip(second.registers.iter()) {
        assert!(a.handle.name == b.handle.name);
        assert!(a.cache_ty == b.cache_ty);
        assert!(a.cache_op == b.cache_op);
        assert!(a.flush_op == b.flush_op);
    }
}
