use mmio_profile::bridge::ItemParts;
use mmio_profile::diag::DiagKind;
use mmio_profile::profile::{
    classify_attr_expr, AttrToken, BaseAddr, ProfileAttr, ProfileItem, WordType,
};
use mmio_profile::register::Register;
use proc_macro2::{Ident, Span};

fn err(msg: &str) -> syn::Error {
    syn::Error::new(Span::call_site(), msg)
}

fn ident(name: &str) -> Ident {
    Ident::new(name, Span::call_site())
}

fn a_type() -> syn::Type {
    syn::parse_str("foo::Cache").expect("test type must parse")
}

#[test]
fn classify_recognizes_every_width() {
    let widths = vec![
        ("u8", WordType::U8),
        ("u16", WordType::U16),
        ("u32", WordType::U32),
        ("u64", WordType::U64),
        ("u128", WordType::U128),
    ];
    for (name, width) in widths {
        let token = classify_attr_expr(&Some(name.to_owned()), &None);
        assert!(token == AttrToken::Width(width));
    }
}

#[test]
fn classify_recognizes_dyn_base_and_literals() {
    assert!(classify_attr_expr(&Some("DynBase".to_owned()), &None) == AttrToken::DynBase);
    assert!(classify_attr_expr(&None, &Some(0x1000)) == AttrToken::IntLit(0x1000));
    assert!(classify_attr_expr(&Some("usize".to_owned()), &None) == AttrToken::Other);
    assert!(classify_attr_expr(&Some("dynbase".to_owned()), &None) == AttrToken::Other);
    assert!(classify_attr_expr(&None, &None) == AttrToken::Other);
}

#[test]
fn word_type_bit_widths() {
    assert_eq!(WordType::U8.bits(), 8);
    assert_eq!(WordType::U16.bits(), 16);
    assert_eq!(WordType::U32.bits(), 32);
    assert_eq!(WordType::U64.bits(), 64);
    assert_eq!(WordType::U128.bits(), 128);
}

#[test]
fn from_tokens_folds_left_to_right() {
    let tokens = vec![
        AttrToken::Width(WordType::U8),
        AttrToken::IntLit(0x10),
        AttrToken::DynBase,
        AttrToken::Width(WordType::U32),
        AttrToken::IntLit(0x20),
        AttrToken::Other,
    ];
    let attr = ProfileAttr::from_tokens(&tokens, err("missing width")).expect("width is present");
    assert!(attr.base_ty == WordType::U32);
    assert!(attr.base_addr == BaseAddr::Static(0x20));
}

#[test]
fn from_tokens_defaults_to_static_zero() {
    let tokens = vec![AttrToken::Width(WordType::U128)];
    let attr = ProfileAttr::from_tokens(&tokens, err("missing width")).expect("width is present");
    assert!(attr.base_addr == BaseAddr::Static(0));
}

#[test]
fn from_tokens_without_width_reports_the_given_error() {
    let tokens = vec![AttrToken::DynBase, AttrToken::IntLit(7), AttrToken::Other];
    let diag = ProfileAttr::from_tokens(&tokens, err("width, please"))
        .err()
        .expect("no width token was given");
    assert!(diag.kind == DiagKind::MissingWidth);
    assert_eq!(diag.error.to_string(), "width, please");
}

#[test]
fn assemble_builds_the_register_from_its_parts() {
    let reg = Register::assemble(
        Some(ident("Reg")),
        err("unnamed"),
        Some(0x180),
        err("no offset"),
        Vec::new(),
        a_type(),
        syn::Visibility::Inherited,
    )
    .expect("name and offset are present");
    assert!(reg.name == "Reg");
    assert_eq!(reg.offset, 0x180);
    assert!(reg.cache_ty == a_type());
    assert_eq!(reg.doc.len(), 0);
}

#[test]
fn assemble_without_name_reports_unnamed_field() {
    let diag = Register::assemble(
        None,
        err("unnamed"),
        Some(0x180),
        err("no offset"),
        Vec::new(),
        a_type(),
        syn::Visibility::Inherited,
    )
    .err()
    .expect("the field has no name");
    assert!(diag.kind == DiagKind::UnnamedField);
    assert_eq!(diag.error.to_string(), "unnamed");
}

#[test]
fn assemble_without_offset_reports_missing_offset() {
    let diag = Register::assemble(
        Some(ident("Reg")),
        err("unnamed"),
        None,
        err("no offset"),
        Vec::new(),
        a_type(),
        syn::Visibility::Inherited,
    )
    .err()
    .expect("the field has no offset");
    assert!(diag.kind == DiagKind::MissingOffset);
    assert_eq!(diag.error.to_string(), "no offset");
}

#[test]
fn from_parts_rejects_generics_before_anything_else() {
    let parts = ItemParts {
        generics_err: Some(err("no generics")),
        name: ident("Block"),
        vis: syn::Visibility::Inherited,
        attrs: Vec::new(),
        fields: Vec::new(),
    };
    let diag = ProfileItem::from_parts(parts).err().expect("generics are rejected");
    assert!(diag.kind == DiagKind::GenericsUnsupported);
    assert_eq!(diag.error.to_string(), "no generics");
}

#[test]
fn from_parts_accepts_a_field_free_struct() {
    let parts = ItemParts {
        generics_err: None,
        name: ident("Empty"),
        vis: syn::Visibility::Inherited,
        attrs: Vec::new(),
        fields: Vec::new(),
    };
    let item = ProfileItem::from_parts(parts).expect("nothing to reject");
    assert!(item.name == "Empty");
    assert_eq!(item.registers.len(), 0);
    assert_eq!(item.doc.len(), 0);
}
