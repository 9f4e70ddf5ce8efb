//! The trusted boundary to `syn` and `proc-macro2`.
//!
//! Everything the generator reads out of the token world — expressions of the
//! block attribute, the struct declaration and its fields — crosses into the
//! library through the declarations and wrappers below. Each wrapper converts
//! one outside value into plain library data (or pre-anchors a diagnostic to
//! a span); all grammar decisions are made on the plain data by verified code
//! elsewhere in the crate.
//!
//! Every wrapped result is a function of the wrapper's arguments alone —
//! parsing, name extraction and error construction in syn depend on nothing
//! but the values handed in. Each such result is therefore given a name: an
//! uninterpreted spec function that the wrapper's contract applies. The
//! names say nothing about what the outside call computes on given values;
//! they only let the callers' contracts state that the same input yields the
//! same parse, and tie every stage of generation to the one before it.
use vstd::prelude::*;

verus! {

#[verifier::external_type_specification]
#[verifier::external_body]
pub struct ExTokenStream(proc_macro2::TokenStream);

#[verifier::external_type_specification]
#[verifier::external_body]
pub struct ExIdent(proc_macro2::Ident);

#[verifier::external_type_specification]
#[verifier::external_body]
pub struct ExExpr(syn::Expr);

#[verifier::external_type_specification]
#[verifier::external_body]
pub struct ExItemStruct(syn::ItemStruct);

#[verifier::external_type_specification]
#[verifier::external_body]
pub struct ExField(syn::Field);

#[verifier::external_type_specification]
#[verifier::external_body]
pub struct ExAttribute(syn::Attribute);

#[verifier::external_type_specification]
#[verifier::external_body]
pub struct ExVisibility(syn::Visibility);

#[verifier::external_type_specification]
#[verifier::external_body]
pub struct ExType(syn::Type);

#[verifier::external_type_specification]
#[verifier::external_body]
pub struct ExError(syn::Error);

/// What the block attribute payload parses to: its comma-separated
/// expressions, or syn's own error.
pub uninterp spec fn attr_exprs_of(ts: proc_macro2::TokenStream) -> Result<
    Seq<syn::Expr>,
    syn::Error,
>;

/// What the annotated item parses to: a struct declaration, or syn's own
/// error.
pub uninterp spec fn item_struct_of(ts: proc_macro2::TokenStream) -> Result<
    syn::ItemStruct,
    syn::Error,
>;

/// The name of an expression that is a bare one-segment path; `None` for any
/// other expression.
pub uninterp spec fn ident_name_of(e: syn::Expr) -> Option<Seq<char>>;

/// The value of an expression that is a plain integer literal within `u128`;
/// `None` for any other expression.
pub uninterp spec fn int_value_of(e: syn::Expr) -> Option<u128>;

/// The name of an attribute whose path is a single identifier; `None`
/// otherwise.
pub uninterp spec fn attr_name_of(a: syn::Attribute) -> Option<Seq<char>>;

/// The integer payload of an attribute such as `offset(0x180)`, or syn's own
/// diagnostic for a payload that is not such a literal.
pub uninterp spec fn attr_payload_of(a: syn::Attribute) -> Result<u128, syn::Error>;

/// The diagnostic with the given message anchored to a token stream's span.
pub uninterp spec fn stream_error_of(ts: proc_macro2::TokenStream, msg: Seq<char>) -> syn::Error;

/// Whether a struct declaration carries a generic parameter clause.
pub uninterp spec fn is_generic(st: syn::ItemStruct) -> bool;

/// The diagnostic with the given message anchored to a struct's generics
/// clause.
pub uninterp spec fn generics_error_of(st: syn::ItemStruct, msg: Seq<char>) -> syn::Error;

/// A struct declaration's name.
pub uninterp spec fn item_name_of(st: syn::ItemStruct) -> proc_macro2::Ident;

/// A struct declaration's visibility.
pub uninterp spec fn item_vis_of(st: syn::ItemStruct) -> syn::Visibility;

/// A struct declaration's head attributes, in source order.
pub uninterp spec fn item_attrs_of(st: syn::ItemStruct) -> Seq<syn::Attribute>;

/// A struct declaration's fields, in declaration order.
pub uninterp spec fn item_fields_of(st: syn::ItemStruct) -> Seq<syn::Field>;

/// A field's name; `None` for a positional field.
pub uninterp spec fn field_name_of(f: syn::Field) -> Option<proc_macro2::Ident>;

/// A field's visibility.
pub uninterp spec fn field_vis_of(f: syn::Field) -> syn::Visibility;

/// A field's declared type.
pub uninterp spec fn field_ty_of(f: syn::Field) -> syn::Type;

/// A field's attributes, in source order.
pub uninterp spec fn field_attrs_of(f: syn::Field) -> Seq<syn::Attribute>;

/// The diagnostic with the given message anchored to a field.
pub uninterp spec fn field_error_of(f: syn::Field, msg: Seq<char>) -> syn::Error;

/// Relies on proc-macro2's `Clone` for `Ident`: the clone is the same value.
pub assume_specification[ <proc_macro2::Ident as Clone>::clone ](v: &proc_macro2::Ident) -> (r:
    proc_macro2::Ident)
    ensures
        r == *v,
;

/// Relies on syn's `Clone` for `Visibility`: the clone is the same value.
pub assume_specification[ <syn::Visibility as Clone>::clone ](v: &syn::Visibility) -> (r:
    syn::Visibility)
    ensures
        r == *v,
;

/// Relies on syn's `Clone` for `Type`: the clone is the same value.
pub assume_specification[ <syn::Type as Clone>::clone ](v: &syn::Type) -> (r: syn::Type)
    ensures
        r == *v,
;

/// Relies on syn's `Clone` for `Attribute`: the clone is the same value.
pub assume_specification[ <syn::Attribute as Clone>::clone ](v: &syn::Attribute) -> (r:
    syn::Attribute)
    ensures
        r == *v,
;

/// Relies on `Punctuated::<Expr, Comma>::parse_separated_nonempty` through
/// `syn::parse::Parser::parse2`: splits the block attribute payload into its
/// comma-separated expressions, or hands back syn's own parse error; the
/// outcome depends on the tokens alone.
#[verifier::external_body]
pub(crate) fn parse_attr_exprs(ts: &proc_macro2::TokenStream) -> (r: Result<
    Vec<syn::Expr>,
    syn::Error,
>)
    ensures
        r is Ok <==> attr_exprs_of(*ts) is Ok,
        r is Ok ==> r->Ok_0@ == attr_exprs_of(*ts)->Ok_0,
        r is Err ==> r->Err_0 == attr_exprs_of(*ts)->Err_0,
{
    let parser = syn::punctuated::Punctuated::<syn::Expr, syn::token::Comma>::parse_separated_nonempty;
    match syn::parse::Parser::parse2(parser, ts.clone()) {
        Ok(exprs) => Ok(exprs.into_iter().collect()),
        Err(e) => Err(e),
    }
}

/// Relies on `syn::parse2::<syn::ItemStruct>`: parses the annotated item as a
/// struct declaration, or hands back syn's own parse error; the outcome
/// depends on the tokens alone.
#[verifier::external_body]
pub(crate) fn parse_item_struct(ts: &proc_macro2::TokenStream) -> (r: Result<
    syn::ItemStruct,
    syn::Error,
>)
    ensures
        r == item_struct_of(*ts),
{
    syn::parse2::<syn::ItemStruct>(ts.clone())
}

/// Relies on `syn::Path::get_ident` and `Ident::to_string`: the name of an
/// expression that is a bare one-segment path, `None` for any other
/// expression.
#[verifier::external_body]
pub(crate) fn expr_ident_name(e: &syn::Expr) -> (r: Option<String>)
    ensures
        r.deep_view() == ident_name_of(*e),
{
    match e {
        syn::Expr::Path(p) => match p.path.get_ident() {
            Some(ident) => Some(ident.to_string()),
            None => None,
        },
        _ => None,
    }
}

/// Relies on `syn::LitInt::base10_parse::<u128>`: the value of an expression
/// that is a plain integer literal, `None` for any other expression and for a
/// literal beyond the range of `u128`.
#[verifier::external_body]
pub(crate) fn expr_int_value(e: &syn::Expr) -> (r: Option<u128>)
    ensures
        r == int_value_of(*e),
{
    match e {
        syn::Expr::Lit(syn::ExprLit { lit: syn::Lit::Int(lit_int), .. }) => {
            lit_int.base10_parse::<u128>().ok()
        },
        _ => None,
    }
}

/// Relies on `syn::Attribute::path` and `syn::Path::get_ident`: the name of an
/// attribute whose path is a single identifier, `None` otherwise.
#[verifier::external_body]
pub(crate) fn attr_ident_name(a: &syn::Attribute) -> (r: Option<String>)
    ensures
        r.deep_view() == attr_name_of(*a),
{
    match a.path().get_ident() {
        Some(ident) => Some(ident.to_string()),
        None => None,
    }
}

/// Relies on `syn::Attribute::parse_args::<syn::LitInt>` and
/// `LitInt::base10_parse::<u128>`: the non-negative integer payload of an
/// attribute such as `offset(0x180)`, or syn's own diagnostic for a payload
/// that is not such a literal.
#[verifier::external_body]
pub(crate) fn attr_int_payload(a: &syn::Attribute) -> (r: Result<u128, syn::Error>)
    ensures
        r == attr_payload_of(*a),
{
    match a.parse_args::<syn::LitInt>() {
        Ok(lit_int) => lit_int.base10_parse::<u128>(),
        Err(e) => Err(e),
    }
}

/// Relies on `syn::Error::new` and `syn::spanned::Spanned`: a diagnostic with
/// the given message, anchored to the span of the whole token stream.
#[verifier::external_body]
pub(crate) fn error_at_stream(ts: &proc_macro2::TokenStream, msg: &str) -> (r: syn::Error)
    ensures
        r == stream_error_of(*ts, msg@),
{
    syn::Error::new(<proc_macro2::TokenStream as syn::spanned::Spanned>::span(ts), msg)
}

/// The parts of a struct declaration that generation reads, as plain data.
pub struct ItemParts {
    /// Present exactly when the struct has a generic parameter clause; the
    /// diagnostic is anchored to that clause.
    pub generics_err: Option<syn::Error>,
    pub name: proc_macro2::Ident,
    pub vis: syn::Visibility,
    pub attrs: Vec<syn::Attribute>,
    pub fields: Vec<syn::Field>,
}

/// Relies on the public fields of `syn::ItemStruct` (`generics.lt_token`,
/// `ident`, `vis`, `attrs`, `fields`) and on `syn::Error::new_spanned`:
/// `generics_err` is present exactly when the declaration carries a generic
/// parameter clause, and the remaining parts are copied out unchanged.
#[verifier::external_body]
pub(crate) fn item_parts(st: &syn::ItemStruct, generics_msg: &str) -> (r: ItemParts)
    ensures
        r.generics_err is Some <==> is_generic(*st),
        is_generic(*st) ==> r.generics_err->0 == generics_error_of(*st, generics_msg@),
        r.name == item_name_of(*st),
        r.vis == item_vis_of(*st),
        r.attrs@ == item_attrs_of(*st),
        r.fields@ == item_fields_of(*st),
{
    ItemParts {
        generics_err: if st.generics.lt_token.is_some() {
            Some(syn::Error::new_spanned(&st.generics, generics_msg))
        } else {
            None
        },
        name: st.ident.clone(),
        vis: st.vis.clone(),
        attrs: st.attrs.clone(),
        fields: st.fields.iter().cloned().collect(),
    }
}

/// The parts of one struct field that generation reads, as plain data.
pub struct FieldParts {
    /// The field's name; `None` for a positional field.
    pub name: Option<proc_macro2::Ident>,
    pub vis: syn::Visibility,
    pub ty: syn::Type,
    pub attrs: Vec<syn::Attribute>,
    /// A diagnostic for a nameless field, anchored to the field.
    pub unnamed_err: syn::Error,
    /// A diagnostic for a field without an `offset(...)` attribute, anchored
    /// to the field.
    pub no_offset_err: syn::Error,
}

/// Relies on the public fields of `syn::Field` (`ident`, `vis`, `ty`, `attrs`)
/// and on `syn::Error::new_spanned`: the parts are copied out unchanged, and
/// the two diagnostics are anchored to the field.
#[verifier::external_body]
pub(crate) fn field_parts(f: &syn::Field, unnamed_msg: &str, no_offset_msg: &str) -> (r: FieldParts)
    ensures
        r.name == field_name_of(*f),
        r.vis == field_vis_of(*f),
        r.ty == field_ty_of(*f),
        r.attrs@ == field_attrs_of(*f),
        r.unnamed_err == field_error_of(*f, unnamed_msg@),
        r.no_offset_err == field_error_of(*f, no_offset_msg@),
{
    FieldParts {
        name: f.ident.clone(),
        vis: f.vis.clone(),
        ty: f.ty.clone(),
        attrs: f.attrs.clone(),
        unnamed_err: syn::Error::new_spanned(f, unnamed_msg),
        no_offset_err: syn::Error::new_spanned(f, no_offset_msg),
    }
}

} // verus!
