//! The register block: its attribute grammar and its declaration.
//!
//! The block attribute payload is a non-empty comma-separated expression
//! list. Each expression is classified on its own: a bare width identifier
//! (`u8`, `u16`, `u32`, `u64`, `u128`) selects the word type, the bare
//! identifier `DynBase` selects a runtime-captured base address, an integer
//! literal selects a static base address, and anything else is ignored.
//! Later occurrences overwrite earlier ones; when no base is named the block
//! defaults to a static base of `0`. A width identifier is required.
use vstd::prelude::*;

use crate::bridge;
use crate::bridge::{
    attr_exprs_of, attr_name_of, generics_error_of, ident_name_of, int_value_of, is_generic,
    item_attrs_of, item_fields_of, item_name_of, item_struct_of, item_vis_of, stream_error_of,
    ItemParts,
};
use crate::diag::{DiagKind, Diagnostic, MSG_GENERICS_UNSUPPORTED, MSG_MISSING_WIDTH};
use crate::register::{
    register_matches_field, spec_field_diag_error, spec_field_diag_kind, spec_field_ok, Register,
};

verus! {

/// The five register word widths a block may declare.
#[derive(Clone, Copy, PartialEq, Eq, Structural, Debug)]
pub enum WordType {
    U8,
    U16,
    U32,
    U64,
    U128,
}

impl WordType {
    /// Width of the word type in bits.
    pub open spec fn spec_bits(self) -> u32 {
        match self {
            WordType::U8 => 8,
            WordType::U16 => 16,
            WordType::U32 => 32,
            WordType::U64 => 64,
            WordType::U128 => 128,
        }
    }

    /// Width of the word type in bits.
    pub fn bits(&self) -> (n: u32)
        ensures
            n == self.spec_bits(),
    {
        match self {
            WordType::U8 => 8,
            WordType::U16 => 16,
            WordType::U32 => 32,
            WordType::U64 => 64,
            WordType::U128 => 128,
        }
    }
}

/// The base address of a register block: captured at runtime, or a literal
/// fixed at build time.
#[derive(Clone, Copy, PartialEq, Eq, Structural, Debug)]
pub enum BaseAddr {
    Dyn,
    Static(u128),
}

/// One classified expression of the block attribute payload.
#[derive(Clone, Copy, PartialEq, Eq, Structural, Debug)]
pub enum AttrToken {
    /// A bare width identifier.
    Width(WordType),
    /// The bare identifier `DynBase`.
    DynBase,
    /// A plain integer literal.
    IntLit(u128),
    /// Any other expression; silently ignored.
    Other,
}

/// The validated block-level attribute: word type and base mode.
#[derive(Clone, Copy, PartialEq, Eq, Structural, Debug)]
pub struct ProfileAttr {
    pub base_addr: BaseAddr,
    pub base_ty: WordType,
}

/// How one attribute expression is classified, given its bare-identifier name
/// (when it is one) and its integer value (when it is a literal).
pub open spec fn spec_classify(name: Option<Seq<char>>, lit: Option<u128>) -> AttrToken {
    match name {
        Some(s) => {
            if s == "u8"@ {
                AttrToken::Width(WordType::U8)
            } else if s == "u16"@ {
                AttrToken::Width(WordType::U16)
            } else if s == "u32"@ {
                AttrToken::Width(WordType::U32)
            } else if s == "u64"@ {
                AttrToken::Width(WordType::U64)
            } else if s == "u128"@ {
                AttrToken::Width(WordType::U128)
            } else if s == "DynBase"@ {
                AttrToken::DynBase
            } else {
                AttrToken::Other
            }
        },
        None => match lit {
            Some(v) => AttrToken::IntLit(v),
            None => AttrToken::Other,
        },
    }
}

/// The classification of a whole expression list, in order.
pub open spec fn spec_tokens_of(exprs: Seq<syn::Expr>) -> Seq<AttrToken> {
    Seq::new(exprs.len(), |i: int| spec_classify(ident_name_of(exprs[i]), int_value_of(exprs[i])))
}

/// The word type selected by a token sequence: the last width identifier
/// wins, and `None` means no width identifier occurred at all.
pub open spec fn last_width(tokens: Seq<AttrToken>) -> Option<WordType>
    decreases tokens.len(),
{
    if tokens.len() == 0 {
        None
    } else {
        match tokens.last() {
            AttrToken::Width(w) => Some(w),
            _ => last_width(tokens.drop_last()),
        }
    }
}

/// The base mode selected by a token sequence: the last of `DynBase` or an
/// integer literal wins, and with neither the block defaults to `Static(0)`.
pub open spec fn last_base(tokens: Seq<AttrToken>) -> BaseAddr
    decreases tokens.len(),
{
    if tokens.len() == 0 {
        BaseAddr::Static(0)
    } else {
        match tokens.last() {
            AttrToken::DynBase => BaseAddr::Dyn,
            AttrToken::IntLit(v) => BaseAddr::Static(v),
            _ => last_base(tokens.drop_last()),
        }
    }
}

/// What the whole block attribute payload yields: the validated attribute,
/// or the kind and anchored error of the one diagnostic it raises — syn's
/// own error when the expression list does not parse, else the missing-width
/// diagnostic on the full attribute span when no width identifier occurs.
pub open spec fn spec_block_attr(ts: proc_macro2::TokenStream) -> Result<
    ProfileAttr,
    (DiagKind, syn::Error),
> {
    match attr_exprs_of(ts) {
        Err(e) => Err((DiagKind::SyntaxError, e)),
        Ok(exprs) => match last_width(spec_tokens_of(exprs)) {
            None => Err((DiagKind::MissingWidth, stream_error_of(ts, MSG_MISSING_WIDTH@))),
            Some(w) => Ok(
                ProfileAttr { base_addr: last_base(spec_tokens_of(exprs)), base_ty: w },
            ),
        },
    }
}

/// Whether `s` spells exactly the word `w`.
pub(crate) fn is_word(s: &String, w: &str) -> (b: bool)
    ensures
        b == (s@ == w@),
{
    let owned: String = w.to_owned();
    *s == owned
}

/// Classifies one attribute expression from its plain parts.
pub fn classify_attr_expr(name: &Option<String>, lit: &Option<u128>) -> (t: AttrToken)
    ensures
        t == spec_classify(name.deep_view(), *lit),
{
    match name {
        Some(s) => {
            if is_word(s, "u8") {
                AttrToken::Width(WordType::U8)
            } else if is_word(s, "u16") {
                AttrToken::Width(WordType::U16)
            } else if is_word(s, "u32") {
                AttrToken::Width(WordType::U32)
            } else if is_word(s, "u64") {
                AttrToken::Width(WordType::U64)
            } else if is_word(s, "u128") {
                AttrToken::Width(WordType::U128)
            } else if is_word(s, "DynBase") {
                AttrToken::DynBase
            } else {
                AttrToken::Other
            }
        },
        None => match lit {
            Some(v) => AttrToken::IntLit(*v),
            None => AttrToken::Other,
        },
    }
}

impl ProfileAttr {
    /// Folds a classified token sequence into the block attribute.
    ///
    /// Later tokens overwrite earlier ones for both the word type and the
    /// base mode. A sequence without a width identifier yields exactly the
    /// missing-width diagnostic, and nothing else does.
    pub fn from_tokens(tokens: &Vec<AttrToken>, missing_width: syn::Error) -> (r: Result<
        ProfileAttr,
        Diagnostic,
    >)
        ensures
            r is Err <==> last_width(tokens@) is None,
            r is Err ==> r->Err_0.kind == DiagKind::MissingWidth && r->Err_0.error
                == missing_width,
            r is Ok ==> Some(r->Ok_0.base_ty) == last_width(tokens@) && r->Ok_0.base_addr
                == last_base(tokens@),
    {
        let mut width: Option<WordType> = None;
        let mut base: BaseAddr = BaseAddr::Static(0);
        for i in 0..tokens.len()
            invariant
                width == last_width(tokens@.take(i as int)),
                base == last_base(tokens@.take(i as int)),
        {
            proof {
                assert(tokens@.take(i + 1).drop_last() =~= tokens@.take(i as int));
                assert(tokens@.take(i + 1).last() == tokens@[i as int]);
            }
            match tokens[i] {
                AttrToken::Width(w) => {
                    width = Some(w);
                },
                AttrToken::DynBase => {
                    base = BaseAddr::Dyn;
                },
                AttrToken::IntLit(v) => {
                    base = BaseAddr::Static(v);
                },
                AttrToken::Other => {},
            }
        }
        proof {
            assert(tokens@.take(tokens@.len() as int) =~= tokens@);
        }
        match width {
            Some(w) => Ok(ProfileAttr { base_addr: base, base_ty: w }),
            None => Err(Diagnostic { kind: DiagKind::MissingWidth, error: missing_width }),
        }
    }

    /// Parses the block attribute payload: the result is exactly what
    /// `spec_block_attr` says of these tokens.
    pub fn parse(attr: &proc_macro2::TokenStream) -> (r: Result<ProfileAttr, Diagnostic>)
        ensures
            r is Ok <==> spec_block_attr(*attr) is Ok,
            r is Ok ==> r->Ok_0 == spec_block_attr(*attr)->Ok_0,
            r is Err ==> r->Err_0.kind == spec_block_attr(*attr)->Err_0.0 && r->Err_0.error
                == spec_block_attr(*attr)->Err_0.1,
    {
        let exprs = match bridge::parse_attr_exprs(attr) {
            Ok(exprs) => exprs,
            Err(e) => {
                return Err(Diagnostic { kind: DiagKind::SyntaxError, error: e });
            },
        };
        let mut tokens: Vec<AttrToken> = Vec::new();
        for i in 0..exprs.len()
            invariant
                tokens@.len() == i,
                forall|j: int|
                    0 <= j < i ==> tokens@[j] == spec_classify(
                        ident_name_of(exprs@[j]),
                        int_value_of(exprs@[j]),
                    ),
        {
            let name = bridge::expr_ident_name(&exprs[i]);
            let lit = bridge::expr_int_value(&exprs[i]);
            tokens.push(classify_attr_expr(&name, &lit));
        }
        proof {
            assert(tokens@ =~= spec_tokens_of(exprs@));
        }
        Self::from_tokens(&tokens, bridge::error_at_stream(attr, MSG_MISSING_WIDTH))
    }
}

/// The parsed register profile declaration: its name, visibility and
/// documentation, and one register per field in declaration order.
#[derive(Debug)]
pub struct ProfileItem {
    pub name: proc_macro2::Ident,
    pub vis: syn::Visibility,
    pub doc: Vec<syn::Attribute>,
    pub registers: Vec<Register>,
}

/// The subsequence of attributes named `doc`, in order.
pub open spec fn spec_docs(attrs: Seq<syn::Attribute>) -> Seq<syn::Attribute>
    decreases attrs.len(),
{
    if attrs.len() == 0 {
        Seq::empty()
    } else if attr_name_of(attrs.last()) == Some("doc"@) {
        spec_docs(attrs.drop_last()).push(attrs.last())
    } else {
        spec_docs(attrs.drop_last())
    }
}

/// Collects exactly the attributes named `doc`, in order.
pub fn collect_docs(attrs: &Vec<syn::Attribute>) -> (docs: Vec<syn::Attribute>)
    ensures
        docs@ == spec_docs(attrs@),
{
    let mut docs: Vec<syn::Attribute> = Vec::new();
    for i in 0..attrs.len()
        invariant
            docs@ == spec_docs(attrs@.take(i as int)),
    {
        proof {
            assert(attrs@.take(i + 1).drop_last() =~= attrs@.take(i as int));
            assert(attrs@.take(i + 1).last() == attrs@[i as int]);
        }
        let name = bridge::attr_ident_name(&attrs[i]);
        if let Some(n) = name {
            if is_word(&n, "doc") {
                docs.push(attrs[i].clone());
            }
        }
    }
    proof {
        assert(attrs@.take(attrs@.len() as int) =~= attrs@);
    }
    docs
}

/// The diagnostic of the first field that does not reduce to a register:
/// `None` when every field reduces.
pub open spec fn fields_diag(fields: Seq<syn::Field>) -> Option<(DiagKind, syn::Error)>
    decreases fields.len(),
{
    if fields.len() == 0 {
        None
    } else if !spec_field_ok(fields.first()) {
        Some((spec_field_diag_kind(fields.first()), spec_field_diag_error(fields.first())))
    } else {
        fields_diag(fields.drop_first())
    }
}

/// A prefix of reducible fields stays diagnostic-free when the next field
/// reduces too.
proof fn lemma_fields_diag_step(fields: Seq<syn::Field>, i: int)
    requires
        0 <= i < fields.len(),
        fields_diag(fields.take(i)) is None,
        spec_field_ok(fields[i]),
    ensures
        fields_diag(fields.take(i + 1)) is None,
    decreases i,
{
    if i == 0 {
        assert(fields.take(1).first() == fields[0]);
        assert(fields.take(1).drop_first() =~= fields.take(0));
    } else {
        assert(fields.take(i + 1).first() == fields[0]);
        assert(fields.take(i).first() == fields[0]);
        assert(fields.take(i).drop_first() =~= fields.drop_first().take(i - 1));
        assert(fields.take(i + 1).drop_first() =~= fields.drop_first().take(i));
        assert(fields.drop_first()[i - 1] == fields[i]);
        lemma_fields_diag_step(fields.drop_first(), i - 1);
    }
}

/// When every field of a prefix reduces and the next one does not, that
/// field's diagnostic is the whole sequence's.
proof fn lemma_fields_diag_found(fields: Seq<syn::Field>, i: int)
    requires
        0 <= i < fields.len(),
        fields_diag(fields.take(i)) is None,
        !spec_field_ok(fields[i]),
    ensures
        fields_diag(fields) == Some(
            (spec_field_diag_kind(fields[i]), spec_field_diag_error(fields[i])),
        ),
    decreases i,
{
    if i == 0 {
        assert(fields.first() == fields[0]);
    } else {
        assert(fields.take(i).first() == fields[0]);
        assert(fields.first() == fields[0]);
        assert(fields.take(i).drop_first() =~= fields.drop_first().take(i - 1));
        assert(fields.drop_first()[i - 1] == fields[i]);
        lemma_fields_diag_found(fields.drop_first(), i - 1);
    }
}

/// What reducing a struct declaration yields: the generics gate first, then
/// the first failing field's own diagnostic, else the profile with name,
/// visibility, `doc` attributes and one register per field, in order.
pub open spec fn item_outcome_matches(st: syn::ItemStruct, r: Result<
    ProfileItem,
    Diagnostic,
>) -> bool {
    &&& (is_generic(st) <==> (r is Err && r->Err_0.kind == DiagKind::GenericsUnsupported))
    &&& is_generic(st) ==> r is Err && r->Err_0.error == generics_error_of(
        st,
        MSG_GENERICS_UNSUPPORTED@,
    )
    &&& !is_generic(st) ==> match fields_diag(item_fields_of(st)) {
        Some(d) => r is Err && r->Err_0.kind == d.0 && r->Err_0.error == d.1,
        None => r is Ok,
    }
    &&& r is Ok ==> {
        &&& r->Ok_0.name == item_name_of(st)
        &&& r->Ok_0.vis == item_vis_of(st)
        &&& r->Ok_0.doc@ == spec_docs(item_attrs_of(st))
        &&& r->Ok_0.registers@.len() == item_fields_of(st).len()
        &&& forall|i: int|
            0 <= i < item_fields_of(st).len() ==> register_matches_field(
                item_fields_of(st)[i],
                #[trigger] r->Ok_0.registers@[i],
            )
    }
}

impl ProfileItem {
    /// Reduces the parts of a struct declaration to a profile.
    ///
    /// A generic declaration yields exactly the generics diagnostic, before
    /// any field is looked at; otherwise the first failing field's own
    /// diagnostic aborts the reduction, and with none the profile carries the
    /// parts exactly: name, visibility, `doc` attributes, and one register
    /// per field in declaration order.
    pub fn from_parts(parts: ItemParts) -> (r: Result<ProfileItem, Diagnostic>)
        ensures
            parts.generics_err is Some <==> (r is Err && r->Err_0.kind
                == DiagKind::GenericsUnsupported),
            parts.generics_err is Some ==> r is Err && r->Err_0.error == parts.generics_err->0,
            parts.generics_err is None ==> match fields_diag(parts.fields@) {
                Some(d) => r is Err && r->Err_0.kind == d.0 && r->Err_0.error == d.1,
                None => r is Ok,
            },
            r is Ok ==> {
                &&& r->Ok_0.name == parts.name
                &&& r->Ok_0.vis == parts.vis
                &&& r->Ok_0.doc@ == spec_docs(parts.attrs@)
                &&& r->Ok_0.registers@.len() == parts.fields@.len()
                &&& forall|i: int|
                    0 <= i < parts.fields@.len() ==> register_matches_field(
                        parts.fields@[i],
                        #[trigger] r->Ok_0.registers@[i],
                    )
            },
    {
        let ItemParts { generics_err, name, vis, attrs, fields } = parts;
        if let Some(e) = generics_err {
            return Err(Diagnostic { kind: DiagKind::GenericsUnsupported, error: e });
        }
        let doc = collect_docs(&attrs);
        let mut registers: Vec<Register> = Vec::new();
        for i in 0..fields.len()
            invariant
                parts.generics_err is None,
                parts.fields == fields,
                registers@.len() == i,
                fields_diag(fields@.take(i as int)) is None,
                forall|j: int|
                    0 <= j < i ==> register_matches_field(
                        fields@[j],
                        #[trigger] registers@[j],
                    ),
        {
            match Register::from_field(&fields[i]) {
                Ok(reg) => {
                    proof {
                        lemma_fields_diag_step(fields@, i as int);
                    }
                    registers.push(reg);
                },
                Err(d) => {
                    proof {
                        lemma_fields_diag_found(fields@, i as int);
                    }
                    return Err(d);
                },
            }
        }
        proof {
            assert(fields@.take(fields@.len() as int) =~= fields@);
        }
        Ok(ProfileItem { name, vis, doc, registers })
    }

    /// Reduces a parsed struct declaration to a profile.
    pub fn try_from(st: &syn::ItemStruct) -> (r: Result<ProfileItem, Diagnostic>)
        ensures
            item_outcome_matches(*st, r),
    {
        Self::from_parts(bridge::item_parts(st, MSG_GENERICS_UNSUPPORTED))
    }

    /// Parses the annotated item as a register profile declaration.
    ///
    /// Tokens that are not a struct declaration surface syn's own error as a
    /// syntax diagnostic; a parsed declaration reduces as `try_from` says.
    pub fn parse(item: &proc_macro2::TokenStream) -> (r: Result<ProfileItem, Diagnostic>)
        ensures
            item_struct_of(*item) is Err ==> r is Err && r->Err_0.kind == DiagKind::SyntaxError
                && r->Err_0.error == item_struct_of(*item)->Err_0,
            item_struct_of(*item) is Ok ==> item_outcome_matches(item_struct_of(*item)->Ok_0, r),
    {
        match bridge::parse_item_struct(item) {
            Ok(st) => Self::try_from(&st),
            Err(e) => Err(Diagnostic { kind: DiagKind::SyntaxError, error: e }),
        }
    }
}

/// A validated block attribute together with a parsed declaration: all that
/// generation needs.
pub struct Profile {
    pub attr: ProfileAttr,
    pub item: ProfileItem,
}

} // verus!
