//! One register: the reduction of a struct field.
//!
//! A field becomes a register when it has a name and carries an
//! `offset(<integer literal>)` attribute. Its `doc` attributes are preserved
//! for the emitted handle type; its declared type becomes the cache wrapper
//! type, and its visibility is propagated. The first `offset` attribute is
//! the one that counts; later ones are ignored entirely.
use vstd::prelude::*;

use crate::bridge;
use crate::bridge::{
    attr_name_of, attr_payload_of, field_attrs_of, field_error_of, field_name_of, field_ty_of,
    field_vis_of, FieldParts,
};
use crate::diag::{DiagKind, Diagnostic, MSG_MISSING_OFFSET, MSG_UNNAMED_FIELD};
use crate::profile::{is_word, spec_docs};

verus! {

/// One register of the block: the byte offset of its word, its preserved
/// documentation, its name (reused for the emitted handle type), the cache
/// wrapper type, and the propagated visibility.
#[derive(Debug)]
pub struct Register {
    pub offset: u128,
    pub doc: Vec<syn::Attribute>,
    pub name: proc_macro2::Ident,
    pub cache_ty: syn::Type,
    pub vis: syn::Visibility,
}

/// The payload of the first attribute named `offset`, if any: `None` when no
/// attribute is named `offset`, otherwise that first attribute's payload
/// (which may itself be a parse error).
pub open spec fn spec_first_offset(attrs: Seq<syn::Attribute>) -> Option<Result<u128, syn::Error>>
    decreases attrs.len(),
{
    if attrs.len() == 0 {
        None
    } else if attr_name_of(attrs.first()) == Some("offset"@) {
        Some(attr_payload_of(attrs.first()))
    } else {
        spec_first_offset(attrs.drop_first())
    }
}

/// A prefix without an `offset` attribute stays without one when the next
/// attribute is not named `offset` either.
proof fn lemma_first_offset_step(attrs: Seq<syn::Attribute>, i: int)
    requires
        0 <= i < attrs.len(),
        spec_first_offset(attrs.take(i)) is None,
        attr_name_of(attrs[i]) != Some("offset"@),
    ensures
        spec_first_offset(attrs.take(i + 1)) is None,
    decreases i,
{
    if i == 0 {
        assert(attrs.take(1).first() == attrs[0]);
        assert(attrs.take(1).drop_first() =~= attrs.take(0));
    } else {
        assert(attrs.take(i + 1).first() == attrs[0]);
        assert(attrs.take(i).first() == attrs[0]);
        assert(attrs.take(i).drop_first() =~= attrs.drop_first().take(i - 1));
        assert(attrs.take(i + 1).drop_first() =~= attrs.drop_first().take(i));
        assert(attrs.drop_first()[i - 1] == attrs[i]);
        lemma_first_offset_step(attrs.drop_first(), i - 1);
    }
}

/// When a prefix holds no `offset` attribute and the next attribute is named
/// `offset`, that attribute's payload is the first offset of the whole
/// sequence.
proof fn lemma_first_offset_found(attrs: Seq<syn::Attribute>, i: int)
    requires
        0 <= i < attrs.len(),
        spec_first_offset(attrs.take(i)) is None,
        attr_name_of(attrs[i]) == Some("offset"@),
    ensures
        spec_first_offset(attrs) == Some(attr_payload_of(attrs[i])),
    decreases i,
{
    if i == 0 {
        assert(attrs.first() == attrs[0]);
    } else {
        assert(attrs.take(i).first() == attrs[0]);
        assert(attrs.first() == attrs[0]);
        assert(attrs.take(i).drop_first() =~= attrs.drop_first().take(i - 1));
        assert(attrs.drop_first()[i - 1] == attrs[i]);
        lemma_first_offset_found(attrs.drop_first(), i - 1);
    }
}

/// The outcome of scanning one field's attributes: its `doc` attributes in
/// order, and the value of the first `offset(...)` attribute, if any; a
/// malformed first offset surfaces syn's own payload diagnostic.
pub fn scan_field_attrs(attrs: &Vec<syn::Attribute>) -> (r: Result<
    (Vec<syn::Attribute>, Option<u128>),
    Diagnostic,
>)
    ensures
        r is Err <==> (spec_first_offset(attrs@) matches Some(p) && p is Err),
        r is Err ==> r->Err_0.kind == DiagKind::MalformedOffset && Some(
            Err::<u128, syn::Error>(r->Err_0.error),
        ) == spec_first_offset(attrs@),
        r is Ok ==> r->Ok_0.0@ == spec_docs(attrs@),
        r is Ok ==> match spec_first_offset(attrs@) {
            None => r->Ok_0.1 is None,
            Some(p) => p matches Ok(v) && r->Ok_0.1 == Some(v),
        },
{
    let mut docs: Vec<syn::Attribute> = Vec::new();
    let mut offset: Option<u128> = None;
    for i in 0..attrs.len()
        invariant
            docs@ == spec_docs(attrs@.take(i as int)),
            match offset {
                Some(v) => spec_first_offset(attrs@) == Some(Ok::<u128, syn::Error>(v)),
                None => spec_first_offset(attrs@.take(i as int)) is None,
            },
    {
        proof {
            reveal_strlit("doc");
            reveal_strlit("offset");
            assert("offset"@.len() == 6);
            assert("doc"@.len() == 3);
            assert(attrs@.take(i + 1).drop_last() =~= attrs@.take(i as int));
            assert(attrs@.take(i + 1).last() == attrs@[i as int]);
        }
        let name = bridge::attr_ident_name(&attrs[i]);
        match name {
            Some(n) => {
                proof {
                    assert(attr_name_of(attrs@[i as int]) == Some(n@));
                }
                if is_word(&n, "offset") {
                    proof {
                        assert(attr_name_of(attrs@[i as int]) == Some("offset"@));
                        assert(attr_name_of(attrs@[i as int]) != Some("doc"@));
                        assert(spec_docs(attrs@.take(i + 1)) == spec_docs(attrs@.take(i as int)));
                    }
                    if offset.is_none() {
                        proof {
                            lemma_first_offset_found(attrs@, i as int);
                        }
                        match bridge::attr_int_payload(&attrs[i]) {
                            Ok(v) => {
                                offset = Some(v);
                            },
                            Err(e) => {
                                return Err(
                                    Diagnostic { kind: DiagKind::MalformedOffset, error: e },
                                );
                            },
                        }
                    }
                } else if is_word(&n, "doc") {
                    proof {
                        assert(attr_name_of(attrs@[i as int]) == Some("doc"@));
                        if offset is None {
                            lemma_first_offset_step(attrs@, i as int);
                        }
                    }
                    docs.push(attrs[i].clone());
                    proof {
                        assert(docs@ == spec_docs(attrs@.take(i as int)).push(attrs@[i as int]));
                        assert(spec_docs(attrs@.take(i + 1)) == spec_docs(attrs@.take(i as int)).push(
                            attrs@[i as int],
                        ));
                    }
                } else {
                    proof {
                        assert(attr_name_of(attrs@[i as int]) != Some("doc"@));
                        assert(attr_name_of(attrs@[i as int]) != Some("offset"@));
                        assert(spec_docs(attrs@.take(i + 1)) == spec_docs(attrs@.take(i as int)));
                        if offset is None {
                            lemma_first_offset_step(attrs@, i as int);
                        }
                    }
                }
            },
            None => {
                proof {
                    assert(attr_name_of(attrs@[i as int]) is None);
                    assert(spec_docs(attrs@.take(i + 1)) == spec_docs(attrs@.take(i as int)));
                    if offset is None {
                        lemma_first_offset_step(attrs@, i as int);
                    }
                }
            },
        }
    }
    proof {
        assert(attrs@.take(attrs@.len() as int) =~= attrs@);
    }
    Ok((docs, offset))
}

/// Whether a field reduces to a register: it is named and its first `offset`
/// attribute exists and carries a well-formed payload.
pub open spec fn spec_field_ok(f: syn::Field) -> bool {
    &&& field_name_of(f) is Some
    &&& spec_first_offset(field_attrs_of(f)) matches Some(p) && p is Ok
}

/// Whether a field's first `offset` attribute exists but its payload is not
/// a non-negative integer literal.
pub open spec fn spec_field_malformed(f: syn::Field) -> bool {
    spec_first_offset(field_attrs_of(f)) matches Some(p) && p is Err
}

/// The diagnostic kind a failing field yields, in the order the gates run:
/// a malformed offset payload surfaces first, then a missing name, then a
/// missing offset.
pub open spec fn spec_field_diag_kind(f: syn::Field) -> DiagKind {
    if spec_field_malformed(f) {
        DiagKind::MalformedOffset
    } else if field_name_of(f) is None {
        DiagKind::UnnamedField
    } else {
        DiagKind::MissingOffset
    }
}

/// The anchored error a failing field yields: syn's own payload diagnostic
/// for a malformed offset, else the fixed message anchored to the field.
pub open spec fn spec_field_diag_error(f: syn::Field) -> syn::Error {
    if spec_field_malformed(f) {
        spec_first_offset(field_attrs_of(f))->0->Err_0
    } else if field_name_of(f) is None {
        field_error_of(f, MSG_UNNAMED_FIELD@)
    } else {
        field_error_of(f, MSG_MISSING_OFFSET@)
    }
}

/// The register a field reduces to: its name, the first offset's value, its
/// `doc` attributes in order, its declared type and its visibility.
pub open spec fn register_matches_field(f: syn::Field, reg: Register) -> bool {
    &&& Some(reg.name) == field_name_of(f)
    &&& Some(Ok::<u128, syn::Error>(reg.offset)) == spec_first_offset(field_attrs_of(f))
    &&& reg.doc@ == spec_docs(field_attrs_of(f))
    &&& reg.cache_ty == field_ty_of(f)
    &&& reg.vis == field_vis_of(f)
}

impl Register {
    /// Assembles a register from the scanned parts of a field.
    ///
    /// A nameless field yields exactly the unnamed-field diagnostic; a named
    /// field without an offset yields exactly the missing-offset diagnostic;
    /// otherwise the register carries the parts unchanged.
    pub fn assemble(
        name: Option<proc_macro2::Ident>,
        unnamed: syn::Error,
        offset: Option<u128>,
        no_offset: syn::Error,
        doc: Vec<syn::Attribute>,
        cache_ty: syn::Type,
        vis: syn::Visibility,
    ) -> (r: Result<Register, Diagnostic>)
        ensures
            name is None <==> r is Err && r->Err_0.kind == DiagKind::UnnamedField,
            name is None ==> r is Err && r->Err_0.error == unnamed,
            name is Some && offset is None <==> r is Err && r->Err_0.kind
                == DiagKind::MissingOffset,
            name is Some && offset is None ==> r is Err && r->Err_0.error == no_offset,
            r is Ok <==> name is Some && offset is Some,
            r is Ok ==> r->Ok_0.name == name->0 && r->Ok_0.offset == offset->0 && r->Ok_0.doc
                == doc && r->Ok_0.cache_ty == cache_ty && r->Ok_0.vis == vis,
    {
        let name = match name {
            Some(n) => n,
            None => {
                return Err(Diagnostic { kind: DiagKind::UnnamedField, error: unnamed });
            },
        };
        let offset = match offset {
            Some(v) => v,
            None => {
                return Err(Diagnostic { kind: DiagKind::MissingOffset, error: no_offset });
            },
        };
        Ok(Register { offset, doc, name, cache_ty, vis })
    }

    /// Reduces one struct field to a register.
    ///
    /// The field's attributes are scanned first, so a malformed offset
    /// payload surfaces its own diagnostic even on a field that would also
    /// fail a later gate; then a nameless field is rejected, then one whose
    /// attributes name no offset at all.
    pub fn from_field(f: &syn::Field) -> (r: Result<Register, Diagnostic>)
        ensures
            r is Ok <==> spec_field_ok(*f),
            r is Ok ==> register_matches_field(*f, r->Ok_0),
            r is Err ==> r->Err_0.kind == spec_field_diag_kind(*f) && r->Err_0.error
                == spec_field_diag_error(*f),
    {
        let FieldParts { name, vis, ty, attrs, unnamed_err, no_offset_err } = bridge::field_parts(
            f,
            MSG_UNNAMED_FIELD,
            MSG_MISSING_OFFSET,
        );
        let (doc, offset) = match scan_field_attrs(&attrs) {
            Ok(scanned) => scanned,
            Err(d) => {
                return Err(d);
            },
        };
        Self::assemble(name, unnamed_err, offset, no_offset_err, doc, ty, vis)
    }
}

} // verus!
