//! A build-time generator for memory-mapped I/O register profiles.
//!
//! A register block is declared as a struct whose fields are individual
//! registers annotated with byte offsets:
//!
//! ```text
//! #[mmio(u32, 0x4000_0000)]
//! pub struct Glb {
//!     #[offset(0x180)]
//!     pub GpioInput: gpio::input::Cache,
//! }
//! ```
//!
//! The block attribute names the word width of every register in the block
//! (`u8` through `u128`) and the base address: an integer literal for a
//! static base (default `0`), or `DynBase` for a base captured at runtime
//! and stored in the profile container. Every field needs an
//! `offset(<integer literal>)` attribute; the effective address of a
//! register is always `base + offset`.
//!
//! [`mmio`] turns the two token streams of such an annotated declaration
//! into a [`GeneratedUnit`](emit::GeneratedUnit): the plan for one profile
//! container type and, per register, a zero-sized handle type and a
//! `cache`/`flush` accessor pair of volatile operations at the declared
//! width. Malformed input yields a single [`Diagnostic`](diag::Diagnostic)
//! and no plan. Rendering the plan to source tokens, like surfacing the
//! diagnostic, is left to the surrounding (unverified) macro shell.
use vstd::prelude::*;

pub mod bridge;
pub mod diag;
pub mod emit;
pub mod profile;
pub mod register;

use crate::bridge::{generics_error_of, is_generic, item_fields_of, item_struct_of};
use crate::diag::{DiagKind, Diagnostic, MSG_GENERICS_UNSUPPORTED};
use crate::emit::{
    generated_matches, register_unit_from_field, register_units_alike, units_alike, GeneratedUnit,
};
use crate::profile::{
    fields_diag, item_outcome_matches, spec_block_attr, Profile, ProfileAttr, ProfileItem,
};
use crate::register::register_matches_field;

verus! {

/// What generation yields for one parsed declaration, given the validated
/// block attribute: the generics diagnostic first, then the first failing
/// field's own diagnostic, else the plan dictated by the attribute and the
/// declaration.
pub open spec fn generation_for_item(
    pa: ProfileAttr,
    st: syn::ItemStruct,
    r: Result<GeneratedUnit, Diagnostic>,
) -> bool {
    &&& is_generic(st) ==> r is Err && r->Err_0.kind == DiagKind::GenericsUnsupported
        && r->Err_0.error == generics_error_of(st, MSG_GENERICS_UNSUPPORTED@)
    &&& !is_generic(st) ==> match fields_diag(item_fields_of(st)) {
        Some(d) => r is Err && r->Err_0.kind == d.0 && r->Err_0.error == d.1,
        None => r is Ok && generated_matches(pa, st, r->Ok_0),
    }
}

/// What the whole generation yields for the two input token streams, stage
/// by stage and fail-fast: the block attribute's diagnostic first (the item
/// contributes nothing to it), then the item parse's own syntax error, then
/// the generics gate and the first failing field, and with no diagnostic the
/// plan pinned to the parsed input.
pub open spec fn mmio_outcome_matches(
    attr: proc_macro2::TokenStream,
    item: proc_macro2::TokenStream,
    r: Result<GeneratedUnit, Diagnostic>,
) -> bool {
    &&& (spec_block_attr(attr) matches Err(d) ==> r is Err && r->Err_0.kind == d.0
        && r->Err_0.error == d.1)
    &&& (spec_block_attr(attr) is Ok && item_struct_of(item) is Err ==> r is Err && r->Err_0.kind
        == DiagKind::SyntaxError && r->Err_0.error == item_struct_of(item)->Err_0)
    &&& (spec_block_attr(attr) is Ok ==> (item_struct_of(item) matches Ok(st)
        ==> generation_for_item(spec_block_attr(attr)->Ok_0, st, r)))
}

/// Turns the block attribute payload and the annotated item into an emission
/// plan, or into the single diagnostic that aborts generation.
///
/// The outcome is a function of the two token streams alone, as
/// [`mmio_outcome_matches`] states stage by stage; on failure nothing is
/// emitted at all.
pub fn mmio(attr: &proc_macro2::TokenStream, item: &proc_macro2::TokenStream) -> (r: Result<
    GeneratedUnit,
    Diagnostic,
>)
    ensures
        mmio_outcome_matches(*attr, *item, r),
{
    let attr_result = ProfileAttr::parse(attr);
    let parsed_attr = match attr_result {
        Ok(a) => a,
        Err(d) => {
            return Err(d);
        },
    };
    let item_result = ProfileItem::parse(item);
    let ghost ghost_item_result = item_result;
    let parsed_item = match item_result {
        Ok(it) => it,
        Err(d) => {
            return Err(d);
        },
    };
    let profile = Profile { attr: parsed_attr, item: parsed_item };
    let unit = profile.emit();
    let result: Result<GeneratedUnit, Diagnostic> = Ok(unit);
    proof {
        let st = item_struct_of(*item)->Ok_0;
        assert(item_outcome_matches(st, ghost_item_result));
        assert(profile.item == ghost_item_result->Ok_0);
        assert forall|i: int|
            0 <= i < item_fields_of(st).len() implies register_unit_from_field(
            parsed_attr,
            item_fields_of(st)[i],
            #[trigger] result->Ok_0.registers@[i],
        ) by {
            assert(register_matches_field(
                item_fields_of(st)[i],
                ghost_item_result->Ok_0.registers@[i],
            ));
            assert(emit::register_unit_matches(
                profile.attr,
                profile.item.registers@[i],
                unit.registers@[i],
            ));
        }
        assert(generated_matches(parsed_attr, st, result->Ok_0));
    }
    result
}

/// Generation as a whole is deterministic: any two outcomes that
/// [`mmio_outcome_matches`] admits for the same pair of token streams agree
/// — the same diagnostic kind and anchored error, or plans that match on
/// every emitted declaration — so identical inputs render to token-equal
/// outputs.
pub proof fn lemma_mmio_deterministic(
    attr: proc_macro2::TokenStream,
    item: proc_macro2::TokenStream,
    r1: Result<GeneratedUnit, Diagnostic>,
    r2: Result<GeneratedUnit, Diagnostic>,
)
    requires
        mmio_outcome_matches(attr, item, r1),
        mmio_outcome_matches(attr, item, r2),
    ensures
        r1 is Ok <==> r2 is Ok,
        r1 is Err ==> r1->Err_0.kind == r2->Err_0.kind && r1->Err_0.error == r2->Err_0.error,
        r1 is Ok ==> units_alike(r1->Ok_0, r2->Ok_0),
{
    match spec_block_attr(attr) {
        Err(d) => {},
        Ok(pa) => match item_struct_of(item) {
            Err(e) => {},
            Ok(st) => {
                if !is_generic(st) && fields_diag(item_fields_of(st)) is None {
                    assert forall|i: int|
                        0 <= i < r1->Ok_0.registers@.len() implies register_units_alike(
                        #[trigger] r1->Ok_0.registers@[i],
                        r2->Ok_0.registers@[i],
                    ) by {
                        assert(register_unit_from_field(
                            pa,
                            item_fields_of(st)[i],
                            r1->Ok_0.registers@[i],
                        ));
                        assert(register_unit_from_field(
                            pa,
                            item_fields_of(st)[i],
                            r2->Ok_0.registers@[i],
                        ));
                    }
                }
            },
        },
    }
}

} // verus!
