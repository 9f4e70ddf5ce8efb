//! The emission plan.
//!
//! A successful generation is described by a `GeneratedUnit`: exactly one
//! profile container declaration, and one `RegisterUnit` per register in
//! declaration order. Each `RegisterUnit` stands for exactly one handle type
//! declaration, one implementation of the ambient `Register` interface
//! binding the handle to its cache wrapper type, and one implementation of
//! the ambient `Profile<handle>` interface whose two accessors each perform
//! a single volatile memory operation of the block's word width at the
//! address `base + offset`. Rendering the plan to source tokens is a purely
//! mechanical step outside this library.
//!
//! The cache wrapper type is adopted opaquely; the accessors assume it is a
//! single-positional-field aggregate whose one field holds the raw word.
use vstd::prelude::*;

use crate::bridge::{
    field_attrs_of, field_name_of, field_ty_of, field_vis_of, item_attrs_of, item_fields_of,
    item_name_of, item_vis_of,
};
use crate::profile::{spec_docs, BaseAddr, Profile, ProfileAttr, WordType};
use crate::register::{spec_first_offset, Register};

verus! {

/// The base operand of the effective-address computation `base + offset`.
#[derive(Clone, Copy, PartialEq, Eq, Structural, Debug)]
pub enum BaseExpr {
    /// The block attribute's integer literal (static base mode).
    Literal(u128),
    /// The first positional field of the profile container (dynamic base
    /// mode).
    ProfileField,
}

/// One accessor operation: a single volatile load or store of `width` at the
/// effective address `base + offset`, with `offset` in bytes.
#[derive(Clone, Copy, PartialEq, Eq, Structural, Debug)]
pub struct Accessor {
    pub base: BaseExpr,
    pub offset: u128,
    pub width: WordType,
}

/// The declaration of one zero-sized register handle type.
#[derive(Debug)]
pub struct HandleDecl {
    pub name: proc_macro2::Ident,
    pub vis: syn::Visibility,
    pub doc: Vec<syn::Attribute>,
}

/// The declaration of the profile container type: zero-sized for a static
/// base, or with a single pointer-sized positional field holding the
/// runtime-captured base when `dynamic` is set.
#[derive(Debug)]
pub struct ContainerDecl {
    pub name: proc_macro2::Ident,
    pub vis: syn::Visibility,
    pub doc: Vec<syn::Attribute>,
    pub dynamic: bool,
}

/// Everything emitted for one register: the handle type, the `Register`
/// interface implementation binding it to `cache_ty`, and the two accessors
/// of the `Profile<handle>` interface implementation.
#[derive(Debug)]
pub struct RegisterUnit {
    pub handle: HandleDecl,
    pub cache_ty: syn::Type,
    pub cache_op: Accessor,
    pub flush_op: Accessor,
}

/// The whole emission plan of one successful generation.
#[derive(Debug)]
pub struct GeneratedUnit {
    pub container: ContainerDecl,
    pub registers: Vec<RegisterUnit>,
}

/// The base operand dictated by the block's base mode.
pub open spec fn spec_base_expr(base: BaseAddr) -> BaseExpr {
    match base {
        BaseAddr::Dyn => BaseExpr::ProfileField,
        BaseAddr::Static(v) => BaseExpr::Literal(v),
    }
}

/// The one accessor shape both operations of a register share: the block's
/// base operand, the register's own byte offset, and the block's word width.
pub open spec fn spec_accessor(attr: ProfileAttr, reg: Register) -> Accessor {
    Accessor { base: spec_base_expr(attr.base_addr), offset: reg.offset, width: attr.base_ty }
}

/// The handle type carries the register's name, visibility and
/// documentation.
pub open spec fn handle_matches(reg: Register, h: HandleDecl) -> bool {
    &&& h.name == reg.name
    &&& h.vis == reg.vis
    &&& h.doc@ == reg.doc@
}

/// What is emitted for one register matches that register: the handle, the
/// cache wrapper binding, and a `cache`/`flush` pair that agree on the same
/// effective-address computation and word width.
pub open spec fn register_unit_matches(attr: ProfileAttr, reg: Register, u: RegisterUnit) -> bool {
    &&& handle_matches(reg, u.handle)
    &&& u.cache_ty == reg.cache_ty
    &&& u.cache_op == spec_accessor(attr, reg)
    &&& u.flush_op == spec_accessor(attr, reg)
}

/// The container declaration carries the aggregate's name, visibility and
/// documentation, and is dynamic exactly when the base mode is.
pub open spec fn container_matches(p: Profile, c: ContainerDecl) -> bool {
    &&& c.name == p.item.name
    &&& c.vis == p.item.vis
    &&& c.doc@ == p.item.doc@
    &&& c.dynamic == (p.attr.base_addr is Dyn)
}

/// The whole plan matches the profile: one container for the aggregate, and
/// one matching register unit per register, in declaration order.
pub open spec fn unit_matches(p: Profile, u: GeneratedUnit) -> bool {
    &&& container_matches(p, u.container)
    &&& u.registers@.len() == p.item.registers@.len()
    &&& forall|i: int|
        0 <= i < u.registers@.len() ==> register_unit_matches(
            p.attr,
            p.item.registers@[i],
            #[trigger] u.registers@[i],
        )
}

impl Register {
    /// The declaration of this register's handle type.
    pub fn handle(&self) -> (h: HandleDecl)
        ensures
            handle_matches(*self, h),
    {
        let doc = self.doc.clone();
        proof {
            assert(doc@ =~= self.doc@);
        }
        HandleDecl { name: self.name.clone(), vis: self.vis.clone(), doc }
    }
}

impl Profile {
    /// Everything emitted for one register.
    fn register_unit(attr: &ProfileAttr, reg: &Register) -> (u: RegisterUnit)
        ensures
            register_unit_matches(*attr, *reg, u),
    {
        let accessor = Accessor {
            base: match attr.base_addr {
                BaseAddr::Dyn => BaseExpr::ProfileField,
                BaseAddr::Static(v) => BaseExpr::Literal(v),
            },
            offset: reg.offset,
            width: attr.base_ty,
        };
        RegisterUnit {
            handle: reg.handle(),
            cache_ty: reg.cache_ty.clone(),
            cache_op: accessor,
            flush_op: accessor,
        }
    }

    /// Produces the emission plan for this profile.
    pub fn emit(&self) -> (u: GeneratedUnit)
        ensures
            unit_matches(*self, u),
    {
        let dynamic = matches!(self.attr.base_addr, BaseAddr::Dyn);
        let doc = self.item.doc.clone();
        proof {
            assert(doc@ =~= self.item.doc@);
        }
        let container = ContainerDecl {
            name: self.item.name.clone(),
            vis: self.item.vis.clone(),
            doc,
            dynamic,
        };
        let mut registers: Vec<RegisterUnit> = Vec::new();
        for i in 0..self.item.registers.len()
            invariant
                registers@.len() == i,
                forall|j: int|
                    0 <= j < i ==> register_unit_matches(
                        self.attr,
                        self.item.registers@[j],
                        #[trigger] registers@[j],
                    ),
        {
            registers.push(Self::register_unit(&self.attr, &self.item.registers[i]));
        }
        GeneratedUnit { container, registers }
    }
}

/// One register unit as dictated directly by one field of the input struct:
/// the handle carries the field's name, visibility and `doc` attributes, the
/// wrapper binding its declared type, and both accessors the block's base
/// operand and word width with the field's first offset value.
pub open spec fn register_unit_from_field(pa: ProfileAttr, f: syn::Field, ru: RegisterUnit) -> bool {
    &&& Some(ru.handle.name) == field_name_of(f)
    &&& ru.handle.vis == field_vis_of(f)
    &&& ru.handle.doc@ == spec_docs(field_attrs_of(f))
    &&& ru.cache_ty == field_ty_of(f)
    &&& Some(Ok::<u128, syn::Error>(ru.cache_op.offset)) == spec_first_offset(field_attrs_of(f))
    &&& ru.cache_op.base == spec_base_expr(pa.base_addr)
    &&& ru.cache_op.width == pa.base_ty
    &&& ru.flush_op == ru.cache_op
}

/// The whole plan as dictated directly by the validated block attribute and
/// the parsed struct declaration: the container carries the struct's name,
/// visibility and `doc` attributes and is dynamic exactly in dynamic base
/// mode, and each field dictates its register unit, in declaration order.
pub open spec fn generated_matches(pa: ProfileAttr, st: syn::ItemStruct, u: GeneratedUnit) -> bool {
    &&& u.container.name == item_name_of(st)
    &&& u.container.vis == item_vis_of(st)
    &&& u.container.doc@ == spec_docs(item_attrs_of(st))
    &&& u.container.dynamic == (pa.base_addr is Dyn)
    &&& u.registers@.len() == item_fields_of(st).len()
    &&& forall|i: int|
        0 <= i < item_fields_of(st).len() ==> register_unit_from_field(
            pa,
            item_fields_of(st)[i],
            #[trigger] u.registers@[i],
        )
}

/// Fields of two register units that stand for token-identical output.
pub open spec fn register_units_alike(a: RegisterUnit, b: RegisterUnit) -> bool {
    &&& a.handle.name == b.handle.name
    &&& a.handle.vis == b.handle.vis
    &&& a.handle.doc@ == b.handle.doc@
    &&& a.cache_ty == b.cache_ty
    &&& a.cache_op == b.cache_op
    &&& a.flush_op == b.flush_op
}

/// Fields of two whole plans that stand for token-identical output.
pub open spec fn units_alike(u1: GeneratedUnit, u2: GeneratedUnit) -> bool {
    &&& u1.container.name == u2.container.name
    &&& u1.container.vis == u2.container.vis
    &&& u1.container.doc@ == u2.container.doc@
    &&& u1.container.dynamic == u2.container.dynamic
    &&& u1.registers@.len() == u2.registers@.len()
    &&& forall|i: int|
        0 <= i < u1.registers@.len() ==> register_units_alike(
            #[trigger] u1.registers@[i],
            u2.registers@[i],
        )
}

/// Generation is deterministic: two emission plans for the same profile
/// agree on every emitted declaration, so identical inputs render to
/// token-equal outputs.
pub proof fn lemma_generation_deterministic(p: Profile, u1: GeneratedUnit, u2: GeneratedUnit)
    requires
        unit_matches(p, u1),
        unit_matches(p, u2),
    ensures
        units_alike(u1, u2),
{
    assert forall|i: int|
        0 <= i < u1.registers@.len() implies register_units_alike(
        #[trigger] u1.registers@[i],
        u2.registers@[i],
    ) by {
        assert(register_unit_matches(p.attr, p.item.registers@[i], u1.registers@[i]));
        assert(register_unit_matches(p.attr, p.item.registers@[i], u2.registers@[i]));
    }
}

} // verus!
