//! Shape synthesis: derives, from a field's classification, the two types
//! the emitted builder uses for that field — the storage type of the
//! builder's own field and the parameter type of the field's setter.
//!
//! A mandatory field is stored wrapped in the optional container, so it can
//! start unset, and its setter takes the field's declared type. An optional
//! field keeps its declared, already-optional type as storage, and its
//! setter takes the unwrapped inner type, so callers pass the plain value.

use vstd::prelude::*;

use crate::ast::{FieldDescription, TypeExpr, TypeExprModel};
use crate::classify::{FieldClassification, FieldClassificationModel};

verus! {

/// The storage type of one builder field: the field's declared type, either
/// wrapped in the optional container (`wrapped` set, for a mandatory field)
/// or kept exactly as declared (for an already-optional field).
#[derive(Debug, PartialEq, Eq)]
pub struct StorageType {
    pub wrapped: bool,
    pub ty: TypeExpr,
}

/// Mathematical image of a [`StorageType`].
pub struct StorageTypeModel {
    pub wrapped: bool,
    pub ty: TypeExprModel,
}

impl View for StorageType {
    type V = StorageTypeModel;

    open spec fn view(&self) -> StorageTypeModel {
        StorageTypeModel { wrapped: self.wrapped, ty: self.ty@ }
    }
}

/// The synthesized shape of one builder field: its storage type and the
/// type of the value its setter takes. A missing setter-parameter type is
/// the malformed case left by an optional wrapper without exactly one type
/// argument; emission then leaves that type position empty rather than
/// failing.
#[derive(Debug, PartialEq, Eq)]
pub struct BuilderFieldShape {
    pub storage: StorageType,
    pub setter_param: Option<TypeExpr>,
}

/// Mathematical image of a [`BuilderFieldShape`].
pub struct BuilderFieldShapeModel {
    pub storage: StorageTypeModel,
    pub setter_param: Option<TypeExprModel>,
}

impl View for BuilderFieldShape {
    type V = BuilderFieldShapeModel;

    open spec fn view(&self) -> BuilderFieldShapeModel {
        BuilderFieldShapeModel {
            storage: self.storage@,
            setter_param: match self.setter_param {
                Option::None => Option::None,
                Option::Some(t) => Option::Some(t@),
            },
        }
    }
}

/// What synthesis yields for a field of declared type `t` classified as
/// `c`: mandatory fields get wrapped storage and a setter taking `t`;
/// optional fields keep `t` as storage and their setter takes the inner
/// type, when one was extracted.
pub open spec fn shape_of(c: FieldClassificationModel, t: TypeExprModel) -> BuilderFieldShapeModel {
    match c {
        FieldClassificationModel::Mandatory => BuilderFieldShapeModel {
            storage: StorageTypeModel { wrapped: true, ty: t },
            setter_param: Option::Some(t),
        },
        FieldClassificationModel::Optional { inner } => BuilderFieldShapeModel {
            storage: StorageTypeModel { wrapped: false, ty: t },
            setter_param: inner,
        },
    }
}

/// Synthesizes the builder-side shape of one field from its classification.
/// Pure and total: malformed classifications pass through as an empty
/// setter-parameter position, never as an error.
pub fn synthesize(c: &FieldClassification, field: &FieldDescription) -> (r: BuilderFieldShape)
    ensures
        r@ == shape_of(c@, field.ty@),
{
    match c {
        FieldClassification::Mandatory => BuilderFieldShape {
            storage: StorageType { wrapped: true, ty: field.ty.clone() },
            setter_param: Option::Some(field.ty.clone()),
        },
        FieldClassification::Optional { inner } => BuilderFieldShape {
            storage: StorageType { wrapped: false, ty: field.ty.clone() },
            setter_param: match inner {
                Option::None => Option::None,
                Option::Some(t) => Option::Some(t.clone()),
            },
        },
    }
}

} // verus!
