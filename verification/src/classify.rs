//! Field classification: decides whether a declared field is optional —
//! already wrapped in the optional container — or mandatory, and extracts
//! the wrapped inner type of an optional field.
//!
//! The decision is a single syntactic name match on the first path segment
//! of the field's declared type. No later segments are read and no alias or
//! qualification resolution happens, so `std::option::Option<T>` counts as
//! mandatory; this is a known, deliberately kept limitation.

use vstd::prelude::*;

use crate::ast::{FieldDescription, GenericArg, GenericArgModel, TypeExpr, TypeExprModel};

verus! {

/// The classification of one declared field.
#[derive(Debug, PartialEq, Eq)]
pub enum FieldClassification {
    /// The field must be set before finalization succeeds.
    Mandatory,
    /// The field is already wrapped in the optional container. `inner` is
    /// the wrapped type when the wrapper carries exactly one type argument;
    /// a wrapper with any other argument list yields no inner type, and
    /// emission then leaves the setter's parameter-type position empty.
    Optional { inner: Option<TypeExpr> },
}

/// Mathematical image of a [`FieldClassification`].
pub enum FieldClassificationModel {
    Mandatory,
    Optional { inner: Option<TypeExprModel> },
}

impl View for FieldClassification {
    type V = FieldClassificationModel;

    open spec fn view(&self) -> FieldClassificationModel {
        match self {
            FieldClassification::Mandatory => FieldClassificationModel::Mandatory,
            FieldClassification::Optional { inner } => FieldClassificationModel::Optional {
                inner: match inner {
                    Option::None => Option::None,
                    Option::Some(t) => Option::Some(t@),
                },
            },
        }
    }
}

/// The identifier that marks a field optional when it heads the field's
/// declared type.
pub open spec fn optional_wrapper() -> Seq<char> {
    "Option"@
}

/// A type is optional exactly when it is a path type whose first segment is
/// named `Option`. A path without segments cannot come from the host
/// parser; it counts as mandatory here so that classification stays total.
pub open spec fn is_optional_type(t: TypeExprModel) -> bool {
    match t {
        TypeExprModel::Path(segs) => segs.len() > 0 && segs[0].name == optional_wrapper(),
        TypeExprModel::Verbatim(_) => false,
    }
}

/// The type wrapped under the first segment's angle brackets: defined only
/// when that segment carries a bracketed list of exactly one argument and
/// that argument is a type.
pub open spec fn inner_type_of(t: TypeExprModel) -> Option<TypeExprModel> {
    match t {
        TypeExprModel::Path(segs) => {
            if segs.len() > 0 {
                match segs[0].args {
                    Option::Some(l) => {
                        if l.len() == 1 {
                            match l[0] {
                                GenericArgModel::TypeArg(s) => Option::Some(
                                    TypeExprModel::Verbatim(s),
                                ),
                                GenericArgModel::OtherArg(_) => Option::None,
                            }
                        } else {
                            Option::None
                        }
                    },
                    Option::None => Option::None,
                }
            } else {
                Option::None
            }
        },
        TypeExprModel::Verbatim(_) => Option::None,
    }
}

/// What classifying a field of declared type `t` yields.
pub open spec fn classification_of(t: TypeExprModel) -> FieldClassificationModel {
    if is_optional_type(t) {
        FieldClassificationModel::Optional { inner: inner_type_of(t) }
    } else {
        FieldClassificationModel::Mandatory
    }
}

/// Classifies one declared field. Classification is total: it never fails,
/// whatever the declared type looks like.
pub fn classify(field: &FieldDescription) -> (r: FieldClassification)
    ensures
        r@ == classification_of(field.ty@),
{
    match &field.ty {
        TypeExpr::Path(segs) => {
            if segs.len() > 0 {
                let wrapper: String = "Option".to_owned();
                if segs[0].name == wrapper {
                    FieldClassification::Optional { inner: extract_inner(&segs[0].args) }
                } else {
                    FieldClassification::Mandatory
                }
            } else {
                FieldClassification::Mandatory
            }
        },
        TypeExpr::Verbatim(_) => FieldClassification::Mandatory,
    }
}

/// Pulls the single wrapped type out of the optional wrapper's argument
/// list, when the list has exactly one entry and that entry is a type.
fn extract_inner(args: &Option<Vec<GenericArg>>) -> (r: Option<TypeExpr>)
    ensures
        match args {
            Option::Some(l) => {
                if l@.len() == 1 {
                    match l@[0]@ {
                        GenericArgModel::TypeArg(s) => r matches Option::Some(t) && t@
                            == TypeExprModel::Verbatim(s),
                        GenericArgModel::OtherArg(_) => r is None,
                    }
                } else {
                    r is None
                }
            },
            Option::None => r is None,
        },
{
    match args {
        Option::Some(l) => {
            if l.len() == 1 {
                match &l[0] {
                    GenericArg::TypeArg(s) => Option::Some(TypeExpr::Verbatim(s.clone())),
                    GenericArg::OtherArg(_) => Option::None,
                }
            } else {
                Option::None
            }
        },
        Option::None => Option::None,
    }
}

} // verus!
