//! The structural description the generator consumes: an aggregate's name
//! and its fields, each with a declared type expression.
//!
//! The generator inspects only the outermost constructor of a field's type:
//! the identifier of the first path segment and the generic arguments under
//! its angle brackets. Everything deeper is carried through opaquely, as
//! source text, and re-emitted unchanged.

use vstd::prelude::*;

verus! {

/// One generic argument under a path segment's angle brackets.
#[derive(Debug, PartialEq, Eq)]
pub enum GenericArg {
    /// A type argument, carried as opaque source text.
    TypeArg(String),
    /// A non-type argument (a lifetime, a const expression).
    OtherArg(String),
}

/// One segment of a path type: an identifier, optionally followed by an
/// angle-bracketed argument list (`None` means no brackets at all).
#[derive(Debug, PartialEq, Eq)]
pub struct PathSegment {
    pub name: String,
    pub args: Option<Vec<GenericArg>>,
}

/// A declared type expression, to the depth the generator reads it: a path
/// type keeps its segments; every other shape is opaque source text.
#[derive(Debug, PartialEq, Eq)]
pub enum TypeExpr {
    Path(Vec<PathSegment>),
    Verbatim(String),
}

/// One declared field: its identifier and its declared type.
#[derive(Debug, PartialEq, Eq)]
pub struct FieldDescription {
    pub name: String,
    pub ty: TypeExpr,
}

/// The generator's input: the aggregate's identifier and its fields, in
/// declaration order.
#[derive(Debug, PartialEq, Eq)]
pub struct AggregateDescription {
    pub name: String,
    pub fields: Vec<FieldDescription>,
}

/// Mathematical image of a [`GenericArg`].
pub enum GenericArgModel {
    TypeArg(Seq<char>),
    OtherArg(Seq<char>),
}

/// Mathematical image of a [`PathSegment`].
pub struct PathSegmentModel {
    pub name: Seq<char>,
    pub args: Option<Seq<GenericArgModel>>,
}

/// Mathematical image of a [`TypeExpr`].
pub enum TypeExprModel {
    Path(Seq<PathSegmentModel>),
    Verbatim(Seq<char>),
}

/// Mathematical image of a [`FieldDescription`].
pub struct FieldDescriptionModel {
    pub name: Seq<char>,
    pub ty: TypeExprModel,
}

/// Mathematical image of an [`AggregateDescription`].
pub struct AggregateDescriptionModel {
    pub name: Seq<char>,
    pub fields: Seq<FieldDescriptionModel>,
}

impl View for GenericArg {
    type V = GenericArgModel;

    open spec fn view(&self) -> GenericArgModel {
        match self {
            GenericArg::TypeArg(s) => GenericArgModel::TypeArg(s@),
            GenericArg::OtherArg(s) => GenericArgModel::OtherArg(s@),
        }
    }
}

impl View for PathSegment {
    type V = PathSegmentModel;

    open spec fn view(&self) -> PathSegmentModel {
        PathSegmentModel {
            name: self.name@,
            args: match self.args {
                Option::None => Option::None,
                Option::Some(v) => Option::Some(v@.map_values(|a: GenericArg| a@)),
            },
        }
    }
}

impl View for TypeExpr {
    type V = TypeExprModel;

    open spec fn view(&self) -> TypeExprModel {
        match self {
            TypeExpr::Path(segs) => TypeExprModel::Path(segs@.map_values(|s: PathSegment| s@)),
            TypeExpr::Verbatim(s) => TypeExprModel::Verbatim(s@),
        }
    }
}

impl View for FieldDescription {
    type V = FieldDescriptionModel;

    open spec fn view(&self) -> FieldDescriptionModel {
        FieldDescriptionModel { name: self.name@, ty: self.ty@ }
    }
}

impl View for AggregateDescription {
    type V = AggregateDescriptionModel;

    open spec fn view(&self) -> AggregateDescriptionModel {
        AggregateDescriptionModel {
            name: self.name@,
            fields: self.fields@.map_values(|f: FieldDescription| f@),
        }
    }
}

impl Clone for GenericArg {
    fn clone(&self) -> (res: Self)
        ensures
            res@ == self@,
    {
        match self {
            GenericArg::TypeArg(s) => GenericArg::TypeArg(s.clone()),
            GenericArg::OtherArg(s) => GenericArg::OtherArg(s.clone()),
        }
    }
}

impl Clone for PathSegment {
    fn clone(&self) -> (res: Self)
        ensures
            res@ == self@,
    {
        let args: Option<Vec<GenericArg>> = match &self.args {
            Option::None => Option::None,
            Option::Some(v) => {
                let c = v.clone();
                proof {
                    assert forall|i: int| 0 <= i < v@.len() implies c@[i]@ == v@[i]@ by {
                        assert(cloned::<GenericArg>(v@[i], c@[i]));
                    }
                    assert(c@.map_values(|a: GenericArg| a@) =~= v@.map_values(
                        |a: GenericArg| a@,
                    ));
                }
                Option::Some(c)
            },
        };
        PathSegment { name: self.name.clone(), args }
    }
}

impl Clone for TypeExpr {
    fn clone(&self) -> (res: Self)
        ensures
            res@ == self@,
    {
        match self {
            TypeExpr::Path(segs) => {
                let c = segs.clone();
                proof {
                    assert forall|i: int| 0 <= i < segs@.len() implies c@[i]@ == segs@[i]@ by {
                        assert(cloned::<PathSegment>(segs@[i], c@[i]));
                    }
                    assert(c@.map_values(|s: PathSegment| s@) =~= segs@.map_values(
                        |s: PathSegment| s@,
                    ));
                }
                TypeExpr::Path(c)
            },
            TypeExpr::Verbatim(s) => TypeExpr::Verbatim(s.clone()),
        }
    }
}

} // verus!
