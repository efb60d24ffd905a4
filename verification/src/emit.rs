//! Code emission: assembles, from the aggregate's description, the four
//! fragments the generator hands back — the builder type declaration, one
//! setter per field, the fallible finalizer, and the factory on the
//! aggregate — as structured values, not spliced text.
//!
//! Every field of the aggregate appears exactly once in the builder's
//! storage list, once as a setter, once in the finalizer and once in the
//! factory's unset list, always in declaration order.

use vstd::prelude::*;

use crate::ast::{AggregateDescription, AggregateDescriptionModel, FieldDescriptionModel, TypeExpr, TypeExprModel};
use crate::classify::{classify, classification_of, is_optional_type, FieldClassification};
use crate::shape::{shape_of, synthesize, StorageType, StorageTypeModel};

verus! {

/// One field of the emitted builder type: its name and its storage type.
#[derive(Debug, PartialEq, Eq)]
pub struct StorageFieldDecl {
    pub name: String,
    pub ty: StorageType,
}

/// Mathematical image of a [`StorageFieldDecl`].
pub struct StorageFieldDeclModel {
    pub name: Seq<char>,
    pub ty: StorageTypeModel,
}

impl View for StorageFieldDecl {
    type V = StorageFieldDeclModel;

    open spec fn view(&self) -> StorageFieldDeclModel {
        StorageFieldDeclModel { name: self.name@, ty: self.ty@ }
    }
}

/// The emitted builder type declaration: its name and its fields.
#[derive(Debug, PartialEq, Eq)]
pub struct BuilderTypeDecl {
    pub name: String,
    pub fields: Vec<StorageFieldDecl>,
}

/// Mathematical image of a [`BuilderTypeDecl`].
pub struct BuilderTypeDeclModel {
    pub name: Seq<char>,
    pub fields: Seq<StorageFieldDeclModel>,
}

impl View for BuilderTypeDecl {
    type V = BuilderTypeDeclModel;

    open spec fn view(&self) -> BuilderTypeDeclModel {
        BuilderTypeDeclModel {
            name: self.name@,
            fields: self.fields@.map_values(|d: StorageFieldDecl| d@),
        }
    }
}

/// One emitted setter: named after its field, taking one value of the
/// given parameter type, storing it into the builder's field and handing
/// the builder back for fluent chaining. A missing parameter type is the
/// malformed position left by an optional wrapper without exactly one type
/// argument; it is emitted as an empty type position, not repaired.
#[derive(Debug, PartialEq, Eq)]
pub struct SetterDecl {
    pub field: String,
    pub param: Option<TypeExpr>,
}

/// Mathematical image of a [`SetterDecl`].
pub struct SetterDeclModel {
    pub field: Seq<char>,
    pub param: Option<TypeExprModel>,
}

impl View for SetterDecl {
    type V = SetterDeclModel;

    open spec fn view(&self) -> SetterDeclModel {
        SetterDeclModel {
            field: self.field@,
            param: match self.param {
                Option::None => Option::None,
                Option::Some(t) => Option::Some(t@),
            },
        }
    }
}

/// How the emitted finalizer treats one field.
#[derive(Debug, PartialEq, Eq, Clone, Copy)]
pub enum FinalizeRule {
    /// An optional field: the stored value passes through unchanged, set
    /// or not.
    CopyThrough,
    /// A mandatory field: the stored value must be set, else finalization
    /// fails.
    RequireSet,
}

/// One field's entry in the emitted finalizer.
#[derive(Debug, PartialEq, Eq)]
pub struct FinalizerFieldDecl {
    pub name: String,
    pub rule: FinalizeRule,
}

/// Mathematical image of a [`FinalizerFieldDecl`].
pub struct FinalizerFieldDeclModel {
    pub name: Seq<char>,
    pub rule: FinalizeRule,
}

impl View for FinalizerFieldDecl {
    type V = FinalizerFieldDeclModel;

    open spec fn view(&self) -> FinalizerFieldDeclModel {
        FinalizerFieldDeclModel { name: self.name@, rule: self.rule }
    }
}

/// The emitted finalizer: produces one aggregate instance from the
/// builder's current state, or fails with the (deliberately generic,
/// field-less) missing-field message when a mandatory field is unset.
#[derive(Debug, PartialEq, Eq)]
pub struct FinalizerDecl {
    pub aggregate: String,
    pub error_message: String,
    pub fields: Vec<FinalizerFieldDecl>,
}

/// Mathematical image of a [`FinalizerDecl`].
pub struct FinalizerDeclModel {
    pub aggregate: Seq<char>,
    pub error_message: Seq<char>,
    pub fields: Seq<FinalizerFieldDeclModel>,
}

impl View for FinalizerDecl {
    type V = FinalizerDeclModel;

    open spec fn view(&self) -> FinalizerDeclModel {
        FinalizerDeclModel {
            aggregate: self.aggregate@,
            error_message: self.error_message@,
            fields: self.fields@.map_values(|d: FinalizerFieldDecl| d@),
        }
    }
}

/// The emitted factory on the aggregate type: returns a fresh builder with
/// every listed field initialized to the unset state.
#[derive(Debug, PartialEq, Eq)]
pub struct FactoryDecl {
    pub builder: String,
    pub unset_fields: Vec<String>,
}

/// Mathematical image of a [`FactoryDecl`].
pub struct FactoryDeclModel {
    pub builder: Seq<char>,
    pub unset_fields: Seq<Seq<char>>,
}

impl View for FactoryDecl {
    type V = FactoryDeclModel;

    open spec fn view(&self) -> FactoryDeclModel {
        FactoryDeclModel {
            builder: self.builder@,
            unset_fields: self.unset_fields@.map_values(|n: String| n@),
        }
    }
}

/// Everything the generator emits for one aggregate, in the order the
/// fragments are spliced into the compilation unit.
#[derive(Debug, PartialEq, Eq)]
pub struct GeneratedBuilder {
    pub decl: BuilderTypeDecl,
    pub setters: Vec<SetterDecl>,
    pub finalizer: FinalizerDecl,
    pub factory: FactoryDecl,
}

/// Mathematical image of a [`GeneratedBuilder`].
pub struct GeneratedBuilderModel {
    pub decl: BuilderTypeDeclModel,
    pub setters: Seq<SetterDeclModel>,
    pub finalizer: FinalizerDeclModel,
    pub factory: FactoryDeclModel,
}

impl View for GeneratedBuilder {
    type V = GeneratedBuilderModel;

    open spec fn view(&self) -> GeneratedBuilderModel {
        GeneratedBuilderModel {
            decl: self.decl@,
            setters: self.setters@.map_values(|s: SetterDecl| s@),
            finalizer: self.finalizer@,
            factory: self.factory@,
        }
    }
}

/// The suffix appended to the aggregate's name to form the builder's name.
pub open spec fn builder_suffix() -> Seq<char> {
    "Builder"@
}

/// The finalizer's missing-field message. It carries no field identity;
/// that is a known, deliberately kept limitation.
pub open spec fn missing_field_message() -> Seq<char> {
    "field is required"@
}

/// The builder-type field emitted for one aggregate field.
pub open spec fn storage_field_of(f: FieldDescriptionModel) -> StorageFieldDeclModel {
    StorageFieldDeclModel { name: f.name, ty: shape_of(classification_of(f.ty), f.ty).storage }
}

/// The setter emitted for one aggregate field.
pub open spec fn setter_of(f: FieldDescriptionModel) -> SetterDeclModel {
    SetterDeclModel { field: f.name, param: shape_of(classification_of(f.ty), f.ty).setter_param }
}

/// How the finalizer treats a field of declared type `t`.
pub open spec fn finalize_rule_of(t: TypeExprModel) -> FinalizeRule {
    if is_optional_type(t) {
        FinalizeRule::CopyThrough
    } else {
        FinalizeRule::RequireSet
    }
}

/// The finalizer entry emitted for one aggregate field.
pub open spec fn finalizer_field_of(f: FieldDescriptionModel) -> FinalizerFieldDeclModel {
    FinalizerFieldDeclModel { name: f.name, rule: finalize_rule_of(f.ty) }
}

/// Everything generation emits for the aggregate `a`.
pub open spec fn generated_builder_of(a: AggregateDescriptionModel) -> GeneratedBuilderModel {
    GeneratedBuilderModel {
        decl: BuilderTypeDeclModel {
            name: a.name + builder_suffix(),
            fields: a.fields.map_values(|f: FieldDescriptionModel| storage_field_of(f)),
        },
        setters: a.fields.map_values(|f: FieldDescriptionModel| setter_of(f)),
        finalizer: FinalizerDeclModel {
            aggregate: a.name,
            error_message: missing_field_message(),
            fields: a.fields.map_values(|f: FieldDescriptionModel| finalizer_field_of(f)),
        },
        factory: FactoryDeclModel {
            builder: a.name + builder_suffix(),
            unset_fields: a.fields.map_values(|f: FieldDescriptionModel| f.name),
        },
    }
}

/// Runs the whole generation pass for one aggregate: classifies every
/// field, synthesizes the builder's shape, and emits the four fragments.
/// Generation is total and pure; it reads the description and fails on
/// nothing.
pub fn generate(agg: &AggregateDescription) -> (r: GeneratedBuilder)
    ensures
        r@ == generated_builder_of(agg@),
{
    let builder_name: String = agg.name.clone().concat("Builder");
    let mut storage_fields: Vec<StorageFieldDecl> = Vec::new();
    let mut setters: Vec<SetterDecl> = Vec::new();
    let mut finalizer_fields: Vec<FinalizerFieldDecl> = Vec::new();
    let mut unset_fields: Vec<String> = Vec::new();
    let n = agg.fields.len();
    let mut i: usize = 0;
    while i < n
        invariant
            n == agg.fields@.len(),
            i <= n,
            storage_fields@.len() == i as int,
            setters@.len() == i as int,
            finalizer_fields@.len() == i as int,
            unset_fields@.len() == i as int,
            forall|j: int|
                0 <= j < i as int ==> #[trigger] storage_fields@[j]@ == storage_field_of(
                    agg.fields@[j]@,
                ),
            forall|j: int|
                0 <= j < i as int ==> #[trigger] setters@[j]@ == setter_of(agg.fields@[j]@),
            forall|j: int|
                0 <= j < i as int ==> #[trigger] finalizer_fields@[j]@ == finalizer_field_of(
                    agg.fields@[j]@,
                ),
            forall|j: int|
                0 <= j < i as int ==> #[trigger] unset_fields@[j]@ == agg.fields@[j].name@,
        decreases n - i,
    {
        let field = &agg.fields[i];
        let classification = classify(field);
        let field_shape = synthesize(&classification, field);
        let rule = match &classification {
            FieldClassification::Mandatory => FinalizeRule::RequireSet,
            FieldClassification::Optional { inner: _ } => FinalizeRule::CopyThrough,
        };
        storage_fields.push(StorageFieldDecl { name: field.name.clone(), ty: field_shape.storage });
        setters.push(SetterDecl { field: field.name.clone(), param: field_shape.setter_param });
        finalizer_fields.push(FinalizerFieldDecl { name: field.name.clone(), rule });
        unset_fields.push(field.name.clone());
        i = i + 1;
    }
    let r = GeneratedBuilder {
        decl: BuilderTypeDecl { name: builder_name.clone(), fields: storage_fields },
        setters,
        finalizer: FinalizerDecl {
            aggregate: agg.name.clone(),
            error_message: "field is required".to_owned(),
            fields: finalizer_fields,
        },
        factory: FactoryDecl { builder: builder_name, unset_fields },
    };
    proof {
        let m = agg@;
        assert(r.decl.fields@.map_values(|d: StorageFieldDecl| d@) =~= m.fields.map_values(
            |f: FieldDescriptionModel| storage_field_of(f),
        ));
        assert(r.setters@.map_values(|s: SetterDecl| s@) =~= m.fields.map_values(
            |f: FieldDescriptionModel| setter_of(f),
        ));
        assert(r.finalizer.fields@.map_values(|d: FinalizerFieldDecl| d@) =~= m.fields.map_values(
            |f: FieldDescriptionModel| finalizer_field_of(f),
        ));
        assert(r.factory.unset_fields@.map_values(|s: String| s@) =~= m.fields.map_values(
            |f: FieldDescriptionModel| f.name,
        ));
    }
    r
}

/// Every field of the aggregate appears exactly once in the emitted
/// builder's storage list, once among the setters, once in the finalizer
/// and once in the factory's unset list, in declaration order and under
/// the field's own name.
pub proof fn lemma_fields_once_in_order(a: AggregateDescriptionModel)
    ensures
        generated_builder_of(a).decl.fields.len() == a.fields.len(),
        generated_builder_of(a).setters.len() == a.fields.len(),
        generated_builder_of(a).finalizer.fields.len() == a.fields.len(),
        generated_builder_of(a).factory.unset_fields.len() == a.fields.len(),
        forall|i: int|
            0 <= i < a.fields.len() ==> #[trigger] generated_builder_of(a).decl.fields[i].name
                == a.fields[i].name,
        forall|i: int|
            0 <= i < a.fields.len() ==> #[trigger] generated_builder_of(a).setters[i].field
                == a.fields[i].name,
        forall|i: int|
            0 <= i < a.fields.len() ==> #[trigger] generated_builder_of(a).finalizer.fields[i].name
                == a.fields[i].name,
        forall|i: int|
            0 <= i < a.fields.len() ==> #[trigger] generated_builder_of(a).factory.unset_fields[i]
                == a.fields[i].name,
{
}

} // verus!
