use vstd::prelude::*;
use crate::schema::{
    accumulator, classify_model, sequence_word, optional_word,
    Classification, DeclBody, Declaration, DeclaredType, FieldSpec, GenError, GenErrorModel,
    ShapeModel,
};
use crate::text::same_text;

verus! {

/// A field's classification, or the directive error that names it.
pub open spec fn field_outcome(f: FieldSpec) -> Result<ShapeModel, GenErrorModel> {
    match classify_model(f.ty, f.directives@) {
        Ok(m) => Ok(m),
        Err(k) => Err(GenErrorModel::Directive(f.name@, k)),
    }
}

/// Classifies one field from its written type and its directives.
pub fn classify_field(f: &FieldSpec) -> (r: Result<Classification, GenError>)
    ensures
        match r {
            Ok(c) => field_outcome(*f) == Ok::<ShapeModel, GenErrorModel>(c@),
            Err(e) => field_outcome(*f) == Err::<ShapeModel, GenErrorModel>(e@),
        },
{
    let ty: &DeclaredType = &f.ty;
    proof {
        reveal_strlit("Option");
        reveal_strlit("Vec");
        assert("Option"@ =~= optional_word());
        assert("Vec"@ =~= sequence_word());
    }
    let acc = accumulator(&f.directives);
    let name = match acc {
        Some(Err(k)) => {
            return Err(GenError::Directive { field: f.name.clone(), key: k });
        },
        Some(Ok(n)) => Some(n),
        None => None,
    };
    match &ty.head {
        Some(h) => {
            match &h.first_arg {
                Some(arg) => {
                    if same_text(h.name.as_str(), "Option") {
                        return Ok(Classification::Optional(arg.clone()));
                    }
                    if same_text(h.name.as_str(), "Vec") {
                        match name {
                            Some(n) => {
                                return Ok(Classification::Repeated(arg.clone(), n));
                            },
                            None => {},
                        }
                    }
                },
                None => {},
            }
        },
        None => {},
    }
    Ok(Classification::Required(ty.text.clone()))
}

/// How the finalize operation treats a field.
#[derive(PartialEq, Eq, Structural, Clone, Copy, Debug)]
pub enum Finish {
    /// Fails, naming the field, while it is absent.
    Require,
    /// Absent stays absent.
    Keep,
    /// Absent becomes an empty sequence.
    Collect,
}

/// What the builder holds and offers for one field.
pub struct FieldPlan {
    /// The field's name, also the builder's storage slot.
    pub name: String,
    /// The type held in the slot's absent-or-present container.
    pub storage: String,
    /// The mutator's name.
    pub setter: String,
    /// The type of the mutator's argument.
    pub param: String,
    pub finish: Finish,
}

/// Everything the generated declarations are made of.
pub struct Plan {
    pub name: String,
    pub builder_name: String,
    pub vis: String,
    pub impl_generics: String,
    pub type_generics: String,
    pub where_clause: String,
    pub fields: Vec<FieldPlan>,
}

pub open spec fn builder_suffix() -> Seq<char> {
    seq!['B', 'u', 'i', 'l', 'd', 'e', 'r']
}

/// The plan of a field named `name`, declared with type text `text`, of shape `m`.
pub open spec fn field_plan_matches(p: FieldPlan, name: Seq<char>, text: Seq<char>, m: ShapeModel) -> bool {
    &&& p.name@ == name
    &&& match m {
        ShapeModel::Required(t) => p.storage@ == t && p.setter@ == name && p.param@ == t
            && p.finish == Finish::Require,
        ShapeModel::Optional(t) => p.storage@ == t && p.setter@ == name && p.param@ == t
            && p.finish == Finish::Keep,
        ShapeModel::Repeated(e, a) => p.storage@ == text && p.setter@ == a && p.param@ == e
            && p.finish == Finish::Collect,
    }
}

/// Builds the plan of one classified field.
pub fn plan_field(f: &FieldSpec, c: Classification) -> (p: FieldPlan)
    ensures
        field_plan_matches(p, f.name@, f.ty.text@, c@),
{
    match c {
        Classification::Required(t) => FieldPlan {
            name: f.name.clone(),
            storage: t.clone(),
            setter: f.name.clone(),
            param: t,
            finish: Finish::Require,
        },
        Classification::Optional(t) => FieldPlan {
            name: f.name.clone(),
            storage: t.clone(),
            setter: f.name.clone(),
            param: t,
            finish: Finish::Keep,
        },
        Classification::Repeated(e, a) => FieldPlan {
            name: f.name.clone(),
            storage: f.ty.text.clone(),
            setter: a,
            param: e,
            finish: Finish::Collect,
        },
    }
}

/// The fields of a declaration that is a named-field record.
pub open spec fn named_fields(d: Declaration) -> Option<Seq<FieldSpec>> {
    match d.body {
        DeclBody::Named(fs) => Some(fs@),
        _ => None,
    }
}

/// Whether every field among `fs` classifies without error.
pub open spec fn all_classify(fs: Seq<FieldSpec>) -> bool {
    forall|i: int| 0 <= i < fs.len() ==> #[trigger] field_outcome(fs[i]) is Ok
}

/// `e` is the error of the first field among `fs` that fails to classify.
pub open spec fn first_failure(fs: Seq<FieldSpec>, e: GenErrorModel) -> bool {
    exists|i: int|
        0 <= i < fs.len() && all_classify(fs.take(i)) && #[trigger] field_outcome(fs[i])
            == Err::<ShapeModel, GenErrorModel>(e)
}

/// The plan for a record named `d.name` whose fields classify as `fs` do.
pub open spec fn plan_matches(p: Plan, d: Declaration, fs: Seq<FieldSpec>) -> bool {
    &&& p.name@ == d.name@
    &&& p.builder_name@ == d.name@ + builder_suffix()
    &&& p.vis@ == d.vis@
    &&& p.impl_generics@ == d.impl_generics@
    &&& p.type_generics@ == d.type_generics@
    &&& p.where_clause@ == d.where_clause@
    &&& p.fields@.len() == fs.len()
    &&& forall|i: int| 0 <= i < fs.len() ==> #[trigger] field_plan_matches(
        p.fields@[i],
        fs[i].name@,
        fs[i].ty.text@,
        field_outcome(fs[i])->Ok_0,
    )
}

/// Reads a declaration and classifies its fields: fails with `Shape` unless it
/// is a named-field record, else with the directive error of the first field
/// that fails to classify, else gives the plan of every field in order.
pub fn plan(d: &Declaration) -> (r: Result<Plan, GenError>)
    ensures
        named_fields(*d) is None ==> r matches Err(GenError::Shape),
        named_fields(*d) matches Some(fs) ==> match r {
            Ok(p) => all_classify(fs) && plan_matches(p, *d, fs),
            Err(e) => first_failure(fs, e@),
        },
{
    let fields = match &d.body {
        DeclBody::Named(fs) => fs,
        _ => {
            return Err(GenError::Shape);
        },
    };
    let mut plans: Vec<FieldPlan> = Vec::new();
    let mut i: usize = 0;
    while i < fields.len()
        invariant
            d.body == DeclBody::Named(*fields),
            i <= fields@.len(),
            plans@.len() == i,
            all_classify(fields@.take(i as int)),
            forall|k: int| 0 <= k < i ==> #[trigger] field_plan_matches(
                plans@[k],
                fields@[k].name@,
                fields@[k].ty.text@,
                field_outcome(fields@[k])->Ok_0,
            ),
        decreases fields@.len() - i,
    {
        let f = &fields[i];
        match classify_field(f) {
            Ok(c) => {
                let fp = plan_field(f, c);
                plans.push(fp);
                assert forall|k: int| 0 <= k < i + 1 implies #[trigger] field_outcome(
                    fields@.take(i + 1)[k],
                ) is Ok by {
                    if k < i {
                        assert(fields@.take(i + 1)[k] == fields@.take(i as int)[k]);
                    }
                }
            },
            Err(e) => {
                assert(named_fields(*d) == Some(fields@));
                assert(field_outcome(fields@[i as int]) == Err::<ShapeModel, GenErrorModel>(e@));
                assert(first_failure(fields@, e@));
                return Err(e);
            },
        }
        i = i + 1;
    }
    assert(fields@.take(fields@.len() as int) == fields@);
    let mut builder_name = d.name.clone();
    proof {
        reveal_strlit("Builder");
        assert("Builder"@ =~= builder_suffix());
    }
    builder_name.append("Builder");
    Ok(Plan {
        name: d.name.clone(),
        builder_name,
        vis: d.vis.clone(),
        impl_generics: d.impl_generics.clone(),
        type_generics: d.type_generics.clone(),
        where_clause: d.where_clause.clone(),
        fields: plans,
    })
}

} // verus!
