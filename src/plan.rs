//! The merge rule of each field, and the plan of a whole record.

use vstd::prelude::*;
use crate::decl::{FieldDecl, ItemDecl, has_marker, is_option_type, is_option, marked_recursive};

verus! {

/// How a field is combined with the same field of the update.
#[derive(Clone, Copy, Debug, PartialEq, Eq, Structural)]
pub enum MergeRule {
    /// A plain field: the update's value replaces the current one.
    Overwrite,
    /// An optional field: a present update value replaces the current one,
    /// an absent one leaves it.
    ReplaceIfPresent,
    /// A plain field marked recursive: its own merge is applied.
    MergeNested,
    /// An optional field marked recursive: a present update value is merged
    /// into a present current value, or replaces an absent one.
    MergeIfPresent,
}

/// A named field together with its rule.
pub struct FieldPlan {
    pub name: String,
    pub rule: MergeRule,
}

/// The rules of a record, field by field in declaration order.
pub struct MergePlan {
    pub record_name: String,
    pub fields: Vec<FieldPlan>,
}

/// The one way a derive can fail.
#[derive(Clone, Copy, Debug, PartialEq, Eq, Structural)]
pub enum DeriveError {
    /// The declaration is not a record with named fields (an enum, a union,
    /// or a struct with positional fields).
    NotARecord,
}

/// The rule for a field from whether it is optional and whether it is marked.
pub open spec fn rule_of(optional: bool, marked: bool) -> MergeRule {
    if marked {
        if optional { MergeRule::MergeIfPresent } else { MergeRule::MergeNested }
    } else {
        if optional { MergeRule::ReplaceIfPresent } else { MergeRule::Overwrite }
    }
}

/// The rule that a field declaration gets.
pub open spec fn field_rule(f: FieldDecl) -> MergeRule {
    rule_of(is_option_type(f.ty), has_marker(f.attributes@))
}

/// A declaration is a record when it is a struct whose fields all have names.
pub open spec fn is_record(item: ItemDecl) -> bool {
    match item {
        ItemDecl::Struct { fields, .. } => forall|i: int|
            0 <= i < fields@.len() ==> (#[trigger] fields@[i]).name is Some,
        _ => false,
    }
}

/// `plan` is the plan of the record `item`: same name, and one entry per
/// field, in order, with the field's name and rule.
pub open spec fn plans_record(item: ItemDecl, plan: MergePlan) -> bool {
    match item {
        ItemDecl::Struct { name, fields } => {
            &&& plan.record_name@ == name@
            &&& plan.fields@.len() == fields@.len()
            &&& forall|i: int| 0 <= i < fields@.len() ==> {
                &&& (#[trigger] plan.fields@[i]).name@ == fields@[i].name->Some_0@
                &&& plan.fields@[i].rule == field_rule(fields@[i])
            }
        },
        _ => false,
    }
}

/// The name and rule of each planned field.
pub open spec fn plan_entries(fs: Seq<FieldPlan>) -> Seq<(Seq<char>, MergeRule)> {
    Seq::new(fs.len(), |i: int| (fs[i].name@, fs[i].rule))
}

/// The name and rule that each field declaration calls for.
pub open spec fn decl_entries(fs: Seq<FieldDecl>) -> Seq<(Seq<char>, MergeRule)> {
    Seq::new(fs.len(), |i: int| (fs[i].name->Some_0@, field_rule(fs[i])))
}

/// The rule for a field.
pub fn rule_for(field: &FieldDecl) -> (r: MergeRule)
    ensures
        r == field_rule(*field),
{
    let optional = is_option(&field.ty);
    let marked = marked_recursive(&field.attributes);
    if marked {
        if optional { MergeRule::MergeIfPresent } else { MergeRule::MergeNested }
    } else {
        if optional { MergeRule::ReplaceIfPresent } else { MergeRule::Overwrite }
    }
}

/// The merge plan of a declaration; only a record has one.
pub fn plan_merge(item: &ItemDecl) -> (r: Result<MergePlan, DeriveError>)
    ensures
        is_record(*item) <==> r is Ok,
        r is Ok ==> plans_record(*item, r->Ok_0),
        r is Ok ==> r->Ok_0.record_name@ == item->Struct_name@,
        r is Ok ==> plan_entries(r->Ok_0.fields@) == decl_entries(item->Struct_fields@),
        r is Err ==> r->Err_0 == DeriveError::NotARecord,
{
    match item {
        ItemDecl::Struct { name, fields } => {
            let mut out: Vec<FieldPlan> = Vec::new();
            let mut i: usize = 0;
            while i < fields.len()
                invariant
                    *item == (ItemDecl::Struct { name: *name, fields: *fields }),
                    0 <= i <= fields.len(),
                    out@.len() == i,
                    forall|j: int| 0 <= j < i ==> (#[trigger] fields@[j]).name is Some,
                    forall|j: int| 0 <= j < i ==> {
                        &&& (#[trigger] out@[j]).name@ == fields@[j].name->Some_0@
                        &&& out@[j].rule == field_rule(fields@[j])
                    },
                decreases fields.len() - i,
            {
                let f = &fields[i];
                match &f.name {
                    Some(n) => {
                        let rule = rule_for(f);
                        out.push(FieldPlan { name: n.clone(), rule });
                    },
                    None => {
                        assert(!is_record(*item)) by {
                            assert(fields@[i as int].name is None);
                            assert(!(forall|j: int| 0 <= j < fields@.len() ==> (#[trigger] fields@[j]).name is Some));
                        }
                        return Err(DeriveError::NotARecord);
                    },
                }
                i = i + 1;
            }
            assert(plan_entries(out@) =~= decl_entries(fields@));
            Ok(MergePlan { record_name: name.clone(), fields: out })
        },
        _ => Err(DeriveError::NotARecord),
    }
}

} // verus!
