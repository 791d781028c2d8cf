//! Source text of the `merge` method that a plan describes.

use vstd::prelude::*;
use crate::decl::ItemDecl;
use crate::plan::{DeriveError, MergePlan, MergeRule, decl_entries, is_record, plan_entries, plan_merge};

verus! {

/// The statement that merges the field `name` under `rule`.
pub open spec fn field_text(name: Seq<char>, rule: MergeRule) -> Seq<char> {
    match rule {
        MergeRule::Overwrite => "self."@ + name + " = update."@ + name + ";"@,
        MergeRule::ReplaceIfPresent => "if let Some(update) = update."@ + name
            + " { self."@ + name + ".replace(update); }"@,
        MergeRule::MergeNested => "self."@ + name + ".merge(update."@ + name + ");"@,
        MergeRule::MergeIfPresent => "if let Some(update) = update."@ + name
            + " { if let Some(state) = self."@ + name
            + ".as_mut() { state.merge(update); } else { self."@ + name
            + ".replace(update); } }"@,
    }
}

/// The statements for the fields, in order, each preceded by a space.
pub open spec fn fields_text(fs: Seq<(Seq<char>, MergeRule)>) -> Seq<char>
    decreases fs.len(),
{
    if fs.len() == 0 {
        Seq::empty()
    } else {
        fields_text(fs.drop_last()) + " "@ + field_text(fs.last().0, fs.last().1)
    }
}

/// The whole `impl` block that gives the record its `merge` method.
pub open spec fn impl_text(record: Seq<char>, fs: Seq<(Seq<char>, MergeRule)>) -> Seq<char> {
    "impl "@ + record + " { pub fn merge(&mut self, update: Self) {"@ + fields_text(fs)
        + " } }"@
}

/// Appends the statement that merges the field `name` under `rule`.
pub fn render_field(out: &mut String, name: &String, rule: MergeRule)
    ensures
        final(out)@ == old(out)@ + field_text(name@, rule),
{
    let n = name.as_str();
    match rule {
        MergeRule::Overwrite => {
            out.append("self.");
            out.append(n);
            out.append(" = update.");
            out.append(n);
            out.append(";");
        },
        MergeRule::ReplaceIfPresent => {
            out.append("if let Some(update) = update.");
            out.append(n);
            out.append(" { self.");
            out.append(n);
            out.append(".replace(update); }");
        },
        MergeRule::MergeNested => {
            out.append("self.");
            out.append(n);
            out.append(".merge(update.");
            out.append(n);
            out.append(");");
        },
        MergeRule::MergeIfPresent => {
            out.append("if let Some(update) = update.");
            out.append(n);
            out.append(" { if let Some(state) = self.");
            out.append(n);
            out.append(".as_mut() { state.merge(update); } else { self.");
            out.append(n);
            out.append(".replace(update); } }");
        },
    }
}

/// The source text of the `merge` method of the planned record.
pub fn render_merge(plan: &MergePlan) -> (r: String)
    ensures
        r@ == impl_text(plan.record_name@, plan_entries(plan.fields@)),
{
    let mut out = String::new();
    out.append("impl ");
    out.append(plan.record_name.as_str());
    out.append(" { pub fn merge(&mut self, update: Self) {");
    let ghost head = out@;
    let mut i: usize = 0;
    while i < plan.fields.len()
        invariant
            0 <= i <= plan.fields.len(),
            out@ == head + fields_text(plan_entries(plan.fields@).subrange(0, i as int)),
        decreases plan.fields.len() - i,
    {
        let ghost before = out@;
        out.append(" ");
        render_field(&mut out, &plan.fields[i].name, plan.fields[i].rule);
        proof {
            let s = plan_entries(plan.fields@).subrange(0, i + 1);
            assert(s.drop_last() =~= plan_entries(plan.fields@).subrange(0, i as int));
            assert(s.last() == plan_entries(plan.fields@)[i as int]);
            assert(out@ =~= head + fields_text(s));
        }
        i = i + 1;
    }
    assert(plan_entries(plan.fields@).subrange(0, i as int) =~= plan_entries(plan.fields@));
    out.append(" } }");
    assert(out@ =~= impl_text(plan.record_name@, plan_entries(plan.fields@)));
    out
}

/// The source text of the `merge` method that the derive produces for a
/// declaration; only a record gets one.
pub fn derive_merge(item: &ItemDecl) -> (r: Result<String, DeriveError>)
    ensures
        r is Ok <==> is_record(*item),
        r is Ok ==> r->Ok_0@ == impl_text(item->Struct_name@, decl_entries(item->Struct_fields@)),
        r is Err ==> r->Err_0 == DeriveError::NotARecord,
{
    match plan_merge(item) {
        Ok(plan) => Ok(render_merge(&plan)),
        Err(e) => Err(e),
    }
}

} // verus!
