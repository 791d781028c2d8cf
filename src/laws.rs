//! Laws of merging.

use vstd::prelude::*;
use crate::decl::{FieldDecl, has_marker, is_option_type};
use crate::plan::{MergeRule, field_rule};
use crate::value::{FieldList, Value, merged, merged_field, merged_fields, rules, values};

verus! {

/// An optional field's rule.
pub open spec fn is_optional_rule(rule: MergeRule) -> bool {
    rule == MergeRule::ReplaceIfPresent || rule == MergeRule::MergeIfPresent
}

/// A field declared with the optional-value wrapper gets an optional rule,
/// and a field carrying the marker gets a recursive one.
pub proof fn lemma_declared_field_rule(f: FieldDecl)
    ensures
        is_optional_rule(field_rule(f)) <==> is_option_type(f.ty),
        (field_rule(f) == MergeRule::MergeNested || field_rule(f) == MergeRule::MergeIfPresent)
            <==> has_marker(f.attributes@),
{
}

/// A field list has as many rules as values.
pub proof fn lemma_lengths(fl: FieldList)
    ensures
        rules(fl).len() == values(fl).len(),
    decreases fl,
{
    match fl {
        FieldList::End => {},
        FieldList::Field { rest, .. } => lemma_lengths(*rest),
    }
}

/// Merging keeps the rules and the number of fields; each field the update
/// has is merged by its rule, and each it lacks is kept.
pub proof fn lemma_merged_fields_at(s: FieldList, u: FieldList)
    ensures
        rules(merged_fields(s, u)) == rules(s),
        values(merged_fields(s, u)).len() == values(s).len(),
        rules(s).len() == values(s).len(),
        rules(u).len() == values(u).len(),
        forall|i: int| 0 <= i < values(s).len() && i < values(u).len() ==>
            #[trigger] values(merged_fields(s, u))[i]
                == merged_field(rules(s)[i], values(s)[i], values(u)[i]),
        forall|i: int| values(u).len() <= i < values(s).len() ==>
            #[trigger] values(merged_fields(s, u))[i] == values(s)[i],
    decreases s,
{
    lemma_lengths(s);
    lemma_lengths(u);
    match s {
        FieldList::End => {},
        FieldList::Field { rule, value, rest } => match u {
            FieldList::End => {},
            FieldList::Field { value: uv, rest: ur, .. } => {
                lemma_merged_fields_at(*rest, *ur);
                let m = merged_fields(s, u);
                assert(rules(m) =~= rules(s));
                assert forall|i: int| 0 <= i < values(s).len() && i < values(u).len() implies
                    #[trigger] values(m)[i] == merged_field(rules(s)[i], values(s)[i], values(u)[i]) by {
                    if i > 0 {
                        assert(values(m)[i] == values(merged_fields(*rest, *ur))[i - 1]);
                    }
                }
                assert forall|i: int| values(u).len() <= i < values(s).len() implies
                    #[trigger] values(m)[i] == values(s)[i] by {
                    assert(values(m)[i] == values(merged_fields(*rest, *ur))[i - 1]);
                }
            },
        },
    }
}

/// A record whose fields are all plain and unmarked is replaced wholesale:
/// merging an instance with another of the same record type gives the other.
pub proof fn lemma_plain_record_overwritten(s: FieldList, u: FieldList)
    requires
        rules(s) == rules(u),
        forall|i: int| 0 <= i < rules(s).len() ==> #[trigger] rules(s)[i] == MergeRule::Overwrite,
    ensures
        merged(Value::Record(s), Value::Record(u)) == Value::Record(u),
{
    lemma_plain_fields_overwritten(s, u);
}

proof fn lemma_plain_fields_overwritten(s: FieldList, u: FieldList)
    requires
        rules(s) == rules(u),
        forall|i: int| 0 <= i < rules(s).len() ==> #[trigger] rules(s)[i] == MergeRule::Overwrite,
    ensures
        merged_fields(s, u) == u,
    decreases s,
{
    match s {
        FieldList::End => {
            match u {
                FieldList::End => {},
                FieldList::Field { .. } => {
                    assert(rules(s).len() == 0);
                    assert(rules(u).len() > 0);
                },
            }
        },
        FieldList::Field { rule, value, rest } => match u {
            FieldList::End => {
                assert(rules(s).len() > 0);
            },
            FieldList::Field { rule: ru, value: uv, rest: ur } => {
                assert(rules(s)[0] == rule);
                assert(rules(u)[0] == ru);
                assert(rules(*rest) =~= rules(s).drop_first());
                assert(rules(*ur) =~= rules(u).drop_first());
                assert forall|i: int| 0 <= i < rules(*rest).len() implies
                    #[trigger] rules(*rest)[i] == MergeRule::Overwrite by {
                    assert(rules(*rest)[i] == rules(s)[i + 1]);
                }
                lemma_plain_fields_overwritten(*rest, *ur);
                assert(rule == MergeRule::Overwrite);
                assert(merged_field(rule, *value, *uv) == *uv);
            },
        },
    }
}

/// An optional field whose update value is absent stays as it was.
pub proof fn lemma_absent_update_keeps(s: FieldList, u: FieldList, i: int)
    requires
        rules(s) == rules(u),
        0 <= i < rules(s).len(),
        is_optional_rule(rules(s)[i]),
        values(u)[i] is Absent,
    ensures
        values(merged_fields(s, u))[i] == values(s)[i],
{
    lemma_merged_fields_at(s, u);
}

/// An optional field whose update value is present takes it; where the
/// field is marked recursive and already holds a value, the update is
/// merged into that value instead.
pub proof fn lemma_present_update_applies(s: FieldList, u: FieldList, i: int)
    requires
        rules(s) == rules(u),
        0 <= i < rules(s).len(),
        is_optional_rule(rules(s)[i]),
        values(u)[i] is Present,
    ensures
        rules(s)[i] == MergeRule::ReplaceIfPresent ==> values(merged_fields(s, u))[i] == values(u)[i],
        rules(s)[i] == MergeRule::MergeIfPresent ==> values(merged_fields(s, u))[i] == match values(s)[i] {
            Value::Present(a) => Value::Present(Box::new(merged(*a, *values(u)[i]->Present_0))),
            _ => values(u)[i],
        },
{
    lemma_merged_fields_at(s, u);
}

/// A plain field marked recursive is merged with its own type's merge, not
/// overwritten.
pub proof fn lemma_nested_field_merged(s: FieldList, u: FieldList, i: int)
    requires
        rules(s) == rules(u),
        0 <= i < rules(s).len(),
        rules(s)[i] == MergeRule::MergeNested,
    ensures
        values(merged_fields(s, u))[i] == merged(values(s)[i], values(u)[i]),
{
    lemma_merged_fields_at(s, u);
}

/// Merging a value with an identical copy of itself leaves it unchanged.
pub proof fn lemma_merge_idempotent(v: Value)
    ensures
        merged(v, v) == v,
    decreases v, 0nat,
{
    match v {
        Value::Record(fl) => lemma_merge_fields_idempotent(fl),
        _ => {},
    }
}

proof fn lemma_merge_field_idempotent(rule: MergeRule, v: Value)
    ensures
        merged_field(rule, v, v) == v,
    decreases v, 1nat,
{
    match rule {
        MergeRule::MergeNested => lemma_merge_idempotent(v),
        MergeRule::MergeIfPresent => match v {
            Value::Present(a) => lemma_merge_idempotent(*a),
            _ => {},
        },
        _ => {},
    }
}

proof fn lemma_merge_fields_idempotent(fl: FieldList)
    ensures
        merged_fields(fl, fl) == fl,
    decreases fl, 0nat,
{
    match fl {
        FieldList::End => {},
        FieldList::Field { rule, value, rest } => {
            lemma_merge_field_idempotent(rule, *value);
            lemma_merge_fields_idempotent(*rest);
        },
    }
}

} // verus!
