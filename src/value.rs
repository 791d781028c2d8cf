//! What the generated `merge` does, on a reflective model of instances.
//!
//! A record instance is a list of fields, each carrying the rule that its
//! declaration calls for; an optional field holds `Absent` or `Present`.

use vstd::prelude::*;
use crate::plan::MergeRule;

verus! {

/// The value of a field, or a whole record.
#[derive(Debug, PartialEq, Eq)]
pub enum Value {
    Text(String),
    Int(i64),
    /// An optional field holding nothing.
    Absent,
    /// An optional field holding a value.
    Present(Box<Value>),
    /// A record: its fields in declaration order.
    Record(FieldList),
}

/// The fields of a record instance, each with its merge rule.
#[derive(Debug, PartialEq, Eq)]
pub enum FieldList {
    End,
    Field { rule: MergeRule, value: Box<Value>, rest: Box<FieldList> },
}

/// The rules of the fields, in order.
pub open spec fn rules(fl: FieldList) -> Seq<MergeRule>
    decreases fl,
{
    match fl {
        FieldList::End => Seq::empty(),
        FieldList::Field { rule, rest, .. } => seq![rule] + rules(*rest),
    }
}

/// The values of the fields, in order.
pub open spec fn values(fl: FieldList) -> Seq<Value>
    decreases fl,
{
    match fl {
        FieldList::End => Seq::empty(),
        FieldList::Field { value, rest, .. } => seq![*value] + values(*rest),
    }
}

/// A field's value after merging the update's value `u` into `s` under `rule`.
pub open spec fn merged_field(rule: MergeRule, s: Value, u: Value) -> Value
    decreases s, 1nat,
{
    match rule {
        MergeRule::Overwrite => u,
        MergeRule::ReplaceIfPresent => if u is Absent { s } else { u },
        MergeRule::MergeNested => merged(s, u),
        MergeRule::MergeIfPresent => match (s, u) {
            (_, Value::Absent) => s,
            (Value::Present(a), Value::Present(b)) => Value::Present(Box::new(merged(*a, *b))),
            _ => u,
        },
    }
}

/// The fields after merging, each by its own rule; fields that the update
/// lacks stay as they are.
pub open spec fn merged_fields(s: FieldList, u: FieldList) -> FieldList
    decreases s, 0nat,
{
    match s {
        FieldList::End => FieldList::End,
        FieldList::Field { rule, value, rest } => match u {
            FieldList::End => s,
            FieldList::Field { value: uv, rest: ur, .. } => FieldList::Field {
                rule,
                value: Box::new(merged_field(rule, *value, *uv)),
                rest: Box::new(merged_fields(*rest, *ur)),
            },
        },
    }
}

/// `s` after merging `u` into it: records field by field, anything else
/// replaced by the update.
pub open spec fn merged(s: Value, u: Value) -> Value
    decreases s, 0nat,
{
    match (s, u) {
        (Value::Record(sf), Value::Record(uf)) => Value::Record(merged_fields(sf, uf)),
        _ => u,
    }
}

/// Merges the update's value `u` of a field into `s` under `rule`.
pub fn merge_field(rule: MergeRule, s: Value, u: Value) -> (r: Value)
    ensures
        r == merged_field(rule, s, u),
    decreases s, 1nat,
{
    match rule {
        MergeRule::Overwrite => u,
        MergeRule::ReplaceIfPresent => if let Value::Absent = u { s } else { u },
        MergeRule::MergeNested => merge_value(s, u),
        MergeRule::MergeIfPresent => match (s, u) {
            (s, Value::Absent) => s,
            (Value::Present(a), Value::Present(b)) => Value::Present(Box::new(merge_value(*a, *b))),
            (_, u) => u,
        },
    }
}

/// Merges the fields of an update into those of an instance.
pub fn merge_fields(s: FieldList, u: FieldList) -> (r: FieldList)
    ensures
        r == merged_fields(s, u),
    decreases s, 0nat,
{
    match s {
        FieldList::End => FieldList::End,
        FieldList::Field { rule, value, rest } => match u {
            FieldList::End => FieldList::Field { rule, value, rest },
            FieldList::Field { value: uv, rest: ur, .. } => {
                let v = merge_field(rule, *value, *uv);
                let r = merge_fields(*rest, *ur);
                FieldList::Field { rule, value: Box::new(v), rest: Box::new(r) }
            },
        },
    }
}

/// Merges the update `u` into `s`.
pub fn merge_value(s: Value, u: Value) -> (r: Value)
    ensures
        r == merged(s, u),
    decreases s, 0nat,
{
    match (s, u) {
        (Value::Record(sf), Value::Record(uf)) => Value::Record(merge_fields(sf, uf)),
        (_, u) => u,
    }
}

impl Value {
    /// Merges `update` into this value in place.
    pub fn merge(&mut self, update: Value)
        ensures
            *final(self) == merged(*old(self), update),
    {
        let mut current = Value::Absent;
        std::mem::swap(self, &mut current);
        *self = merge_value(current, update);
    }
}

} // verus!
