use fusion::plan::MergeRule;
use fusion::value::{merge_field, merge_value, FieldList, Value};

fn record(fields: Vec<(MergeRule, Value)>) -> Value {
    let mut list = FieldList::End;
    for (rule, value) in fields.into_iter().rev() {
        list = FieldList::Field { rule, value: Box::new(value), rest: Box::new(list) };
    }
    Value::Record(list)
}

fn text(s: &str) -> Value {
    Value::Text(s.to_string())
}

fn some(v: Value) -> Value {
    Value::Present(Box::new(v))
}

fn foo(a: Value, b: Value, c: Value) -> Value {
    record(vec![
        (MergeRule::ReplaceIfPresent, a),
        (MergeRule::ReplaceIfPresent, b),
        (MergeRule::Overwrite, c),
    ])
}

#[test]
fn sample_record_merge() {
    let mut src = foo(some(text("Bar")), some(Value::Int(7)), text("One"));
    let update = foo(Value::Absent, some(Value::Int(8)), text("Two"));
    src.merge(update);
    assert_eq!(src, foo(some(text("Bar")), some(Value::Int(8)), text("Two")));
}

#[test]
fn plain_record_is_overwritten() {
    let plain = |x: i64, s: &str| {
        record(vec![(MergeRule::Overwrite, Value::Int(x)), (MergeRule::Overwrite, text(s))])
    };
    assert_eq!(merge_value(plain(1, "a"), plain(2, "b")), plain(2, "b"));
}

#[test]
fn absent_update_keeps_optional_field() {
    assert_eq!(
        merge_field(MergeRule::ReplaceIfPresent, some(Value::Int(3)), Value::Absent),
        some(Value::Int(3))
    );
    assert_eq!(
        merge_field(MergeRule::MergeIfPresent, some(Value::Int(3)), Value::Absent),
        some(Value::Int(3))
    );
    assert_eq!(merge_field(MergeRule::ReplaceIfPresent, Value::Absent, Value::Absent), Value::Absent);
}

#[test]
fn present_update_replaces_optional_field() {
    assert_eq!(
        merge_field(MergeRule::ReplaceIfPresent, some(Value::Int(3)), some(Value::Int(4))),
        some(Value::Int(4))
    );
    assert_eq!(
        merge_field(MergeRule::ReplaceIfPresent, Value::Absent, some(Value::Int(4))),
        some(Value::Int(4))
    );
}

fn inner(a: Value, b: Value) -> Value {
    record(vec![(MergeRule::ReplaceIfPresent, a), (MergeRule::Overwrite, b)])
}

#[test]
fn marked_optional_field_merges_into_present_value() {
    let cur = some(inner(some(Value::Int(1)), text("x")));
    let upd = some(inner(Value::Absent, text("y")));
    assert_eq!(
        merge_field(MergeRule::MergeIfPresent, cur, upd),
        some(inner(some(Value::Int(1)), text("y")))
    );
}

#[test]
fn marked_optional_field_takes_update_when_empty() {
    let upd = some(inner(Value::Absent, text("y")));
    assert_eq!(
        merge_field(MergeRule::MergeIfPresent, Value::Absent, upd),
        some(inner(Value::Absent, text("y")))
    );
}

#[test]
fn nested_record_is_merged_not_overwritten() {
    let outer = |n: Value, k: i64| {
        record(vec![(MergeRule::MergeNested, n), (MergeRule::Overwrite, Value::Int(k))])
    };
    let src = outer(inner(some(Value::Int(5)), text("old")), 1);
    let update = outer(inner(Value::Absent, text("new")), 2);
    assert_eq!(
        merge_value(src, update),
        outer(inner(some(Value::Int(5)), text("new")), 2)
    );
}

#[test]
fn merging_with_itself_changes_nothing() {
    let make = || {
        record(vec![
            (MergeRule::ReplaceIfPresent, some(text("a"))),
            (MergeRule::ReplaceIfPresent, Value::Absent),
            (MergeRule::MergeNested, inner(some(Value::Int(5)), text("z"))),
            (MergeRule::MergeIfPresent, some(inner(Value::Absent, text("w")))),
            (MergeRule::Overwrite, Value::Int(-3)),
        ])
    };
    let mut v = make();
    v.merge(make());
    assert_eq!(v, make());
}

#[test]
fn update_with_fewer_fields_keeps_the_rest() {
    let src = record(vec![(MergeRule::Overwrite, Value::Int(1)), (MergeRule::Overwrite, Value::Int(2))]);
    let upd = record(vec![(MergeRule::Overwrite, Value::Int(9))]);
    assert_eq!(
        merge_value(src, upd),
        record(vec![(MergeRule::Overwrite, Value::Int(9)), (MergeRule::Overwrite, Value::Int(2))])
    );
}

#[test]
fn non_record_is_replaced() {
    assert_eq!(merge_value(text("a"), Value::Int(2)), Value::Int(2));
}
