//! Mapping between rule tuples and stored records, and the positional filter
//! that is applied to loaded rules.

use crate::model::{CasbinRule, RuleView, FIELD_COUNT};
use vstd::prelude::*;
use vstd::string::*;

verus! {

/// `values` cut or filled with empty texts to exactly `len` positions.
pub open spec fn padded(values: Seq<Seq<char>>, len: nat) -> Seq<Seq<char>> {
    Seq::new(
        len,
        |k: int|
            if k < values.len() {
                values[k]
            } else {
                Seq::<char>::empty()
            },
    )
}

/// `values` without the empty texts at its end.
pub open spec fn without_trailing_empty(values: Seq<Seq<char>>) -> Seq<Seq<char>>
    decreases values.len(),
{
    if values.len() > 0 && values.last().len() == 0 {
        without_trailing_empty(values.drop_last())
    } else {
        values
    }
}

/// The record that stores the tuple `rule` under the type `ptype`: `None`
/// for an empty type or an empty tuple, else a record without key whose six
/// fields are the tuple's first six values, filled up with empty texts.
pub open spec fn record_of(ptype: Seq<char>, rule: Seq<Seq<char>>) -> Option<RuleView> {
    if ptype.len() == 0 || rule.len() == 0 {
        None
    } else {
        Some(RuleView { key: None, ptype, fields: padded(rule, FIELD_COUNT as nat) })
    }
}

/// The tuple that a record stores: its six fields without the empty ones at
/// the end, or `None` when all six are empty.
pub open spec fn tuple_of(record: RuleView) -> Option<Seq<Seq<char>>> {
    let tuple = without_trailing_empty(record.fields);
    if tuple.len() == 0 {
        None
    } else {
        Some(tuple)
    }
}

/// The tuple that loading takes from a record: none from a record whose type
/// is empty, else [`tuple_of`].
pub open spec fn line_of(record: RuleView) -> Option<Seq<Seq<char>>> {
    if record.ptype.len() == 0 {
        None
    } else {
        tuple_of(record)
    }
}

/// Whether `tuple` has, at every position where `filter` holds a non-empty
/// text, that same text. A position past the tuple's end holds nothing, so a
/// non-empty filter text there is not met.
pub open spec fn passes(filter: Seq<Seq<char>>, tuple: Seq<Seq<char>>) -> bool {
    forall|i: int|
        0 <= i < filter.len() && (#[trigger] filter[i]).len() > 0 ==> i < tuple.len() && tuple[i]
            == filter[i]
}

/// Positional constraints on loaded rules, one list per section. An empty
/// text constrains nothing.
#[derive(Debug, Clone, PartialEq, Eq)]
pub struct Filter {
    /// Constraints on the rules of section `p`.
    pub p: Vec<String>,
    /// Constraints on the rules of section `g`.
    pub g: Vec<String>,
}

/// Mathematical value of a [`Filter`].
pub ghost struct FilterView {
    pub p: Seq<Seq<char>>,
    pub g: Seq<Seq<char>>,
}

impl View for Filter {
    type V = FilterView;

    open spec fn view(&self) -> FilterView {
        FilterView { p: self.p.deep_view(), g: self.g.deep_view() }
    }
}

/// What filtered loading takes from a record: nothing from a record whose
/// type is empty, whose fields are all empty, or whose section is neither
/// `p` nor `g`; else the record's tuple, together with whether it passes the
/// constraints of its section.
pub open spec fn filtered_line_of(record: RuleView, filter: FilterView) -> Option<
    (bool, Seq<Seq<char>>),
> {
    if record.ptype.len() == 0 {
        None
    } else {
        match tuple_of(record) {
            None => None,
            Some(tuple) => if record.ptype[0] == 'p' {
                Some((passes(filter.p, tuple), tuple))
            } else if record.ptype[0] == 'g' {
                Some((passes(filter.g, tuple), tuple))
            } else {
                None
            },
        }
    }
}

/// What is left of `values` without the empty texts at its end is the part
/// of `values` up to its last non-empty text.
pub proof fn trailing_empty_are_dropped(values: Seq<Seq<char>>)
    ensures
        without_trailing_empty(values).len() <= values.len(),
        without_trailing_empty(values) == values.take(without_trailing_empty(values).len() as int),
        without_trailing_empty(values).len() > 0 ==> without_trailing_empty(values).last().len()
            > 0,
        forall|k: int|
            without_trailing_empty(values).len() <= k < values.len() ==> (#[trigger] values[k]).len()
                == 0,
    decreases values.len(),
{
    if values.len() > 0 && values.last().len() == 0 {
        let shorter = values.drop_last();
        trailing_empty_are_dropped(shorter);
        let kept = without_trailing_empty(shorter);
        assert forall|k: int| kept.len() <= k < values.len() implies (#[trigger] values[k]).len()
            == 0 by {
            if k < shorter.len() {
                assert(shorter[k] == values[k]);
            }
        }
    }
}

/// Filling a tuple that ends in a non-empty value with empty texts and
/// dropping the empty texts at the end again leaves the tuple.
pub proof fn padding_is_dropped_again(rule: Seq<Seq<char>>, len: nat)
    requires
        rule.len() <= len,
        rule.len() > 0 ==> rule.last().len() > 0,
    ensures
        without_trailing_empty(padded(rule, len)) == rule,
    decreases len,
{
    if len > rule.len() {
        assert(padded(rule, len).drop_last() =~= padded(rule, (len - 1) as nat));
        padding_is_dropped_again(rule, (len - 1) as nat);
    }
}

/// A tuple of one to six values that ends in a non-empty value, stored under
/// a type that is not empty, is the tuple that its record stores, and the
/// tuple that loading takes from the record.
pub proof fn stored_tuple_comes_back(ptype: Seq<char>, rule: Seq<Seq<char>>)
    requires
        ptype.len() > 0,
        1 <= rule.len() <= FIELD_COUNT,
        rule.last().len() > 0,
    ensures
        record_of(ptype, rule) is Some,
        tuple_of(record_of(ptype, rule).unwrap()) == Some(rule),
        line_of(record_of(ptype, rule).unwrap()) == Some(rule),
{
    padding_is_dropped_again(rule, FIELD_COUNT as nat);
}

/// The tuple that a record of a non-empty type stores is stored, under the
/// record's type, by a record with the same six fields.
pub proof fn rebuilt_tuple_is_stored_alike(record: RuleView)
    requires
        record.fields.len() == FIELD_COUNT,
        record.ptype.len() > 0,
        tuple_of(record) is Some,
    ensures
        record_of(record.ptype, tuple_of(record).unwrap()) == Some(
            RuleView { key: None, ptype: record.ptype, fields: record.fields },
        ),
{
    let tuple = tuple_of(record).unwrap();
    trailing_empty_are_dropped(record.fields);
    assert forall|k: int| 0 <= k < FIELD_COUNT implies padded(tuple, FIELD_COUNT as nat)[k]
        == record.fields[k] by {
        if k >= tuple.len() {
            assert(record.fields[k] =~= Seq::<char>::empty());
        }
    }
    assert(padded(tuple, FIELD_COUNT as nat) =~= record.fields);
}

/// The value at position `index` of `rule`, or the empty text past its end.
fn value_or_empty(rule: &[String], index: usize) -> (value: String)
    ensures
        index < rule.len() ==> value@ == rule[index as int]@,
        index >= rule.len() ==> value@.len() == 0,
{
    if index < rule.len() {
        rule[index].clone()
    } else {
        String::new()
    }
}

/// Maps the tuple `rule` of type `ptype` to the record that stores it.
/// An empty type or an empty tuple has no record. Values past the sixth are
/// not stored.
pub fn map_to_casbin_rule(ptype: &str, rule: &[String]) -> (record: Option<CasbinRule>)
    ensures
        record.deep_view() == record_of(ptype@, rule.deep_view()),
{
    if ptype.is_empty() || rule.len() == 0 {
        return None;
    }
    let new_rule = CasbinRule {
        _key: None,
        ptype: ptype.to_owned(),
        v0: value_or_empty(rule, 0),
        v1: value_or_empty(rule, 1),
        v2: value_or_empty(rule, 2),
        v3: value_or_empty(rule, 3),
        v4: value_or_empty(rule, 4),
        v5: value_or_empty(rule, 5),
    };
    assert forall|k: int| 0 <= k < FIELD_COUNT implies new_rule@.fields[k] == padded(
        rule.deep_view(),
        FIELD_COUNT as nat,
    )[k] by {
        if k >= rule.len() {
            assert(new_rule@.fields[k] =~= Seq::<char>::empty());
        }
    }
    assert(new_rule@.fields =~= padded(rule.deep_view(), FIELD_COUNT as nat));
    Some(new_rule)
}

/// Number of fields of `record` up to its last non-empty one.
fn used_fields(record: &CasbinRule) -> (n: usize)
    ensures
        n <= FIELD_COUNT,
        without_trailing_empty(record@.fields) == record@.fields.take(n as int),
{
    let mut n: usize = FIELD_COUNT;
    assert(record@.fields.take(n as int) =~= record@.fields);
    while n > 0 && record.field(n - 1).as_str().is_empty()
        invariant
            n <= FIELD_COUNT,
            record@.fields.len() == FIELD_COUNT,
            without_trailing_empty(record@.fields) == without_trailing_empty(
                record@.fields.take(n as int),
            ),
        decreases n,
    {
        assert(record@.fields.take(n as int).drop_last() =~= record@.fields.take(n - 1));
        n = n - 1;
    }
    n
}

/// Rebuilds the tuple that `casbin_rule` stores: its six fields without the
/// empty ones at the end. A record whose fields are all empty stores none.
pub fn normalize_policy(casbin_rule: &CasbinRule) -> (tuple: Option<Vec<String>>)
    ensures
        tuple.deep_view() == tuple_of(casbin_rule@),
{
    let n = used_fields(casbin_rule);
    if n == 0 {
        return None;
    }
    let mut result: Vec<String> = Vec::new();
    let mut i: usize = 0;
    while i < n
        invariant
            i <= n <= FIELD_COUNT,
            casbin_rule@.fields.len() == FIELD_COUNT,
            result.len() == i,
            result.deep_view() == casbin_rule@.fields.take(i as int),
        decreases n - i,
    {
        let ghost before = result.deep_view();
        result.push(casbin_rule.field(i).clone());
        assert forall|k: int| 0 <= k <= i implies result.deep_view()[k]
            == casbin_rule@.fields[k] by {
            if k < i {
                assert(before[k] == casbin_rule@.fields.take(i as int)[k]);
            }
        }
        i = i + 1;
    }
    Some(result)
}

/// The tuple that loading takes from `casbin_rule`: none from a record with
/// an empty type, else the tuple that the record stores.
pub fn load_policy_line(casbin_rule: &CasbinRule) -> (tuple: Option<Vec<String>>)
    ensures
        tuple.deep_view() == line_of(casbin_rule@),
{
    if !casbin_rule.ptype.as_str().is_empty() {
        return normalize_policy(casbin_rule);
    }
    None
}

/// Whether `policy` meets every non-empty text of `filter` at its position.
fn passes_filter(filter: &Vec<String>, policy: &Vec<String>) -> (ok: bool)
    ensures
        ok == passes(filter.deep_view(), policy.deep_view()),
{
    let mut ok = true;
    let mut i: usize = 0;
    while i < filter.len()
        invariant
            i <= filter.len(),
            ok == passes(filter.deep_view().take(i as int), policy.deep_view()),
        decreases filter.len() - i,
    {
        let wanted = &filter[i];
        let met = wanted.as_str().is_empty() || (i < policy.len() && *wanted == policy[i]);
        assert(filter.deep_view().take(i + 1)[i as int] == wanted@);
        if !met {
            ok = false;
        }
        i = i + 1;
    }
    assert(filter.deep_view().take(i as int) =~= filter.deep_view());
    ok
}

/// What filtered loading takes from `casbin_rule`: nothing from a record
/// with an empty type, with six empty fields, or of a section other than `p`
/// and `g`; else the record's tuple, and whether the tuple passes the
/// constraints that `f` holds for the record's section.
pub fn load_filtered_policy_line(casbin_rule: &CasbinRule, f: &Filter) -> (line: Option<
    (bool, Vec<String>),
>)
    ensures
        line.deep_view() == filtered_line_of(casbin_rule@, f@),
{
    if casbin_rule.ptype.as_str().is_empty() {
        return None;
    }
    let sec = casbin_rule.ptype.as_str().get_char(0);
    match normalize_policy(casbin_rule) {
        None => None,
        Some(policy) => {
            if sec == 'p' {
                Some((passes_filter(&f.p, &policy), policy))
            } else if sec == 'g' {
                Some((passes_filter(&f.g, &policy), policy))
            } else {
                None
            }
        },
    }
}

} // verus!
