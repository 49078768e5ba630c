//! What the removal statements mean to the rule collection.
//!
//! The collection is modelled as the sequence of the records that it holds.
//! A removal statement binds the type first and then one value for each of
//! the last fields of a record, up to the sixth. It selects the records that
//! have the bound type and, in each of those fields, the bound text; a
//! variable without value admits any text. The statement removes what it
//! selects and returns one row for each record removed.

use crate::adapter::{remove_filtered_plan, remove_plan, reported, PlanView};
use crate::casbin_dao::{
    exact_removal_statement, filtered_removal_statement, BindValueView, StatementView,
};
use crate::model::{RuleView, FIELD_COUNT};
use crate::policy::padded;
use vstd::prelude::*;

verus! {

/// Whether the bound `value` admits the text `field`.
pub open spec fn admits(value: BindValueView, field: Seq<char>) -> bool {
    match value {
        BindValueView::Null => true,
        BindValueView::Text(text) => text == field,
        _ => false,
    }
}

/// Whether `statement`, a removal by type and fields, selects `record`. A
/// statement of another shape selects by none of this.
pub open spec fn selects(statement: StatementView, record: RuleView) -> bool {
    let bound = statement.bind_vars.len();
    &&& 1 <= bound <= FIELD_COUNT + 1
    &&& statement.bind_vars[0].value == BindValueView::Text(record.ptype)
    &&& forall|j: int|
        1 <= j < bound ==> admits(
            (#[trigger] statement.bind_vars[j]).value,
            record.fields[FIELD_COUNT - bound + j],
        )
}

/// Number of records of `store` that `statement` selects: the number of
/// rows that it returns.
pub open spec fn rows_of(store: Seq<RuleView>, statement: StatementView) -> nat
    decreases store.len(),
{
    if store.len() == 0 {
        0
    } else {
        rows_of(store.drop_last(), statement) + if selects(statement, store.last()) {
            1nat
        } else {
            0nat
        }
    }
}

/// Number of rows that a plan of one statement gets back from `store`; none
/// for a plan that sends nothing.
pub open spec fn rows_returned(store: Seq<RuleView>, plan: PlanView) -> nat {
    if plan.statements.len() == 0 {
        0
    } else {
        rows_of(store, plan.statements.last())
    }
}

/// Whether every record of `store` has its six fields.
pub open spec fn well_formed(store: Seq<RuleView>) -> bool {
    forall|i: int| 0 <= i < store.len() ==> (#[trigger] store[i]).fields.len() == FIELD_COUNT
}

/// Whether every text of `values` is empty.
pub open spec fn all_empty(values: Seq<Seq<char>>) -> bool {
    forall|k: int| 0 <= k < values.len() ==> (#[trigger] values[k]).len() == 0
}

/// The removal by exact match selects the records that have the type and,
/// as their six fields, the given values cut or filled to six.
pub proof fn exact_removal_selects(ptype: Seq<char>, rule: Seq<Seq<char>>, record: RuleView)
    requires
        record.fields.len() == FIELD_COUNT,
    ensures
        selects(exact_removal_statement(ptype, padded(rule, FIELD_COUNT as nat)), record) <==> (
        record.ptype == ptype && record.fields == padded(rule, FIELD_COUNT as nat)),
{
    let values = padded(rule, FIELD_COUNT as nat);
    let statement = exact_removal_statement(ptype, values);
    if selects(statement, record) {
        assert forall|k: int| 0 <= k < FIELD_COUNT implies record.fields[k] == values[k] by {
            assert(admits(statement.bind_vars[k + 1].value, record.fields[k]));
        }
        assert(record.fields =~= values);
    }
}

/// The filtered removal selects the records that have the type and, in each
/// field from `first` on, the value given for it, where no value or an empty
/// one is met by any field.
pub proof fn filtered_removal_selects(
    ptype: Seq<char>,
    first: int,
    values: Seq<Seq<char>>,
    record: RuleView,
)
    requires
        0 <= first < FIELD_COUNT,
        record.fields.len() == FIELD_COUNT,
    ensures
        selects(
            filtered_removal_statement(ptype, first, padded(values, (FIELD_COUNT - first) as nat)),
            record,
        ) <==> (record.ptype == ptype && forall|k: int|
            first <= k < FIELD_COUNT && k - first < values.len() && (#[trigger] values[k
                - first]).len() > 0 ==> record.fields[k] == values[k - first]),
{
    let count = (FIELD_COUNT - first) as nat;
    let given = padded(values, count);
    let statement = filtered_removal_statement(ptype, first, given);
    if selects(statement, record) {
        assert forall|k: int|
            first <= k < FIELD_COUNT && k - first < values.len() && (#[trigger] values[k
                - first]).len() > 0 implies record.fields[k] == values[k - first] by {
            assert(admits(statement.bind_vars[k - first + 1].value, record.fields[k]));
        }
    }
    if record.ptype == ptype && forall|k: int|
        first <= k < FIELD_COUNT && k - first < values.len() && (#[trigger] values[k
            - first]).len() > 0 ==> record.fields[k] == values[k - first] {
        assert forall|j: int| 1 <= j < statement.bind_vars.len() implies admits(
            (#[trigger] statement.bind_vars[j]).value,
            record.fields[FIELD_COUNT - statement.bind_vars.len() + j],
        ) by {
            let k = first + j - 1;
            if given[j - 1].len() > 0 {
                assert(values[k - first].len() > 0);
            }
        }
    }
}

/// A statement that selects no record of `store` returns no row.
pub proof fn nothing_selected_no_rows(store: Seq<RuleView>, statement: StatementView)
    requires
        forall|i: int| 0 <= i < store.len() ==> !selects(statement, #[trigger] store[i]),
    ensures
        rows_of(store, statement) == 0,
    decreases store.len(),
{
    if store.len() > 0 {
        nothing_selected_no_rows(store.drop_last(), statement);
    }
}

/// Two statements that select the same records of `store` return the same
/// number of rows.
pub proof fn same_selection_same_rows(
    store: Seq<RuleView>,
    first: StatementView,
    second: StatementView,
)
    requires
        forall|i: int|
            0 <= i < store.len() ==> selects(first, #[trigger] store[i]) == selects(
                second,
                store[i],
            ),
    ensures
        rows_of(store, first) == rows_of(store, second),
    decreases store.len(),
{
    if store.len() > 0 {
        same_selection_same_rows(store.drop_last(), first, second);
    }
}

/// Removing a rule that the collection does not hold sends one statement,
/// which returns no row, and reports `false`.
pub proof fn removing_absent_rule_reports_false(
    store: Seq<RuleView>,
    ptype: Seq<char>,
    rule: Seq<Seq<char>>,
)
    requires
        well_formed(store),
        forall|i: int|
            0 <= i < store.len() ==> !((#[trigger] store[i]).ptype == ptype && store[i].fields
                == padded(rule, FIELD_COUNT as nat)),
    ensures
        remove_plan(ptype, rule).statements.len() == 1,
        rows_returned(store, remove_plan(ptype, rule)) == 0,
        !reported(remove_plan(ptype, rule).outcome, rows_returned(store, remove_plan(ptype, rule))),
{
    let plan = remove_plan(ptype, rule);
    let statement = plan.statements[0];
    assert forall|i: int| 0 <= i < store.len() implies !selects(statement, #[trigger] store[i]) by {
        exact_removal_selects(ptype, rule, store[i]);
    }
    nothing_selected_no_rows(store, statement);
}

/// A filtered removal whose values are all empty removes no record when it
/// sends nothing, that is, for a field index past the sixth field or an
/// empty list of values, and when the collection holds no record of the
/// type. It then reports `false`.
pub proof fn empty_filter_removes_nothing(
    store: Seq<RuleView>,
    ptype: Seq<char>,
    field_index: int,
    field_values: Seq<Seq<char>>,
)
    requires
        well_formed(store),
        0 <= field_index,
        all_empty(field_values),
        field_index >= FIELD_COUNT || field_values.len() == 0 || forall|i: int|
            0 <= i < store.len() ==> (#[trigger] store[i]).ptype != ptype,
    ensures
        rows_returned(store, remove_filtered_plan(ptype, field_index, field_values)) == 0,
        !reported(
            remove_filtered_plan(ptype, field_index, field_values).outcome,
            rows_returned(store, remove_filtered_plan(ptype, field_index, field_values)),
        ),
{
    let plan = remove_filtered_plan(ptype, field_index, field_values);
    if field_index < FIELD_COUNT && field_values.len() > 0 {
        let statement = plan.statements[0];
        assert forall|i: int| 0 <= i < store.len() implies !selects(
            statement,
            #[trigger] store[i],
        ) by {
            filtered_removal_selects(ptype, field_index, field_values, store[i]);
        }
        nothing_selected_no_rows(store, statement);
    }
}

/// A filtered removal that is sent with values that are all empty selects
/// every record of the type, whatever its fields.
pub proof fn empty_filter_selects_whole_type(
    ptype: Seq<char>,
    field_index: int,
    field_values: Seq<Seq<char>>,
    record: RuleView,
)
    requires
        0 <= field_index < FIELD_COUNT,
        field_values.len() > 0,
        all_empty(field_values),
        record.fields.len() == FIELD_COUNT,
    ensures
        remove_filtered_plan(ptype, field_index, field_values).statements.len() == 1,
        selects(remove_filtered_plan(ptype, field_index, field_values).statements[0], record)
            <==> record.ptype == ptype,
{
    filtered_removal_selects(ptype, field_index, field_values, record);
}

/// A filtered removal from the first field on, with a non-empty value for
/// each of the six fields, selects the records that the removal of that
/// tuple selects, returns as many rows from any collection, and reports the
/// same.
pub proof fn full_filter_is_exact_removal(
    store: Seq<RuleView>,
    ptype: Seq<char>,
    values: Seq<Seq<char>>,
)
    requires
        well_formed(store),
        values.len() >= FIELD_COUNT,
        forall|k: int| 0 <= k < FIELD_COUNT ==> (#[trigger] values[k]).len() > 0,
    ensures
        remove_filtered_plan(ptype, 0, values).statements.len() == 1,
        remove_plan(ptype, values).statements.len() == 1,
        forall|record: RuleView|
            record.fields.len() == FIELD_COUNT ==> (#[trigger] selects(
                remove_filtered_plan(ptype, 0, values).statements[0],
                record,
            ) <==> selects(remove_plan(ptype, values).statements[0], record)),
        rows_returned(store, remove_filtered_plan(ptype, 0, values)) == rows_returned(
            store,
            remove_plan(ptype, values),
        ),
        reported(
            remove_filtered_plan(ptype, 0, values).outcome,
            rows_returned(store, remove_filtered_plan(ptype, 0, values)),
        ) == reported(
            remove_plan(ptype, values).outcome,
            rows_returned(store, remove_plan(ptype, values)),
        ),
{
    let filtered = remove_filtered_plan(ptype, 0, values).statements[0];
    let exact = remove_plan(ptype, values).statements[0];
    assert forall|record: RuleView| record.fields.len() == FIELD_COUNT implies (#[trigger] selects(
        filtered,
        record,
    ) <==> selects(exact, record)) by {
        filtered_removal_selects(ptype, 0, values, record);
        exact_removal_selects(ptype, values, record);
        let six = padded(values, FIELD_COUNT as nat);
        if selects(filtered, record) {
            assert forall|k: int| 0 <= k < FIELD_COUNT implies record.fields[k] == six[k] by {
                assert(values[k - 0].len() > 0);
            }
        }
    }
    same_selection_same_rows(store, filtered, exact);
}

} // verus!
