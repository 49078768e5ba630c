//! The statements that the storage operations send to the rule collection.
//!
//! Every function here computes a statement; none runs one. A statement is a
//! query text and the values bound to the variables that the text names.

use crate::model::{CasbinRule, RuleView, FIELD_COUNT};
use crate::policy::padded;
use vstd::prelude::*;
use vstd::string::*;

verus! {

/// A value bound to a variable of a query text.
#[derive(Debug, Clone, PartialEq, Eq)]
pub enum BindValue {
    /// No value: the text's fallback for the variable applies.
    Null,
    Text(String),
    /// One rule record, as a document.
    Rule(CasbinRule),
    /// A list of rule records, as an array of documents.
    Rules(Vec<CasbinRule>),
}

/// Mathematical value of a [`BindValue`].
pub ghost enum BindValueView {
    Null,
    Text(Seq<char>),
    Rule(RuleView),
    Rules(Seq<RuleView>),
}

impl View for BindValue {
    type V = BindValueView;

    open spec fn view(&self) -> BindValueView {
        match self {
            BindValue::Null => BindValueView::Null,
            BindValue::Text(text) => BindValueView::Text(text@),
            BindValue::Rule(rule) => BindValueView::Rule(rule@),
            BindValue::Rules(rules) => BindValueView::Rules(rules.deep_view()),
        }
    }
}

/// A variable of a query text with the value bound to it.
#[derive(Debug, Clone, PartialEq, Eq)]
pub struct BindVar {
    pub name: String,
    pub value: BindValue,
}

/// Mathematical value of a [`BindVar`].
pub ghost struct BindVarView {
    pub name: Seq<char>,
    pub value: BindValueView,
}

impl View for BindVar {
    type V = BindVarView;

    open spec fn view(&self) -> BindVarView {
        BindVarView { name: self.name@, value: self.value@ }
    }
}

impl DeepView for BindVar {
    type V = BindVarView;

    open spec fn deep_view(&self) -> BindVarView {
        self@
    }
}

/// A query text and its bound variables, in the order in which they were
/// bound.
#[derive(Debug, Clone, PartialEq, Eq)]
pub struct AqlStatement {
    pub query: String,
    pub bind_vars: Vec<BindVar>,
}

/// Mathematical value of an [`AqlStatement`].
pub ghost struct StatementView {
    pub query: Seq<char>,
    pub bind_vars: Seq<BindVarView>,
}

impl View for AqlStatement {
    type V = StatementView;

    open spec fn view(&self) -> StatementView {
        StatementView { query: self.query@, bind_vars: self.bind_vars.deep_view() }
    }
}

impl DeepView for AqlStatement {
    type V = StatementView;

    open spec fn deep_view(&self) -> StatementView {
        self@
    }
}

/// The variable `name` bound to the text `value`.
pub open spec fn text_var(name: Seq<char>, value: Seq<char>) -> BindVarView {
    BindVarView { name, value: BindValueView::Text(value) }
}

/// The variable `name` bound to the text `value`, or to no value when
/// `value` is empty.
pub open spec fn optional_var(name: Seq<char>, value: Seq<char>) -> BindVarView {
    BindVarView {
        name,
        value: if value.len() == 0 {
            BindValueView::Null
        } else {
            BindValueView::Text(value)
        },
    }
}

/// The statement that inserts every record of `rules`.
pub open spec fn insert_all_statement(rules: Seq<RuleView>) -> StatementView {
    StatementView {
        query: "FOR r IN @rules INSERT r IN casbin"@,
        bind_vars: seq![BindVarView { name: "rules"@, value: BindValueView::Rules(rules) }],
    }
}

/// The statement that inserts the record `rule`.
pub open spec fn insert_statement(rule: RuleView) -> StatementView {
    StatementView {
        query: "INSERT @rule IN casbin"@,
        bind_vars: seq![BindVarView { name: "rule"@, value: BindValueView::Rule(rule) }],
    }
}

/// The statement that removes every record.
pub open spec fn clear_statement() -> StatementView {
    StatementView { query: "FOR r IN casbin REMOVE r IN casbin"@, bind_vars: Seq::empty() }
}

/// The statement that returns every record.
pub open spec fn load_statement() -> StatementView {
    StatementView { query: "FOR r IN casbin RETURN r"@, bind_vars: Seq::empty() }
}

/// The decimal digit that numbers field or variable `k`, for `k` below six.
pub open spec fn digit_text(k: int) -> Seq<char> {
    if k == 0 {
        "0"@
    } else if k == 1 {
        "1"@
    } else if k == 2 {
        "2"@
    } else if k == 3 {
        "3"@
    } else if k == 4 {
        "4"@
    } else {
        "5"@
    }
}

/// `text` followed by the clause that keeps the records whose field `field`
/// equals the variable `v` of the same number.
pub open spec fn with_exact_clause(text: Seq<char>, field: int) -> Seq<char> {
    text + " FILTER r.v"@ + digit_text(field) + " == @v"@ + digit_text(field)
}

/// `text` followed by the clause that keeps the records whose field `field`
/// equals the variable `f` numbered `slot`, or any record when no value is
/// bound to that variable.
pub open spec fn with_optional_clause(text: Seq<char>, field: int, slot: int) -> Seq<char> {
    text + " FILTER r.v"@ + digit_text(field) + " == NOT_NULL(@f"@ + digit_text(slot) + ", r.v"@
        + digit_text(field) + ")"@
}

/// The text that selects by type and by the first `count` fields.
pub open spec fn exact_selection(count: nat) -> Seq<char>
    decreases count,
{
    if count == 0 {
        "FOR r IN casbin FILTER r.ptype == @ptype"@
    } else {
        with_exact_clause(exact_selection((count - 1) as nat), count - 1)
    }
}

/// The text that selects by type and by `count` optional values for the
/// fields from `first` on.
pub open spec fn optional_selection(first: int, count: nat) -> Seq<char>
    decreases count,
{
    if count == 0 {
        "FOR r IN casbin FILTER r.ptype == @ptype"@
    } else {
        with_optional_clause(
            optional_selection(first, (count - 1) as nat),
            first + count - 1,
            count - 1,
        )
    }
}

/// The statement that removes the records of type `ptype` whose six fields
/// equal the six values of `values`.
pub open spec fn exact_removal_statement(
    ptype: Seq<char>,
    values: Seq<Seq<char>>,
) -> StatementView {
    StatementView {
        query: exact_selection(FIELD_COUNT as nat) + " REMOVE r IN casbin RETURN 1"@,
        bind_vars: seq![text_var("ptype"@, ptype)] + Seq::new(
            FIELD_COUNT as nat,
            |k: int| text_var("v"@ + digit_text(k), values[k]),
        ),
    }
}

/// The statement that removes the records of type `ptype` whose fields from
/// `first` on equal the values of `values`, one value per field up to the
/// sixth, where an empty value admits any field.
pub open spec fn filtered_removal_statement(
    ptype: Seq<char>,
    first: int,
    values: Seq<Seq<char>>,
) -> StatementView {
    StatementView {
        query: optional_selection(first, (FIELD_COUNT - first) as nat)
            + " REMOVE r IN casbin RETURN 1"@,
        bind_vars: seq![text_var("ptype"@, ptype)] + Seq::new(
            (FIELD_COUNT - first) as nat,
            |j: int| optional_var("f"@ + digit_text(j), values[j]),
        ),
    }
}

/// The digit that numbers field or variable `k`.
fn digit(k: usize) -> (text: &'static str)
    requires
        k < FIELD_COUNT,
    ensures
        text@ == digit_text(k as int),
{
    if k == 0 {
        "0"
    } else if k == 1 {
        "1"
    } else if k == 2 {
        "2"
    } else if k == 3 {
        "3"
    } else if k == 4 {
        "4"
    } else {
        "5"
    }
}

/// The name made of `prefix` and the digit for `k`.
fn numbered(prefix: &str, k: usize) -> (name: String)
    requires
        k < FIELD_COUNT,
    ensures
        name@ == prefix@ + digit_text(k as int),
{
    let mut name = prefix.to_owned();
    name.append(digit(k));
    name
}

/// Cuts `rule`, or fills it with empty texts, to the number of fields from
/// `field_index` to the sixth.
pub fn normalize_casbin_rule(rule: Vec<String>, field_index: usize) -> (values: Vec<String>)
    requires
        field_index <= FIELD_COUNT,
    ensures
        values.len() == FIELD_COUNT - field_index,
        values.deep_view() == padded(rule.deep_view(), (FIELD_COUNT - field_index) as nat),
{
    let mut values = rule;
    values.resize(FIELD_COUNT - field_index, String::new());
    assert(values.deep_view() =~= padded(rule.deep_view(), (FIELD_COUNT - field_index) as nat));
    values
}

/// The statement that inserts every record of `rules`.
pub fn save_policy(rules: Vec<CasbinRule>) -> (statement: AqlStatement)
    ensures
        statement@ == insert_all_statement(rules.deep_view()),
{
    let mut bind_vars: Vec<BindVar> = Vec::new();
    bind_vars.push(BindVar { name: "rules".to_string(), value: BindValue::Rules(rules) });
    let statement = AqlStatement {
        query: "FOR r IN @rules INSERT r IN casbin".to_string(),
        bind_vars,
    };
    assert(statement@.bind_vars =~= insert_all_statement(rules.deep_view()).bind_vars);
    statement
}

/// The statement that removes every record of the collection.
pub fn clear_policy() -> (statement: AqlStatement)
    ensures
        statement@ == clear_statement(),
{
    let statement = AqlStatement {
        query: "FOR r IN casbin REMOVE r IN casbin".to_string(),
        bind_vars: Vec::new(),
    };
    assert(statement@.bind_vars =~= clear_statement().bind_vars);
    statement
}

/// The statement that returns every record of the collection.
pub fn load_policy() -> (statement: AqlStatement)
    ensures
        statement@ == load_statement(),
{
    let statement = AqlStatement {
        query: "FOR r IN casbin RETURN r".to_string(),
        bind_vars: Vec::new(),
    };
    assert(statement@.bind_vars =~= load_statement().bind_vars);
    statement
}

/// The statement that inserts the record `rule`.
pub fn add_policy(rule: CasbinRule) -> (statement: AqlStatement)
    ensures
        statement@ == insert_statement(rule@),
{
    let mut bind_vars: Vec<BindVar> = Vec::new();
    bind_vars.push(BindVar { name: "rule".to_string(), value: BindValue::Rule(rule) });
    let statement = AqlStatement { query: "INSERT @rule IN casbin".to_string(), bind_vars };
    assert(statement@.bind_vars =~= insert_statement(rule@).bind_vars);
    statement
}

/// The statement that inserts every record of `rules` at once.
pub fn add_policies(rules: Vec<CasbinRule>) -> (statement: AqlStatement)
    ensures
        statement@ == insert_all_statement(rules.deep_view()),
{
    save_policy(rules)
}

/// The statement that removes the records of type `pt` whose six fields are
/// the values of `rule`, cut or filled with empty texts to six.
pub fn remove_policy(pt: &str, rule: Vec<String>) -> (statement: AqlStatement)
    ensures
        statement@ == exact_removal_statement(
            pt@,
            padded(rule.deep_view(), FIELD_COUNT as nat),
        ),
{
    let values = normalize_casbin_rule(rule, 0);
    let mut query = "FOR r IN casbin FILTER r.ptype == @ptype".to_string();
    let mut bind_vars: Vec<BindVar> = Vec::new();
    bind_vars.push(BindVar { name: "ptype".to_string(), value: BindValue::Text(pt.to_owned()) });
    let ghost wanted = exact_removal_statement(pt@, values.deep_view());
    let mut k: usize = 0;
    while k < FIELD_COUNT
        invariant
            k <= FIELD_COUNT,
            values.len() == FIELD_COUNT,
            wanted == exact_removal_statement(pt@, values.deep_view()),
            query@ == exact_selection(k as nat),
            bind_vars.len() == k + 1,
            forall|i: int| 0 <= i <= k ==> bind_vars.deep_view()[i] == wanted.bind_vars[i],
        decreases FIELD_COUNT - k,
    {
        query.append(" FILTER r.v");
        query.append(digit(k));
        query.append(" == @v");
        query.append(digit(k));
        bind_vars.push(
            BindVar { name: numbered("v", k), value: BindValue::Text(values[k].clone()) },
        );
        k = k + 1;
    }
    query.append(" REMOVE r IN casbin RETURN 1");
    let statement = AqlStatement { query, bind_vars };
    assert(statement@.bind_vars =~= wanted.bind_vars);
    statement
}

/// The statements that remove, one after the other, the records that each
/// entry of `rules` names under the type `pt`.
pub fn remove_policies(pt: &str, rules: Vec<Vec<String>>) -> (statements: Vec<AqlStatement>)
    ensures
        statements.len() == rules.len(),
        forall|i: int|
            0 <= i < rules.len() ==> (#[trigger] statements[i])@ == exact_removal_statement(
                pt@,
                padded(rules[i].deep_view(), FIELD_COUNT as nat),
            ),
{
    let mut statements: Vec<AqlStatement> = Vec::new();
    let mut i: usize = 0;
    while i < rules.len()
        invariant
            i <= rules.len(),
            statements.len() == i,
            forall|j: int|
                0 <= j < i ==> (#[trigger] statements[j])@ == exact_removal_statement(
                    pt@,
                    padded(rules[j].deep_view(), FIELD_COUNT as nat),
                ),
        decreases rules.len() - i,
    {
        let rule = rules[i].clone();
        statements.push(remove_policy(pt, rule));
        i = i + 1;
    }
    statements
}

/// The statement that removes the records of type `pt` whose fields from
/// `field_index` on meet `field_values`, cut or filled with empty texts to
/// the number of those fields. An empty value admits any field.
pub fn remove_filtered_policy(pt: &str, field_index: usize, field_values: Vec<String>) -> (statement:
    AqlStatement)
    requires
        field_index < FIELD_COUNT,
    ensures
        statement@ == filtered_removal_statement(
            pt@,
            field_index as int,
            padded(field_values.deep_view(), (FIELD_COUNT - field_index) as nat),
        ),
{
    let values = normalize_casbin_rule(field_values, field_index);
    let count: usize = FIELD_COUNT - field_index;
    let mut query = "FOR r IN casbin FILTER r.ptype == @ptype".to_string();
    let mut bind_vars: Vec<BindVar> = Vec::new();
    bind_vars.push(BindVar { name: "ptype".to_string(), value: BindValue::Text(pt.to_owned()) });
    let ghost wanted = filtered_removal_statement(pt@, field_index as int, values.deep_view());
    let mut j: usize = 0;
    while j < count
        invariant
            j <= count,
            count == FIELD_COUNT - field_index,
            field_index < FIELD_COUNT,
            values.len() == count,
            wanted == filtered_removal_statement(pt@, field_index as int, values.deep_view()),
            query@ == optional_selection(field_index as int, j as nat),
            bind_vars.len() == j + 1,
            forall|i: int| 0 <= i <= j ==> bind_vars.deep_view()[i] == wanted.bind_vars[i],
        decreases count - j,
    {
        query.append(" FILTER r.v");
        query.append(digit(field_index + j));
        query.append(" == NOT_NULL(@f");
        query.append(digit(j));
        query.append(", r.v");
        query.append(digit(field_index + j));
        query.append(")");
        let value = if values[j].as_str().is_empty() {
            BindValue::Null
        } else {
            BindValue::Text(values[j].clone())
        };
        bind_vars.push(BindVar { name: numbered("f", j), value });
        j = j + 1;
    }
    query.append(" REMOVE r IN casbin RETURN 1");
    let statement = AqlStatement { query, bind_vars };
    assert(statement@.bind_vars =~= wanted.bind_vars);
    statement
}

} // verus!
