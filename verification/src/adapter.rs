//! The decisions of the policy store adapter.
//!
//! The adapter neither holds a connection nor a policy model. Each operation
//! is split at the point where the collection is contacted: what is to be
//! sent is computed here, and so is what the operation makes of the answer.

use crate::casbin_dao::{
    self, exact_removal_statement, filtered_removal_statement, insert_all_statement,
    insert_statement, AqlStatement, StatementView,
};
use crate::model::{CasbinRule, RuleView, FIELD_COUNT};
use crate::policy::{
    filtered_line_of, line_of, load_filtered_policy_line, load_policy_line, map_to_casbin_rule,
    padded, record_of, Filter, FilterView,
};
use vstd::prelude::*;
use vstd::string::*;

verus! {

/// A tuple to be inserted into the policy model, under the section `sec` and
/// the type `ptype`.
#[derive(Debug, Clone, PartialEq, Eq)]
pub struct PolicyLine {
    pub sec: char,
    pub ptype: String,
    pub rule: Vec<String>,
}

/// Mathematical value of a [`PolicyLine`].
pub ghost struct LineView {
    pub sec: char,
    pub ptype: Seq<char>,
    pub rule: Seq<Seq<char>>,
}

impl View for PolicyLine {
    type V = LineView;

    open spec fn view(&self) -> LineView {
        LineView { sec: self.sec, ptype: self.ptype@, rule: self.rule.deep_view() }
    }
}

impl DeepView for PolicyLine {
    type V = LineView;

    open spec fn deep_view(&self) -> LineView {
        self@
    }
}

/// The tuples that the policy model holds under one type.
#[derive(Debug, Clone, PartialEq, Eq)]
pub struct TypedRules {
    pub ptype: String,
    pub rules: Vec<Vec<String>>,
}

/// Mathematical value of a [`TypedRules`].
pub ghost struct TypedRulesView {
    pub ptype: Seq<char>,
    pub rules: Seq<Seq<Seq<char>>>,
}

impl View for TypedRules {
    type V = TypedRulesView;

    open spec fn view(&self) -> TypedRulesView {
        TypedRulesView { ptype: self.ptype@, rules: self.rules.deep_view() }
    }
}

impl DeepView for TypedRules {
    type V = TypedRulesView;

    open spec fn deep_view(&self) -> TypedRulesView {
        self@
    }
}

/// How an operation arrives at the truth value that it reports.
#[derive(Debug, Clone, Copy, PartialEq, Eq, Structural)]
pub enum Outcome {
    /// The value is settled before anything is sent.
    Fixed(bool),
    /// Whether the last statement returned a row.
    AnyRow,
}

/// What an operation sends, and how it reports. The statements are sent in
/// order; a fault stops the operation and is reported in place of a value.
#[derive(Debug, Clone, PartialEq, Eq)]
pub struct Plan {
    pub statements: Vec<AqlStatement>,
    pub outcome: Outcome,
}

/// Mathematical value of a [`Plan`].
pub ghost struct PlanView {
    pub statements: Seq<StatementView>,
    pub outcome: Outcome,
}

impl View for Plan {
    type V = PlanView;

    open spec fn view(&self) -> PlanView {
        PlanView { statements: self.statements.deep_view(), outcome: self.outcome }
    }
}

/// The value reported under `outcome` when the last statement returned
/// `rows` rows.
pub open spec fn reported(outcome: Outcome, rows: nat) -> bool {
    match outcome {
        Outcome::Fixed(value) => value,
        Outcome::AnyRow => rows > 0,
    }
}

/// The lines loaded from `records`: in the order of the records, one line
/// for each record that has a non-empty type and a non-empty field.
pub open spec fn loaded_lines(records: Seq<RuleView>) -> Seq<LineView>
    decreases records.len(),
{
    if records.len() == 0 {
        Seq::empty()
    } else {
        let rest = loaded_lines(records.drop_last());
        let record = records.last();
        match line_of(record) {
            Some(rule) => rest.push(LineView { sec: record.ptype[0], ptype: record.ptype, rule }),
            None => rest,
        }
    }
}

/// The lines loaded from `records` under `filter`: in the order of the
/// records, one line for each record of section `p` or `g` whose tuple
/// passes the constraints of its section.
pub open spec fn filtered_lines(records: Seq<RuleView>, filter: FilterView) -> Seq<LineView>
    decreases records.len(),
{
    if records.len() == 0 {
        Seq::empty()
    } else {
        let rest = filtered_lines(records.drop_last(), filter);
        let record = records.last();
        match filtered_line_of(record, filter) {
            Some((true, rule)) => rest.push(
                LineView { sec: record.ptype[0], ptype: record.ptype, rule },
            ),
            _ => rest,
        }
    }
}

/// Whether filtering took place on `records`: whether one of them, of
/// section `p` or `g` and with a tuple, was held against `filter`, be it
/// taken or shut out.
pub open spec fn filter_applied(records: Seq<RuleView>, filter: FilterView) -> bool {
    exists|i: int| 0 <= i < records.len() && filtered_line_of(#[trigger] records[i], filter) is Some
}

/// The records that store the tuples of `rules` under the type `ptype`, in
/// order. A tuple without record is left out.
pub open spec fn records_of(ptype: Seq<char>, rules: Seq<Seq<Seq<char>>>) -> Seq<RuleView>
    decreases rules.len(),
{
    if rules.len() == 0 {
        Seq::empty()
    } else {
        let rest = records_of(ptype, rules.drop_last());
        match record_of(ptype, rules.last()) {
            Some(record) => rest.push(record),
            None => rest,
        }
    }
}

/// The records that store the tuples of a section, type after type.
pub open spec fn section_records(section: Seq<TypedRulesView>) -> Seq<RuleView>
    decreases section.len(),
{
    if section.len() == 0 {
        Seq::empty()
    } else {
        section_records(section.drop_last()) + records_of(
            section.last().ptype,
            section.last().rules,
        )
    }
}

/// The plan that adds the tuple `rule` under `ptype`: nothing is sent for a
/// tuple without record, and `false` reported; else the record is inserted
/// and `true` reported.
pub open spec fn add_plan(ptype: Seq<char>, rule: Seq<Seq<char>>) -> PlanView {
    match record_of(ptype, rule) {
        None => PlanView { statements: Seq::empty(), outcome: Outcome::Fixed(false) },
        Some(record) => PlanView {
            statements: seq![insert_statement(record)],
            outcome: Outcome::Fixed(true),
        },
    }
}

/// The plan that adds the tuples of `rules` under `ptype`: one insertion of
/// the records that store them, sent even when there is none, reporting
/// `true`.
pub open spec fn add_all_plan(ptype: Seq<char>, rules: Seq<Seq<Seq<char>>>) -> PlanView {
    PlanView {
        statements: seq![insert_all_statement(records_of(ptype, rules))],
        outcome: Outcome::Fixed(true),
    }
}

/// The plan that removes the tuple `rule` of type `ptype`: one removal by
/// exact match on the six fields, reporting whether it returned a row.
pub open spec fn remove_plan(ptype: Seq<char>, rule: Seq<Seq<char>>) -> PlanView {
    PlanView {
        statements: seq![exact_removal_statement(ptype, padded(rule, FIELD_COUNT as nat))],
        outcome: Outcome::AnyRow,
    }
}

/// The plan that removes the tuples of `rules` of type `ptype`: one removal
/// by exact match for each tuple, in order, reporting `true` whatever the
/// removals returned.
pub open spec fn remove_all_plan(ptype: Seq<char>, rules: Seq<Seq<Seq<char>>>) -> PlanView {
    PlanView {
        statements: Seq::new(
            rules.len(),
            |i: int| exact_removal_statement(ptype, padded(rules[i], FIELD_COUNT as nat)),
        ),
        outcome: Outcome::Fixed(true),
    }
}

/// The plan of a filtered removal: nothing is sent for a field index past
/// the sixth field or for an empty list of values, and `false` reported;
/// else one removal by optional match on the fields from `field_index` on,
/// reporting whether it returned a row.
pub open spec fn remove_filtered_plan(
    ptype: Seq<char>,
    field_index: int,
    field_values: Seq<Seq<char>>,
) -> PlanView {
    if 0 <= field_index < FIELD_COUNT && field_values.len() > 0 {
        PlanView {
            statements: seq![
                filtered_removal_statement(
                    ptype,
                    field_index,
                    padded(field_values, (FIELD_COUNT - field_index) as nat),
                ),
            ],
            outcome: Outcome::AnyRow,
        }
    } else {
        PlanView { statements: Seq::empty(), outcome: Outcome::Fixed(false) }
    }
}

/// Adding a rule with an empty type or without values sends nothing and
/// reports `false`, whatever the collection holds.
pub proof fn empty_rule_is_not_added(ptype: Seq<char>, rule: Seq<Seq<char>>, rows: nat)
    requires
        ptype.len() == 0 || rule.len() == 0,
    ensures
        add_plan(ptype, rule).statements.len() == 0,
        !reported(add_plan(ptype, rule).outcome, rows),
{
}

/// Filtering took place on `records` when it took place on all but the last
/// of them, or on the last.
proof fn filter_applied_to_last(records: Seq<RuleView>, filter: FilterView)
    requires
        records.len() > 0,
    ensures
        filter_applied(records, filter) == (filter_applied(records.drop_last(), filter)
            || filtered_line_of(records.last(), filter) is Some),
{
    let rest = records.drop_last();
    if filter_applied(rest, filter) {
        let k = choose|k: int|
            0 <= k < rest.len() && filtered_line_of(#[trigger] rest[k], filter) is Some;
        assert(records[k] == rest[k]);
    }
    if filtered_line_of(records.last(), filter) is Some {
        assert(records[records.len() - 1] == records.last());
    }
    if filter_applied(records, filter) {
        let k = choose|k: int|
            0 <= k < records.len() && filtered_line_of(#[trigger] records[k], filter) is Some;
        if k < rest.len() {
            assert(rest[k] == records[k]);
        }
    }
}

impl Plan {
    /// The value that the operation reports once every statement has run
    /// without fault, the last of them returning `rows` rows.
    pub fn conclude(&self, rows: usize) -> (value: bool)
        ensures
            value == reported(self@.outcome, rows as nat),
    {
        match self.outcome {
            Outcome::Fixed(value) => value,
            Outcome::AnyRow => rows > 0,
        }
    }
}

/// Adds to `out` the records that store the tuples of `rules` under `ptype`.
fn push_records(out: &mut Vec<CasbinRule>, ptype: &str, rules: &Vec<Vec<String>>)
    ensures
        final(out).deep_view() == old(out).deep_view() + records_of(ptype@, rules.deep_view()),
{
    let ghost base = out.deep_view();
    let mut i: usize = 0;
    while i < rules.len()
        invariant
            i <= rules.len(),
            out.deep_view() == base + records_of(ptype@, rules.deep_view().take(i as int)),
        decreases rules.len() - i,
    {
        let ghost before = out.deep_view();
        assert(rules.deep_view().take(i + 1).drop_last() =~= rules.deep_view().take(i as int));
        match map_to_casbin_rule(ptype, rules[i].as_slice()) {
            Some(record) => {
                out.push(record);
                assert(out.deep_view() =~= before.push(record@));
            },
            None => {},
        }
        i = i + 1;
    }
    assert(rules.deep_view().take(i as int) =~= rules.deep_view());
}

/// Adds to `out` the records that store the tuples of `section`.
fn push_section(out: &mut Vec<CasbinRule>, section: &Vec<TypedRules>)
    ensures
        final(out).deep_view() == old(out).deep_view() + section_records(section.deep_view()),
{
    let ghost base = out.deep_view();
    let mut i: usize = 0;
    while i < section.len()
        invariant
            i <= section.len(),
            out.deep_view() == base + section_records(section.deep_view().take(i as int)),
        decreases section.len() - i,
    {
        assert(section.deep_view().take(i + 1).drop_last() =~= section.deep_view().take(
            i as int,
        ));
        push_records(out, section[i].ptype.as_str(), &section[i].rules);
        i = i + 1;
    }
    assert(section.deep_view().take(i as int) =~= section.deep_view());
}

/// The state of the adapter: whether a filtered load has held a rule
/// against its filter.
#[derive(Debug)]
pub struct ArangorsAdapter {
    is_filtered: bool,
}

impl ArangorsAdapter {
    /// Whether a filtered load has held a rule against its filter.
    pub closed spec fn filtered(&self) -> bool {
        self.is_filtered
    }

    /// An adapter that has loaded nothing yet.
    pub fn new() -> (adapter: Self)
        ensures
            !adapter.filtered(),
    {
        Self { is_filtered: false }
    }

    /// Whether a filtered load has held a rule against its filter since the
    /// adapter was made, whether the rule was taken or shut out.
    pub fn is_filtered(&self) -> (flag: bool)
        ensures
            flag == self.filtered(),
    {
        self.is_filtered
    }

    /// The lines to insert into the policy model when `records` is what the
    /// collection returned.
    pub fn load_policy(&self, records: &Vec<CasbinRule>) -> (lines: Vec<PolicyLine>)
        ensures
            lines.deep_view() == loaded_lines(records.deep_view()),
    {
        let mut lines: Vec<PolicyLine> = Vec::new();
        let mut i: usize = 0;
        while i < records.len()
            invariant
                i <= records.len(),
                lines.deep_view() == loaded_lines(records.deep_view().take(i as int)),
            decreases records.len() - i,
        {
            assert(records.deep_view().take(i + 1).drop_last() =~= records.deep_view().take(
                i as int,
            ));
            let casbin_rule = &records[i];
            match load_policy_line(casbin_rule) {
                Some(rule) => {
                    let line = PolicyLine {
                        sec: casbin_rule.ptype.as_str().get_char(0),
                        ptype: casbin_rule.ptype.clone(),
                        rule,
                    };
                    lines.push(line);
                },
                None => {},
            }
            i = i + 1;
        }
        assert(records.deep_view().take(i as int) =~= records.deep_view());
        lines
    }

    /// The lines to insert into the policy model when `records` is what the
    /// collection returned and only rules that pass `f` are wanted. The
    /// adapter counts as filtered from the first rule of section `p` or `g`
    /// that it holds against `f`, whether the rule passes or is shut out.
    pub fn load_filtered_policy(&mut self, records: &Vec<CasbinRule>, f: &Filter) -> (lines: Vec<
        PolicyLine,
    >)
        ensures
            lines.deep_view() == filtered_lines(records.deep_view(), f@),
            final(self).filtered() == (old(self).filtered() || filter_applied(
                records.deep_view(),
                f@,
            )),
    {
        let mut lines: Vec<PolicyLine> = Vec::new();
        let mut i: usize = 0;
        while i < records.len()
            invariant
                i <= records.len(),
                lines.deep_view() == filtered_lines(records.deep_view().take(i as int), f@),
                self.filtered() == (old(self).filtered() || filter_applied(
                    records.deep_view().take(i as int),
                    f@,
                )),
            decreases records.len() - i,
        {
            let ghost after = records.deep_view().take(i + 1);
            assert(after.drop_last() =~= records.deep_view().take(i as int));
            proof {
                filter_applied_to_last(after, f@);
            }
            let casbin_rule = &records[i];
            let line = load_filtered_policy_line(casbin_rule, f);
            match line {
                Some((passes, rule)) => {
                    self.is_filtered = true;
                    if passes {
                        lines.push(
                            PolicyLine {
                                sec: casbin_rule.ptype.as_str().get_char(0),
                                ptype: casbin_rule.ptype.clone(),
                                rule,
                            },
                        );
                    }
                },
                None => {},
            }
            i = i + 1;
        }
        assert(records.deep_view().take(i as int) =~= records.deep_view());
        lines
    }

    /// The statement that stores the whole policy: one insertion of the
    /// records of section `p`, followed by those of section `g`. Nothing is
    /// removed first.
    pub fn save_policy(&self, p: &Vec<TypedRules>, g: &Vec<TypedRules>) -> (statement:
        AqlStatement)
        ensures
            statement@ == insert_all_statement(
                section_records(p.deep_view()) + section_records(g.deep_view()),
            ),
    {
        let mut rules: Vec<CasbinRule> = Vec::new();
        push_section(&mut rules, p);
        push_section(&mut rules, g);
        casbin_dao::save_policy(rules)
    }

    /// The statement that removes every record of the collection.
    pub fn clear_policy(&self) -> (statement: AqlStatement)
        ensures
            statement@ == casbin_dao::clear_statement(),
    {
        casbin_dao::clear_policy()
    }

    /// The plan that adds the tuple `rule` under `ptype`. The section is not
    /// consulted: the type names it.
    pub fn add_policy(&self, _sec: &str, ptype: &str, rule: Vec<String>) -> (plan: Plan)
        ensures
            plan@ == add_plan(ptype@, rule.deep_view()),
    {
        let mut statements: Vec<AqlStatement> = Vec::new();
        match map_to_casbin_rule(ptype, rule.as_slice()) {
            Some(new_rule) => {
                statements.push(casbin_dao::add_policy(new_rule));
                let plan = Plan { statements, outcome: Outcome::Fixed(true) };
                assert(plan@.statements =~= add_plan(ptype@, rule.deep_view()).statements);
                plan
            },
            None => {
                let plan = Plan { statements, outcome: Outcome::Fixed(false) };
                assert(plan@.statements =~= add_plan(ptype@, rule.deep_view()).statements);
                plan
            },
        }
    }

    /// The plan that adds the tuples of `rules` under `ptype`. Tuples without
    /// record are left out; the insertion is sent even when none is left.
    pub fn add_policies(&self, _sec: &str, ptype: &str, rules: Vec<Vec<String>>) -> (plan: Plan)
        ensures
            plan@ == add_all_plan(ptype@, rules.deep_view()),
    {
        let mut new_rules: Vec<CasbinRule> = Vec::new();
        push_records(&mut new_rules, ptype, &rules);
        let mut statements: Vec<AqlStatement> = Vec::new();
        statements.push(casbin_dao::add_policies(new_rules));
        let plan = Plan { statements, outcome: Outcome::Fixed(true) };
        assert(plan@.statements =~= add_all_plan(ptype@, rules.deep_view()).statements);
        plan
    }

    /// The plan that removes the tuple `rule` of type `ptype`.
    pub fn remove_policy(&self, _sec: &str, ptype: &str, rule: Vec<String>) -> (plan: Plan)
        ensures
            plan@ == remove_plan(ptype@, rule.deep_view()),
    {
        let mut statements: Vec<AqlStatement> = Vec::new();
        statements.push(casbin_dao::remove_policy(ptype, rule));
        let plan = Plan { statements, outcome: Outcome::AnyRow };
        assert(plan@.statements =~= remove_plan(ptype@, rule.deep_view()).statements);
        plan
    }

    /// The plan that removes the tuples of `rules` of type `ptype`, one after
    /// the other. A fault leaves the earlier removals done.
    pub fn remove_policies(&self, _sec: &str, ptype: &str, rules: Vec<Vec<String>>) -> (plan: Plan)
        ensures
            plan@ == remove_all_plan(ptype@, rules.deep_view()),
    {
        let statements = casbin_dao::remove_policies(ptype, rules);
        let plan = Plan { statements, outcome: Outcome::Fixed(true) };
        assert forall|i: int| 0 <= i < rules.len() implies plan@.statements[i] == remove_all_plan(
            ptype@,
            rules.deep_view(),
        ).statements[i] by {
            assert(plan@.statements[i] == statements[i]@);
        }
        assert(plan@.statements =~= remove_all_plan(ptype@, rules.deep_view()).statements);
        plan
    }

    /// The plan that removes the rules of type `pt` whose fields from
    /// `field_index` on meet `field_values`.
    pub fn remove_filtered_policy(
        &self,
        _sec: &str,
        pt: &str,
        field_index: usize,
        field_values: Vec<String>,
    ) -> (plan: Plan)
        ensures
            plan@ == remove_filtered_plan(pt@, field_index as int, field_values.deep_view()),
    {
        let mut statements: Vec<AqlStatement> = Vec::new();
        if field_index <= 5 && !field_values.is_empty() {
            statements.push(casbin_dao::remove_filtered_policy(pt, field_index, field_values));
            let plan = Plan { statements, outcome: Outcome::AnyRow };
            assert(plan@.statements =~= remove_filtered_plan(
                pt@,
                field_index as int,
                field_values.deep_view(),
            ).statements);
            plan
        } else {
            let plan = Plan { statements, outcome: Outcome::Fixed(false) };
            assert(plan@.statements =~= remove_filtered_plan(
                pt@,
                field_index as int,
                field_values.deep_view(),
            ).statements);
            plan
        }
    }
}

} // verus!
