use arangors_adapter::casbin_dao::{
    add_policies, add_policy, clear_policy, load_policy, remove_filtered_policy, remove_policies,
    remove_policy, save_policy,
};
use arangors_adapter::{normalize_casbin_rule, AqlStatement, BindValue, BindVar, CasbinRule};

fn owned(values: &[&str]) -> Vec<String> {
    values.iter().map(|x| x.to_string()).collect()
}

fn record(ptype: &str, fields: [&str; 6]) -> CasbinRule {
    CasbinRule {
        _key: None,
        ptype: ptype.to_string(),
        v0: fields[0].to_string(),
        v1: fields[1].to_string(),
        v2: fields[2].to_string(),
        v3: fields[3].to_string(),
        v4: fields[4].to_string(),
        v5: fields[5].to_string(),
    }
}

fn text(name: &str, value: &str) -> BindVar {
    BindVar { name: name.to_string(), value: BindValue::Text(value.to_string()) }
}

fn null(name: &str) -> BindVar {
    BindVar { name: name.to_string(), value: BindValue::Null }
}

#[test]
fn normalize_fills_up_to_six() {
    assert_eq!(
        normalize_casbin_rule(owned(&["alice", "data1", "read"]), 0),
        owned(&["alice", "data1", "read", "", "", ""])
    );
}

#[test]
fn normalize_fills_up_to_the_fields_left() {
    assert_eq!(
        normalize_casbin_rule(owned(&["data2_admin"]), 2),
        owned(&["data2_admin", "", "", ""])
    );
}

#[test]
fn normalize_cuts_what_is_too_long() {
    assert_eq!(
        normalize_casbin_rule(owned(&["a", "b", "c", "d", "e", "f", "g"]), 0),
        owned(&["a", "b", "c", "d", "e", "f"])
    );
    assert_eq!(normalize_casbin_rule(owned(&["a", "b", "c"]), 4), owned(&["a", "b"]));
}

#[test]
fn normalize_of_nothing_is_all_empty() {
    assert_eq!(normalize_casbin_rule(Vec::new(), 0), owned(&["", "", "", "", "", ""]));
}

#[test]
fn normalize_at_six_leaves_nothing() {
    assert_eq!(normalize_casbin_rule(owned(&["a", "b"]), 6), Vec::<String>::new());
}

#[test]
fn normalize_leaves_six_values_alone() {
    assert_eq!(
        normalize_casbin_rule(owned(&["a", "", "c", "", "e", ""]), 0),
        owned(&["a", "", "c", "", "e", ""])
    );
}

#[test]
fn save_statement_binds_the_records() {
    let rules = vec![
        record("p", ["alice", "data1", "read", "", "", ""]),
        record("g", ["alice", "data2_admin", "", "", "", ""]),
    ];
    let statement = save_policy(rules.clone());
    assert_eq!(
        statement,
        AqlStatement {
            query: "FOR r IN @rules INSERT r IN casbin".to_string(),
            bind_vars: vec![BindVar { name: "rules".to_string(), value: BindValue::Rules(rules) }],
        }
    );
}

#[test]
fn clear_statement_binds_nothing() {
    assert_eq!(
        clear_policy(),
        AqlStatement { query: "FOR r IN casbin REMOVE r IN casbin".to_string(), bind_vars: vec![] }
    );
}

#[test]
fn load_statement_binds_nothing() {
    assert_eq!(
        load_policy(),
        AqlStatement { query: "FOR r IN casbin RETURN r".to_string(), bind_vars: vec![] }
    );
}

#[test]
fn add_statement_binds_the_record() {
    let rule = record("p", ["alice", "data1", "read", "", "", ""]);
    assert_eq!(
        add_policy(rule.clone()),
        AqlStatement {
            query: "INSERT @rule IN casbin".to_string(),
            bind_vars: vec![BindVar { name: "rule".to_string(), value: BindValue::Rule(rule) }],
        }
    );
}

#[test]
fn add_many_statement_binds_the_records() {
    let rules = vec![record("p", ["bob", "data2", "write", "", "", ""])];
    assert_eq!(
        add_policies(rules.clone()),
        AqlStatement {
            query: "FOR r IN @rules INSERT r IN casbin".to_string(),
            bind_vars: vec![BindVar { name: "rules".to_string(), value: BindValue::Rules(rules) }],
        }
    );
}

#[test]
fn add_many_statement_of_no_record() {
    assert_eq!(
        add_policies(Vec::new()).bind_vars,
        vec![BindVar { name: "rules".to_string(), value: BindValue::Rules(vec![]) }]
    );
}

#[test]
fn remove_statement_matches_all_six_fields() {
    let statement = remove_policy("p", owned(&["alice", "data1", "read"]));
    assert_eq!(
        statement.query,
        "FOR r IN casbin FILTER r.ptype == @ptype FILTER r.v0 == @v0 FILTER r.v1 == @v1 \
         FILTER r.v2 == @v2 FILTER r.v3 == @v3 FILTER r.v4 == @v4 FILTER r.v5 == @v5 \
         REMOVE r IN casbin RETURN 1"
    );
    assert_eq!(
        statement.bind_vars,
        vec![
            text("ptype", "p"),
            text("v0", "alice"),
            text("v1", "data1"),
            text("v2", "read"),
            text("v3", ""),
            text("v4", ""),
            text("v5", ""),
        ]
    );
}

#[test]
fn remove_statement_cuts_a_long_tuple() {
    let statement = remove_policy("p", owned(&["a", "b", "c", "d", "e", "f", "g"]));
    assert_eq!(
        statement.bind_vars,
        vec![
            text("ptype", "p"),
            text("v0", "a"),
            text("v1", "b"),
            text("v2", "c"),
            text("v3", "d"),
            text("v4", "e"),
            text("v5", "f"),
        ]
    );
}

#[test]
fn remove_statement_of_an_empty_tuple() {
    let statement = remove_policy("g", Vec::new());
    assert_eq!(
        statement.bind_vars,
        vec![
            text("ptype", "g"),
            text("v0", ""),
            text("v1", ""),
            text("v2", ""),
            text("v3", ""),
            text("v4", ""),
            text("v5", ""),
        ]
    );
}

#[test]
fn remove_many_statements_follow_the_tuples() {
    let statements = remove_policies(
        "p",
        vec![owned(&["alice", "data1", "read"]), owned(&["bob", "data2", "write"])],
    );
    assert_eq!(
        statements,
        vec![
            remove_policy("p", owned(&["alice", "data1", "read"])),
            remove_policy("p", owned(&["bob", "data2", "write"])),
        ]
    );
}

#[test]
fn remove_many_statements_of_no_tuple() {
    assert_eq!(remove_policies("p", Vec::new()), Vec::<AqlStatement>::new());
}

#[test]
fn filtered_statement_from_the_first_field() {
    let statement = remove_filtered_policy("g", 0, owned(&["alice", "data2_admin"]));
    assert_eq!(
        statement.query,
        "FOR r IN casbin FILTER r.ptype == @ptype FILTER r.v0 == NOT_NULL(@f0, r.v0) \
         FILTER r.v1 == NOT_NULL(@f1, r.v1) FILTER r.v2 == NOT_NULL(@f2, r.v2) \
         FILTER r.v3 == NOT_NULL(@f3, r.v3) FILTER r.v4 == NOT_NULL(@f4, r.v4) \
         FILTER r.v5 == NOT_NULL(@f5, r.v5) REMOVE r IN casbin RETURN 1"
    );
    assert_eq!(
        statement.bind_vars,
        vec![
            text("ptype", "g"),
            text("f0", "alice"),
            text("f1", "data2_admin"),
            null("f2"),
            null("f3"),
            null("f4"),
            null("f5"),
        ]
    );
}

#[test]
fn filtered_statement_from_the_second_field() {
    let statement =
        remove_filtered_policy("g", 1, owned(&["data2_admin", "domain1", "domain2"]));
    assert_eq!(
        statement.query,
        "FOR r IN casbin FILTER r.ptype == @ptype FILTER r.v1 == NOT_NULL(@f0, r.v1) \
         FILTER r.v2 == NOT_NULL(@f1, r.v2) FILTER r.v3 == NOT_NULL(@f2, r.v3) \
         FILTER r.v4 == NOT_NULL(@f3, r.v4) FILTER r.v5 == NOT_NULL(@f4, r.v5) \
         REMOVE r IN casbin RETURN 1"
    );
    assert_eq!(
        statement.bind_vars,
        vec![
            text("ptype", "g"),
            text("f0", "data2_admin"),
            text("f1", "domain1"),
            text("f2", "domain2"),
            null("f3"),
            null("f4"),
        ]
    );
}

#[test]
fn filtered_statement_from_the_third_field() {
    let statement = remove_filtered_policy("p", 2, owned(&["read"]));
    assert_eq!(
        statement.query,
        "FOR r IN casbin FILTER r.ptype == @ptype FILTER r.v2 == NOT_NULL(@f0, r.v2) \
         FILTER r.v3 == NOT_NULL(@f1, r.v3) FILTER r.v4 == NOT_NULL(@f2, r.v4) \
         FILTER r.v5 == NOT_NULL(@f3, r.v5) REMOVE r IN casbin RETURN 1"
    );
    assert_eq!(
        statement.bind_vars,
        vec![text("ptype", "p"), text("f0", "read"), null("f1"), null("f2"), null("f3")]
    );
}

#[test]
fn filtered_statement_from_the_fourth_field() {
    let statement = remove_filtered_policy("p", 3, owned(&["", "x"]));
    assert_eq!(
        statement.query,
        "FOR r IN casbin FILTER r.ptype == @ptype FILTER r.v3 == NOT_NULL(@f0, r.v3) \
         FILTER r.v4 == NOT_NULL(@f1, r.v4) FILTER r.v5 == NOT_NULL(@f2, r.v5) \
         REMOVE r IN casbin RETURN 1"
    );
    assert_eq!(
        statement.bind_vars,
        vec![text("ptype", "p"), null("f0"), text("f1", "x"), null("f2")]
    );
}

#[test]
fn filtered_statement_from_the_fifth_field() {
    let statement = remove_filtered_policy("p", 4, owned(&["x", "y"]));
    assert_eq!(
        statement.query,
        "FOR r IN casbin FILTER r.ptype == @ptype FILTER r.v4 == NOT_NULL(@f0, r.v4) \
         FILTER r.v5 == NOT_NULL(@f1, r.v5) REMOVE r IN casbin RETURN 1"
    );
    assert_eq!(statement.bind_vars, vec![text("ptype", "p"), text("f0", "x"), text("f1", "y")]);
}

#[test]
fn filtered_statement_from_the_sixth_field() {
    let statement = remove_filtered_policy("p", 5, owned(&["x", "dropped"]));
    assert_eq!(
        statement.query,
        "FOR r IN casbin FILTER r.ptype == @ptype FILTER r.v5 == NOT_NULL(@f0, r.v5) \
         REMOVE r IN casbin RETURN 1"
    );
    assert_eq!(statement.bind_vars, vec![text("ptype", "p"), text("f0", "x")]);
}

#[test]
fn filtered_statement_binds_no_value_for_an_empty_text() {
    let statement = remove_filtered_policy("p", 0, owned(&["", "data1", "", "x", "", ""]));
    assert_eq!(
        statement.bind_vars,
        vec![
            text("ptype", "p"),
            null("f0"),
            text("f1", "data1"),
            null("f2"),
            text("f3", "x"),
            null("f4"),
            null("f5"),
        ]
    );
}

#[test]
fn filtered_statement_of_six_values_binds_what_the_exact_one_binds() {
    let values = owned(&["a", "b", "c", "d", "e", "f"]);
    let filtered = remove_filtered_policy("p", 0, values.clone());
    let exact = remove_policy("p", values);
    assert_eq!(filtered.bind_vars.len(), exact.bind_vars.len());
    for (one, other) in filtered.bind_vars.iter().zip(exact.bind_vars.iter()) {
        assert_eq!(one.value, other.value);
    }
}
