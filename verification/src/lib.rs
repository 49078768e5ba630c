//! Storage rules of an access-control policy adapter for a document
//! collection: how rule tuples map to stored records and back, which
//! statement each storage operation sends, and what each operation reports.

pub mod adapter;
pub mod casbin_dao;
pub mod model;
pub mod policy;
pub mod store;

pub use adapter::{ArangorsAdapter, Outcome, Plan, PolicyLine, TypedRules};
pub use casbin_dao::{normalize_casbin_rule, AqlStatement, BindValue, BindVar};
pub use model::{CasbinRule, RuleView, FIELD_COUNT};
pub use policy::{
    load_filtered_policy_line, load_policy_line, map_to_casbin_rule, normalize_policy, Filter,
};
