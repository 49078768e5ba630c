//! The stored form of one policy or grouping rule.

use vstd::prelude::*;

verus! {

/// Number of positional value fields in a rule record.
pub const FIELD_COUNT: usize = 6;

/// One rule as the collection holds it: a type label and six positional
/// values. Positions a rule does not use hold the empty string.
#[derive(Debug, Clone, PartialEq, Eq)]
pub struct CasbinRule {
    /// Key the server assigned to the record; `None` on a record that was
    /// not read from the collection.
    pub _key: Option<String>,
    /// Type label of the rule. Its first character names the section.
    pub ptype: String,
    pub v0: String,
    pub v1: String,
    pub v2: String,
    pub v3: String,
    pub v4: String,
    pub v5: String,
}

/// Mathematical value of a [`CasbinRule`].
pub ghost struct RuleView {
    pub key: Option<Seq<char>>,
    pub ptype: Seq<char>,
    /// The six positional values, in order.
    pub fields: Seq<Seq<char>>,
}

impl View for CasbinRule {
    type V = RuleView;

    open spec fn view(&self) -> RuleView {
        RuleView {
            key: match self._key {
                Some(k) => Some(k@),
                None => None,
            },
            ptype: self.ptype@,
            fields: seq![self.v0@, self.v1@, self.v2@, self.v3@, self.v4@, self.v5@],
        }
    }
}

impl DeepView for CasbinRule {
    type V = RuleView;

    open spec fn deep_view(&self) -> RuleView {
        self@
    }
}

impl CasbinRule {
    /// The positional value at `index`, for `index` below [`FIELD_COUNT`].
    pub fn field(&self, index: usize) -> (value: &String)
        requires
            index < FIELD_COUNT,
        ensures
            value@ == self@.fields[index as int],
    {
        if index == 0 {
            &self.v0
        } else if index == 1 {
            &self.v1
        } else if index == 2 {
            &self.v2
        } else if index == 3 {
            &self.v3
        } else if index == 4 {
            &self.v4
        } else {
            &self.v5
        }
    }
}

} // verus!
