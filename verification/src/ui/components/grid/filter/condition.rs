//! One filter condition and its builder.
use vstd::prelude::*;
use super::logic::FilterLogic;
use super::operators::FilterOperator;

verus! {

/// A condition on one column.
#[derive(Clone, Debug)]
pub struct ColumnFilter {
    pub column: String,
    pub operator: FilterOperator,
    pub value: String,
    /// The upper bound of BETWEEN.
    pub value2: String,
    pub enabled: bool,
    pub case_sensitive: bool,
    /// How this condition combines with the next one.
    pub logic: FilterLogic,
}

impl Default for ColumnFilter {
    fn default() -> (r: Self)
        ensures
            r.column@.len() == 0,
            r.operator == FilterOperator::Contains,
            r.value@.len() == 0,
            r.value2@.len() == 0,
            r.enabled,
            !r.case_sensitive,
            r.logic == FilterLogic::And,
    {
        ColumnFilter {
            column: String::new(),
            operator: FilterOperator::Contains,
            value: String::new(),
            value2: String::new(),
            enabled: true,
            case_sensitive: false,
            logic: FilterLogic::And,
        }
    }
}

impl ColumnFilter {
    /// An enabled, case-insensitive CONTAINS condition on `column` with empty values.
    pub fn new(column: String) -> (r: Self)
        ensures
            r.column == column,
            r.operator == FilterOperator::Contains,
            r.value@.len() == 0,
            r.value2@.len() == 0,
            r.enabled,
            !r.case_sensitive,
            r.logic == FilterLogic::And,
    {
        ColumnFilter {
            column,
            operator: FilterOperator::Contains,
            value: String::new(),
            value2: String::new(),
            enabled: true,
            case_sensitive: false,
            logic: FilterLogic::And,
        }
    }

    /// The same condition with another operator.
    pub fn with_operator(self, op: FilterOperator) -> (r: Self)
        ensures
            r == (ColumnFilter { operator: op, ..self }),
    {
        let mut s = self;
        s.operator = op;
        s
    }

    /// The same condition with another value.
    pub fn with_value(self, value: String) -> (r: Self)
        ensures
            r == (ColumnFilter { value: value, ..self }),
    {
        let mut s = self;
        s.value = value;
        s
    }

    /// The same condition with another second value.
    pub fn with_value2(self, value2: String) -> (r: Self)
        ensures
            r == (ColumnFilter { value2: value2, ..self }),
    {
        let mut s = self;
        s.value2 = value2;
        s
    }

    /// The same condition with another case sensitivity.
    pub fn with_case_sensitive(self, case_sensitive: bool) -> (r: Self)
        ensures
            r == (ColumnFilter { case_sensitive: case_sensitive, ..self }),
    {
        let mut s = self;
        s.case_sensitive = case_sensitive;
        s
    }

    /// The same condition with another connective.
    pub fn with_logic(self, logic: FilterLogic) -> (r: Self)
        ensures
            r == (ColumnFilter { logic: logic, ..self }),
    {
        let mut s = self;
        s.logic = logic;
        s
    }

    /// A condition can apply when it names a column and has the values its operator reads.
    pub open spec fn spec_is_valid(&self) -> bool {
        &&& self.column@.len() != 0
        &&& !(self.operator.spec_needs_value() && self.value@.len() == 0)
        &&& !(self.operator.spec_needs_second_value() && self.value2@.len() == 0)
    }

    /// Whether the condition can apply.
    pub fn is_valid(&self) -> (r: bool)
        ensures
            r == self.spec_is_valid(),
    {
        if self.column.as_str().is_empty() {
            return false;
        }
        if self.operator.needs_value() && self.value.as_str().is_empty() {
            return false;
        }
        if self.operator.needs_second_value() && self.value2.as_str().is_empty() {
            return false;
        }
        true
    }
}

} // verus!
