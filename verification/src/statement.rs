//! The text and parameters of a statement, as an executor sees them.

use vstd::prelude::*;

verus! {

/// What an executor is handed: the text of a statement and the encoded
/// values bound to it, in the order of its placeholders.
pub struct Statement {
    pub text: Seq<char>,
    pub parameters: Seq<Seq<u8>>,
}

impl Statement {
    /// This statement with `value` bound as its next parameter.
    pub open spec fn bound(self, value: Seq<u8>) -> Statement {
        Statement { text: self.text, parameters: self.parameters.push(value) }
    }

    /// This statement with each of `values` bound in turn, from the first
    /// to the last.
    pub open spec fn bound_all(self, values: Seq<Seq<u8>>) -> Statement
        decreases values.len(),
    {
        if values.len() == 0 {
            self
        } else {
            self.bound_all(values.drop_last()).bound(values.last())
        }
    }
}

/// Binding keeps the order of the calls. However many values are bound one
/// after another, the text stays what it was, the parameters bound before
/// stay where they were, and the new ones follow them in the order of the
/// calls: the value of the `i`-th call is the `i`-th new parameter.
pub proof fn lemma_bind_keeps_order(statement: Statement, values: Seq<Seq<u8>>)
    ensures
        statement.bound_all(values).text == statement.text,
        statement.bound_all(values).parameters == statement.parameters + values,
    decreases values.len(),
{
    if values.len() > 0 {
        lemma_bind_keeps_order(statement, values.drop_last());
        assert((statement.parameters + values.drop_last()).push(values.last())
            =~= statement.parameters + values);
    }
}

} // verus!
