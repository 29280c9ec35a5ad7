pub mod arithmetic;
pub mod bitwise;
pub mod control_flow;
pub mod directive;
pub mod instruction;
pub mod load_store;
pub mod operand_builders;
pub mod shapes;
pub mod stack;
pub mod utility_functions;
pub mod validators;

use vstd::prelude::*;
use crate::parser::ast_builder::validators::BuilderView;

verus! {

/// Builds one instruction or directive from its mnemonic and the source
/// texts of its operands, taking the operands one after the other.
pub struct AstBuilder {
    pub line_number: usize,
    /// The mnemonic or directive name, in lower case.
    pub rule: Vec<char>,
    /// The source text of each operand, trimmed.
    pub pairs: Vec<Vec<char>>,
    /// How many operands have been taken.
    pub next: usize,
}

impl View for AstBuilder {
    type V = BuilderView;

    open spec fn view(&self) -> BuilderView {
        BuilderView { line: self.line_number, texts: self.pairs@.map_values(|p: Vec<char>| p@), next: self.next as int }
    }
}

impl AstBuilder {
    pub open spec fn wf(&self) -> bool {
        self.next <= self.pairs@.len()
    }

    /// A builder that has taken none of its operands yet.
    pub fn new(line_number: usize, rule: Vec<char>, pairs: Vec<Vec<char>>) -> (b: Self)
        ensures
            b.wf(),
            b.rule@ == rule@,
            b@ == (BuilderView { line: line_number, texts: pairs@.map_values(|p: Vec<char>| p@), next: 0 }),
    {
        AstBuilder { line_number, rule, pairs, next: 0 }
    }
}

} // verus!
