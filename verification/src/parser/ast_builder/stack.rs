use vstd::prelude::*;
use crate::ast::{Instruction, Operand, OperandView, Register};
use crate::errors::AssemblyError;
use crate::parser::ast_builder::shapes::{fails_with, r_spec};
use crate::parser::ast_builder::utility_functions::{check_unsigned_word, unsigned_word_msg};
use crate::parser::ast_builder::validators::{err_at, pop_spec};
use crate::parser::ast_builder::validators::BuilderView;
use crate::parser::ast_builder::AstBuilder;
use crate::text::owned;

verus! {

pub open spec fn build_push_ok(b: BuilderView, r: Result<Instruction, AssemblyError>) -> bool {
    match pop_spec(b) {
        Ok((t, _)) => match t {
            OperandView::Register(reg) => r == Ok::<Instruction, AssemblyError>(Instruction::Push(reg)),
            OperandView::Label(l) => r matches Ok(Instruction::PushI(o)) && o@ == t,
            OperandView::Immediate(v) => if 0 <= v <= 65535 {
                r matches Ok(Instruction::PushI(o)) && o@ == t
            } else {
                fails_with(r, err_at(b, unsigned_word_msg()))
            },
            _ => fails_with(r, err_at(b, "Invalid operand to PUSH instruction."@)),
        },
        Err(d) => fails_with(r, d),
    }
}

pub open spec fn build_pop_ok(b: BuilderView, r: Result<Instruction, AssemblyError>) -> bool {
    match r_spec(b) {
        Ok(a) => r == Ok::<Instruction, AssemblyError>(Instruction::Pop(a)),
        Err(d) => fails_with(r, d),
    }
}

impl AstBuilder {
    /// `PUSH r`, or `PUSH value` of a word or a label.
    pub fn build_push(self) -> (r: Result<Instruction, AssemblyError>)
        requires
            self.wf(),
        ensures
            build_push_ok(self@, r),
    {
        let mut b = self;
        let op = match b.pop_operand() {
            Ok(x) => x,
            Err(e) => {
                return Err(e);
            },
        };
        match op {
            Operand::Register(reg) => Ok(Instruction::Push(reg)),
            Operand::Immediate(v) => match check_unsigned_word(v, b.line_number) {
                Ok(()) => Ok(Instruction::PushI(Operand::Immediate(v))),
                Err(e) => Err(e),
            },
            Operand::Label(l) => Ok(Instruction::PushI(Operand::Label(l))),
            _ => Err(AssemblyError::StructuralError { line: b.line_number, reason: owned("Invalid operand to PUSH instruction.") }),
        }
    }

    /// `POP r`.
    pub fn build_pop(self) -> (r: Result<Instruction, AssemblyError>)
        requires
            self.wf(),
        ensures
            build_pop_ok(self@, r),
    {
        let mut b = self;
        let rd = match b.expect_register() {
            Ok(x) => x,
            Err(e) => {
                return Err(e);
            },
        };
        Ok(Instruction::Pop(rd))
    }
}

} // verus!
