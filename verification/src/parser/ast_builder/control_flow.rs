use vstd::prelude::*;
use crate::ast::{ConditionCode, Instruction, Operand, OperandView, Register};
use crate::errors::AssemblyError;
use crate::parser::ast_builder::shapes::{cc_a_spec, cc_sbl_spec, fails_with, l_spec, ll_spec, sbl_spec, ubl_spec};
use crate::parser::ast_builder::utility_functions::{check_unsigned_word, unsigned_word_msg};
use crate::parser::ast_builder::validators::{err_at, pop_spec};
use crate::parser::ast_builder::validators::BuilderView;
use crate::parser::ast_builder::AstBuilder;
use crate::text::owned;

verus! {

pub open spec fn build_jmp_ok(b: BuilderView, r: Result<Instruction, AssemblyError>) -> bool {
    match pop_spec(b) {
        Ok((t, _)) => match t {
            OperandView::Indirect(reg) => r == Ok::<Instruction, AssemblyError>(Instruction::JmpIndirect(reg)),
            OperandView::Label(l) => r matches Ok(Instruction::JmpI(o)) && o@ == t,
            OperandView::Immediate(v) => if 0 <= v <= 65535 {
                r matches Ok(Instruction::JmpI(o)) && o@ == t
            } else {
                fails_with(r, err_at(b, unsigned_word_msg()))
            },
            _ => fails_with(r, err_at(b, "Operand to a JMP instruction must be an indirect address ((R0-R7)), label or immediate address."@)),
        },
        Err(d) => fails_with(r, d),
    }
}

pub open spec fn build_call_ok(b: BuilderView, r: Result<Instruction, AssemblyError>) -> bool {
    match pop_spec(b) {
        Ok((t, _)) => match t {
            OperandView::Indirect(reg) => r == Ok::<Instruction, AssemblyError>(Instruction::CallIndirect(reg)),
            OperandView::Label(l) => r matches Ok(Instruction::CallI(o)) && o@ == t,
            OperandView::Immediate(v) => if 0 <= v <= 65535 {
                r matches Ok(Instruction::CallI(o)) && o@ == t
            } else {
                fails_with(r, err_at(b, unsigned_word_msg()))
            },
            _ => fails_with(r, err_at(b, "Operand to a CALL instruction must be an indirect address ((R0-R7)), label or immediate address."@)),
        },
        Err(d) => fails_with(r, d),
    }
}

pub open spec fn build_jr_ok(b: BuilderView, r: Result<Instruction, AssemblyError>) -> bool {
    match sbl_spec(b) {
        Ok(v) => r matches Ok(Instruction::JrI(o)) && o@ == v,
        Err(d) => fails_with(r, d),
    }
}

pub open spec fn build_djnz_ok(b: BuilderView, r: Result<Instruction, AssemblyError>) -> bool {
    match sbl_spec(b) {
        Ok(v) => r matches Ok(Instruction::Djnz(o)) && o@ == v,
        Err(d) => fails_with(r, d),
    }
}

pub open spec fn build_jcc_ok(b: BuilderView, r: Result<Instruction, AssemblyError>) -> bool {
    match cc_a_spec(b) {
        Ok((c, v)) => r matches Ok(Instruction::JccI(x, o)) && x == c && o@ == v,
        Err(d) => fails_with(r, d),
    }
}

pub open spec fn build_callcc_ok(b: BuilderView, r: Result<Instruction, AssemblyError>) -> bool {
    match cc_a_spec(b) {
        Ok((c, v)) => r matches Ok(Instruction::CallccI(x, o)) && x == c && o@ == v,
        Err(d) => fails_with(r, d),
    }
}

pub open spec fn build_jrcc_ok(b: BuilderView, r: Result<Instruction, AssemblyError>) -> bool {
    match cc_sbl_spec(b) {
        Ok((c, v)) => r matches Ok(Instruction::JrccI(x, o)) && x == c && o@ == v,
        Err(d) => fails_with(r, d),
    }
}

pub open spec fn build_syscall_ok(b: BuilderView, r: Result<Instruction, AssemblyError>) -> bool {
    match ubl_spec(b) {
        Ok(v) => r matches Ok(Instruction::Syscall(o)) && o@ == v,
        Err(d) => fails_with(r, d),
    }
}

pub open spec fn build_call_far_ok(b: BuilderView, r: Result<Instruction, AssemblyError>) -> bool {
    match l_spec(b) {
        Ok(l) => r matches Ok(Instruction::CallFar(s)) && s@ == l,
        Err(d) => fails_with(r, d),
    }
}

pub open spec fn build_jmp_far_ok(b: BuilderView, r: Result<Instruction, AssemblyError>) -> bool {
    match l_spec(b) {
        Ok(l) => r matches Ok(Instruction::JmpFar(s)) && s@ == l,
        Err(d) => fails_with(r, d),
    }
}

pub open spec fn build_call_far_via_ok(b: BuilderView, r: Result<Instruction, AssemblyError>) -> bool {
    match ll_spec(b) {
        Ok((l1, l2)) => r matches Ok(Instruction::CallFarVia(s1, s2)) && s1@ == l1 && s2@ == l2,
        Err(d) => fails_with(r, d),
    }
}

pub open spec fn build_jmp_far_via_ok(b: BuilderView, r: Result<Instruction, AssemblyError>) -> bool {
    match ll_spec(b) {
        Ok((l1, l2)) => r matches Ok(Instruction::JmpFarVia(s1, s2)) && s1@ == l1 && s2@ == l2,
        Err(d) => fails_with(r, d),
    }
}

impl AstBuilder {
    /// `JMP target`: through a register, to a label or to an address.
    pub fn build_jmp(self) -> (r: Result<Instruction, AssemblyError>)
        requires
            self.wf(),
        ensures
            build_jmp_ok(self@, r),
    {
        let mut b = self;
        let op = match b.pop_operand() {
            Ok(x) => x,
            Err(e) => {
                return Err(e);
            },
        };
        match op {
            Operand::Indirect(reg) => Ok(Instruction::JmpIndirect(reg)),
            Operand::Label(l) => Ok(Instruction::JmpI(Operand::Label(l))),
            Operand::Immediate(v) => match check_unsigned_word(v, b.line_number) {
                Ok(()) => Ok(Instruction::JmpI(Operand::Immediate(v))),
                Err(e) => Err(e),
            },
            _ => Err(AssemblyError::StructuralError {
                line: b.line_number,
                reason: owned("Operand to a JMP instruction must be an indirect address ((R0-R7)), label or immediate address."),
            }),
        }
    }

    /// `CALL target`: through a register, to a label or to an address.
    pub fn build_call(self) -> (r: Result<Instruction, AssemblyError>)
        requires
            self.wf(),
        ensures
            build_call_ok(self@, r),
    {
        let mut b = self;
        let op = match b.pop_operand() {
            Ok(x) => x,
            Err(e) => {
                return Err(e);
            },
        };
        match op {
            Operand::Indirect(reg) => Ok(Instruction::CallIndirect(reg)),
            Operand::Label(l) => Ok(Instruction::CallI(Operand::Label(l))),
            Operand::Immediate(v) => match check_unsigned_word(v, b.line_number) {
                Ok(()) => Ok(Instruction::CallI(Operand::Immediate(v))),
                Err(e) => Err(e),
            },
            _ => Err(AssemblyError::StructuralError {
                line: b.line_number,
                reason: owned("Operand to a CALL instruction must be an indirect address ((R0-R7)), label or immediate address."),
            }),
        }
    }

    /// `JR offset`.
    pub fn build_jr(self) -> (r: Result<Instruction, AssemblyError>)
        requires
            self.wf(),
        ensures
            build_jr_ok(self@, r),
    {
        let mut b = self;
        let src = match b.expect_sbyte_or_label() {
            Ok(x) => x,
            Err(e) => {
                return Err(e);
            },
        };
        Ok(Instruction::JrI(src))
    }

    /// `DJNZ offset`.
    pub fn build_djnz(self) -> (r: Result<Instruction, AssemblyError>)
        requires
            self.wf(),
        ensures
            build_djnz_ok(self@, r),
    {
        let mut b = self;
        let src = match b.expect_sbyte_or_label() {
            Ok(x) => x,
            Err(e) => {
                return Err(e);
            },
        };
        Ok(Instruction::Djnz(src))
    }

    /// `JMP cc, target`.
    pub fn build_jcc(self) -> (r: Result<Instruction, AssemblyError>)
        requires
            self.wf(),
        ensures
            build_jcc_ok(self@, r),
    {
        let mut b = self;
        let cc = match b.pop_cc() {
            Ok(x) => x,
            Err(e) => {
                return Err(e);
            },
        };
        let src = match b.expect_addr_or_label() {
            Ok(x) => x,
            Err(e) => {
                return Err(e);
            },
        };
        Ok(Instruction::JccI(cc, src))
    }

    /// `CALL cc, target`.
    pub fn build_callcc(self) -> (r: Result<Instruction, AssemblyError>)
        requires
            self.wf(),
        ensures
            build_callcc_ok(self@, r),
    {
        let mut b = self;
        let cc = match b.pop_cc() {
            Ok(x) => x,
            Err(e) => {
                return Err(e);
            },
        };
        let src = match b.expect_addr_or_label() {
            Ok(x) => x,
            Err(e) => {
                return Err(e);
            },
        };
        Ok(Instruction::CallccI(cc, src))
    }

    /// `JR cc, offset`.
    pub fn build_jrcc(self) -> (r: Result<Instruction, AssemblyError>)
        requires
            self.wf(),
        ensures
            build_jrcc_ok(self@, r),
    {
        let mut b = self;
        let cc = match b.pop_cc() {
            Ok(x) => x,
            Err(e) => {
                return Err(e);
            },
        };
        let src = match b.expect_sbyte_or_label() {
            Ok(x) => x,
            Err(e) => {
                return Err(e);
            },
        };
        Ok(Instruction::JrccI(cc, src))
    }

    /// `SYSCALL index`.
    pub fn build_syscall(self) -> (r: Result<Instruction, AssemblyError>)
        requires
            self.wf(),
        ensures
            build_syscall_ok(self@, r),
    {
        let mut b = self;
        let src = match b.expect_unsigned_byte_or_label() {
            Ok(x) => x,
            Err(e) => {
                return Err(e);
            },
        };
        Ok(Instruction::Syscall(src))
    }

    /// `CALL.far label`.
    pub fn build_call_far(self) -> (r: Result<Instruction, AssemblyError>)
        requires
            self.wf(),
        ensures
            build_call_far_ok(self@, r),
    {
        let mut b = self;
        let label = match b.expect_label() {
            Ok(x) => x,
            Err(e) => {
                return Err(e);
            },
        };
        Ok(Instruction::CallFar(label))
    }

    /// `JMP.far label`.
    pub fn build_jmp_far(self) -> (r: Result<Instruction, AssemblyError>)
        requires
            self.wf(),
        ensures
            build_jmp_far_ok(self@, r),
    {
        let mut b = self;
        let label = match b.expect_label() {
            Ok(x) => x,
            Err(e) => {
                return Err(e);
            },
        };
        Ok(Instruction::JmpFar(label))
    }

    /// `CALL.far label via trampoline`.
    pub fn build_call_far_via(self) -> (r: Result<Instruction, AssemblyError>)
        requires
            self.wf(),
        ensures
            build_call_far_via_ok(self@, r),
    {
        let mut b = self;
        let call_label = match b.expect_label() {
            Ok(x) => x,
            Err(e) => {
                return Err(e);
            },
        };
        let via_label = match b.expect_label() {
            Ok(x) => x,
            Err(e) => {
                return Err(e);
            },
        };
        Ok(Instruction::CallFarVia(call_label, via_label))
    }

    /// `JMP.far label via trampoline`.
    pub fn build_jmp_far_via(self) -> (r: Result<Instruction, AssemblyError>)
        requires
            self.wf(),
        ensures
            build_jmp_far_via_ok(self@, r),
    {
        let mut b = self;
        let call_label = match b.expect_label() {
            Ok(x) => x,
            Err(e) => {
                return Err(e);
            },
        };
        let via_label = match b.expect_label() {
            Ok(x) => x,
            Err(e) => {
                return Err(e);
            },
        };
        Ok(Instruction::JmpFarVia(call_label, via_label))
    }
}

} // verus!
