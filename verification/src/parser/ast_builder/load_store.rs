use vstd::prelude::*;
use crate::ast::{Instruction, Operand, OperandView, Register};
use crate::errors::{AssemblyError, ErrDesc};
use crate::parser::ast_builder::shapes::{fails_with, r_ubl_spec, ra_spec};
use crate::parser::ast_builder::validators::{err_at, pop_spec, register_spec, BuilderView};
use crate::parser::ast_builder::AstBuilder;
use crate::text::owned;

verus! {

/// A register, then any operand.
pub open spec fn reg_then_operand_spec(b: BuilderView) -> Result<(Register, OperandView), ErrDesc> {
    match register_spec(b) {
        Ok((rd, b1)) => match pop_spec(b1) {
            Ok((src, _)) => Ok((rd, src)),
            Err(d) => Err(d),
        },
        Err(d) => Err(d),
    }
}

/// Any operand, then a register.
pub open spec fn operand_then_reg_spec(b: BuilderView) -> Result<(OperandView, Register), ErrDesc> {
    match pop_spec(b) {
        Ok((dest, b1)) => match register_spec(b1) {
            Ok((rs, _)) => Ok((dest, rs)),
            Err(d) => Err(d),
        },
        Err(d) => Err(d),
    }
}

/// The word load a source operand selects.
pub open spec fn ld_ok(r: Result<Instruction, AssemblyError>, rd: Register, src: OperandView, b: BuilderView) -> bool {
    match src {
        OperandView::Register(rs) => r == Ok::<Instruction, AssemblyError>(Instruction::LdReg(rd, rs)),
        OperandView::AbsAddr(a) => r matches Ok(Instruction::LdAbs(x, o)) && x == rd && o@ == OperandView::Immediate(a as i32),
        OperandView::AbsLabel(l) => r matches Ok(Instruction::LdAbs(x, o)) && x == rd && o@ == OperandView::Label(l),
        OperandView::Indexed(rs, off) => r matches Ok(Instruction::LdIndexed(x, y, o)) && x == rd && y == rs
            && o@ == OperandView::Immediate(off as i32),
        OperandView::IndexedLabel(rs, l) => r matches Ok(Instruction::LdIndexed(x, y, o)) && x == rd && y == rs
            && o@ == OperandView::Label(l),
        OperandView::Indirect(rs) => r == Ok::<Instruction, AssemblyError>(Instruction::LdIndirect(rd, rs)),
        OperandView::PreDecrement(rs) => r == Ok::<Instruction, AssemblyError>(Instruction::LdPreDec(rd, rs)),
        OperandView::PostIncrement(rs) => r == Ok::<Instruction, AssemblyError>(Instruction::LdPostInc(rd, rs)),
        _ => fails_with(r, err_at(b, "Invalid source operand for LD instruction."@)),
    }
}

/// The word store a destination operand selects.
pub open spec fn st_ok(r: Result<Instruction, AssemblyError>, dest: OperandView, rs: Register, b: BuilderView) -> bool {
    match dest {
        OperandView::AbsAddr(a) => r matches Ok(Instruction::StAbs(o, x)) && x == rs && o@ == OperandView::Immediate(a as i32),
        OperandView::AbsLabel(l) => r matches Ok(Instruction::StAbs(o, x)) && x == rs && o@ == OperandView::Label(l),
        OperandView::Indirect(rd) => r == Ok::<Instruction, AssemblyError>(Instruction::StIndirect(rd, rs)),
        OperandView::PostIncrement(rd) => r == Ok::<Instruction, AssemblyError>(Instruction::StPostInc(rd, rs)),
        OperandView::PreDecrement(rd) => r == Ok::<Instruction, AssemblyError>(Instruction::StPreDec(rd, rs)),
        OperandView::Indexed(rd, off) => r matches Ok(Instruction::StIndexed(x, o, y)) && x == rd && y == rs
            && o@ == OperandView::Immediate(off as i32),
        OperandView::IndexedLabel(rd, l) => r matches Ok(Instruction::StIndexed(x, o, y)) && x == rd && y == rs
            && o@ == OperandView::Label(l),
        _ => fails_with(r, err_at(b, "Invalid desitination operand to ST instruction."@)),
    }
}

/// The byte load a source operand selects.
pub open spec fn ldb_ok(r: Result<Instruction, AssemblyError>, rd: Register, src: OperandView, b: BuilderView) -> bool {
    match src {
        OperandView::AbsAddr(a) => r matches Ok(Instruction::LdBAbs(x, o)) && x == rd && o@ == OperandView::Immediate(a as i32),
        OperandView::AbsLabel(l) => r matches Ok(Instruction::LdBAbs(x, o)) && x == rd && o@ == OperandView::Label(l),
        OperandView::Indirect(rs) => r == Ok::<Instruction, AssemblyError>(Instruction::LdBIndirect(rd, rs)),
        OperandView::PreDecrement(rs) => r == Ok::<Instruction, AssemblyError>(Instruction::LdBPreDec(rd, rs)),
        OperandView::PostIncrement(rs) => r == Ok::<Instruction, AssemblyError>(Instruction::LdBPostInc(rd, rs)),
        _ => fails_with(r, err_at(b, "The source operand of an LD.b instruction must be an indirect address or post-increment/pre-decrement value."@)),
    }
}

/// The byte store a destination operand selects.
pub open spec fn stb_ok(r: Result<Instruction, AssemblyError>, dest: OperandView, rs: Register, b: BuilderView) -> bool {
    match dest {
        OperandView::AbsAddr(a) => r matches Ok(Instruction::StBAbs(o, x)) && x == rs && o@ == OperandView::Immediate(a as i32),
        OperandView::AbsLabel(l) => r matches Ok(Instruction::StBAbs(o, x)) && x == rs && o@ == OperandView::Label(l),
        OperandView::Indirect(rd) => r == Ok::<Instruction, AssemblyError>(Instruction::StBIndirect(rd, rs)),
        OperandView::PreDecrement(rd) => r == Ok::<Instruction, AssemblyError>(Instruction::StBPreDec(rd, rs)),
        OperandView::PostIncrement(rd) => r == Ok::<Instruction, AssemblyError>(Instruction::StBPostInc(rd, rs)),
        _ => fails_with(r, err_at(b, "The destination operand of an ST.b instruction must be an indirect address or post-increment/pre-decrement value."@)),
    }
}

/// The address computation an indexed operand selects.
pub open spec fn lea_ok(r: Result<Instruction, AssemblyError>, rd: Register, src: OperandView, b: BuilderView) -> bool {
    match src {
        OperandView::Indexed(rs, off) => r matches Ok(Instruction::Lea(x, y, o)) && x == rd && y == rs
            && o@ == OperandView::Immediate(off as i32),
        OperandView::IndexedLabel(rs, l) => r matches Ok(Instruction::Lea(x, y, o)) && x == rd && y == rs
            && o@ == OperandView::Label(l),
        _ => fails_with(r, err_at(b, "Invalid operands to LEA instruction."@)),
    }
}

pub open spec fn build_ld_ok(b: BuilderView, r: Result<Instruction, AssemblyError>) -> bool {
    match reg_then_operand_spec(b) {
        Ok((rd, src)) => ld_ok(r, rd, src, b),
        Err(d) => fails_with(r, d),
    }
}

pub open spec fn build_st_ok(b: BuilderView, r: Result<Instruction, AssemblyError>) -> bool {
    match operand_then_reg_spec(b) {
        Ok((dest, rs)) => st_ok(r, dest, rs, b),
        Err(d) => fails_with(r, d),
    }
}

pub open spec fn build_ld_b_ok(b: BuilderView, r: Result<Instruction, AssemblyError>) -> bool {
    match reg_then_operand_spec(b) {
        Ok((rd, src)) => ldb_ok(r, rd, src, b),
        Err(d) => fails_with(r, d),
    }
}

pub open spec fn build_st_b_ok(b: BuilderView, r: Result<Instruction, AssemblyError>) -> bool {
    match operand_then_reg_spec(b) {
        Ok((dest, rs)) => stb_ok(r, dest, rs, b),
        Err(d) => fails_with(r, d),
    }
}

pub open spec fn build_lea_ok(b: BuilderView, r: Result<Instruction, AssemblyError>) -> bool {
    match reg_then_operand_spec(b) {
        Ok((rd, src)) => lea_ok(r, rd, src, b),
        Err(d) => fails_with(r, d),
    }
}

pub open spec fn build_ldi_ok(b: BuilderView, r: Result<Instruction, AssemblyError>) -> bool {
    match ra_spec(b) {
        Ok((a, v)) => r matches Ok(Instruction::Ldi(x, o)) && x == a && o@ == v,
        Err(d) => fails_with(r, d),
    }
}

pub open spec fn build_ldi_b_ok(b: BuilderView, r: Result<Instruction, AssemblyError>) -> bool {
    match r_ubl_spec(b) {
        Ok((a, v)) => r matches Ok(Instruction::LdiB(x, o)) && x == a && o@ == v,
        Err(d) => fails_with(r, d),
    }
}

impl AstBuilder {
    /// `LD rd, source`.
    pub fn build_ld(self) -> (r: Result<Instruction, AssemblyError>)
        requires
            self.wf(),
        ensures
            build_ld_ok(self@, r),
    {
        let mut b = self;
        let rd = match b.expect_register() {
            Ok(x) => x,
            Err(e) => {
                return Err(e);
            },
        };
        let src = match b.pop_operand() {
            Ok(x) => x,
            Err(e) => {
                return Err(e);
            },
        };
        match src {
            Operand::Register(rs) => Ok(Instruction::LdReg(rd, rs)),
            Operand::AbsAddr(addr) => Ok(Instruction::LdAbs(rd, Operand::Immediate(addr as i32))),
            Operand::AbsLabel(label) => Ok(Instruction::LdAbs(rd, Operand::Label(label))),
            Operand::Indexed(rs, offset) => Ok(Instruction::LdIndexed(rd, rs, Operand::Immediate(offset as i32))),
            Operand::IndexedLabel(rs, label) => Ok(Instruction::LdIndexed(rd, rs, Operand::Label(label))),
            Operand::Indirect(rs) => Ok(Instruction::LdIndirect(rd, rs)),
            Operand::PreDecrement(rs) => Ok(Instruction::LdPreDec(rd, rs)),
            Operand::PostIncrement(rs) => Ok(Instruction::LdPostInc(rd, rs)),
            _ => Err(AssemblyError::StructuralError { line: b.line_number, reason: owned("Invalid source operand for LD instruction.") }),
        }
    }

    /// `ST destination, rs`.
    pub fn build_st(self) -> (r: Result<Instruction, AssemblyError>)
        requires
            self.wf(),
        ensures
            build_st_ok(self@, r),
    {
        let mut b = self;
        let dest = match b.pop_operand() {
            Ok(x) => x,
            Err(e) => {
                return Err(e);
            },
        };
        let rs = match b.expect_register() {
            Ok(x) => x,
            Err(e) => {
                return Err(e);
            },
        };
        match dest {
            Operand::AbsAddr(addr) => Ok(Instruction::StAbs(Operand::Immediate(addr as i32), rs)),
            Operand::AbsLabel(label) => Ok(Instruction::StAbs(Operand::Label(label), rs)),
            Operand::Indirect(rd) => Ok(Instruction::StIndirect(rd, rs)),
            Operand::PostIncrement(rd) => Ok(Instruction::StPostInc(rd, rs)),
            Operand::PreDecrement(rd) => Ok(Instruction::StPreDec(rd, rs)),
            Operand::Indexed(rd, offset) => Ok(Instruction::StIndexed(rd, Operand::Immediate(offset as i32), rs)),
            Operand::IndexedLabel(rd, label) => Ok(Instruction::StIndexed(rd, Operand::Label(label), rs)),
            _ => Err(AssemblyError::StructuralError { line: b.line_number, reason: owned("Invalid desitination operand to ST instruction.") }),
        }
    }

    /// `LD.b rd, source`.
    pub fn build_ld_b(self) -> (r: Result<Instruction, AssemblyError>)
        requires
            self.wf(),
        ensures
            build_ld_b_ok(self@, r),
    {
        let mut b = self;
        let rd = match b.expect_register() {
            Ok(x) => x,
            Err(e) => {
                return Err(e);
            },
        };
        let src = match b.pop_operand() {
            Ok(x) => x,
            Err(e) => {
                return Err(e);
            },
        };
        match src {
            Operand::AbsAddr(addr) => Ok(Instruction::LdBAbs(rd, Operand::Immediate(addr as i32))),
            Operand::AbsLabel(label) => Ok(Instruction::LdBAbs(rd, Operand::Label(label))),
            Operand::Indirect(rs) => Ok(Instruction::LdBIndirect(rd, rs)),
            Operand::PreDecrement(rs) => Ok(Instruction::LdBPreDec(rd, rs)),
            Operand::PostIncrement(rs) => Ok(Instruction::LdBPostInc(rd, rs)),
            _ => Err(AssemblyError::StructuralError { line: b.line_number, reason: owned("The source operand of an LD.b instruction must be an indirect address or post-increment/pre-decrement value.") }),
        }
    }

    /// `ST.b destination, rs`.
    pub fn build_st_b(self) -> (r: Result<Instruction, AssemblyError>)
        requires
            self.wf(),
        ensures
            build_st_b_ok(self@, r),
    {
        let mut b = self;
        let dest = match b.pop_operand() {
            Ok(x) => x,
            Err(e) => {
                return Err(e);
            },
        };
        let rs = match b.expect_register() {
            Ok(x) => x,
            Err(e) => {
                return Err(e);
            },
        };
        match dest {
            Operand::AbsAddr(addr) => Ok(Instruction::StBAbs(Operand::Immediate(addr as i32), rs)),
            Operand::AbsLabel(label) => Ok(Instruction::StBAbs(Operand::Label(label), rs)),
            Operand::Indirect(rd) => Ok(Instruction::StBIndirect(rd, rs)),
            Operand::PreDecrement(rd) => Ok(Instruction::StBPreDec(rd, rs)),
            Operand::PostIncrement(rd) => Ok(Instruction::StBPostInc(rd, rs)),
            _ => Err(AssemblyError::StructuralError { line: b.line_number, reason: owned("The destination operand of an ST.b instruction must be an indirect address or post-increment/pre-decrement value.") }),
        }
    }

    /// `LEA rd, (rs, offset)`.
    pub fn build_lea(self) -> (r: Result<Instruction, AssemblyError>)
        requires
            self.wf(),
        ensures
            build_lea_ok(self@, r),
    {
        let mut b = self;
        let rd = match b.expect_register() {
            Ok(x) => x,
            Err(e) => {
                return Err(e);
            },
        };
        let src = match b.pop_operand() {
            Ok(x) => x,
            Err(e) => {
                return Err(e);
            },
        };
        match src {
            Operand::Indexed(rs, offset) => Ok(Instruction::Lea(rd, rs, Operand::Immediate(offset as i32))),
            Operand::IndexedLabel(rs, label) => Ok(Instruction::Lea(rd, rs, Operand::Label(label))),
            _ => Err(AssemblyError::StructuralError { line: b.line_number, reason: owned("Invalid operands to LEA instruction.") }),
        }
    }

    /// `LDI rd, value`.
    pub fn build_ldi(self) -> (r: Result<Instruction, AssemblyError>)
        requires
            self.wf(),
        ensures
            build_ldi_ok(self@, r),
    {
        let mut b = self;
        let rd = match b.expect_register() {
            Ok(x) => x,
            Err(e) => {
                return Err(e);
            },
        };
        let src = match b.expect_addr_or_label() {
            Ok(x) => x,
            Err(e) => {
                return Err(e);
            },
        };
        Ok(Instruction::Ldi(rd, src))
    }

    /// `LDI.b rd, value`.
    pub fn build_ldi_b(self) -> (r: Result<Instruction, AssemblyError>)
        requires
            self.wf(),
        ensures
            build_ldi_b_ok(self@, r),
    {
        let mut b = self;
        let rd = match b.expect_register() {
            Ok(x) => x,
            Err(e) => {
                return Err(e);
            },
        };
        let src = match b.expect_unsigned_byte_or_label() {
            Ok(x) => x,
            Err(e) => {
                return Err(e);
            },
        };
        Ok(Instruction::LdiB(rd, src))
    }
}

} // verus!
