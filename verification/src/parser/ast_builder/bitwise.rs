use vstd::prelude::*;
use crate::ast::{Instruction, Operand, OperandView, Register};
use crate::errors::{AssemblyError, ErrDesc};
use crate::parser::ast_builder::shapes::{fails_with, r_spec};
use crate::parser::ast_builder::validators::{bit_id_or_label_spec, err_at, pop_spec, BuilderView};
use crate::parser::ast_builder::AstBuilder;
use crate::text::owned;

verus! {

/// A target operand, then a bit number or label.
pub open spec fn bit_target_spec(b: BuilderView) -> Result<(OperandView, OperandView), ErrDesc> {
    match pop_spec(b) {
        Ok((t, b1)) => match bit_id_or_label_spec(b1) {
            Ok((bit, _)) => Ok((t, bit)),
            Err(d) => Err(d),
        },
        Err(d) => Err(d),
    }
}

pub open spec fn build_sra_ok(b: BuilderView, r: Result<Instruction, AssemblyError>) -> bool {
    match r_spec(b) {
        Ok(a) => r == Ok::<Instruction, AssemblyError>(Instruction::Sra(a)),
        Err(d) => fails_with(r, d),
    }
}

pub open spec fn build_shl_ok(b: BuilderView, r: Result<Instruction, AssemblyError>) -> bool {
    match r_spec(b) {
        Ok(a) => r == Ok::<Instruction, AssemblyError>(Instruction::Shl(a)),
        Err(d) => fails_with(r, d),
    }
}

pub open spec fn build_shr_ok(b: BuilderView, r: Result<Instruction, AssemblyError>) -> bool {
    match r_spec(b) {
        Ok(a) => r == Ok::<Instruction, AssemblyError>(Instruction::Shr(a)),
        Err(d) => fails_with(r, d),
    }
}

pub open spec fn build_rol_ok(b: BuilderView, r: Result<Instruction, AssemblyError>) -> bool {
    match r_spec(b) {
        Ok(a) => r == Ok::<Instruction, AssemblyError>(Instruction::Rol(a)),
        Err(d) => fails_with(r, d),
    }
}

pub open spec fn build_ror_ok(b: BuilderView, r: Result<Instruction, AssemblyError>) -> bool {
    match r_spec(b) {
        Ok(a) => r == Ok::<Instruction, AssemblyError>(Instruction::Ror(a)),
        Err(d) => fails_with(r, d),
    }
}

pub open spec fn build_bit_ok(b: BuilderView, r: Result<Instruction, AssemblyError>) -> bool {
    match bit_target_spec(b) {
        Ok((t, bit)) => match t {
            OperandView::Register(reg) => r matches Ok(Instruction::BitReg(x, o)) && x == reg && o@ == bit,
            OperandView::Indirect(reg) => r matches Ok(Instruction::BitIndirect(x, o)) && x == reg && o@ == bit,
            OperandView::AbsAddr(a) => r matches Ok(Instruction::BitAbs(o1, o2))
                && o1@ == OperandView::Immediate(a as i32) && o2@ == bit,
            OperandView::AbsLabel(l) => r matches Ok(Instruction::BitAbs(o1, o2))
                && o1@ == OperandView::Label(l) && o2@ == bit,
            _ => fails_with(r, err_at(b, "BIT destination operand must be a register, indirect address or absolute address"@)),
        },
        Err(d) => fails_with(r, d),
    }
}

pub open spec fn build_set_ok(b: BuilderView, r: Result<Instruction, AssemblyError>) -> bool {
    match bit_target_spec(b) {
        Ok((t, bit)) => match t {
            OperandView::Register(reg) => r matches Ok(Instruction::SetReg(x, o)) && x == reg && o@ == bit,
            OperandView::Indirect(reg) => r matches Ok(Instruction::SetIndirect(x, o)) && x == reg && o@ == bit,
            OperandView::AbsAddr(a) => r matches Ok(Instruction::SetAbs(o1, o2))
                && o1@ == OperandView::Immediate(a as i32) && o2@ == bit,
            OperandView::AbsLabel(l) => r matches Ok(Instruction::SetAbs(o1, o2))
                && o1@ == OperandView::Label(l) && o2@ == bit,
            _ => fails_with(r, err_at(b, "SET destination operand must be a register, indirect address or absolute address"@)),
        },
        Err(d) => fails_with(r, d),
    }
}

pub open spec fn build_res_ok(b: BuilderView, r: Result<Instruction, AssemblyError>) -> bool {
    match bit_target_spec(b) {
        Ok((t, bit)) => match t {
            OperandView::Register(reg) => r matches Ok(Instruction::ResReg(x, o)) && x == reg && o@ == bit,
            OperandView::Indirect(reg) => r matches Ok(Instruction::ResIndirect(x, o)) && x == reg && o@ == bit,
            OperandView::AbsAddr(a) => r matches Ok(Instruction::ResAbs(o1, o2))
                && o1@ == OperandView::Immediate(a as i32) && o2@ == bit,
            OperandView::AbsLabel(l) => r matches Ok(Instruction::ResAbs(o1, o2))
                && o1@ == OperandView::Label(l) && o2@ == bit,
            _ => fails_with(r, err_at(b, "RES destination operand must be a register, indirect address or absolute address"@)),
        },
        Err(d) => fails_with(r, d),
    }
}

impl AstBuilder {
    /// `SRA r`.
    pub fn build_sra(self) -> (r: Result<Instruction, AssemblyError>)
        requires
            self.wf(),
        ensures
            build_sra_ok(self@, r),
    {
        let mut b = self;
        let rd = match b.expect_register() {
            Ok(x) => x,
            Err(e) => {
                return Err(e);
            },
        };
        Ok(Instruction::Sra(rd))
    }

    /// `SHL r`.
    pub fn build_shl(self) -> (r: Result<Instruction, AssemblyError>)
        requires
            self.wf(),
        ensures
            build_shl_ok(self@, r),
    {
        let mut b = self;
        let rd = match b.expect_register() {
            Ok(x) => x,
            Err(e) => {
                return Err(e);
            },
        };
        Ok(Instruction::Shl(rd))
    }

    /// `SHR r`.
    pub fn build_shr(self) -> (r: Result<Instruction, AssemblyError>)
        requires
            self.wf(),
        ensures
            build_shr_ok(self@, r),
    {
        let mut b = self;
        let rd = match b.expect_register() {
            Ok(x) => x,
            Err(e) => {
                return Err(e);
            },
        };
        Ok(Instruction::Shr(rd))
    }

    /// `ROL r`.
    pub fn build_rol(self) -> (r: Result<Instruction, AssemblyError>)
        requires
            self.wf(),
        ensures
            build_rol_ok(self@, r),
    {
        let mut b = self;
        let rd = match b.expect_register() {
            Ok(x) => x,
            Err(e) => {
                return Err(e);
            },
        };
        Ok(Instruction::Rol(rd))
    }

    /// `ROR r`.
    pub fn build_ror(self) -> (r: Result<Instruction, AssemblyError>)
        requires
            self.wf(),
        ensures
            build_ror_ok(self@, r),
    {
        let mut b = self;
        let rd = match b.expect_register() {
            Ok(x) => x,
            Err(e) => {
                return Err(e);
            },
        };
        Ok(Instruction::Ror(rd))
    }

    /// `BIT target, bit`: the target a register, the memory a register
    /// points at, or an absolute address.
    pub fn build_bit(self) -> (r: Result<Instruction, AssemblyError>)
        requires
            self.wf(),
        ensures
            build_bit_ok(self@, r),
    {
        let mut b = self;
        let op = match b.pop_operand() {
            Ok(x) => x,
            Err(e) => {
                return Err(e);
            },
        };
        let bit = match b.expect_bit_id_or_label() {
            Ok(x) => x,
            Err(e) => {
                return Err(e);
            },
        };
        match op {
            Operand::Register(reg) => Ok(Instruction::BitReg(reg, bit)),
            Operand::Indirect(reg) => Ok(Instruction::BitIndirect(reg, bit)),
            Operand::AbsAddr(addr) => Ok(Instruction::BitAbs(Operand::Immediate(addr as i32), bit)),
            Operand::AbsLabel(label) => Ok(Instruction::BitAbs(Operand::Label(label), bit)),
            _ => Err(AssemblyError::StructuralError {
                line: b.line_number,
                reason: owned("BIT destination operand must be a register, indirect address or absolute address"),
            }),
        }
    }

    /// `SET target, bit`: the target a register, the memory a register
    /// points at, or an absolute address.
    pub fn build_set(self) -> (r: Result<Instruction, AssemblyError>)
        requires
            self.wf(),
        ensures
            build_set_ok(self@, r),
    {
        let mut b = self;
        let op = match b.pop_operand() {
            Ok(x) => x,
            Err(e) => {
                return Err(e);
            },
        };
        let bit = match b.expect_bit_id_or_label() {
            Ok(x) => x,
            Err(e) => {
                return Err(e);
            },
        };
        match op {
            Operand::Register(reg) => Ok(Instruction::SetReg(reg, bit)),
            Operand::Indirect(reg) => Ok(Instruction::SetIndirect(reg, bit)),
            Operand::AbsAddr(addr) => Ok(Instruction::SetAbs(Operand::Immediate(addr as i32), bit)),
            Operand::AbsLabel(label) => Ok(Instruction::SetAbs(Operand::Label(label), bit)),
            _ => Err(AssemblyError::StructuralError {
                line: b.line_number,
                reason: owned("SET destination operand must be a register, indirect address or absolute address"),
            }),
        }
    }

    /// `RES target, bit`: the target a register, the memory a register
    /// points at, or an absolute address.
    pub fn build_res(self) -> (r: Result<Instruction, AssemblyError>)
        requires
            self.wf(),
        ensures
            build_res_ok(self@, r),
    {
        let mut b = self;
        let op = match b.pop_operand() {
            Ok(x) => x,
            Err(e) => {
                return Err(e);
            },
        };
        let bit = match b.expect_bit_id_or_label() {
            Ok(x) => x,
            Err(e) => {
                return Err(e);
            },
        };
        match op {
            Operand::Register(reg) => Ok(Instruction::ResReg(reg, bit)),
            Operand::Indirect(reg) => Ok(Instruction::ResIndirect(reg, bit)),
            Operand::AbsAddr(addr) => Ok(Instruction::ResAbs(Operand::Immediate(addr as i32), bit)),
            Operand::AbsLabel(label) => Ok(Instruction::ResAbs(Operand::Label(label), bit)),
            _ => Err(AssemblyError::StructuralError {
                line: b.line_number,
                reason: owned("RES destination operand must be a register, indirect address or absolute address"),
            }),
        }
    }
}

} // verus!
