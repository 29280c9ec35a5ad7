use vstd::prelude::*;
use crate::ast::{Instruction, Operand, OperandView, Register};
use crate::errors::AssemblyError;
use crate::parser::ast_builder::shapes::{a_spec, fails_with, r_spec, ra_spec, rr_spec, sbl_spec};
use crate::parser::ast_builder::validators::BuilderView;
use crate::parser::ast_builder::AstBuilder;

verus! {

pub open spec fn build_add_2_op_ok(b: BuilderView, r: Result<Instruction, AssemblyError>) -> bool {
    match rr_spec(b) {
        Ok((a, c)) => r == Ok::<Instruction, AssemblyError>(Instruction::AddReg(a, c)),
        Err(d) => fails_with(r, d),
    }
}

pub open spec fn build_sub_2_op_ok(b: BuilderView, r: Result<Instruction, AssemblyError>) -> bool {
    match rr_spec(b) {
        Ok((a, c)) => r == Ok::<Instruction, AssemblyError>(Instruction::SubReg(a, c)),
        Err(d) => fails_with(r, d),
    }
}

pub open spec fn build_and_2_op_ok(b: BuilderView, r: Result<Instruction, AssemblyError>) -> bool {
    match rr_spec(b) {
        Ok((a, c)) => r == Ok::<Instruction, AssemblyError>(Instruction::AndReg(a, c)),
        Err(d) => fails_with(r, d),
    }
}

pub open spec fn build_or_2_op_ok(b: BuilderView, r: Result<Instruction, AssemblyError>) -> bool {
    match rr_spec(b) {
        Ok((a, c)) => r == Ok::<Instruction, AssemblyError>(Instruction::OrReg(a, c)),
        Err(d) => fails_with(r, d),
    }
}

pub open spec fn build_xor_2_op_ok(b: BuilderView, r: Result<Instruction, AssemblyError>) -> bool {
    match rr_spec(b) {
        Ok((a, c)) => r == Ok::<Instruction, AssemblyError>(Instruction::XorReg(a, c)),
        Err(d) => fails_with(r, d),
    }
}

pub open spec fn build_cmp_2_op_ok(b: BuilderView, r: Result<Instruction, AssemblyError>) -> bool {
    match rr_spec(b) {
        Ok((a, c)) => r == Ok::<Instruction, AssemblyError>(Instruction::CmpReg(a, c)),
        Err(d) => fails_with(r, d),
    }
}

pub open spec fn build_adc_2_op_ok(b: BuilderView, r: Result<Instruction, AssemblyError>) -> bool {
    match rr_spec(b) {
        Ok((a, c)) => r == Ok::<Instruction, AssemblyError>(Instruction::AdcReg(a, c)),
        Err(d) => fails_with(r, d),
    }
}

pub open spec fn build_sbc_2_op_ok(b: BuilderView, r: Result<Instruction, AssemblyError>) -> bool {
    match rr_spec(b) {
        Ok((a, c)) => r == Ok::<Instruction, AssemblyError>(Instruction::SbcReg(a, c)),
        Err(d) => fails_with(r, d),
    }
}

pub open spec fn build_addi_2_op_ok(b: BuilderView, r: Result<Instruction, AssemblyError>) -> bool {
    match ra_spec(b) {
        Ok((a, v)) => r matches Ok(Instruction::AddIReg(x, o)) && x == a && o@ == v,
        Err(d) => fails_with(r, d),
    }
}

pub open spec fn build_subi_2_op_ok(b: BuilderView, r: Result<Instruction, AssemblyError>) -> bool {
    match ra_spec(b) {
        Ok((a, v)) => r matches Ok(Instruction::SubIReg(x, o)) && x == a && o@ == v,
        Err(d) => fails_with(r, d),
    }
}

pub open spec fn build_andi_2_op_ok(b: BuilderView, r: Result<Instruction, AssemblyError>) -> bool {
    match ra_spec(b) {
        Ok((a, v)) => r matches Ok(Instruction::AndIReg(x, o)) && x == a && o@ == v,
        Err(d) => fails_with(r, d),
    }
}

pub open spec fn build_ori_2_op_ok(b: BuilderView, r: Result<Instruction, AssemblyError>) -> bool {
    match ra_spec(b) {
        Ok((a, v)) => r matches Ok(Instruction::OrIReg(x, o)) && x == a && o@ == v,
        Err(d) => fails_with(r, d),
    }
}

pub open spec fn build_xori_2_op_ok(b: BuilderView, r: Result<Instruction, AssemblyError>) -> bool {
    match ra_spec(b) {
        Ok((a, v)) => r matches Ok(Instruction::XorIReg(x, o)) && x == a && o@ == v,
        Err(d) => fails_with(r, d),
    }
}

pub open spec fn build_cmpi_2_op_ok(b: BuilderView, r: Result<Instruction, AssemblyError>) -> bool {
    match ra_spec(b) {
        Ok((a, v)) => r matches Ok(Instruction::CmpIReg(x, o)) && x == a && o@ == v,
        Err(d) => fails_with(r, d),
    }
}

pub open spec fn build_add_1_op_ok(b: BuilderView, r: Result<Instruction, AssemblyError>) -> bool {
    match r_spec(b) {
        Ok(a) => r == Ok::<Instruction, AssemblyError>(Instruction::AddAcc(a)),
        Err(d) => fails_with(r, d),
    }
}

pub open spec fn build_sub_1_op_ok(b: BuilderView, r: Result<Instruction, AssemblyError>) -> bool {
    match r_spec(b) {
        Ok(a) => r == Ok::<Instruction, AssemblyError>(Instruction::SubAcc(a)),
        Err(d) => fails_with(r, d),
    }
}

pub open spec fn build_and_1_op_ok(b: BuilderView, r: Result<Instruction, AssemblyError>) -> bool {
    match r_spec(b) {
        Ok(a) => r == Ok::<Instruction, AssemblyError>(Instruction::AndAcc(a)),
        Err(d) => fails_with(r, d),
    }
}

pub open spec fn build_or_1_op_ok(b: BuilderView, r: Result<Instruction, AssemblyError>) -> bool {
    match r_spec(b) {
        Ok(a) => r == Ok::<Instruction, AssemblyError>(Instruction::OrAcc(a)),
        Err(d) => fails_with(r, d),
    }
}

pub open spec fn build_xor_1_op_ok(b: BuilderView, r: Result<Instruction, AssemblyError>) -> bool {
    match r_spec(b) {
        Ok(a) => r == Ok::<Instruction, AssemblyError>(Instruction::XorAcc(a)),
        Err(d) => fails_with(r, d),
    }
}

pub open spec fn build_cmp_1_op_ok(b: BuilderView, r: Result<Instruction, AssemblyError>) -> bool {
    match r_spec(b) {
        Ok(a) => r == Ok::<Instruction, AssemblyError>(Instruction::CmpAcc(a)),
        Err(d) => fails_with(r, d),
    }
}

pub open spec fn build_add_b_ok(b: BuilderView, r: Result<Instruction, AssemblyError>) -> bool {
    match r_spec(b) {
        Ok(a) => r == Ok::<Instruction, AssemblyError>(Instruction::AddBAcc(a)),
        Err(d) => fails_with(r, d),
    }
}

pub open spec fn build_sub_b_ok(b: BuilderView, r: Result<Instruction, AssemblyError>) -> bool {
    match r_spec(b) {
        Ok(a) => r == Ok::<Instruction, AssemblyError>(Instruction::SubBAcc(a)),
        Err(d) => fails_with(r, d),
    }
}

pub open spec fn build_and_b_ok(b: BuilderView, r: Result<Instruction, AssemblyError>) -> bool {
    match r_spec(b) {
        Ok(a) => r == Ok::<Instruction, AssemblyError>(Instruction::AndBAcc(a)),
        Err(d) => fails_with(r, d),
    }
}

pub open spec fn build_or_b_ok(b: BuilderView, r: Result<Instruction, AssemblyError>) -> bool {
    match r_spec(b) {
        Ok(a) => r == Ok::<Instruction, AssemblyError>(Instruction::OrBAcc(a)),
        Err(d) => fails_with(r, d),
    }
}

pub open spec fn build_xor_b_ok(b: BuilderView, r: Result<Instruction, AssemblyError>) -> bool {
    match r_spec(b) {
        Ok(a) => r == Ok::<Instruction, AssemblyError>(Instruction::XorBAcc(a)),
        Err(d) => fails_with(r, d),
    }
}

pub open spec fn build_cmp_b_ok(b: BuilderView, r: Result<Instruction, AssemblyError>) -> bool {
    match r_spec(b) {
        Ok(a) => r == Ok::<Instruction, AssemblyError>(Instruction::CmpBAcc(a)),
        Err(d) => fails_with(r, d),
    }
}

pub open spec fn build_inc_ok(b: BuilderView, r: Result<Instruction, AssemblyError>) -> bool {
    match r_spec(b) {
        Ok(a) => r == Ok::<Instruction, AssemblyError>(Instruction::Inc(a)),
        Err(d) => fails_with(r, d),
    }
}

pub open spec fn build_dec_ok(b: BuilderView, r: Result<Instruction, AssemblyError>) -> bool {
    match r_spec(b) {
        Ok(a) => r == Ok::<Instruction, AssemblyError>(Instruction::Dec(a)),
        Err(d) => fails_with(r, d),
    }
}

pub open spec fn build_addi_1_op_ok(b: BuilderView, r: Result<Instruction, AssemblyError>) -> bool {
    match a_spec(b) {
        Ok(v) => r matches Ok(Instruction::AddAccI(o)) && o@ == v,
        Err(d) => fails_with(r, d),
    }
}

pub open spec fn build_subi_1_op_ok(b: BuilderView, r: Result<Instruction, AssemblyError>) -> bool {
    match a_spec(b) {
        Ok(v) => r matches Ok(Instruction::SubAccI(o)) && o@ == v,
        Err(d) => fails_with(r, d),
    }
}

pub open spec fn build_andi_1_op_ok(b: BuilderView, r: Result<Instruction, AssemblyError>) -> bool {
    match a_spec(b) {
        Ok(v) => r matches Ok(Instruction::AndAccI(o)) && o@ == v,
        Err(d) => fails_with(r, d),
    }
}

pub open spec fn build_ori_1_op_ok(b: BuilderView, r: Result<Instruction, AssemblyError>) -> bool {
    match a_spec(b) {
        Ok(v) => r matches Ok(Instruction::OrAccI(o)) && o@ == v,
        Err(d) => fails_with(r, d),
    }
}

pub open spec fn build_xori_1_op_ok(b: BuilderView, r: Result<Instruction, AssemblyError>) -> bool {
    match a_spec(b) {
        Ok(v) => r matches Ok(Instruction::XorAccI(o)) && o@ == v,
        Err(d) => fails_with(r, d),
    }
}

pub open spec fn build_cmpi_1_op_ok(b: BuilderView, r: Result<Instruction, AssemblyError>) -> bool {
    match a_spec(b) {
        Ok(v) => r matches Ok(Instruction::CmpAccI(o)) && o@ == v,
        Err(d) => fails_with(r, d),
    }
}

pub open spec fn build_adci_1_op_ok(b: BuilderView, r: Result<Instruction, AssemblyError>) -> bool {
    match a_spec(b) {
        Ok(v) => r matches Ok(Instruction::AdcAccI(o)) && o@ == v,
        Err(d) => fails_with(r, d),
    }
}

pub open spec fn build_sbci_1_op_ok(b: BuilderView, r: Result<Instruction, AssemblyError>) -> bool {
    match a_spec(b) {
        Ok(v) => r matches Ok(Instruction::SbcAccI(o)) && o@ == v,
        Err(d) => fails_with(r, d),
    }
}

pub open spec fn build_add_sp_ok(b: BuilderView, r: Result<Instruction, AssemblyError>) -> bool {
    match sbl_spec(b) {
        Ok(v) => r matches Ok(Instruction::AddSp(o)) && o@ == v,
        Err(d) => fails_with(r, d),
    }
}

impl AstBuilder {
    /// `ADD rd, rs`.
    pub fn build_add_2_op(self) -> (r: Result<Instruction, AssemblyError>)
        requires
            self.wf(),
        ensures
            build_add_2_op_ok(self@, r),
    {
        let mut b = self;
        let rd = match b.expect_register() {
            Ok(x) => x,
            Err(e) => {
                return Err(e);
            },
        };
        let rs = match b.expect_register() {
            Ok(x) => x,
            Err(e) => {
                return Err(e);
            },
        };
        Ok(Instruction::AddReg(rd, rs))
    }

    /// `SUB rd, rs`.
    pub fn build_sub_2_op(self) -> (r: Result<Instruction, AssemblyError>)
        requires
            self.wf(),
        ensures
            build_sub_2_op_ok(self@, r),
    {
        let mut b = self;
        let rd = match b.expect_register() {
            Ok(x) => x,
            Err(e) => {
                return Err(e);
            },
        };
        let rs = match b.expect_register() {
            Ok(x) => x,
            Err(e) => {
                return Err(e);
            },
        };
        Ok(Instruction::SubReg(rd, rs))
    }

    /// `AND rd, rs`.
    pub fn build_and_2_op(self) -> (r: Result<Instruction, AssemblyError>)
        requires
            self.wf(),
        ensures
            build_and_2_op_ok(self@, r),
    {
        let mut b = self;
        let rd = match b.expect_register() {
            Ok(x) => x,
            Err(e) => {
                return Err(e);
            },
        };
        let rs = match b.expect_register() {
            Ok(x) => x,
            Err(e) => {
                return Err(e);
            },
        };
        Ok(Instruction::AndReg(rd, rs))
    }

    /// `OR rd, rs`.
    pub fn build_or_2_op(self) -> (r: Result<Instruction, AssemblyError>)
        requires
            self.wf(),
        ensures
            build_or_2_op_ok(self@, r),
    {
        let mut b = self;
        let rd = match b.expect_register() {
            Ok(x) => x,
            Err(e) => {
                return Err(e);
            },
        };
        let rs = match b.expect_register() {
            Ok(x) => x,
            Err(e) => {
                return Err(e);
            },
        };
        Ok(Instruction::OrReg(rd, rs))
    }

    /// `XOR rd, rs`.
    pub fn build_xor_2_op(self) -> (r: Result<Instruction, AssemblyError>)
        requires
            self.wf(),
        ensures
            build_xor_2_op_ok(self@, r),
    {
        let mut b = self;
        let rd = match b.expect_register() {
            Ok(x) => x,
            Err(e) => {
                return Err(e);
            },
        };
        let rs = match b.expect_register() {
            Ok(x) => x,
            Err(e) => {
                return Err(e);
            },
        };
        Ok(Instruction::XorReg(rd, rs))
    }

    /// `CMP rd, rs`.
    pub fn build_cmp_2_op(self) -> (r: Result<Instruction, AssemblyError>)
        requires
            self.wf(),
        ensures
            build_cmp_2_op_ok(self@, r),
    {
        let mut b = self;
        let rd = match b.expect_register() {
            Ok(x) => x,
            Err(e) => {
                return Err(e);
            },
        };
        let rs = match b.expect_register() {
            Ok(x) => x,
            Err(e) => {
                return Err(e);
            },
        };
        Ok(Instruction::CmpReg(rd, rs))
    }

    /// `ADC rd, rs`.
    pub fn build_adc_2_op(self) -> (r: Result<Instruction, AssemblyError>)
        requires
            self.wf(),
        ensures
            build_adc_2_op_ok(self@, r),
    {
        let mut b = self;
        let rd = match b.expect_register() {
            Ok(x) => x,
            Err(e) => {
                return Err(e);
            },
        };
        let rs = match b.expect_register() {
            Ok(x) => x,
            Err(e) => {
                return Err(e);
            },
        };
        Ok(Instruction::AdcReg(rd, rs))
    }

    /// `SBC rd, rs`.
    pub fn build_sbc_2_op(self) -> (r: Result<Instruction, AssemblyError>)
        requires
            self.wf(),
        ensures
            build_sbc_2_op_ok(self@, r),
    {
        let mut b = self;
        let rd = match b.expect_register() {
            Ok(x) => x,
            Err(e) => {
                return Err(e);
            },
        };
        let rs = match b.expect_register() {
            Ok(x) => x,
            Err(e) => {
                return Err(e);
            },
        };
        Ok(Instruction::SbcReg(rd, rs))
    }

    /// `ADD rd, value`.
    pub fn build_addi_2_op(self) -> (r: Result<Instruction, AssemblyError>)
        requires
            self.wf(),
        ensures
            build_addi_2_op_ok(self@, r),
    {
        let mut b = self;
        let rd = match b.expect_register() {
            Ok(x) => x,
            Err(e) => {
                return Err(e);
            },
        };
        let src = match b.expect_addr_or_label() {
            Ok(x) => x,
            Err(e) => {
                return Err(e);
            },
        };
        Ok(Instruction::AddIReg(rd, src))
    }

    /// `SUB rd, value`.
    pub fn build_subi_2_op(self) -> (r: Result<Instruction, AssemblyError>)
        requires
            self.wf(),
        ensures
            build_subi_2_op_ok(self@, r),
    {
        let mut b = self;
        let rd = match b.expect_register() {
            Ok(x) => x,
            Err(e) => {
                return Err(e);
            },
        };
        let src = match b.expect_addr_or_label() {
            Ok(x) => x,
            Err(e) => {
                return Err(e);
            },
        };
        Ok(Instruction::SubIReg(rd, src))
    }

    /// `AND rd, value`.
    pub fn build_andi_2_op(self) -> (r: Result<Instruction, AssemblyError>)
        requires
            self.wf(),
        ensures
            build_andi_2_op_ok(self@, r),
    {
        let mut b = self;
        let rd = match b.expect_register() {
            Ok(x) => x,
            Err(e) => {
                return Err(e);
            },
        };
        let src = match b.expect_addr_or_label() {
            Ok(x) => x,
            Err(e) => {
                return Err(e);
            },
        };
        Ok(Instruction::AndIReg(rd, src))
    }

    /// `OR rd, value`.
    pub fn build_ori_2_op(self) -> (r: Result<Instruction, AssemblyError>)
        requires
            self.wf(),
        ensures
            build_ori_2_op_ok(self@, r),
    {
        let mut b = self;
        let rd = match b.expect_register() {
            Ok(x) => x,
            Err(e) => {
                return Err(e);
            },
        };
        let src = match b.expect_addr_or_label() {
            Ok(x) => x,
            Err(e) => {
                return Err(e);
            },
        };
        Ok(Instruction::OrIReg(rd, src))
    }

    /// `XOR rd, value`.
    pub fn build_xori_2_op(self) -> (r: Result<Instruction, AssemblyError>)
        requires
            self.wf(),
        ensures
            build_xori_2_op_ok(self@, r),
    {
        let mut b = self;
        let rd = match b.expect_register() {
            Ok(x) => x,
            Err(e) => {
                return Err(e);
            },
        };
        let src = match b.expect_addr_or_label() {
            Ok(x) => x,
            Err(e) => {
                return Err(e);
            },
        };
        Ok(Instruction::XorIReg(rd, src))
    }

    /// `CMP rd, value`.
    pub fn build_cmpi_2_op(self) -> (r: Result<Instruction, AssemblyError>)
        requires
            self.wf(),
        ensures
            build_cmpi_2_op_ok(self@, r),
    {
        let mut b = self;
        let rd = match b.expect_register() {
            Ok(x) => x,
            Err(e) => {
                return Err(e);
            },
        };
        let src = match b.expect_addr_or_label() {
            Ok(x) => x,
            Err(e) => {
                return Err(e);
            },
        };
        Ok(Instruction::CmpIReg(rd, src))
    }

    /// `ADD rs`.
    pub fn build_add_1_op(self) -> (r: Result<Instruction, AssemblyError>)
        requires
            self.wf(),
        ensures
            build_add_1_op_ok(self@, r),
    {
        let mut b = self;
        let rd = match b.expect_register() {
            Ok(x) => x,
            Err(e) => {
                return Err(e);
            },
        };
        Ok(Instruction::AddAcc(rd))
    }

    /// `SUB rs`.
    pub fn build_sub_1_op(self) -> (r: Result<Instruction, AssemblyError>)
        requires
            self.wf(),
        ensures
            build_sub_1_op_ok(self@, r),
    {
        let mut b = self;
        let rd = match b.expect_register() {
            Ok(x) => x,
            Err(e) => {
                return Err(e);
            },
        };
        Ok(Instruction::SubAcc(rd))
    }

    /// `AND rs`.
    pub fn build_and_1_op(self) -> (r: Result<Instruction, AssemblyError>)
        requires
            self.wf(),
        ensures
            build_and_1_op_ok(self@, r),
    {
        let mut b = self;
        let rd = match b.expect_register() {
            Ok(x) => x,
            Err(e) => {
                return Err(e);
            },
        };
        Ok(Instruction::AndAcc(rd))
    }

    /// `OR rs`.
    pub fn build_or_1_op(self) -> (r: Result<Instruction, AssemblyError>)
        requires
            self.wf(),
        ensures
            build_or_1_op_ok(self@, r),
    {
        let mut b = self;
        let rd = match b.expect_register() {
            Ok(x) => x,
            Err(e) => {
                return Err(e);
            },
        };
        Ok(Instruction::OrAcc(rd))
    }

    /// `XOR rs`.
    pub fn build_xor_1_op(self) -> (r: Result<Instruction, AssemblyError>)
        requires
            self.wf(),
        ensures
            build_xor_1_op_ok(self@, r),
    {
        let mut b = self;
        let rd = match b.expect_register() {
            Ok(x) => x,
            Err(e) => {
                return Err(e);
            },
        };
        Ok(Instruction::XorAcc(rd))
    }

    /// `CMP rs`.
    pub fn build_cmp_1_op(self) -> (r: Result<Instruction, AssemblyError>)
        requires
            self.wf(),
        ensures
            build_cmp_1_op_ok(self@, r),
    {
        let mut b = self;
        let rd = match b.expect_register() {
            Ok(x) => x,
            Err(e) => {
                return Err(e);
            },
        };
        Ok(Instruction::CmpAcc(rd))
    }

    /// `ADD.b rs`.
    pub fn build_add_b(self) -> (r: Result<Instruction, AssemblyError>)
        requires
            self.wf(),
        ensures
            build_add_b_ok(self@, r),
    {
        let mut b = self;
        let rd = match b.expect_register() {
            Ok(x) => x,
            Err(e) => {
                return Err(e);
            },
        };
        Ok(Instruction::AddBAcc(rd))
    }

    /// `SUB.b rs`.
    pub fn build_sub_b(self) -> (r: Result<Instruction, AssemblyError>)
        requires
            self.wf(),
        ensures
            build_sub_b_ok(self@, r),
    {
        let mut b = self;
        let rd = match b.expect_register() {
            Ok(x) => x,
            Err(e) => {
                return Err(e);
            },
        };
        Ok(Instruction::SubBAcc(rd))
    }

    /// `AND.b rs`.
    pub fn build_and_b(self) -> (r: Result<Instruction, AssemblyError>)
        requires
            self.wf(),
        ensures
            build_and_b_ok(self@, r),
    {
        let mut b = self;
        let rd = match b.expect_register() {
            Ok(x) => x,
            Err(e) => {
                return Err(e);
            },
        };
        Ok(Instruction::AndBAcc(rd))
    }

    /// `OR.b rs`.
    pub fn build_or_b(self) -> (r: Result<Instruction, AssemblyError>)
        requires
            self.wf(),
        ensures
            build_or_b_ok(self@, r),
    {
        let mut b = self;
        let rd = match b.expect_register() {
            Ok(x) => x,
            Err(e) => {
                return Err(e);
            },
        };
        Ok(Instruction::OrBAcc(rd))
    }

    /// `XOR.b rs`.
    pub fn build_xor_b(self) -> (r: Result<Instruction, AssemblyError>)
        requires
            self.wf(),
        ensures
            build_xor_b_ok(self@, r),
    {
        let mut b = self;
        let rd = match b.expect_register() {
            Ok(x) => x,
            Err(e) => {
                return Err(e);
            },
        };
        Ok(Instruction::XorBAcc(rd))
    }

    /// `CMP.b rs`.
    pub fn build_cmp_b(self) -> (r: Result<Instruction, AssemblyError>)
        requires
            self.wf(),
        ensures
            build_cmp_b_ok(self@, r),
    {
        let mut b = self;
        let rd = match b.expect_register() {
            Ok(x) => x,
            Err(e) => {
                return Err(e);
            },
        };
        Ok(Instruction::CmpBAcc(rd))
    }

    /// `INC r`.
    pub fn build_inc(self) -> (r: Result<Instruction, AssemblyError>)
        requires
            self.wf(),
        ensures
            build_inc_ok(self@, r),
    {
        let mut b = self;
        let rd = match b.expect_register() {
            Ok(x) => x,
            Err(e) => {
                return Err(e);
            },
        };
        Ok(Instruction::Inc(rd))
    }

    /// `DEC r`.
    pub fn build_dec(self) -> (r: Result<Instruction, AssemblyError>)
        requires
            self.wf(),
        ensures
            build_dec_ok(self@, r),
    {
        let mut b = self;
        let rd = match b.expect_register() {
            Ok(x) => x,
            Err(e) => {
                return Err(e);
            },
        };
        Ok(Instruction::Dec(rd))
    }

    /// `ADD value`.
    pub fn build_addi_1_op(self) -> (r: Result<Instruction, AssemblyError>)
        requires
            self.wf(),
        ensures
            build_addi_1_op_ok(self@, r),
    {
        let mut b = self;
        let src = match b.expect_addr_or_label() {
            Ok(x) => x,
            Err(e) => {
                return Err(e);
            },
        };
        Ok(Instruction::AddAccI(src))
    }

    /// `SUB value`.
    pub fn build_subi_1_op(self) -> (r: Result<Instruction, AssemblyError>)
        requires
            self.wf(),
        ensures
            build_subi_1_op_ok(self@, r),
    {
        let mut b = self;
        let src = match b.expect_addr_or_label() {
            Ok(x) => x,
            Err(e) => {
                return Err(e);
            },
        };
        Ok(Instruction::SubAccI(src))
    }

    /// `AND value`.
    pub fn build_andi_1_op(self) -> (r: Result<Instruction, AssemblyError>)
        requires
            self.wf(),
        ensures
            build_andi_1_op_ok(self@, r),
    {
        let mut b = self;
        let src = match b.expect_addr_or_label() {
            Ok(x) => x,
            Err(e) => {
                return Err(e);
            },
        };
        Ok(Instruction::AndAccI(src))
    }

    /// `OR value`.
    pub fn build_ori_1_op(self) -> (r: Result<Instruction, AssemblyError>)
        requires
            self.wf(),
        ensures
            build_ori_1_op_ok(self@, r),
    {
        let mut b = self;
        let src = match b.expect_addr_or_label() {
            Ok(x) => x,
            Err(e) => {
                return Err(e);
            },
        };
        Ok(Instruction::OrAccI(src))
    }

    /// `XOR value`.
    pub fn build_xori_1_op(self) -> (r: Result<Instruction, AssemblyError>)
        requires
            self.wf(),
        ensures
            build_xori_1_op_ok(self@, r),
    {
        let mut b = self;
        let src = match b.expect_addr_or_label() {
            Ok(x) => x,
            Err(e) => {
                return Err(e);
            },
        };
        Ok(Instruction::XorAccI(src))
    }

    /// `CMP value`.
    pub fn build_cmpi_1_op(self) -> (r: Result<Instruction, AssemblyError>)
        requires
            self.wf(),
        ensures
            build_cmpi_1_op_ok(self@, r),
    {
        let mut b = self;
        let src = match b.expect_addr_or_label() {
            Ok(x) => x,
            Err(e) => {
                return Err(e);
            },
        };
        Ok(Instruction::CmpAccI(src))
    }

    /// `ADC value`.
    pub fn build_adci_1_op(self) -> (r: Result<Instruction, AssemblyError>)
        requires
            self.wf(),
        ensures
            build_adci_1_op_ok(self@, r),
    {
        let mut b = self;
        let src = match b.expect_addr_or_label() {
            Ok(x) => x,
            Err(e) => {
                return Err(e);
            },
        };
        Ok(Instruction::AdcAccI(src))
    }

    /// `SBC value`.
    pub fn build_sbci_1_op(self) -> (r: Result<Instruction, AssemblyError>)
        requires
            self.wf(),
        ensures
            build_sbci_1_op_ok(self@, r),
    {
        let mut b = self;
        let src = match b.expect_addr_or_label() {
            Ok(x) => x,
            Err(e) => {
                return Err(e);
            },
        };
        Ok(Instruction::SbcAccI(src))
    }

    /// `ADD SP, offset`.
    pub fn build_add_sp(self) -> (r: Result<Instruction, AssemblyError>)
        requires
            self.wf(),
        ensures
            build_add_sp_ok(self@, r),
    {
        let mut b = self;
        let src = match b.expect_sbyte_or_label() {
            Ok(x) => x,
            Err(e) => {
                return Err(e);
            },
        };
        Ok(Instruction::AddSp(src))
    }
}

} // verus!
