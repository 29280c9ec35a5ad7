use cicasm::ast::{Instruction, Operand, Register};
use cicasm::parser::parse_source;

#[test]
fn parser_test_parse_nop() {
    let source = "nop\n";
    let result = parse_source(source);
    assert!(result.is_ok());
    let lines = result.unwrap();
    assert_eq!(lines.len(), 1);
    assert_eq!(lines[0].instruction, Some(Instruction::Nop));
    assert_eq!(lines[0].label, None);
}

#[test]
fn test_parse_sub_reg() {
    let source = "sub r1\n";
    let result = parse_source(source);
    assert!(result.is_ok());
    let lines = result.unwrap();
    assert_eq!(lines.len(), 1);
    assert_eq!(
        lines[0].instruction,
        Some(Instruction::SubAcc(Register::R1))
    );
    assert_eq!(lines[0].label, None);
}

#[test]
fn parser_test_parse_and_reg_reg() {
    let source = "and r2, r3\n";
    let result = parse_source(source);
    assert!(result.is_ok());
    let lines = result.unwrap();
    assert_eq!(lines.len(), 1);
    assert_eq!(
        lines[0].instruction,
        Some(Instruction::AndReg(Register::R2, Register::R3))
    );
    assert_eq!(lines[0].label, None);
}

#[test]
fn parser_test_parse_or_reg_reg() {
    let source = "or r4, r5\n";
    let result = parse_source(source);
    assert!(result.is_ok());
    let lines = result.unwrap();
    assert_eq!(lines.len(), 1);
    assert_eq!(
        lines[0].instruction,
        Some(Instruction::OrReg(Register::R4, Register::R5))
    );
    assert_eq!(lines[0].label, None);
}

#[test]
fn parser_test_parse_xor_reg_reg() {
    let source = "xor r6, r7\n";
    let result = parse_source(source);
    assert!(result.is_ok());
    let lines = result.unwrap();
    assert_eq!(lines.len(), 1);
    assert_eq!(
        lines[0].instruction,
        Some(Instruction::XorReg(Register::R6, Register::R7))
    );
    assert_eq!(lines[0].label, None);
}

#[test]
fn parser_test_parse_cmp_reg_reg() {
    let source = "cmp r0, r1\n";
    let result = parse_source(source);
    assert!(result.is_ok());
    let lines = result.unwrap();
    assert_eq!(lines.len(), 1);
    assert_eq!(
        lines[0].instruction,
        Some(Instruction::CmpReg(Register::R0, Register::R1))
    );
    assert_eq!(lines[0].label, None);
}

#[test]
fn parser_test_parse_adc_reg_reg() {
    let source = "adc r2, r3\n";
    let result = parse_source(source);
    assert!(result.is_ok());
    let lines = result.unwrap();
    assert_eq!(lines.len(), 1);
    assert_eq!(
        lines[0].instruction,
        Some(Instruction::AdcReg(Register::R2, Register::R3))
    );
    assert_eq!(lines[0].label, None);
}

#[test]
fn parser_test_parse_sbc_reg_reg() {
    let source = "sbc r4, r5\n";
    let result = parse_source(source);
    assert!(result.is_ok());
    let lines = result.unwrap();
    assert_eq!(lines.len(), 1);
    assert_eq!(
        lines[0].instruction,
        Some(Instruction::SbcReg(Register::R4, Register::R5))
    );
    assert_eq!(lines[0].label, None);
}

#[test]
fn test_parse_and_reg() {
    let source = "and r1\n";
    let result = parse_source(source);
    assert!(result.is_ok());
    let lines = result.unwrap();
    assert_eq!(lines.len(), 1);
    assert_eq!(
        lines[0].instruction,
        Some(Instruction::AndAcc(Register::R1))
    );
    assert_eq!(lines[0].label, None);
}

#[test]
fn parser_test_parse_add_b() {
    let source = "add.b r1\n";
    let result = parse_source(source);
    assert!(result.is_ok());
    let lines = result.unwrap();
    assert_eq!(lines.len(), 1);
    assert_eq!(
        lines[0].instruction,
        Some(Instruction::AddBAcc(Register::R1))
    );
}

#[test]
fn parser_test_parse_sub_b() {
    let source = "sub.b r2\n";
    let result = parse_source(source);
    assert!(result.is_ok());
    let lines = result.unwrap();
    assert_eq!(lines.len(), 1);
    assert_eq!(
        lines[0].instruction,
        Some(Instruction::SubBAcc(Register::R2))
    );
}

#[test]
fn parser_test_parse_and_b() {
    let source = "and.b r3\n";
    let result = parse_source(source);
    assert!(result.is_ok());
    let lines = result.unwrap();
    assert_eq!(lines.len(), 1);
    assert_eq!(
        lines[0].instruction,
        Some(Instruction::AndBAcc(Register::R3))
    );
}

#[test]
fn parser_test_parse_or_b() {
    let source = "or.b r4\n";
    let result = parse_source(source);
    assert!(result.is_ok());
    let lines = result.unwrap();
    assert_eq!(lines.len(), 1);
    assert_eq!(
        lines[0].instruction,
        Some(Instruction::OrBAcc(Register::R4))
    );
}

#[test]
fn parser_test_parse_xor_b() {
    let source = "xor.b r5\n";
    let result = parse_source(source);
    assert!(result.is_ok());
    let lines = result.unwrap();
    assert_eq!(lines.len(), 1);
    assert_eq!(
        lines[0].instruction,
        Some(Instruction::XorBAcc(Register::R5))
    );
}

#[test]
fn parser_test_parse_cmp_b() {
    let source = "cmp.b r6\n";
    let result = parse_source(source);
    assert!(result.is_ok());
    let lines = result.unwrap();
    assert_eq!(lines.len(), 1);
    assert_eq!(
        lines[0].instruction,
        Some(Instruction::CmpBAcc(Register::R6))
    );
}

#[test]
fn parser_test_parse_ldi_b() {
    let source = "ldi.b r1, 0xAB\n";
    let result = parse_source(source);
    assert!(result.is_ok());
    let lines = result.unwrap();
    assert_eq!(lines.len(), 1);
    assert_eq!(
        lines[0].instruction,
        Some(Instruction::LdiB(Register::R1, Operand::Immediate(0xAB)))
    );
}

#[test]
fn parser_test_parse_ld_indexed() {
    let source = "ld r0, (r1, 16)\n";
    let result = parse_source(source);
    assert!(result.is_ok());
    let lines = result.unwrap();
    assert_eq!(lines.len(), 1);
    assert_eq!(
        lines[0].instruction,
        Some(Instruction::LdIndexed(
            Register::R0,
            Register::R1,
            Operand::Immediate(16)
        ))
    );
}

#[test]
fn parser_test_parse_st_indexed() {
    let source = "st (r2, -1), r3\n";
    let result = parse_source(source);
    assert!(result.is_ok());
    let lines = result.unwrap();
    assert_eq!(lines.len(), 1);
    assert_eq!(
        lines[0].instruction,
        Some(Instruction::StIndexed(
            Register::R2,
            Operand::Immediate(-1),
            Register::R3
        ))
    );
}

#[test]
fn parser_test_parse_lea_indexed() {
    let source = "lea r4, (r5, 32)\n";
    let result = parse_source(source);
    assert!(result.is_ok());
    let lines = result.unwrap();
    assert_eq!(lines.len(), 1);
    assert_eq!(
        lines[0].instruction,
        Some(Instruction::Lea(
            Register::R4,
            Register::R5,
            Operand::Immediate(32)
        ))
    );
}

#[test]
fn parser_test_parse_ld_post_increment() {
    let source = "ld r6, (r7)+\n";
    let result = parse_source(source);
    assert!(result.is_ok());
    let lines = result.unwrap();
    assert_eq!(lines.len(), 1);
    assert_eq!(
        lines[0].instruction,
        Some(Instruction::LdPostInc(Register::R6, Register::R7))
    );
}

#[test]
fn parser_test_parse_st_post_increment() {
    let source = "st (r0)+, r1\n";
    let result = parse_source(source);
    assert!(result.is_ok());
    let lines = result.unwrap();
    assert_eq!(lines.len(), 1);
    assert_eq!(
        lines[0].instruction,
        Some(Instruction::StPostInc(Register::R0, Register::R1))
    );
}

#[test]
fn parser_test_parse_ld_pre_decrement() {
    let source = "ld r2, -(r3)\n";
    let result = parse_source(source);
    assert!(result.is_ok());
    let lines = result.unwrap();
    assert_eq!(lines.len(), 1);
    assert_eq!(
        lines[0].instruction,
        Some(Instruction::LdPreDec(Register::R2, Register::R3))
    );
}

#[test]
fn parser_test_parse_st_pre_decrement() {
    let source = "st -(r4), r5\n";
    let result = parse_source(source);
    assert!(result.is_ok());
    let lines = result.unwrap();
    assert_eq!(lines.len(), 1);
    assert_eq!(
        lines[0].instruction,
        Some(Instruction::StPreDec(Register::R4, Register::R5))
    );
}

#[test]
fn parser_test_parse_ld_b_post_increment() {
    let source = "ld.b r6, (r7)+\n";
    let result = parse_source(source);
    assert!(result.is_ok());
    let lines = result.unwrap();
    assert_eq!(lines.len(), 1);
    assert_eq!(
        lines[0].instruction,
        Some(Instruction::LdBPostInc(Register::R6, Register::R7))
    );
}

#[test]
fn parser_test_parse_st_b_post_increment() {
    let source = "st.b (r0)+, r1\n";
    let result = parse_source(source);
    assert!(result.is_ok());
    let lines = result.unwrap();
    assert_eq!(lines.len(), 1);
    assert_eq!(
        lines[0].instruction,
        Some(Instruction::StBPostInc(Register::R0, Register::R1))
    );
}

#[test]
fn parser_test_parse_ld_b_pre_decrement() {
    let source = "ld.b r2, -(r3)\n";
    let result = parse_source(source);
    assert!(result.is_ok());
    let lines = result.unwrap();
    assert_eq!(lines.len(), 1);
    assert_eq!(
        lines[0].instruction,
        Some(Instruction::LdBPreDec(Register::R2, Register::R3))
    );
}

#[test]
fn parser_test_parse_st_b_pre_decrement() {
    let source = "st.b -(r4), r5\n";
    let result = parse_source(source);
    assert!(result.is_ok());
    let lines = result.unwrap();
    assert_eq!(lines.len(), 1);
    assert_eq!(
        lines[0].instruction,
        Some(Instruction::StBPreDec(Register::R4, Register::R5))
    );
}

#[test]
fn parser_test_parse_bit_register() {
    let source = "bit r1, 7\n";
    let result = parse_source(source);
    assert!(result.is_ok());
    let lines = result.unwrap();
    assert_eq!(lines.len(), 1);
    assert_eq!(
        lines[0].instruction,
        Some(Instruction::BitReg(Register::R1, Operand::Immediate(7)))
    );
}

#[test]
fn parser_test_parse_set_absolute() {
    let source = "set (0x1234), 0\n";
    let result = parse_source(source);
    assert!(result.is_ok());
    let lines = result.unwrap();
    assert_eq!(lines.len(), 1);
    assert_eq!(
        lines[0].instruction,
        Some(Instruction::SetAbs(
            Operand::Immediate(0x1234),
            Operand::Immediate(0)
        ))
    );
}

#[test]
fn parser_test_parse_res_indirect() {
    let source = "res (r2), 3\n";
    let result = parse_source(source);
    assert!(result.is_ok());
    let lines = result.unwrap();
    assert_eq!(lines.len(), 1);
    assert_eq!(
        lines[0].instruction,
        Some(Instruction::ResIndirect(
            Register::R2,
            Operand::Immediate(3)
        ))
    );
}
