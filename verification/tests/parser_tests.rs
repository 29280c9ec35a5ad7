use cicasm::ast::{AssemblyLine, Directive, Instruction, Operand, Register, SectionOptions};
use cicasm::errors::AssemblyError;
use cicasm::file_reader::MockFileReader;
use cicasm::parser::parse_source_recursive;

/// Parses `source` as the file `test.asm` of an in-memory file system.
fn parse_test_source(source: &str) -> Result<Vec<AssemblyLine>, AssemblyError> {
    let mut mock_reader = MockFileReader::default();
    let file_path = "test.asm";
    mock_reader.add_file(file_path, source);

    let mut include_stack = Vec::new();
    parse_source_recursive(file_path, &mut include_stack, &mock_reader)
}

#[test]
fn mod_test_parse_nop() {
    let source = "nop\n";
    let result = parse_test_source(source);
    assert!(result.is_ok());
    let lines = result.unwrap();
    assert_eq!(lines.len(), 1);
    assert_eq!(lines[0].instruction, Some(Instruction::Nop));
    assert_eq!(lines[0].label, None);
}

#[test]
fn test_parse_sub_acc() {
    let source = "sub r1\n";
    let result = parse_test_source(source);
    assert!(result.is_ok());
    let lines = result.unwrap();
    assert_eq!(lines.len(), 1);
    assert_eq!(
        lines[0].instruction,
        Some(Instruction::SubAcc(Register::R1))
    );
    assert_eq!(lines[0].label, None);
}

#[test]
fn mod_test_parse_and_reg_reg() {
    let source = "and r2, r3\n";
    let result = parse_test_source(source);
    assert!(result.is_ok());
    let lines = result.unwrap();
    assert_eq!(lines.len(), 1);
    assert_eq!(
        lines[0].instruction,
        Some(Instruction::AndReg(Register::R2, Register::R3))
    );
    assert_eq!(lines[0].label, None);
}

#[test]
fn mod_test_parse_or_reg_reg() {
    let source = "or r4, r5\n";
    let result = parse_test_source(source);
    assert!(result.is_ok());
    let lines = result.unwrap();
    assert_eq!(lines.len(), 1);
    assert_eq!(
        lines[0].instruction,
        Some(Instruction::OrReg(Register::R4, Register::R5))
    );
    assert_eq!(lines[0].label, None);
}

#[test]
fn mod_test_parse_xor_reg_reg() {
    let source = "xor r6, r7\n";
    let result = parse_test_source(source);
    assert!(result.is_ok());
    let lines = result.unwrap();
    assert_eq!(lines.len(), 1);
    assert_eq!(
        lines[0].instruction,
        Some(Instruction::XorReg(Register::R6, Register::R7))
    );
    assert_eq!(lines[0].label, None);
}

#[test]
fn mod_test_parse_cmp_reg_reg() {
    let source = "cmp r0, r1\n";
    let result = parse_test_source(source);
    assert!(result.is_ok());
    let lines = result.unwrap();
    assert_eq!(lines.len(), 1);
    assert_eq!(
        lines[0].instruction,
        Some(Instruction::CmpReg(Register::R0, Register::R1))
    );
    assert_eq!(lines[0].label, None);
}

#[test]
fn mod_test_parse_adc_reg_reg() {
    let source = "adc r2, r3\n";
    let result = parse_test_source(source);
    assert!(result.is_ok());
    let lines = result.unwrap();
    assert_eq!(lines.len(), 1);
    assert_eq!(
        lines[0].instruction,
        Some(Instruction::AdcReg(Register::R2, Register::R3))
    );
    assert_eq!(lines[0].label, None);
}

#[test]
fn mod_test_parse_sbc_reg_reg() {
    let source = "sbc r4, r5\n";
    let result = parse_test_source(source);
    assert!(result.is_ok());
    let lines = result.unwrap();
    assert_eq!(lines.len(), 1);
    assert_eq!(
        lines[0].instruction,
        Some(Instruction::SbcReg(Register::R4, Register::R5))
    );
    assert_eq!(lines[0].label, None);
}

#[test]
fn test_parse_and_acc() {
    let source = "and r1\n";
    let result = parse_test_source(source);
    assert!(result.is_ok());
    let lines = result.unwrap();
    assert_eq!(lines.len(), 1);
    assert_eq!(
        lines[0].instruction,
        Some(Instruction::AndAcc(Register::R1))
    );
    assert_eq!(lines[0].label, None);
}

#[test]
fn mod_test_parse_add_b() {
    let source = "add.b r1\n";
    let result = parse_test_source(source);
    assert!(result.is_ok());
    let lines = result.unwrap();
    assert_eq!(lines.len(), 1);
    assert_eq!(
        lines[0].instruction,
        Some(Instruction::AddBAcc(Register::R1))
    );
}

#[test]
fn mod_test_parse_sub_b() {
    let source = "sub.b r2\n";
    let result = parse_test_source(source);
    assert!(result.is_ok());
    let lines = result.unwrap();
    assert_eq!(lines.len(), 1);
    assert_eq!(
        lines[0].instruction,
        Some(Instruction::SubBAcc(Register::R2))
    );
}

#[test]
fn mod_test_parse_and_b() {
    let source = "and.b r3\n";
    let result = parse_test_source(source);
    assert!(result.is_ok());
    let lines = result.unwrap();
    assert_eq!(lines.len(), 1);
    assert_eq!(
        lines[0].instruction,
        Some(Instruction::AndBAcc(Register::R3))
    );
}

#[test]
fn mod_test_parse_or_b() {
    let source = "or.b r4\n";
    let result = parse_test_source(source);
    assert!(result.is_ok());
    let lines = result.unwrap();
    assert_eq!(lines.len(), 1);
    assert_eq!(
        lines[0].instruction,
        Some(Instruction::OrBAcc(Register::R4))
    );
}

#[test]
fn mod_test_parse_xor_b() {
    let source = "xor.b r5\n";
    let result = parse_test_source(source);
    assert!(result.is_ok());
    let lines = result.unwrap();
    assert_eq!(lines.len(), 1);
    assert_eq!(
        lines[0].instruction,
        Some(Instruction::XorBAcc(Register::R5))
    );
}

#[test]
fn mod_test_parse_cmp_b() {
    let source = "cmp.b r6\n";
    let result = parse_test_source(source);
    assert!(result.is_ok());
    let lines = result.unwrap();
    assert_eq!(lines.len(), 1);
    assert_eq!(
        lines[0].instruction,
        Some(Instruction::CmpBAcc(Register::R6))
    );
}

#[test]
fn mod_test_parse_ldi_b() {
    let source = "ldi.b r1, 0xAB\n";
    let result = parse_test_source(source);
    assert!(result.is_ok());
    let lines = result.unwrap();
    assert_eq!(lines.len(), 1);
    assert_eq!(
        lines[0].instruction,
        Some(Instruction::LdiB(Register::R1, Operand::Immediate(0xAB)))
    );
}

#[test]
fn mod_test_parse_ld_indexed() {
    let source = "ld r0, (r1, 16)\n";
    let result = parse_test_source(source);
    assert!(result.is_ok());
    let lines = result.unwrap();
    assert_eq!(lines.len(), 1);
    assert_eq!(
        lines[0].instruction,
        Some(Instruction::LdIndexed(
            Register::R0,
            Register::R1,
            Operand::Immediate(16)
        ))
    );
}

#[test]
fn mod_test_parse_st_indexed() {
    let source = "st (r2, -1), r3\n";
    let result = parse_test_source(source);
    assert!(result.is_ok());
    let lines = result.unwrap();
    assert_eq!(lines.len(), 1);
    assert_eq!(
        lines[0].instruction,
        Some(Instruction::StIndexed(
            Register::R2,
            Operand::Immediate(-1),
            Register::R3
        ))
    );
}

#[test]
fn mod_test_parse_lea_indexed() {
    let source = "lea r4, (r5, 32)\n";
    let result = parse_test_source(source);
    assert!(result.is_ok());
    let lines = result.unwrap();
    assert_eq!(lines.len(), 1);
    assert_eq!(
        lines[0].instruction,
        Some(Instruction::Lea(
            Register::R4,
            Register::R5,
            Operand::Immediate(32)
        ))
    );
}

#[test]
fn mod_test_parse_ld_post_increment() {
    let source = "ld r6, (r7)+\n";
    let result = parse_test_source(source);
    assert!(result.is_ok());
    let lines = result.unwrap();
    assert_eq!(lines.len(), 1);
    assert_eq!(
        lines[0].instruction,
        Some(Instruction::LdPostInc(Register::R6, Register::R7))
    );
}

#[test]
fn mod_test_parse_st_post_increment() {
    let source = "st (r0)+, r1\n";
    let result = parse_test_source(source);
    assert!(result.is_ok());
    let lines = result.unwrap();
    assert_eq!(lines.len(), 1);
    assert_eq!(
        lines[0].instruction,
        Some(Instruction::StPostInc(Register::R0, Register::R1))
    );
}

#[test]
fn mod_test_parse_ld_pre_decrement() {
    let source = "ld r2, -(r3)\n";
    let result = parse_test_source(source);
    assert!(result.is_ok());
    let lines = result.unwrap();
    assert_eq!(lines.len(), 1);
    assert_eq!(
        lines[0].instruction,
        Some(Instruction::LdPreDec(Register::R2, Register::R3))
    );
}

#[test]
fn mod_test_parse_st_pre_decrement() {
    let source = "st -(r4), r5\n";
    let result = parse_test_source(source);
    assert!(result.is_ok());
    let lines = result.unwrap();
    assert_eq!(lines.len(), 1);
    assert_eq!(
        lines[0].instruction,
        Some(Instruction::StPreDec(Register::R4, Register::R5))
    );
}

#[test]
fn mod_test_parse_ld_b_post_increment() {
    let source = "ld.b r6, (r7)+\n";
    let result = parse_test_source(source);
    assert!(result.is_ok());
    let lines = result.unwrap();
    assert_eq!(lines.len(), 1);
    assert_eq!(
        lines[0].instruction,
        Some(Instruction::LdBPostInc(Register::R6, Register::R7))
    );
}

#[test]
fn mod_test_parse_st_b_post_increment() {
    let source = "st.b (r0)+, r1\n";
    let result = parse_test_source(source);
    assert!(result.is_ok());
    let lines = result.unwrap();
    assert_eq!(lines.len(), 1);
    assert_eq!(
        lines[0].instruction,
        Some(Instruction::StBPostInc(Register::R0, Register::R1))
    );
}

#[test]
fn mod_test_parse_ld_b_pre_decrement() {
    let source = "ld.b r2, -(r3)\n";
    let result = parse_test_source(source);
    assert!(result.is_ok());
    let lines = result.unwrap();
    assert_eq!(lines.len(), 1);
    assert_eq!(
        lines[0].instruction,
        Some(Instruction::LdBPreDec(Register::R2, Register::R3))
    );
}

#[test]
fn mod_test_parse_st_b_pre_decrement() {
    let source = "st.b -(r4), r5\n";
    let result = parse_test_source(source);
    assert!(result.is_ok());
    let lines = result.unwrap();
    assert_eq!(lines.len(), 1);
    assert_eq!(
        lines[0].instruction,
        Some(Instruction::StBPreDec(Register::R4, Register::R5))
    );
}

#[test]
fn mod_test_parse_bit_register() {
    let source = "bit r1, 7\n";
    let result = parse_test_source(source);
    assert!(result.is_ok());
    let lines = result.unwrap();
    assert_eq!(lines.len(), 1);
    assert_eq!(
        lines[0].instruction,
        Some(Instruction::BitReg(Register::R1, Operand::Immediate(7)))
    );
}

#[test]
fn mod_test_parse_set_absolute() {
    let source = "set (0x1234), 0\n";
    let result = parse_test_source(source);
    assert!(result.is_ok());
    let lines = result.unwrap();
    assert_eq!(lines.len(), 1);
    assert_eq!(
        lines[0].instruction,
        Some(Instruction::SetAbs(
            Operand::Immediate(0x1234),
            Operand::Immediate(0)
        ))
    );
}

#[test]
fn mod_test_parse_res_indirect() {
    let source = "res (r2), 3\n";
    let result = parse_test_source(source);
    assert!(result.is_ok());
    let lines = result.unwrap();
    assert_eq!(lines.len(), 1);
    assert_eq!(
        lines[0].instruction,
        Some(Instruction::ResIndirect(
            Register::R2,
            Operand::Immediate(3)
        ))
    );
}

#[test]
fn test_parse_org_directive_hex() {
    let source = ".org 0x3000\n";
    let result = parse_test_source(source);
    assert!(result.is_ok());
    let lines = result.unwrap();
    assert_eq!(lines.len(), 1);
    assert_eq!(
        lines[0].directive,
        Some(Directive::Org(Operand::Immediate(0x3000)))
    );
}

#[test]
fn test_parse_org_directive_dec() {
    let source = ".org 500\n";
    let result = parse_test_source(source);
    assert!(result.is_ok());
    let lines = result.unwrap();
    assert_eq!(lines.len(), 1);
    assert_eq!(
        lines[0].directive,
        Some(Directive::Org(Operand::Immediate(500)))
    );
}

#[test]
fn test_parse_bank_directive_hex() {
    let source = ".bank 0x3\n";
    let result = parse_test_source(source);
    assert!(result.is_ok());
    let lines = result.unwrap();
    assert_eq!(lines.len(), 1);
    assert_eq!(
        lines[0].directive,
        Some(Directive::Bank(Operand::Immediate(0x3)))
    );
}

#[test]
fn test_parse_bank_directive_dec() {
    let source = ".bank 5\n";
    let result = parse_test_source(source);
    assert!(result.is_ok());
    let lines = result.unwrap();
    assert_eq!(lines.len(), 1);
    assert_eq!(
        lines[0].directive,
        Some(Directive::Bank(Operand::Immediate(5)))
    );
}

#[test]
fn test_parse_call_far() {
    let source = "CALL.far LABEL\n";
    let result = parse_test_source(source);
    assert!(result.is_ok());
    let lines = result.unwrap();
    assert_eq!(lines.len(), 1);
    assert_eq!(
        lines[0].instruction,
        Some(Instruction::CallFar("LABEL".to_string()))
    );
}

#[test]
fn test_parse_call_far_via() {
    let source = "CALL.far LABEL via TRAMP\n";
    let result = parse_test_source(source);
    assert!(result.is_ok());
    let lines = result.unwrap();
    assert_eq!(lines.len(), 1);
    assert_eq!(
        lines[0].instruction,
        Some(Instruction::CallFarVia(
            "LABEL".to_string(),
            "TRAMP".to_string()
        ))
    );
}

#[test]
fn test_parse_ld_b_abs_immediate() {
    let source = "ld.b r0, (0xC000)\n";
    let result = parse_test_source(source);
    assert!(result.is_ok());
    let lines = result.unwrap();
    assert_eq!(lines.len(), 1);
    assert_eq!(
        lines[0].instruction,
        Some(Instruction::LdBAbs(
            Register::R0,
            Operand::Immediate(0xC000)
        ))
    );
}

#[test]
fn test_parse_st_b_abs_immediate() {
    let source = "st.b (0xF021), r3\n";
    let result = parse_test_source(source);
    assert!(result.is_ok());
    let lines = result.unwrap();
    assert_eq!(lines.len(), 1);
    assert_eq!(
        lines[0].instruction,
        Some(Instruction::StBAbs(
            Operand::Immediate(0xF021),
            Register::R3
        ))
    );
}

#[test]
fn test_parse_section_with_name() {
    let source = ".section name=\"test_section\"\nNOP\n.section_end\n";
    let result = parse_test_source(source);
    assert!(result.is_ok());
    let lines = result.unwrap();
    assert_eq!(lines.len(), 3);
    assert_eq!(
        lines[0].directive,
        Some(Directive::SectionStart(SectionOptions {
            name: Some("test_section".to_string()),
            size: None,
            vaddr: None,
            paddr: None,
            align: None,
        }))
    );
    assert_eq!(lines[1].instruction, Some(Instruction::Nop));
    assert_eq!(lines[2].directive, Some(Directive::SectionEnd));
}

#[test]
fn test_parse_section_with_size() {
    let source = ".section size=256\nNOP\n.section_end\n";
    let result = parse_test_source(source);
    assert!(result.is_ok());
    let lines = result.unwrap();
    assert_eq!(lines.len(), 3);
    assert_eq!(
        lines[0].directive,
        Some(Directive::SectionStart(SectionOptions {
            name: None,
            size: Some(256),
            vaddr: None,
            paddr: None,
            align: None,
        }))
    );
}

#[test]
fn test_parse_section_with_vaddr() {
    let source = ".section vaddr=0x4000\nNOP\n.section_end\n";
    let result = parse_test_source(source);
    assert!(result.is_ok());
    let lines = result.unwrap();
    assert_eq!(lines.len(), 3);
    assert_eq!(
        lines[0].directive,
        Some(Directive::SectionStart(SectionOptions {
            name: None,
            size: None,
            vaddr: Some(0x4000),
            paddr: None,
            align: None,
        }))
    );
}

#[test]
fn test_parse_section_with_paddr() {
    let source = ".section paddr=0x8000\nNOP\n.section_end\n";
    let result = parse_test_source(source);
    assert!(result.is_ok());
    let lines = result.unwrap();
    assert_eq!(lines.len(), 3);
    assert_eq!(
        lines[0].directive,
        Some(Directive::SectionStart(SectionOptions {
            name: None,
            size: None,
            vaddr: None,
            paddr: Some(0x8000),
            align: None,
        }))
    );
}

#[test]
fn test_parse_section_with_all_attributes() {
    let source = ".section name=\"full_section\" size=512 vaddr=0x4000 paddr=0x8000\nNOP\n.section_end\n";
    let result = parse_test_source(source);
    assert!(result.is_ok());
    let lines = result.unwrap();
    assert_eq!(lines.len(), 3);
    assert_eq!(
        lines[0].directive,
        Some(Directive::SectionStart(SectionOptions {
            name: Some("full_section".to_string()),
            size: Some(512),
            vaddr: Some(0x4000),
            paddr: Some(0x8000),
            align: None,
        }))
    );
}

#[test]
fn test_parse_section_empty() {
    let source = ".section\n.section_end\n";
    let result = parse_test_source(source);
    assert!(result.is_ok());
    let lines = result.unwrap();
    assert_eq!(lines.len(), 2);
    assert_eq!(
        lines[0].directive,
        Some(Directive::SectionStart(SectionOptions {
            name: None,
            size: None,
            vaddr: None,
            paddr: None,
            align: None,
        }))
    );
    assert_eq!(lines[1].directive, Some(Directive::SectionEnd));
}
