use cicasm::assembler::encoder::encode_instruction;
use cicasm::assembler::symbol_table::{Symbol, SymbolTable};
use cicasm::ast::{ConditionCode, Instruction, Operand, Register};
use cicasm::errors::AssemblyError;

#[test]
fn mod_test_encode_instruction_nop() {
    let instruction = Instruction::Nop;
    let symbol_table = SymbolTable::new();
    assert_eq!(
        encode_instruction(&instruction, &symbol_table, &0, &0, &0).unwrap(),
        vec![0x00]
    );
}

#[test]
fn test_encode_instruction_sub_acc() {
    let instruction = Instruction::SubAcc(Register::R1);
    let symbol_table = SymbolTable::new();
    assert_eq!(
        encode_instruction(&instruction, &symbol_table, &0, &0, &0).unwrap(),
        vec![0x21]
    );
}

#[test]
fn mod_test_encode_instruction_and_reg_reg() {
    let instruction = Instruction::AndReg(Register::R2, Register::R3);
    let symbol_table = SymbolTable::new();
    assert_eq!(
        encode_instruction(&instruction, &symbol_table, &0, &0, &0).unwrap(),
        vec![0x12, (2 << 3) | 3]
    );
}

#[test]
fn mod_test_encode_instruction_or_reg_reg() {
    let instruction = Instruction::OrReg(Register::R4, Register::R5);
    let symbol_table = SymbolTable::new();
    assert_eq!(
        encode_instruction(&instruction, &symbol_table, &0, &0, &0).unwrap(),
        vec![0x13, (4 << 3) | 5]
    );
}

#[test]
fn mod_test_encode_instruction_xor_reg_reg() {
    let instruction = Instruction::XorReg(Register::R6, Register::R7);
    let symbol_table = SymbolTable::new();
    assert_eq!(
        encode_instruction(&instruction, &symbol_table, &0, &0, &0).unwrap(),
        vec![0x14, (6 << 3) | 7]
    );
}

#[test]
fn mod_test_encode_instruction_cmp_reg_reg() {
    let instruction = Instruction::CmpReg(Register::R0, Register::R1);
    let symbol_table = SymbolTable::new();
    assert_eq!(
        encode_instruction(&instruction, &symbol_table, &0, &0, &0).unwrap(),
        vec![0x15, (0 << 3) | 1]
    );
}

#[test]
fn mod_test_encode_instruction_adc_reg_reg() {
    let instruction = Instruction::AdcReg(Register::R2, Register::R3);
    let symbol_table = SymbolTable::new();
    assert_eq!(
        encode_instruction(&instruction, &symbol_table, &0, &0, &0).unwrap(),
        vec![0x16, (2 << 3) | 3]
    );
}

#[test]
fn mod_test_encode_instruction_sbc_reg_reg() {
    let instruction = Instruction::SbcReg(Register::R4, Register::R5);
    let symbol_table = SymbolTable::new();
    assert_eq!(
        encode_instruction(&instruction, &symbol_table, &0, &0, &0).unwrap(),
        vec![0x17, (4 << 3) | 5]
    );
}

#[test]
fn test_encode_instruction_and_acc() {
    let instruction = Instruction::AndAcc(Register::R1);
    let symbol_table = SymbolTable::new();
    assert_eq!(
        encode_instruction(&instruction, &symbol_table, &0, &0, &0).unwrap(),
        vec![0x29]
    );
}

#[test]
fn test_encode_instruction_or_acc() {
    let instruction = Instruction::OrAcc(Register::R2);
    let symbol_table = SymbolTable::new();
    assert_eq!(
        encode_instruction(&instruction, &symbol_table, &0, &0, &0).unwrap(),
        vec![0x32]
    );
}

#[test]
fn test_encode_instruction_xor_acc() {
    let instruction = Instruction::XorAcc(Register::R3);
    let symbol_table = SymbolTable::new();
    assert_eq!(
        encode_instruction(&instruction, &symbol_table, &0, &0, &0).unwrap(),
        vec![0x3B]
    );
}

#[test]
fn test_encode_instruction_cmp_acc() {
    let instruction = Instruction::CmpAcc(Register::R4);
    let symbol_table = SymbolTable::new();
    assert_eq!(
        encode_instruction(&instruction, &symbol_table, &0, &0, &0).unwrap(),
        vec![0x44]
    );
}

#[test]
fn mod_test_encode_instruction_add_acc_immediate() {
    let instruction = Instruction::AddAccI(Operand::Immediate(0x1234));
    let symbol_table = SymbolTable::new();
    assert_eq!(
        encode_instruction(&instruction, &symbol_table, &0, &0, &0).unwrap(),
        vec![0xC0, 0x34, 0x12]
    );
}

#[test]
fn mod_test_encode_instruction_add_acc_label() {
    let instruction = Instruction::AddAccI(Operand::Label("TARGET".into()));
    let mut symbol_table = SymbolTable::new();
    symbol_table.insert(
        "TARGET".to_string(),
        Symbol {
            logical_address: 0x2468,
            bank: 0,
        },
    );
    assert_eq!(
        encode_instruction(&instruction, &symbol_table, &0, &0, &0).unwrap(),
        vec![0xC0, 0x68, 0x24]
    );
}

#[test]
fn mod_test_encode_instruction_sub_acc_immediate() {
    let instruction = Instruction::SubAccI(Operand::Immediate(0x00FF));
    let symbol_table = SymbolTable::new();
    assert_eq!(
        encode_instruction(&instruction, &symbol_table, &0, &0, &0).unwrap(),
        vec![0xC1, 0xFF, 0x00]
    );
}

#[test]
fn mod_test_encode_instruction_and_acc_immediate() {
    let instruction = Instruction::AndAccI(Operand::Immediate(0x0F0F));
    let symbol_table = SymbolTable::new();
    assert_eq!(
        encode_instruction(&instruction, &symbol_table, &0, &0, &0).unwrap(),
        vec![0xC2, 0x0F, 0x0F]
    );
}

#[test]
fn mod_test_encode_instruction_or_acc_immediate() {
    let instruction = Instruction::OrAccI(Operand::Immediate(0x8000));
    let symbol_table = SymbolTable::new();
    assert_eq!(
        encode_instruction(&instruction, &symbol_table, &0, &0, &0).unwrap(),
        vec![0xC3, 0x00, 0x80]
    );
}

#[test]
fn mod_test_encode_instruction_xor_acc_immediate() {
    let instruction = Instruction::XorAccI(Operand::Immediate(0xAAAA));
    let symbol_table = SymbolTable::new();
    assert_eq!(
        encode_instruction(&instruction, &symbol_table, &0, &0, &0).unwrap(),
        vec![0xC4, 0xAA, 0xAA]
    );
}

#[test]
fn mod_test_encode_instruction_cmp_acc_immediate() {
    let instruction = Instruction::CmpAccI(Operand::Immediate(0x0A0B));
    let symbol_table = SymbolTable::new();
    assert_eq!(
        encode_instruction(&instruction, &symbol_table, &0, &0, &0).unwrap(),
        vec![0xC5, 0x0B, 0x0A]
    );
}

#[test]
fn mod_test_encode_instruction_adci_acc_immediate() {
    let instruction = Instruction::AdcAccI(Operand::Immediate(0xFFFF));
    let symbol_table = SymbolTable::new();
    assert_eq!(
        encode_instruction(&instruction, &symbol_table, &0, &0, &0).unwrap(),
        vec![0xC6, 0xFF, 0xFF]
    );
}

#[test]
fn mod_test_encode_instruction_sbci_acc_immediate() {
    let instruction = Instruction::SbcAccI(Operand::Immediate(0x1234));
    let symbol_table = SymbolTable::new();
    assert_eq!(
        encode_instruction(&instruction, &symbol_table, &0, &0, &0).unwrap(),
        vec![0xC7, 0x34, 0x12]
    );
}

#[test]
fn mod_test_encode_instruction_add_sp() {
    let instruction = Instruction::AddSp(Operand::Immediate(-5));
    let symbol_table = SymbolTable::new();
    assert_eq!(
        encode_instruction(&instruction, &symbol_table, &0, &0, &0).unwrap(),
        vec![0x6C, 0xFB]
    );
}

#[test]
fn mod_test_encode_instruction_push_reg() {
    let instruction = Instruction::Push(Register::R2);
    let symbol_table = SymbolTable::new();
    assert_eq!(
        encode_instruction(&instruction, &symbol_table, &0, &0, &0).unwrap(),
        vec![0x6F]
    );
}

#[test]
fn mod_test_encode_instruction_push_immediate() {
    let instruction = Instruction::PushI(Operand::Immediate(0x1234));
    let symbol_table = SymbolTable::new();
    assert_eq!(
        encode_instruction(&instruction, &symbol_table, &0, &0, &0).unwrap(),
        vec![0x7D, 0x34, 0x12]
    );
}

#[test]
fn mod_test_encode_instruction_push_label() {
    let instruction = Instruction::PushI(Operand::Label("TARGET".into()));
    let mut symbol_table = SymbolTable::new();
    symbol_table.insert(
        "TARGET".to_string(),
        Symbol {
            logical_address: 0x1357,
            bank: 0,
        },
    );
    assert_eq!(
        encode_instruction(&instruction, &symbol_table, &0, &0, &0).unwrap(),
        vec![0x7D, 0x57, 0x13]
    );
}

#[test]
fn mod_test_encode_instruction_push_f() {
    let instruction = Instruction::PushF;
    let symbol_table = SymbolTable::new();
    assert_eq!(
        encode_instruction(&instruction, &symbol_table, &0, &0, &0).unwrap(),
        vec![0x7E]
    );
}

#[test]
fn mod_test_encode_instruction_pop_reg() {
    let instruction = Instruction::Pop(Register::R3);
    let symbol_table = SymbolTable::new();
    assert_eq!(
        encode_instruction(&instruction, &symbol_table, &0, &0, &0).unwrap(),
        vec![0x78]
    );
}

#[test]
fn mod_test_encode_instruction_pop_f() {
    let instruction = Instruction::PopF;
    let symbol_table = SymbolTable::new();
    assert_eq!(
        encode_instruction(&instruction, &symbol_table, &0, &0, &0).unwrap(),
        vec![0x7F]
    );
}

#[test]
fn mod_test_encode_instruction_neg() {
    let instruction = Instruction::NegAcc;
    let symbol_table = SymbolTable::new();
    assert_eq!(
        encode_instruction(&instruction, &symbol_table, &0, &0, &0).unwrap(),
        vec![0x48]
    );
}

#[test]
fn mod_test_encode_instruction_not() {
    let instruction = Instruction::NotAcc;
    let symbol_table = SymbolTable::new();
    assert_eq!(
        encode_instruction(&instruction, &symbol_table, &0, &0, &0).unwrap(),
        vec![0x49]
    );
}

#[test]
fn mod_test_encode_instruction_swap() {
    let instruction = Instruction::SwapAcc;
    let symbol_table = SymbolTable::new();
    assert_eq!(
        encode_instruction(&instruction, &symbol_table, &0, &0, &0).unwrap(),
        vec![0x4A]
    );
}

#[test]
fn mod_test_encode_instruction_ccf() {
    let instruction = Instruction::Ccf;
    let symbol_table = SymbolTable::new();
    assert_eq!(
        encode_instruction(&instruction, &symbol_table, &0, &0, &0).unwrap(),
        vec![0x4B]
    );
}

#[test]
fn mod_test_encode_instruction_scf() {
    let instruction = Instruction::Scf;
    let symbol_table = SymbolTable::new();
    assert_eq!(
        encode_instruction(&instruction, &symbol_table, &0, &0, &0).unwrap(),
        vec![0x4C]
    );
}

#[test]
fn mod_test_encode_instruction_rcf() {
    let instruction = Instruction::Rcf;
    let symbol_table = SymbolTable::new();
    assert_eq!(
        encode_instruction(&instruction, &symbol_table, &0, &0, &0).unwrap(),
        vec![0x4D]
    );
}

#[test]
fn mod_test_encode_instruction_enter() {
    let instruction = Instruction::Enter;
    let symbol_table = SymbolTable::new();
    assert_eq!(
        encode_instruction(&instruction, &symbol_table, &0, &0, &0).unwrap(),
        vec![0x4F]
    );
}

#[test]
fn mod_test_encode_instruction_leave() {
    let instruction = Instruction::Leave;
    let symbol_table = SymbolTable::new();
    assert_eq!(
        encode_instruction(&instruction, &symbol_table, &0, &0, &0).unwrap(),
        vec![0x50]
    );
}

#[test]
fn mod_test_encode_instruction_ret() {
    let instruction = Instruction::Ret;
    let symbol_table = SymbolTable::new();
    assert_eq!(
        encode_instruction(&instruction, &symbol_table, &0, &0, &0).unwrap(),
        vec![0xF9]
    );
}

#[test]
fn mod_test_encode_instruction_reti() {
    let instruction = Instruction::Reti;
    let symbol_table = SymbolTable::new();
    assert_eq!(
        encode_instruction(&instruction, &symbol_table, &0, &0, &0).unwrap(),
        vec![0xFA]
    );
}

#[test]
fn mod_test_encode_instruction_ei() {
    let instruction = Instruction::Ei;
    let symbol_table = SymbolTable::new();
    assert_eq!(
        encode_instruction(&instruction, &symbol_table, &0, &0, &0).unwrap(),
        vec![0xFB]
    );
}

#[test]
fn mod_test_encode_instruction_di() {
    let instruction = Instruction::Di;
    let symbol_table = SymbolTable::new();
    assert_eq!(
        encode_instruction(&instruction, &symbol_table, &0, &0, &0).unwrap(),
        vec![0xFC]
    );
}

#[test]
fn mod_test_encode_instruction_inc() {
    let instruction = Instruction::Inc(Register::R1);
    let symbol_table = SymbolTable::new();
    assert_eq!(
        encode_instruction(&instruction, &symbol_table, &0, &0, &0).unwrap(),
        vec![0xE2]
    );
}

#[test]
fn mod_test_encode_instruction_dec() {
    let instruction = Instruction::Dec(Register::R2);
    let symbol_table = SymbolTable::new();
    assert_eq!(
        encode_instruction(&instruction, &symbol_table, &0, &0, &0).unwrap(),
        vec![0xDB]
    );
}

#[test]
fn mod_test_encode_instruction_call_immediate() {
    let instruction = Instruction::CallI(Operand::Immediate(0x1234));
    let symbol_table = SymbolTable::new();
    assert_eq!(
        encode_instruction(&instruction, &symbol_table, &0, &0, &0).unwrap(),
        vec![0xC8, 0x34, 0x12]
    );
}

#[test]
fn mod_test_encode_instruction_call_label() {
    let instruction = Instruction::CallI(Operand::Label("test_label".to_string()));
    let mut symbol_table = SymbolTable::new();
    symbol_table.insert(
        "test_label".to_string(),
        Symbol {
            logical_address: 0x4321,
            bank: 1,
        },
    );
    assert_eq!(
        encode_instruction(&instruction, &symbol_table, &0x4100, &1, &0).unwrap(),
        vec![0xC8, 0x21, 0x43]
    );
}

#[test]
fn mod_test_encode_instruction_call_indirect() {
    let instruction = Instruction::CallIndirect(Register::R4);
    let symbol_table = SymbolTable::new();
    assert_eq!(
        encode_instruction(&instruction, &symbol_table, &0, &0, &0).unwrap(),
        vec![0xCD] // 0xC9 + 4
    );
}

#[test]
fn mod_test_encode_instruction_callcc_immediate() {
    let instruction = Instruction::CallccI(ConditionCode::C, Operand::Immediate(0x1122));
    let symbol_table = SymbolTable::new();
    assert_eq!(
        encode_instruction(&instruction, &symbol_table, &0, &0, &0).unwrap(),
        vec![0xD5, 0x22, 0x11] // 0xD1 + 4
    );
}

#[test]
fn mod_test_encode_instruction_callcc_label() {
    let instruction =
        Instruction::CallccI(ConditionCode::Nz, Operand::Label("test_label".to_string()));
    let mut symbol_table = SymbolTable::new();
    symbol_table.insert(
        "test_label".to_string(),
        Symbol {
            logical_address: 0x4321,
            bank: 1,
        },
    );
    assert_eq!(
        encode_instruction(&instruction, &symbol_table, &0x4100, &1, &0).unwrap(),
        vec![0xD8, 0x21, 0x43] // 0xD1 + 7
    );
}

#[test]
fn mod_test_encode_instruction_syscall() {
    let instruction = Instruction::Syscall(Operand::Immediate(0x1A));
    let symbol_table = SymbolTable::new();
    assert_eq!(
        encode_instruction(&instruction, &symbol_table, &0, &0, &0).unwrap(),
        vec![0x4E, 0x1A]
    );
}

#[test]
fn mod_test_encode_instruction_ld_absolute() {
    let instruction = Instruction::LdAbs(Register::R1, Operand::AbsAddr(0x1234));
    let symbol_table = SymbolTable::new();
    assert_eq!(
        encode_instruction(&instruction, &symbol_table, &0, &0, &0).unwrap(),
        vec![0xEA, 0x34, 0x12] // 0xE9 + 1
    );
}

#[test]
fn mod_test_encode_instruction_st_absolute() {
    let instruction = Instruction::StAbs(Operand::AbsAddr(0x4321), Register::R2);
    let symbol_table = SymbolTable::new();
    assert_eq!(
        encode_instruction(&instruction, &symbol_table, &0, &0, &0).unwrap(),
        vec![0xF3, 0x21, 0x43] // 0xF1 + 2
    );
}

#[test]
fn mod_test_encode_instruction_st_indirect() {
    let instruction = Instruction::StIndirect(Register::R1, Register::R2);
    let symbol_table = SymbolTable::new();
    assert_eq!(
        encode_instruction(&instruction, &symbol_table, &0, &0, &0).unwrap(),
        vec![0xFE, 0x4A] // 0x40 | (1 << 3) | 2
    );
}

#[test]
fn mod_test_encode_sra() {
    let instruction = Instruction::Sra(Register::R0);
    let symbol_table = SymbolTable::new();
    assert_eq!(
        encode_instruction(&instruction, &symbol_table, &0, &0, &0).unwrap(),
        vec![0xFD, 0x00]
    );
}

#[test]
fn mod_test_encode_shl() {
    let instruction = Instruction::Shl(Register::R1);
    let symbol_table = SymbolTable::new();
    assert_eq!(
        encode_instruction(&instruction, &symbol_table, &0, &0, &0).unwrap(),
        vec![0xFD, 0x09]
    );
}

#[test]
fn mod_test_encode_shr() {
    let instruction = Instruction::Shr(Register::R2);
    let symbol_table = SymbolTable::new();
    assert_eq!(
        encode_instruction(&instruction, &symbol_table, &0, &0, &0).unwrap(),
        vec![0xFD, 0x12]
    );
}

#[test]
fn mod_test_encode_rol() {
    let instruction = Instruction::Rol(Register::R3);
    let symbol_table = SymbolTable::new();
    assert_eq!(
        encode_instruction(&instruction, &symbol_table, &0, &0, &0).unwrap(),
        vec![0xFD, 0x1B]
    );
}

#[test]
fn mod_test_encode_ror() {
    let instruction = Instruction::Ror(Register::R4);
    let symbol_table = SymbolTable::new();
    assert_eq!(
        encode_instruction(&instruction, &symbol_table, &0, &0, &0).unwrap(),
        vec![0xFD, 0x24]
    );
}

#[test]
fn mod_test_encode_instruction_add_b() {
    let instruction = Instruction::AddBAcc(Register::R1);
    let symbol_table = SymbolTable::new();
    assert_eq!(
        encode_instruction(&instruction, &symbol_table, &0, &0, &0).unwrap(),
        vec![0xFD, 0x29] // 0x28 + 1
    );
}

#[test]
fn mod_test_encode_instruction_sub_b() {
    let instruction = Instruction::SubBAcc(Register::R2);
    let symbol_table = SymbolTable::new();
    assert_eq!(
        encode_instruction(&instruction, &symbol_table, &0, &0, &0).unwrap(),
        vec![0xFD, 0x32] // 0x30 + 2
    );
}

#[test]
fn mod_test_encode_instruction_and_b() {
    let instruction = Instruction::AndBAcc(Register::R3);
    let symbol_table = SymbolTable::new();
    assert_eq!(
        encode_instruction(&instruction, &symbol_table, &0, &0, &0).unwrap(),
        vec![0xFD, 0x3B] // 0x38 + 3
    );
}

#[test]
fn mod_test_encode_instruction_or_b() {
    let instruction = Instruction::OrBAcc(Register::R4);
    let symbol_table = SymbolTable::new();
    assert_eq!(
        encode_instruction(&instruction, &symbol_table, &0, &0, &0).unwrap(),
        vec![0xFD, 0x44] // 0x40 + 4
    );
}

#[test]
fn mod_test_encode_instruction_xor_b() {
    let instruction = Instruction::XorBAcc(Register::R5);
    let symbol_table = SymbolTable::new();
    assert_eq!(
        encode_instruction(&instruction, &symbol_table, &0, &0, &0).unwrap(),
        vec![0xFD, 0x4D] // 0x48 + 5
    );
}

#[test]
fn mod_test_encode_instruction_cmp_b() {
    let instruction = Instruction::CmpBAcc(Register::R6);
    let symbol_table = SymbolTable::new();
    assert_eq!(
        encode_instruction(&instruction, &symbol_table, &0, &0, &0).unwrap(),
        vec![0xFD, 0x56] // 0x50 + 6
    );
}

#[test]
fn mod_test_encode_instruction_ldi_b() {
    let instruction = Instruction::LdiB(Register::R1, Operand::Immediate(0xAB));
    let symbol_table = SymbolTable::new();
    assert_eq!(
        encode_instruction(&instruction, &symbol_table, &0, &0, &0).unwrap(),
        vec![0xFD, 0xA1, 0xAB] // 0xA0 + 1
    );
}

#[test]
fn mod_test_encode_instruction_bit_register() {
    let instruction = Instruction::BitReg(Register::R1, Operand::Immediate(7));
    let symbol_table = SymbolTable::new();
    assert_eq!(
        encode_instruction(&instruction, &symbol_table, &0, &0, &0).unwrap(),
        vec![0xFD, 0x5F, 1]
    );
}

#[test]
fn mod_test_encode_instruction_set_absolute() {
    let instruction = Instruction::SetAbs(Operand::AbsAddr(0x1234), Operand::Immediate(0));
    let symbol_table = SymbolTable::new();
    assert_eq!(
        encode_instruction(&instruction, &symbol_table, &0, &0, &0).unwrap(),
        vec![0xFD, 0x78, 0x34, 0x12]
    );
}

#[test]
fn mod_test_encode_instruction_res_indirect() {
    let instruction = Instruction::ResIndirect(Register::R2, Operand::Immediate(3));
    let symbol_table = SymbolTable::new();
    assert_eq!(
        encode_instruction(&instruction, &symbol_table, &0, &0, &0).unwrap(),
        vec![0xFD, 0x9B, 2]
    );
}

#[test]
fn mod_test_encode_instruction_ld_indexed() {
    let instruction = Instruction::LdIndexed(Register::R0, Register::R1, Operand::Immediate(16));
    let symbol_table = SymbolTable::new();
    assert_eq!(
        encode_instruction(&instruction, &symbol_table, &0, &0, &0).unwrap(),
        vec![0xFF, 0x01, 16]
    );
}

#[test]
fn mod_test_encode_instruction_st_indexed() {
    let instruction = Instruction::StIndexed(Register::R2, Operand::Immediate(-1), Register::R3);
    let symbol_table = SymbolTable::new();
    assert_eq!(
        encode_instruction(&instruction, &symbol_table, &0, &0, &0).unwrap(),
        vec![0xFF, 0x53, 255]
    );
}

#[test]
fn mod_test_encode_instruction_lea_indexed() {
    let instruction = Instruction::Lea(Register::R4, Register::R5, Operand::Immediate(32));
    let symbol_table = SymbolTable::new();
    assert_eq!(
        encode_instruction(&instruction, &symbol_table, &0, &0, &0).unwrap(),
        vec![0xFF, 0xA5, 32]
    );
}

#[test]
fn mod_test_encode_instruction_ld_post_increment() {
    let instruction = Instruction::LdPostInc(Register::R6, Register::R7);
    let symbol_table = SymbolTable::new();
    assert_eq!(
        encode_instruction(&instruction, &symbol_table, &0, &0, &0).unwrap(),
        vec![0xFF, 0xC7, 6]
    );
}

#[test]
fn mod_test_encode_instruction_st_post_increment() {
    let instruction = Instruction::StPostInc(Register::R0, Register::R1);
    let symbol_table = SymbolTable::new();
    assert_eq!(
        encode_instruction(&instruction, &symbol_table, &0, &0, &0).unwrap(),
        vec![0xFF, 0xC9, 0]
    );
}

#[test]
fn mod_test_encode_instruction_ld_pre_decrement() {
    let instruction = Instruction::LdPreDec(Register::R2, Register::R3);
    let symbol_table = SymbolTable::new();
    assert_eq!(
        encode_instruction(&instruction, &symbol_table, &0, &0, &0).unwrap(),
        vec![0xFF, 0xD3, 2]
    );
}

#[test]
fn mod_test_encode_instruction_st_pre_decrement() {
    let instruction = Instruction::StPreDec(Register::R4, Register::R5);
    let symbol_table = SymbolTable::new();
    assert_eq!(
        encode_instruction(&instruction, &symbol_table, &0, &0, &0).unwrap(),
        vec![0xFF, 0xDD, 4]
    );
}

#[test]
fn mod_test_encode_instruction_ld_b_post_increment() {
    let instruction = Instruction::LdBPostInc(Register::R6, Register::R7);
    let symbol_table = SymbolTable::new();
    assert_eq!(
        encode_instruction(&instruction, &symbol_table, &0, &0, &0).unwrap(),
        vec![0xFF, 0xE7, 6]
    );
}

#[test]
fn mod_test_encode_instruction_st_b_post_increment() {
    let instruction = Instruction::StBPostInc(Register::R0, Register::R1);
    let symbol_table = SymbolTable::new();
    assert_eq!(
        encode_instruction(&instruction, &symbol_table, &0, &0, &0).unwrap(),
        vec![0xFF, 0xE9, 0]
    );
}

#[test]
fn mod_test_encode_instruction_ld_b_pre_decrement() {
    let instruction = Instruction::LdBPreDec(Register::R2, Register::R3);
    let symbol_table = SymbolTable::new();
    assert_eq!(
        encode_instruction(&instruction, &symbol_table, &0, &0, &0).unwrap(),
        vec![0xFF, 0xF3, 2]
    );
}

#[test]
fn mod_test_encode_instruction_st_b_pre_decrement() {
    let instruction = Instruction::StBPreDec(Register::R4, Register::R5);
    let symbol_table = SymbolTable::new();
    assert_eq!(
        encode_instruction(&instruction, &symbol_table, &0, &0, &0).unwrap(),
        vec![0xFF, 0xFD, 4]
    );
}

#[test]
fn mod_test_encode_instruction_call_far() {
    let instruction = Instruction::CallFar("test_label".to_string());
    let mut symbol_table = SymbolTable::new();
    symbol_table.insert(
        "test_label".to_string(),
        Symbol {
            logical_address: 0x4321,
            bank: 1,
        },
    );
    assert_eq!(
        encode_instruction(&instruction, &symbol_table, &0x1100, &0, &0).unwrap(),
        vec![0x05, 0x01, 0x00, 0x06, 0x21, 0x43, 0x4E, 0x21]
    );
}

#[test]
fn mod_test_encode_instruction_call_far_bank_0_fail() {
    let instruction = Instruction::CallFar("test_label".to_string());
    let mut symbol_table = SymbolTable::new();
    symbol_table.insert(
        "test_label".to_string(),
        Symbol {
            logical_address: 0x2100,
            bank: 0,
        },
    );
    let result = encode_instruction(&instruction, &symbol_table, &0x5432, &1, &1);
    assert!(result.is_err_and(|e| {
        e == AssemblyError::SemanticError {
            line: 1,
            reason:
                "Label \"test_label\" exists in bank 0, use a normal CALL instruction instead."
                    .to_string(),
        }
    }));
}

#[test]
fn mod_test_encode_instruction_call_far_same_bank_fail() {
    let instruction = Instruction::CallFar("test_label".to_string());
    let mut symbol_table = SymbolTable::new();
    symbol_table.insert(
        "test_label".to_string(),
        Symbol {
            logical_address: 0x4321,
            bank: 1,
        },
    );
    let result = encode_instruction(&instruction, &symbol_table, &0x5432, &1, &1);
    assert!(result.is_err_and(|e| {
        e == AssemblyError::SemanticError {
            line: 1,
            reason:
                "Label \"test_label\" exists in the same bank as the CALL.far instruction, use a normal CALL instruction instead."
                    .to_string(),
        }
    }));
}

#[test]
fn mod_test_encode_instruction_call_far_via() {
    let instruction = Instruction::CallFarVia("test_label".to_string(), "tramp".to_string());
    let mut symbol_table = SymbolTable::new();
    symbol_table.insert(
        "test_label".to_string(),
        Symbol {
            logical_address: 0x4321,
            bank: 1,
        },
    );
    symbol_table.insert(
        "tramp".to_string(),
        Symbol {
            logical_address: 0x0200,
            bank: 0,
        },
    );
    assert_eq!(
        encode_instruction(&instruction, &symbol_table, &0x1100, &0, &0).unwrap(),
        vec![0x05, 0x01, 0x00, 0x06, 0x21, 0x43, 0xC8, 0x00, 0x02]
    );
}

#[test]
fn mod_test_encode_instruction_call_far_via_bank_0_fail() {
    let instruction = Instruction::CallFarVia("test_label".to_string(), "tramp".to_string());
    let mut symbol_table = SymbolTable::new();
    symbol_table.insert(
        "test_label".to_string(),
        Symbol {
            logical_address: 0x2100,
            bank: 0,
        },
    );
    symbol_table.insert(
        "tramp".to_string(),
        Symbol {
            logical_address: 0x0200,
            bank: 0,
        },
    );
    let result = encode_instruction(&instruction, &symbol_table, &0x5432, &1, &1);
    assert!(result.is_err_and(|e| {
        e == AssemblyError::SemanticError {
            line: 1,
            reason:
                "Label \"test_label\" exists in bank 0, use a normal CALL instruction instead."
                    .to_string(),
        }
    }));
}

#[test]
fn mod_test_encode_instruction_call_far_via_same_bank_fail() {
    let instruction = Instruction::CallFarVia("test_label".to_string(), "tramp".to_string());
    let mut symbol_table = SymbolTable::new();
    symbol_table.insert(
        "test_label".to_string(),
        Symbol {
            logical_address: 0x4321,
            bank: 1,
        },
    );
    symbol_table.insert(
        "tramp".to_string(),
        Symbol {
            logical_address: 0x0200,
            bank: 0,
        },
    );
    let result = encode_instruction(&instruction, &symbol_table, &0x5432, &1, &1);
    assert!(result.is_err_and(|e| {
        e == AssemblyError::SemanticError {
            line: 1,
            reason:
                "Label \"test_label\" exists in the same bank as the CALL.far instruction, use a normal CALL instruction instead."
                    .to_string(),
        }
    }));
}

#[test]
fn mod_test_encode_instruction_call_far_via_invalid_bank_fail() {
    let instruction = Instruction::CallFarVia("test_label".to_string(), "tramp".to_string());
    let mut symbol_table = SymbolTable::new();
    symbol_table.insert(
        "test_label".to_string(),
        Symbol {
            logical_address: 0x4400,
            bank: 2,
        },
    );
    symbol_table.insert(
        "tramp".to_string(),
        Symbol {
            logical_address: 0x4848,
            bank: 1,
        },
    );
    let result = encode_instruction(&instruction, &symbol_table, &0x5432, &1, &1);
    assert!(result.is_err_and(|e| {
        e == AssemblyError::SemanticError {
            line: 1,
            reason:
                "Custom CALL.far via trampoline label must exist in bank 0, \"tramp\" found in bank 1"
                    .to_string(),
        }
    }));
}
