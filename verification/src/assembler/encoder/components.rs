use vstd::prelude::*;
use crate::assembler::encoder::constants::{
    CALL_IMM_OPCODE, POP_REG_BASE_OPCODE, PUSH_REG_BASE_OPCODE, SYSCALL_OPCODE,
};
use crate::assembler::encoder::instruction_encoders::load_store::{encode_ldi_data, ldi_bytes};
use crate::assembler::encoder::utility_functions::{encode_register_operand, hi, le_bytes, lo};
use crate::assembler::symbol_table::Symbol;
use crate::ast::{reg_index, Register};

verus! {

/// `LDI R4, bank; LDI R5, address; SYSCALL index`: the far call and far jump sequence.
pub open spec fn far_bytes(call_symbol: Symbol, syslib_index: u8) -> Seq<u8> {
    ldi_bytes(Register::R4, call_symbol.bank as u16)
        + ldi_bytes(Register::R5, call_symbol.logical_address as u16)
        + seq![SYSCALL_OPCODE, syslib_index]
}

/// `LDI R4, bank; LDI R5, address; CALL trampoline`.
pub open spec fn far_via_bytes(call_symbol: Symbol, via_symbol: Symbol) -> Seq<u8> {
    ldi_bytes(Register::R4, call_symbol.bank as u16)
        + ldi_bytes(Register::R5, call_symbol.logical_address as u16)
        + call_bytes(via_symbol.logical_address as u16)
}

/// `CALL address`.
pub open spec fn call_bytes(addr: u16) -> Seq<u8> {
    seq![CALL_IMM_OPCODE, lo(addr), hi(addr)]
}

pub fn encode_far(call_symbol: &Symbol, syslib_index: u8) -> (v: Vec<u8>)
    ensures
        v@ == far_bytes(*call_symbol, syslib_index),
{
    let mut bytecode = encode_ldi(&Register::R4, call_symbol.bank as u16);
    let mut second = encode_ldi(&Register::R5, call_symbol.logical_address as u16);
    let mut third = encode_syscall(syslib_index);
    bytecode.append(&mut second);
    bytecode.append(&mut third);
    bytecode
}

pub fn encode_far_via(call_symbol: &Symbol, via_symbol: &Symbol) -> (v: Vec<u8>)
    ensures
        v@ == far_via_bytes(*call_symbol, *via_symbol),
{
    let mut bytecode = encode_ldi(&Register::R4, call_symbol.bank as u16);
    let mut second = encode_ldi(&Register::R5, call_symbol.logical_address as u16);
    let mut third = encode_call_immediate(via_symbol.logical_address as u16);
    bytecode.append(&mut second);
    bytecode.append(&mut third);
    bytecode
}

pub fn encode_push_r(rs: &Register) -> (v: Vec<u8>)
    ensures
        v@ == seq![(PUSH_REG_BASE_OPCODE + reg_index(*rs)) as u8],
{
    let index = encode_register_operand(rs);
    vec![PUSH_REG_BASE_OPCODE + index]
}

pub fn encode_pop_r(rd: &Register) -> (v: Vec<u8>)
    ensures
        v@ == seq![(POP_REG_BASE_OPCODE + reg_index(*rd)) as u8],
{
    let index = encode_register_operand(rd);
    vec![POP_REG_BASE_OPCODE + index]
}

pub fn encode_ldi(rd: &Register, val: u16) -> (v: Vec<u8>)
    ensures
        v@ == ldi_bytes(*rd, val),
{
    encode_ldi_data(rd, val)
}

pub fn encode_syscall(index: u8) -> (v: Vec<u8>)
    ensures
        v@ == seq![SYSCALL_OPCODE, index],
{
    vec![SYSCALL_OPCODE, index]
}

pub fn encode_call_immediate(logical_addr: u16) -> (v: Vec<u8>)
    ensures
        v@ == call_bytes(logical_addr),
{
    let (low, high) = le_bytes(logical_addr);
    vec![CALL_IMM_OPCODE, low, high]
}

} // verus!
