use vstd::prelude::*;
use vstd::string::StringExecFns;
use crate::assembler::encoder::components::{
    call_bytes, encode_call_immediate, encode_far, encode_far_via, encode_syscall, far_bytes, far_via_bytes,
};
use crate::assembler::encoder::constants::{
    CALLCC_BASE_OPCODE, CALL_IMM_OPCODE, CALL_INDIR_BASE_OPCODE, DJNZ_OPCODE, FAR_CALL_SYSCALL, FAR_JMP_SYSCALL,
    JCC_BASE_OPCODE, JMP_IMM_OPCODE, JMP_INDIR_BASE_OPCODE, JRCC_BASE_OPCODE, JR_OPCODE, SYSCALL_OPCODE,
};
use crate::assembler::encoder::operand_validators::immediate_spec;
use crate::assembler::encoder::utility_functions::{
    encode_condition_code_opcode, encode_reg_opcode, expected_imm_or_label_msg, hi, le_bytes, lo,
    resolve_label_or_immediate, resolve_spec,
};
use crate::assembler::encoder::Encoder;
use crate::assembler::symbol_table::{
    get_and_check_symbol, get_symbol, other_bank_msg, undefined_label_msg, Symbol,
};
use crate::ast::{cc_offset, ConditionCode, Operand, Register};
use crate::errors::{bytes_match, desc, AssemblyError, ErrDesc, ErrorKind};
use crate::text::{dec_string, dec_text, owned};

verus! {

pub open spec fn too_far_msg(label: Seq<char>, mnemonic: Seq<char>) -> Seq<char> {
    "Label \""@ + label + "\" too far away for relative jump, must be within 127 bytes of "@ + mnemonic
        + " instruction"@
}

pub open spec fn far_bank0_msg(label: Seq<char>, mnemonic: Seq<char>) -> Seq<char> {
    "Label \""@ + label + "\" exists in bank 0, use a normal "@ + mnemonic + " instruction instead."@
}

pub open spec fn far_same_bank_msg(label: Seq<char>, mnemonic: Seq<char>) -> Seq<char> {
    "Label \""@ + label + "\" exists in the same bank as the "@ + mnemonic + ".far instruction, use a normal "@
        + mnemonic + " instruction instead."@
}

pub open spec fn via_bank_msg(via: Seq<char>, mnemonic: Seq<char>, bank: u32) -> Seq<char> {
    "Custom "@ + mnemonic + ".far via trampoline label must exist in bank 0, \""@ + via + "\" found in bank "@
        + dec_text(bank as nat)
}

/// The offset byte of a relative jump: an immediate is truncated to a
/// signed byte, a label must live in the current bank and lie within a
/// signed byte of the current address.
pub open spec fn rel_spec(op: Operand, syms: Map<Seq<char>, Symbol>, addr: u32, bank: u32, line: usize, mnemonic: Seq<char>) -> Result<u8, ErrDesc> {
    match op {
        Operand::Immediate(imm) => Ok((imm as i8) as u8),
        Operand::Label(l) => if !syms.contains_key(l@) {
            Err(desc(ErrorKind::Semantic, Some(line), undefined_label_msg(l@)))
        } else if syms[l@].bank != bank {
            Err(desc(ErrorKind::Semantic, Some(line), other_bank_msg(l@)))
        } else {
            let rel = (syms[l@].logical_address as i32) as int - (addr as i32) as int;
            if rel > 127 || rel < -128 {
                Err(desc(ErrorKind::Semantic, Some(line), too_far_msg(l@, mnemonic)))
            } else {
                Ok((rel as i8) as u8)
            }
        },
        _ => Err(desc(ErrorKind::Structure, Some(line), expected_imm_or_label_msg())),
    }
}

/// An opcode followed by a relative offset.
pub open spec fn rel_jump_spec(opcode: u8, op: Operand, syms: Map<Seq<char>, Symbol>, addr: u32, bank: u32, line: usize, mnemonic: Seq<char>) -> Result<Seq<u8>, ErrDesc> {
    match rel_spec(op, syms, addr, bank, line, mnemonic) {
        Ok(r) => Ok(seq![opcode, r]),
        Err(d) => Err(d),
    }
}

/// `SYSCALL index`.
pub open spec fn syscall_spec(op: Operand, line: usize) -> Result<Seq<u8>, ErrDesc> {
    match immediate_spec(op, line) {
        Ok(v) => Ok(seq![SYSCALL_OPCODE, v as u8]),
        Err(d) => Err(d),
    }
}

/// A far call or jump: the target must live in a switchable bank other than
/// the current one.
pub open spec fn far_spec(label: Seq<char>, syms: Map<Seq<char>, Symbol>, bank: u32, line: usize, syslib_index: u8, mnemonic: Seq<char>) -> Result<Seq<u8>, ErrDesc> {
    if !syms.contains_key(label) {
        Err(desc(ErrorKind::Semantic, Some(line), undefined_label_msg(label)))
    } else if syms[label].bank == 0 {
        Err(desc(ErrorKind::Semantic, Some(line), far_bank0_msg(label, mnemonic)))
    } else if syms[label].bank == bank {
        Err(desc(ErrorKind::Semantic, Some(line), far_same_bank_msg(label, mnemonic)))
    } else {
        Ok(far_bytes(syms[label], syslib_index))
    }
}

/// A far call or jump through a trampoline, which must live in bank 0.
pub open spec fn far_via_spec(label: Seq<char>, via: Seq<char>, syms: Map<Seq<char>, Symbol>, bank: u32, line: usize, mnemonic: Seq<char>) -> Result<Seq<u8>, ErrDesc> {
    if !syms.contains_key(label) {
        Err(desc(ErrorKind::Semantic, Some(line), undefined_label_msg(label)))
    } else if !syms.contains_key(via) {
        Err(desc(ErrorKind::Semantic, Some(line), undefined_label_msg(via)))
    } else if syms[label].bank == 0 {
        Err(desc(ErrorKind::Semantic, Some(line), far_bank0_msg(label, mnemonic)))
    } else if syms[label].bank == bank {
        Err(desc(ErrorKind::Semantic, Some(line), far_same_bank_msg(label, mnemonic)))
    } else if syms[via].bank != 0 {
        Err(desc(ErrorKind::Semantic, Some(line), via_bank_msg(via, mnemonic, syms[via].bank)))
    } else {
        Ok(far_via_bytes(syms[label], syms[via]))
    }
}

/// `a b c d e` as one string.
fn join5(a: &str, b: &str, c: &str, d: &str, e: &str) -> (r: String)
    ensures
        r@ == a@ + b@ + c@ + d@ + e@,
{
    let mut r = owned(a);
    r.append(b);
    r.append(c);
    r.append(d);
    r.append(e);
    r
}

impl<'a> Encoder<'a> {
    fn relative_offset(self, op: &Operand, mnemonic: &str) -> (r: Result<u8, AssemblyError>)
        requires
            self.symbol_table.wf(),
        ensures
            crate::errors::result_matches(r, rel_spec(*op, self.symbol_table.map(), *self.current_address, *self.current_bank, *self.line_num, mnemonic@)),
    {
        match op {
            Operand::Immediate(imm) => Ok((*imm as i8) as u8),
            Operand::Label(label_name) => {
                let target_symbol = get_and_check_symbol(
                    self.symbol_table,
                    label_name,
                    self.line_num,
                    self.current_bank,
                )?;
                let rel: i64 = (target_symbol.logical_address as i32) as i64 - (*self.current_address as i32) as i64;
                if rel > 127 || rel < -128 {
                    return Err(AssemblyError::SemanticError {
                        line: *self.line_num,
                        reason: join5(
                            "Label \"",
                            label_name.as_str(),
                            "\" too far away for relative jump, must be within 127 bytes of ",
                            mnemonic,
                            " instruction",
                        ),
                    });
                }
                Ok((rel as i8) as u8)
            },
            _ => Err(AssemblyError::StructuralError {
                line: *self.line_num,
                reason: owned("Expected an immediate value or label."),
            }),
        }
    }

    pub fn encode_jmp_imm(self, op: &Operand) -> (r: Result<Vec<u8>, AssemblyError>)
        requires self.symbol_table.wf(),
        ensures bytes_match(r, crate::assembler::encoder::instruction_encoders::stack::op_word_spec(JMP_IMM_OPCODE, *op, self.symbol_table.map(), *self.line_num)),
    {
        let addr = resolve_label_or_immediate(op, self.symbol_table, self.line_num)?;
        let (low, high) = le_bytes(addr);
        Ok(vec![JMP_IMM_OPCODE, low, high])
    }

    pub fn encode_jmp_indirect(self, reg: &Register) -> (r: Result<Vec<u8>, AssemblyError>)
        ensures r matches Ok(v) && v@ == seq![(JMP_INDIR_BASE_OPCODE + crate::ast::reg_index(*reg)) as u8],
    {
        Ok(vec![encode_reg_opcode(JMP_INDIR_BASE_OPCODE, reg)])
    }

    pub fn encode_jr(self, op: &Operand) -> (r: Result<Vec<u8>, AssemblyError>)
        requires self.symbol_table.wf(),
        ensures bytes_match(r, rel_jump_spec(JR_OPCODE, *op, self.symbol_table.map(), *self.current_address, *self.current_bank, *self.line_num, "JR"@)),
    {
        let rel = self.relative_offset(op, "JR")?;
        Ok(vec![JR_OPCODE, rel])
    }

    pub fn encode_jcc(self, cc: &ConditionCode, op: &Operand) -> (r: Result<Vec<u8>, AssemblyError>)
        requires self.symbol_table.wf(),
        ensures bytes_match(r, crate::assembler::encoder::instruction_encoders::stack::op_word_spec((JCC_BASE_OPCODE + cc_offset(*cc)) as u8, *op, self.symbol_table.map(), *self.line_num)),
    {
        let addr = resolve_label_or_immediate(op, self.symbol_table, self.line_num)?;
        let opcode = encode_condition_code_opcode(JCC_BASE_OPCODE, cc);
        let (low, high) = le_bytes(addr);
        Ok(vec![opcode, low, high])
    }

    pub fn encode_jrcc(self, cc: &ConditionCode, op: &Operand) -> (r: Result<Vec<u8>, AssemblyError>)
        requires self.symbol_table.wf(),
        ensures bytes_match(r, rel_jump_spec((JRCC_BASE_OPCODE + cc_offset(*cc)) as u8, *op, self.symbol_table.map(), *self.current_address, *self.current_bank, *self.line_num, "JRcc"@)),
    {
        let rel = self.relative_offset(op, "JRcc")?;
        let opcode = encode_condition_code_opcode(JRCC_BASE_OPCODE, cc);
        Ok(vec![opcode, rel])
    }

    pub fn encode_djnz(self, op: &Operand) -> (r: Result<Vec<u8>, AssemblyError>)
        requires self.symbol_table.wf(),
        ensures bytes_match(r, rel_jump_spec(DJNZ_OPCODE, *op, self.symbol_table.map(), *self.current_address, *self.current_bank, *self.line_num, "DJNZ"@)),
    {
        let rel = self.relative_offset(op, "DJNZ")?;
        Ok(vec![DJNZ_OPCODE, rel])
    }

    pub fn encode_call_imm(self, op: &Operand) -> (r: Result<Vec<u8>, AssemblyError>)
        requires self.symbol_table.wf(),
        ensures bytes_match(r, crate::assembler::encoder::instruction_encoders::stack::op_word_spec(CALL_IMM_OPCODE, *op, self.symbol_table.map(), *self.line_num)),
    {
        let addr = resolve_label_or_immediate(op, self.symbol_table, self.line_num)?;
        Ok(encode_call_immediate(addr))
    }

    pub fn encode_call_indirect(self, reg: &Register) -> (r: Result<Vec<u8>, AssemblyError>)
        ensures r matches Ok(v) && v@ == seq![(CALL_INDIR_BASE_OPCODE + crate::ast::reg_index(*reg)) as u8],
    {
        Ok(vec![encode_reg_opcode(CALL_INDIR_BASE_OPCODE, reg)])
    }

    pub fn encode_callcc(self, cc: &ConditionCode, op: &Operand) -> (r: Result<Vec<u8>, AssemblyError>)
        requires self.symbol_table.wf(),
        ensures bytes_match(r, crate::assembler::encoder::instruction_encoders::stack::op_word_spec((CALLCC_BASE_OPCODE + cc_offset(*cc)) as u8, *op, self.symbol_table.map(), *self.line_num)),
    {
        let addr = resolve_label_or_immediate(op, self.symbol_table, self.line_num)?;
        let opcode = encode_condition_code_opcode(CALLCC_BASE_OPCODE, cc);
        let (low, high) = le_bytes(addr);
        Ok(vec![opcode, low, high])
    }

    pub fn encode_syscall_imm(self, imm: &Operand) -> (r: Result<Vec<u8>, AssemblyError>)
        ensures bytes_match(r, syscall_spec(*imm, *self.line_num)),
    {
        let val = self.expect_immediate(imm)?;
        Ok(encode_syscall(val as u8))
    }

    fn encode_far_to(self, label: &String, syslib_index: u8, mnemonic: &str) -> (r: Result<Vec<u8>, AssemblyError>)
        requires self.symbol_table.wf(),
        ensures bytes_match(r, far_spec(label@, self.symbol_table.map(), *self.current_bank, *self.line_num, syslib_index, mnemonic@)),
    {
        let target_symbol = get_symbol(self.symbol_table, label, self.line_num)?;
        if target_symbol.bank == 0 {
            return Err(AssemblyError::SemanticError {
                line: *self.line_num,
                reason: join5("Label \"", label.as_str(), "\" exists in bank 0, use a normal ", mnemonic, " instruction instead."),
            });
        } else if target_symbol.bank == *self.current_bank {
            let mut reason = join5("Label \"", label.as_str(), "\" exists in the same bank as the ", mnemonic, ".far instruction, use a normal ");
            reason.append(mnemonic);
            reason.append(" instruction instead.");
            return Err(AssemblyError::SemanticError { line: *self.line_num, reason });
        }
        Ok(encode_far(target_symbol, syslib_index))
    }

    fn encode_far_via_to(self, call_label: &String, via_label: &String, mnemonic: &str) -> (r: Result<Vec<u8>, AssemblyError>)
        requires self.symbol_table.wf(),
        ensures bytes_match(r, far_via_spec(call_label@, via_label@, self.symbol_table.map(), *self.current_bank, *self.line_num, mnemonic@)),
    {
        let call_symbol = get_symbol(self.symbol_table, call_label, self.line_num)?;
        let via_symbol = get_symbol(self.symbol_table, via_label, self.line_num)?;
        if call_symbol.bank == 0 {
            return Err(AssemblyError::SemanticError {
                line: *self.line_num,
                reason: join5("Label \"", call_label.as_str(), "\" exists in bank 0, use a normal ", mnemonic, " instruction instead."),
            });
        } else if call_symbol.bank == *self.current_bank {
            let mut reason = join5("Label \"", call_label.as_str(), "\" exists in the same bank as the ", mnemonic, ".far instruction, use a normal ");
            reason.append(mnemonic);
            reason.append(" instruction instead.");
            return Err(AssemblyError::SemanticError { line: *self.line_num, reason });
        }
        if via_symbol.bank != 0 {
            let mut reason = join5("Custom ", mnemonic, ".far via trampoline label must exist in bank 0, \"", via_label.as_str(), "\" found in bank ");
            let bank = dec_string(via_symbol.bank as u64);
            reason.append(bank.as_str());
            return Err(AssemblyError::SemanticError { line: *self.line_num, reason });
        }
        Ok(encode_far_via(call_symbol, via_symbol))
    }

    pub fn encode_call_far(self, call_label: &String) -> (r: Result<Vec<u8>, AssemblyError>)
        requires self.symbol_table.wf(),
        ensures bytes_match(r, far_spec(call_label@, self.symbol_table.map(), *self.current_bank, *self.line_num, FAR_CALL_SYSCALL, "CALL"@)),
    {
        self.encode_far_to(call_label, FAR_CALL_SYSCALL, "CALL")
    }

    pub fn encode_call_far_via(self, call_label: &String, via_label: &String) -> (r: Result<Vec<u8>, AssemblyError>)
        requires self.symbol_table.wf(),
        ensures bytes_match(r, far_via_spec(call_label@, via_label@, self.symbol_table.map(), *self.current_bank, *self.line_num, "CALL"@)),
    {
        self.encode_far_via_to(call_label, via_label, "CALL")
    }

    pub fn encode_jmp_far(self, label_name: &String) -> (r: Result<Vec<u8>, AssemblyError>)
        requires self.symbol_table.wf(),
        ensures bytes_match(r, far_spec(label_name@, self.symbol_table.map(), *self.current_bank, *self.line_num, FAR_JMP_SYSCALL, "JMP"@)),
    {
        self.encode_far_to(label_name, FAR_JMP_SYSCALL, "JMP")
    }

    pub fn encode_jmp_far_via(self, call_label: &String, via_label: &String) -> (r: Result<Vec<u8>, AssemblyError>)
        requires self.symbol_table.wf(),
        ensures bytes_match(r, far_via_spec(call_label@, via_label@, self.symbol_table.map(), *self.current_bank, *self.line_num, "JMP"@)),
    {
        self.encode_far_via_to(call_label, via_label, "JMP")
    }
}

} // verus!
