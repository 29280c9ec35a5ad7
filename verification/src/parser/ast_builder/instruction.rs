use vstd::prelude::*;
use crate::ast::Instruction;
use crate::errors::{desc, AssemblyError, ErrorKind};
use crate::parser::ast_builder::arithmetic::{build_adc_2_op_ok, build_adci_1_op_ok, build_add_1_op_ok, build_add_2_op_ok, build_add_b_ok, build_add_sp_ok, build_addi_1_op_ok, build_addi_2_op_ok, build_and_1_op_ok, build_and_2_op_ok, build_and_b_ok, build_andi_1_op_ok, build_andi_2_op_ok, build_cmp_1_op_ok, build_cmp_2_op_ok, build_cmp_b_ok, build_cmpi_1_op_ok, build_cmpi_2_op_ok, build_dec_ok, build_inc_ok, build_or_1_op_ok, build_or_2_op_ok, build_or_b_ok, build_ori_1_op_ok, build_ori_2_op_ok, build_sbc_2_op_ok, build_sbci_1_op_ok, build_sub_1_op_ok, build_sub_2_op_ok, build_sub_b_ok, build_subi_1_op_ok, build_subi_2_op_ok, build_xor_1_op_ok, build_xor_2_op_ok, build_xor_b_ok, build_xori_1_op_ok, build_xori_2_op_ok};
use crate::parser::ast_builder::bitwise::{build_bit_ok, build_res_ok, build_rol_ok, build_ror_ok, build_set_ok, build_shl_ok, build_shr_ok, build_sra_ok};
use crate::parser::ast_builder::control_flow::{build_call_far_ok, build_call_far_via_ok, build_call_ok, build_callcc_ok, build_djnz_ok, build_jcc_ok, build_jmp_far_ok, build_jmp_far_via_ok, build_jmp_ok, build_jr_ok, build_jrcc_ok, build_syscall_ok};
use crate::parser::ast_builder::load_store::{build_ld_b_ok, build_ld_ok, build_ldi_b_ok, build_ldi_ok, build_lea_ok, build_st_b_ok, build_st_ok};
use crate::parser::ast_builder::stack::{build_pop_ok, build_push_ok};
use crate::parser::ast_builder::operand_builders::{chars_eq, is_register_literal, is_register_text, lower_text, to_lower};
use crate::parser::ast_builder::shapes::fails_with;
use crate::parser::ast_builder::validators::BuilderView;
use crate::parser::ast_builder::AstBuilder;
use crate::text::{chars_of, join2, string_from_chars};

verus! {

/// The instruction forms the grammar knows.
#[derive(PartialEq, Eq, Structural)]
pub enum InstrRule {
    Nop,
    Halt,
    Neg,
    Not,
    Swap,
    Ccf,
    Scf,
    Rcf,
    Enter,
    Leave,
    Ret,
    Reti,
    Ei,
    Di,
    AddSp,
    Add2,
    Addi2,
    Add1,
    Addi1,
    Sub2,
    Subi2,
    Sub1,
    Subi1,
    And2,
    Andi2,
    And1,
    Andi1,
    Or2,
    Ori2,
    Or1,
    Ori1,
    Xor2,
    Xori2,
    Xor1,
    Xori1,
    Cmp2,
    Cmpi2,
    Cmp1,
    Cmpi1,
    Adc2,
    Adci1,
    Sbc2,
    Sbci1,
    AddB,
    SubB,
    AndB,
    OrB,
    XorB,
    CmpB,
    Inc,
    Dec,
    Sra,
    Shl,
    Shr,
    Rol,
    Ror,
    Djnz,
    Syscall,
    TestBit,
    SetBit,
    ResetBit,
    Ld,
    St,
    Ldi,
    LdB,
    StB,
    LdiB,
    Lea,
    PushF,
    Push,
    PopF,
    Pop,
    Jcc,
    Jmp,
    Jrcc,
    Jr,
    Callcc,
    Call,
    CallFarVia,
    CallFar,
    JmpFarVia,
    JmpFar,
    WrongCount,
    Unknown,
}

/// The position of a mnemonic in the list of mnemonics the grammar knows.
pub open spec fn mnemonic_index(m: Seq<char>) -> int {
    if m == "nop"@ {
        0
    } else if m == "halt"@ {
        1
    } else if m == "neg"@ {
        2
    } else if m == "not"@ {
        3
    } else if m == "swap"@ {
        4
    } else if m == "ccf"@ {
        5
    } else if m == "scf"@ {
        6
    } else if m == "rcf"@ {
        7
    } else if m == "enter"@ {
        8
    } else if m == "leave"@ {
        9
    } else if m == "ret"@ {
        10
    } else if m == "reti"@ {
        11
    } else if m == "ei"@ {
        12
    } else if m == "di"@ {
        13
    } else if m == "add"@ {
        14
    } else if m == "sub"@ {
        15
    } else if m == "and"@ {
        16
    } else if m == "or"@ {
        17
    } else if m == "xor"@ {
        18
    } else if m == "cmp"@ {
        19
    } else if m == "adc"@ {
        20
    } else if m == "sbc"@ {
        21
    } else if m == "add.b"@ {
        22
    } else if m == "sub.b"@ {
        23
    } else if m == "and.b"@ {
        24
    } else if m == "or.b"@ {
        25
    } else if m == "xor.b"@ {
        26
    } else if m == "cmp.b"@ {
        27
    } else if m == "inc"@ {
        28
    } else if m == "dec"@ {
        29
    } else if m == "sra"@ {
        30
    } else if m == "shl"@ {
        31
    } else if m == "shr"@ {
        32
    } else if m == "rol"@ {
        33
    } else if m == "ror"@ {
        34
    } else if m == "djnz"@ {
        35
    } else if m == "syscall"@ {
        36
    } else if m == "bit"@ {
        37
    } else if m == "set"@ {
        38
    } else if m == "res"@ {
        39
    } else if m == "ld"@ {
        40
    } else if m == "st"@ {
        41
    } else if m == "ldi"@ {
        42
    } else if m == "ld.b"@ {
        43
    } else if m == "st.b"@ {
        44
    } else if m == "ldi.b"@ {
        45
    } else if m == "lea"@ {
        46
    } else if m == "push"@ {
        47
    } else if m == "pop"@ {
        48
    } else if m == "jmp"@ {
        49
    } else if m == "jr"@ {
        50
    } else if m == "call"@ {
        51
    } else if m == "call.far"@ {
        52
    } else if m == "jmp.far"@ {
        53
    } else {
        54
    }
}

/// Which form of which instruction a mnemonic and its operand texts select.
pub open spec fn instr_rule(m: Seq<char>, texts: Seq<Seq<char>>) -> InstrRule {
    rule_of_mnemonic(mnemonic_index(m), texts)
}

/// The form of the mnemonic at position `k` that the operand texts select.
pub open spec fn rule_of_mnemonic(k: int, texts: Seq<Seq<char>>) -> InstrRule {
    if k == 0 {
    if texts.len() == 0 {
        InstrRule::Nop
    } else {
        InstrRule::WrongCount
    }
    } else if k == 1 {
    if texts.len() == 0 {
        InstrRule::Halt
    } else {
        InstrRule::WrongCount
    }
    } else if k == 2 {
    if texts.len() == 0 {
        InstrRule::Neg
    } else {
        InstrRule::WrongCount
    }
    } else if k == 3 {
    if texts.len() == 0 {
        InstrRule::Not
    } else {
        InstrRule::WrongCount
    }
    } else if k == 4 {
    if texts.len() == 0 {
        InstrRule::Swap
    } else {
        InstrRule::WrongCount
    }
    } else if k == 5 {
    if texts.len() == 0 {
        InstrRule::Ccf
    } else {
        InstrRule::WrongCount
    }
    } else if k == 6 {
    if texts.len() == 0 {
        InstrRule::Scf
    } else {
        InstrRule::WrongCount
    }
    } else if k == 7 {
    if texts.len() == 0 {
        InstrRule::Rcf
    } else {
        InstrRule::WrongCount
    }
    } else if k == 8 {
    if texts.len() == 0 {
        InstrRule::Enter
    } else {
        InstrRule::WrongCount
    }
    } else if k == 9 {
    if texts.len() == 0 {
        InstrRule::Leave
    } else {
        InstrRule::WrongCount
    }
    } else if k == 10 {
    if texts.len() == 0 {
        InstrRule::Ret
    } else {
        InstrRule::WrongCount
    }
    } else if k == 11 {
    if texts.len() == 0 {
        InstrRule::Reti
    } else {
        InstrRule::WrongCount
    }
    } else if k == 12 {
    if texts.len() == 0 {
        InstrRule::Ei
    } else {
        InstrRule::WrongCount
    }
    } else if k == 13 {
    if texts.len() == 0 {
        InstrRule::Di
    } else {
        InstrRule::WrongCount
    }
    } else if k == 14 {
    if texts.len() == 2 && lower_text(texts[0]) == "sp"@ {
        InstrRule::AddSp
    } else if texts.len() == 2 && is_register_text(texts[1]) {
        InstrRule::Add2
    } else if texts.len() == 2 {
        InstrRule::Addi2
    } else if texts.len() == 1 && is_register_text(texts[0]) {
        InstrRule::Add1
    } else if texts.len() == 1 {
        InstrRule::Addi1
    } else {
        InstrRule::WrongCount
    }
    } else if k == 15 {
    if texts.len() == 2 && is_register_text(texts[1]) {
        InstrRule::Sub2
    } else if texts.len() == 2 {
        InstrRule::Subi2
    } else if texts.len() == 1 && is_register_text(texts[0]) {
        InstrRule::Sub1
    } else if texts.len() == 1 {
        InstrRule::Subi1
    } else {
        InstrRule::WrongCount
    }
    } else if k == 16 {
    if texts.len() == 2 && is_register_text(texts[1]) {
        InstrRule::And2
    } else if texts.len() == 2 {
        InstrRule::Andi2
    } else if texts.len() == 1 && is_register_text(texts[0]) {
        InstrRule::And1
    } else if texts.len() == 1 {
        InstrRule::Andi1
    } else {
        InstrRule::WrongCount
    }
    } else if k == 17 {
    if texts.len() == 2 && is_register_text(texts[1]) {
        InstrRule::Or2
    } else if texts.len() == 2 {
        InstrRule::Ori2
    } else if texts.len() == 1 && is_register_text(texts[0]) {
        InstrRule::Or1
    } else if texts.len() == 1 {
        InstrRule::Ori1
    } else {
        InstrRule::WrongCount
    }
    } else if k == 18 {
    if texts.len() == 2 && is_register_text(texts[1]) {
        InstrRule::Xor2
    } else if texts.len() == 2 {
        InstrRule::Xori2
    } else if texts.len() == 1 && is_register_text(texts[0]) {
        InstrRule::Xor1
    } else if texts.len() == 1 {
        InstrRule::Xori1
    } else {
        InstrRule::WrongCount
    }
    } else if k == 19 {
    if texts.len() == 2 && is_register_text(texts[1]) {
        InstrRule::Cmp2
    } else if texts.len() == 2 {
        InstrRule::Cmpi2
    } else if texts.len() == 1 && is_register_text(texts[0]) {
        InstrRule::Cmp1
    } else if texts.len() == 1 {
        InstrRule::Cmpi1
    } else {
        InstrRule::WrongCount
    }
    } else if k == 20 {
    if texts.len() == 2 {
        InstrRule::Adc2
    } else if texts.len() == 1 {
        InstrRule::Adci1
    } else {
        InstrRule::WrongCount
    }
    } else if k == 21 {
    if texts.len() == 2 {
        InstrRule::Sbc2
    } else if texts.len() == 1 {
        InstrRule::Sbci1
    } else {
        InstrRule::WrongCount
    }
    } else if k == 22 {
    if texts.len() == 1 {
        InstrRule::AddB
    } else {
        InstrRule::WrongCount
    }
    } else if k == 23 {
    if texts.len() == 1 {
        InstrRule::SubB
    } else {
        InstrRule::WrongCount
    }
    } else if k == 24 {
    if texts.len() == 1 {
        InstrRule::AndB
    } else {
        InstrRule::WrongCount
    }
    } else if k == 25 {
    if texts.len() == 1 {
        InstrRule::OrB
    } else {
        InstrRule::WrongCount
    }
    } else if k == 26 {
    if texts.len() == 1 {
        InstrRule::XorB
    } else {
        InstrRule::WrongCount
    }
    } else if k == 27 {
    if texts.len() == 1 {
        InstrRule::CmpB
    } else {
        InstrRule::WrongCount
    }
    } else if k == 28 {
    if texts.len() == 1 {
        InstrRule::Inc
    } else {
        InstrRule::WrongCount
    }
    } else if k == 29 {
    if texts.len() == 1 {
        InstrRule::Dec
    } else {
        InstrRule::WrongCount
    }
    } else if k == 30 {
    if texts.len() == 1 {
        InstrRule::Sra
    } else {
        InstrRule::WrongCount
    }
    } else if k == 31 {
    if texts.len() == 1 {
        InstrRule::Shl
    } else {
        InstrRule::WrongCount
    }
    } else if k == 32 {
    if texts.len() == 1 {
        InstrRule::Shr
    } else {
        InstrRule::WrongCount
    }
    } else if k == 33 {
    if texts.len() == 1 {
        InstrRule::Rol
    } else {
        InstrRule::WrongCount
    }
    } else if k == 34 {
    if texts.len() == 1 {
        InstrRule::Ror
    } else {
        InstrRule::WrongCount
    }
    } else if k == 35 {
    if texts.len() == 1 {
        InstrRule::Djnz
    } else {
        InstrRule::WrongCount
    }
    } else if k == 36 {
    if texts.len() == 1 {
        InstrRule::Syscall
    } else {
        InstrRule::WrongCount
    }
    } else if k == 37 {
    if texts.len() == 2 {
        InstrRule::TestBit
    } else {
        InstrRule::WrongCount
    }
    } else if k == 38 {
    if texts.len() == 2 {
        InstrRule::SetBit
    } else {
        InstrRule::WrongCount
    }
    } else if k == 39 {
    if texts.len() == 2 {
        InstrRule::ResetBit
    } else {
        InstrRule::WrongCount
    }
    } else if k == 40 {
    if texts.len() == 2 {
        InstrRule::Ld
    } else {
        InstrRule::WrongCount
    }
    } else if k == 41 {
    if texts.len() == 2 {
        InstrRule::St
    } else {
        InstrRule::WrongCount
    }
    } else if k == 42 {
    if texts.len() == 2 {
        InstrRule::Ldi
    } else {
        InstrRule::WrongCount
    }
    } else if k == 43 {
    if texts.len() == 2 {
        InstrRule::LdB
    } else {
        InstrRule::WrongCount
    }
    } else if k == 44 {
    if texts.len() == 2 {
        InstrRule::StB
    } else {
        InstrRule::WrongCount
    }
    } else if k == 45 {
    if texts.len() == 2 {
        InstrRule::LdiB
    } else {
        InstrRule::WrongCount
    }
    } else if k == 46 {
    if texts.len() == 2 {
        InstrRule::Lea
    } else {
        InstrRule::WrongCount
    }
    } else if k == 47 {
    if texts.len() == 1 && lower_text(texts[0]) == "f"@ {
        InstrRule::PushF
    } else if texts.len() == 1 {
        InstrRule::Push
    } else {
        InstrRule::WrongCount
    }
    } else if k == 48 {
    if texts.len() == 1 && lower_text(texts[0]) == "f"@ {
        InstrRule::PopF
    } else if texts.len() == 1 {
        InstrRule::Pop
    } else {
        InstrRule::WrongCount
    }
    } else if k == 49 {
    if texts.len() == 2 {
        InstrRule::Jcc
    } else if texts.len() == 1 {
        InstrRule::Jmp
    } else {
        InstrRule::WrongCount
    }
    } else if k == 50 {
    if texts.len() == 2 {
        InstrRule::Jrcc
    } else if texts.len() == 1 {
        InstrRule::Jr
    } else {
        InstrRule::WrongCount
    }
    } else if k == 51 {
    if texts.len() == 2 {
        InstrRule::Callcc
    } else if texts.len() == 1 {
        InstrRule::Call
    } else {
        InstrRule::WrongCount
    }
    } else if k == 52 {
    if texts.len() == 2 {
        InstrRule::CallFarVia
    } else if texts.len() == 1 {
        InstrRule::CallFar
    } else {
        InstrRule::WrongCount
    }
    } else if k == 53 {
    if texts.len() == 2 {
        InstrRule::JmpFarVia
    } else if texts.len() == 1 {
        InstrRule::JmpFar
    } else {
        InstrRule::WrongCount
    }
    } else {
        InstrRule::Unknown
    }
}

/// Whether `m` is the word `w`.
pub fn is_word(m: &[char], w: &str) -> (b: bool)
    ensures
        b == (m@ == w@),
{
    let wc = chars_of(w);
    chars_eq(m, wc.as_slice())
}

/// Whether `m`, in lower case, is the word `w`.
pub fn is_lower_word(m: &[char], w: &str) -> (b: bool)
    ensures
        b == (lower_text(m@) == w@),
{
    let l = to_lower(m);
    let wc = chars_of(w);
    chars_eq(l.as_slice(), wc.as_slice())
}

fn find_mnemonic(m: &[char]) -> (k: usize)
    ensures
        k == mnemonic_index(m@),
{
    if is_word(m, "nop") {
        0
    } else if is_word(m, "halt") {
        1
    } else if is_word(m, "neg") {
        2
    } else if is_word(m, "not") {
        3
    } else if is_word(m, "swap") {
        4
    } else if is_word(m, "ccf") {
        5
    } else if is_word(m, "scf") {
        6
    } else if is_word(m, "rcf") {
        7
    } else if is_word(m, "enter") {
        8
    } else if is_word(m, "leave") {
        9
    } else if is_word(m, "ret") {
        10
    } else if is_word(m, "reti") {
        11
    } else if is_word(m, "ei") {
        12
    } else if is_word(m, "di") {
        13
    } else if is_word(m, "add") {
        14
    } else if is_word(m, "sub") {
        15
    } else if is_word(m, "and") {
        16
    } else if is_word(m, "or") {
        17
    } else if is_word(m, "xor") {
        18
    } else if is_word(m, "cmp") {
        19
    } else if is_word(m, "adc") {
        20
    } else if is_word(m, "sbc") {
        21
    } else if is_word(m, "add.b") {
        22
    } else if is_word(m, "sub.b") {
        23
    } else if is_word(m, "and.b") {
        24
    } else if is_word(m, "or.b") {
        25
    } else if is_word(m, "xor.b") {
        26
    } else if is_word(m, "cmp.b") {
        27
    } else if is_word(m, "inc") {
        28
    } else if is_word(m, "dec") {
        29
    } else if is_word(m, "sra") {
        30
    } else if is_word(m, "shl") {
        31
    } else if is_word(m, "shr") {
        32
    } else if is_word(m, "rol") {
        33
    } else if is_word(m, "ror") {
        34
    } else if is_word(m, "djnz") {
        35
    } else if is_word(m, "syscall") {
        36
    } else if is_word(m, "bit") {
        37
    } else if is_word(m, "set") {
        38
    } else if is_word(m, "res") {
        39
    } else if is_word(m, "ld") {
        40
    } else if is_word(m, "st") {
        41
    } else if is_word(m, "ldi") {
        42
    } else if is_word(m, "ld.b") {
        43
    } else if is_word(m, "st.b") {
        44
    } else if is_word(m, "ldi.b") {
        45
    } else if is_word(m, "lea") {
        46
    } else if is_word(m, "push") {
        47
    } else if is_word(m, "pop") {
        48
    } else if is_word(m, "jmp") {
        49
    } else if is_word(m, "jr") {
        50
    } else if is_word(m, "call") {
        51
    } else if is_word(m, "call.far") {
        52
    } else if is_word(m, "jmp.far") {
        53
    } else {
        54
    }
}

fn select_instr_rule(m: &[char], pairs: &Vec<Vec<char>>) -> (r: InstrRule)
    ensures
        r == instr_rule(m@, pairs@.map_values(|p: Vec<char>| p@)),
{
    let ghost texts = pairs@.map_values(|p: Vec<char>| p@);
    let n = pairs.len();
    proof {
        if n >= 1 {
            assert(texts[0] == pairs@[0]@);
        }
        if n >= 2 {
            assert(texts[1] == pairs@[1]@);
        }
    }
    let k = find_mnemonic(m);
    if k == 0 {
    if n == 0 {
        InstrRule::Nop
    } else {
        InstrRule::WrongCount
    }
    } else if k == 1 {
    if n == 0 {
        InstrRule::Halt
    } else {
        InstrRule::WrongCount
    }
    } else if k == 2 {
    if n == 0 {
        InstrRule::Neg
    } else {
        InstrRule::WrongCount
    }
    } else if k == 3 {
    if n == 0 {
        InstrRule::Not
    } else {
        InstrRule::WrongCount
    }
    } else if k == 4 {
    if n == 0 {
        InstrRule::Swap
    } else {
        InstrRule::WrongCount
    }
    } else if k == 5 {
    if n == 0 {
        InstrRule::Ccf
    } else {
        InstrRule::WrongCount
    }
    } else if k == 6 {
    if n == 0 {
        InstrRule::Scf
    } else {
        InstrRule::WrongCount
    }
    } else if k == 7 {
    if n == 0 {
        InstrRule::Rcf
    } else {
        InstrRule::WrongCount
    }
    } else if k == 8 {
    if n == 0 {
        InstrRule::Enter
    } else {
        InstrRule::WrongCount
    }
    } else if k == 9 {
    if n == 0 {
        InstrRule::Leave
    } else {
        InstrRule::WrongCount
    }
    } else if k == 10 {
    if n == 0 {
        InstrRule::Ret
    } else {
        InstrRule::WrongCount
    }
    } else if k == 11 {
    if n == 0 {
        InstrRule::Reti
    } else {
        InstrRule::WrongCount
    }
    } else if k == 12 {
    if n == 0 {
        InstrRule::Ei
    } else {
        InstrRule::WrongCount
    }
    } else if k == 13 {
    if n == 0 {
        InstrRule::Di
    } else {
        InstrRule::WrongCount
    }
    } else if k == 14 {
    if n == 2 && is_lower_word(pairs[0].as_slice(), "sp") {
        InstrRule::AddSp
    } else if n == 2 && is_register_literal(pairs[1].as_slice()) {
        InstrRule::Add2
    } else if n == 2 {
        InstrRule::Addi2
    } else if n == 1 && is_register_literal(pairs[0].as_slice()) {
        InstrRule::Add1
    } else if n == 1 {
        InstrRule::Addi1
    } else {
        InstrRule::WrongCount
    }
    } else if k == 15 {
    if n == 2 && is_register_literal(pairs[1].as_slice()) {
        InstrRule::Sub2
    } else if n == 2 {
        InstrRule::Subi2
    } else if n == 1 && is_register_literal(pairs[0].as_slice()) {
        InstrRule::Sub1
    } else if n == 1 {
        InstrRule::Subi1
    } else {
        InstrRule::WrongCount
    }
    } else if k == 16 {
    if n == 2 && is_register_literal(pairs[1].as_slice()) {
        InstrRule::And2
    } else if n == 2 {
        InstrRule::Andi2
    } else if n == 1 && is_register_literal(pairs[0].as_slice()) {
        InstrRule::And1
    } else if n == 1 {
        InstrRule::Andi1
    } else {
        InstrRule::WrongCount
    }
    } else if k == 17 {
    if n == 2 && is_register_literal(pairs[1].as_slice()) {
        InstrRule::Or2
    } else if n == 2 {
        InstrRule::Ori2
    } else if n == 1 && is_register_literal(pairs[0].as_slice()) {
        InstrRule::Or1
    } else if n == 1 {
        InstrRule::Ori1
    } else {
        InstrRule::WrongCount
    }
    } else if k == 18 {
    if n == 2 && is_register_literal(pairs[1].as_slice()) {
        InstrRule::Xor2
    } else if n == 2 {
        InstrRule::Xori2
    } else if n == 1 && is_register_literal(pairs[0].as_slice()) {
        InstrRule::Xor1
    } else if n == 1 {
        InstrRule::Xori1
    } else {
        InstrRule::WrongCount
    }
    } else if k == 19 {
    if n == 2 && is_register_literal(pairs[1].as_slice()) {
        InstrRule::Cmp2
    } else if n == 2 {
        InstrRule::Cmpi2
    } else if n == 1 && is_register_literal(pairs[0].as_slice()) {
        InstrRule::Cmp1
    } else if n == 1 {
        InstrRule::Cmpi1
    } else {
        InstrRule::WrongCount
    }
    } else if k == 20 {
    if n == 2 {
        InstrRule::Adc2
    } else if n == 1 {
        InstrRule::Adci1
    } else {
        InstrRule::WrongCount
    }
    } else if k == 21 {
    if n == 2 {
        InstrRule::Sbc2
    } else if n == 1 {
        InstrRule::Sbci1
    } else {
        InstrRule::WrongCount
    }
    } else if k == 22 {
    if n == 1 {
        InstrRule::AddB
    } else {
        InstrRule::WrongCount
    }
    } else if k == 23 {
    if n == 1 {
        InstrRule::SubB
    } else {
        InstrRule::WrongCount
    }
    } else if k == 24 {
    if n == 1 {
        InstrRule::AndB
    } else {
        InstrRule::WrongCount
    }
    } else if k == 25 {
    if n == 1 {
        InstrRule::OrB
    } else {
        InstrRule::WrongCount
    }
    } else if k == 26 {
    if n == 1 {
        InstrRule::XorB
    } else {
        InstrRule::WrongCount
    }
    } else if k == 27 {
    if n == 1 {
        InstrRule::CmpB
    } else {
        InstrRule::WrongCount
    }
    } else if k == 28 {
    if n == 1 {
        InstrRule::Inc
    } else {
        InstrRule::WrongCount
    }
    } else if k == 29 {
    if n == 1 {
        InstrRule::Dec
    } else {
        InstrRule::WrongCount
    }
    } else if k == 30 {
    if n == 1 {
        InstrRule::Sra
    } else {
        InstrRule::WrongCount
    }
    } else if k == 31 {
    if n == 1 {
        InstrRule::Shl
    } else {
        InstrRule::WrongCount
    }
    } else if k == 32 {
    if n == 1 {
        InstrRule::Shr
    } else {
        InstrRule::WrongCount
    }
    } else if k == 33 {
    if n == 1 {
        InstrRule::Rol
    } else {
        InstrRule::WrongCount
    }
    } else if k == 34 {
    if n == 1 {
        InstrRule::Ror
    } else {
        InstrRule::WrongCount
    }
    } else if k == 35 {
    if n == 1 {
        InstrRule::Djnz
    } else {
        InstrRule::WrongCount
    }
    } else if k == 36 {
    if n == 1 {
        InstrRule::Syscall
    } else {
        InstrRule::WrongCount
    }
    } else if k == 37 {
    if n == 2 {
        InstrRule::TestBit
    } else {
        InstrRule::WrongCount
    }
    } else if k == 38 {
    if n == 2 {
        InstrRule::SetBit
    } else {
        InstrRule::WrongCount
    }
    } else if k == 39 {
    if n == 2 {
        InstrRule::ResetBit
    } else {
        InstrRule::WrongCount
    }
    } else if k == 40 {
    if n == 2 {
        InstrRule::Ld
    } else {
        InstrRule::WrongCount
    }
    } else if k == 41 {
    if n == 2 {
        InstrRule::St
    } else {
        InstrRule::WrongCount
    }
    } else if k == 42 {
    if n == 2 {
        InstrRule::Ldi
    } else {
        InstrRule::WrongCount
    }
    } else if k == 43 {
    if n == 2 {
        InstrRule::LdB
    } else {
        InstrRule::WrongCount
    }
    } else if k == 44 {
    if n == 2 {
        InstrRule::StB
    } else {
        InstrRule::WrongCount
    }
    } else if k == 45 {
    if n == 2 {
        InstrRule::LdiB
    } else {
        InstrRule::WrongCount
    }
    } else if k == 46 {
    if n == 2 {
        InstrRule::Lea
    } else {
        InstrRule::WrongCount
    }
    } else if k == 47 {
    if n == 1 && is_lower_word(pairs[0].as_slice(), "f") {
        InstrRule::PushF
    } else if n == 1 {
        InstrRule::Push
    } else {
        InstrRule::WrongCount
    }
    } else if k == 48 {
    if n == 1 && is_lower_word(pairs[0].as_slice(), "f") {
        InstrRule::PopF
    } else if n == 1 {
        InstrRule::Pop
    } else {
        InstrRule::WrongCount
    }
    } else if k == 49 {
    if n == 2 {
        InstrRule::Jcc
    } else if n == 1 {
        InstrRule::Jmp
    } else {
        InstrRule::WrongCount
    }
    } else if k == 50 {
    if n == 2 {
        InstrRule::Jrcc
    } else if n == 1 {
        InstrRule::Jr
    } else {
        InstrRule::WrongCount
    }
    } else if k == 51 {
    if n == 2 {
        InstrRule::Callcc
    } else if n == 1 {
        InstrRule::Call
    } else {
        InstrRule::WrongCount
    }
    } else if k == 52 {
    if n == 2 {
        InstrRule::CallFarVia
    } else if n == 1 {
        InstrRule::CallFar
    } else {
        InstrRule::WrongCount
    }
    } else if k == 53 {
    if n == 2 {
        InstrRule::JmpFarVia
    } else if n == 1 {
        InstrRule::JmpFar
    } else {
        InstrRule::WrongCount
    }
    } else {
        InstrRule::Unknown
    }
}

pub open spec fn unknown_instruction_msg(m: Seq<char>) -> Seq<char> {
    "Unknown instruction: "@ + m
}

pub open spec fn wrong_operands_msg(m: Seq<char>) -> Seq<char> {
    "Invalid operands for instruction: "@ + m
}

/// The instruction that the builder's mnemonic and operands describe.
pub open spec fn instruction_ok(m: Seq<char>, b: BuilderView, r: Result<Instruction, AssemblyError>) -> bool {
    match instr_rule(m, b.texts) {
        InstrRule::Nop => r == Ok::<Instruction, AssemblyError>(Instruction::Nop),
        InstrRule::Halt => r == Ok::<Instruction, AssemblyError>(Instruction::Halt),
        InstrRule::Neg => r == Ok::<Instruction, AssemblyError>(Instruction::NegAcc),
        InstrRule::Not => r == Ok::<Instruction, AssemblyError>(Instruction::NotAcc),
        InstrRule::Swap => r == Ok::<Instruction, AssemblyError>(Instruction::SwapAcc),
        InstrRule::Ccf => r == Ok::<Instruction, AssemblyError>(Instruction::Ccf),
        InstrRule::Scf => r == Ok::<Instruction, AssemblyError>(Instruction::Scf),
        InstrRule::Rcf => r == Ok::<Instruction, AssemblyError>(Instruction::Rcf),
        InstrRule::Enter => r == Ok::<Instruction, AssemblyError>(Instruction::Enter),
        InstrRule::Leave => r == Ok::<Instruction, AssemblyError>(Instruction::Leave),
        InstrRule::Ret => r == Ok::<Instruction, AssemblyError>(Instruction::Ret),
        InstrRule::Reti => r == Ok::<Instruction, AssemblyError>(Instruction::Reti),
        InstrRule::Ei => r == Ok::<Instruction, AssemblyError>(Instruction::Ei),
        InstrRule::Di => r == Ok::<Instruction, AssemblyError>(Instruction::Di),
        InstrRule::AddSp => build_add_sp_ok(BuilderView { next: 1, ..b }, r),
        InstrRule::Add2 => build_add_2_op_ok(b, r),
        InstrRule::Addi2 => build_addi_2_op_ok(b, r),
        InstrRule::Add1 => build_add_1_op_ok(b, r),
        InstrRule::Addi1 => build_addi_1_op_ok(b, r),
        InstrRule::Sub2 => build_sub_2_op_ok(b, r),
        InstrRule::Subi2 => build_subi_2_op_ok(b, r),
        InstrRule::Sub1 => build_sub_1_op_ok(b, r),
        InstrRule::Subi1 => build_subi_1_op_ok(b, r),
        InstrRule::And2 => build_and_2_op_ok(b, r),
        InstrRule::Andi2 => build_andi_2_op_ok(b, r),
        InstrRule::And1 => build_and_1_op_ok(b, r),
        InstrRule::Andi1 => build_andi_1_op_ok(b, r),
        InstrRule::Or2 => build_or_2_op_ok(b, r),
        InstrRule::Ori2 => build_ori_2_op_ok(b, r),
        InstrRule::Or1 => build_or_1_op_ok(b, r),
        InstrRule::Ori1 => build_ori_1_op_ok(b, r),
        InstrRule::Xor2 => build_xor_2_op_ok(b, r),
        InstrRule::Xori2 => build_xori_2_op_ok(b, r),
        InstrRule::Xor1 => build_xor_1_op_ok(b, r),
        InstrRule::Xori1 => build_xori_1_op_ok(b, r),
        InstrRule::Cmp2 => build_cmp_2_op_ok(b, r),
        InstrRule::Cmpi2 => build_cmpi_2_op_ok(b, r),
        InstrRule::Cmp1 => build_cmp_1_op_ok(b, r),
        InstrRule::Cmpi1 => build_cmpi_1_op_ok(b, r),
        InstrRule::Adc2 => build_adc_2_op_ok(b, r),
        InstrRule::Adci1 => build_adci_1_op_ok(b, r),
        InstrRule::Sbc2 => build_sbc_2_op_ok(b, r),
        InstrRule::Sbci1 => build_sbci_1_op_ok(b, r),
        InstrRule::AddB => build_add_b_ok(b, r),
        InstrRule::SubB => build_sub_b_ok(b, r),
        InstrRule::AndB => build_and_b_ok(b, r),
        InstrRule::OrB => build_or_b_ok(b, r),
        InstrRule::XorB => build_xor_b_ok(b, r),
        InstrRule::CmpB => build_cmp_b_ok(b, r),
        InstrRule::Inc => build_inc_ok(b, r),
        InstrRule::Dec => build_dec_ok(b, r),
        InstrRule::Sra => build_sra_ok(b, r),
        InstrRule::Shl => build_shl_ok(b, r),
        InstrRule::Shr => build_shr_ok(b, r),
        InstrRule::Rol => build_rol_ok(b, r),
        InstrRule::Ror => build_ror_ok(b, r),
        InstrRule::Djnz => build_djnz_ok(b, r),
        InstrRule::Syscall => build_syscall_ok(b, r),
        InstrRule::TestBit => build_bit_ok(b, r),
        InstrRule::SetBit => build_set_ok(b, r),
        InstrRule::ResetBit => build_res_ok(b, r),
        InstrRule::Ld => build_ld_ok(b, r),
        InstrRule::St => build_st_ok(b, r),
        InstrRule::Ldi => build_ldi_ok(b, r),
        InstrRule::LdB => build_ld_b_ok(b, r),
        InstrRule::StB => build_st_b_ok(b, r),
        InstrRule::LdiB => build_ldi_b_ok(b, r),
        InstrRule::Lea => build_lea_ok(b, r),
        InstrRule::PushF => r == Ok::<Instruction, AssemblyError>(Instruction::PushF),
        InstrRule::Push => build_push_ok(b, r),
        InstrRule::PopF => r == Ok::<Instruction, AssemblyError>(Instruction::PopF),
        InstrRule::Pop => build_pop_ok(b, r),
        InstrRule::Jcc => build_jcc_ok(b, r),
        InstrRule::Jmp => build_jmp_ok(b, r),
        InstrRule::Jrcc => build_jrcc_ok(b, r),
        InstrRule::Jr => build_jr_ok(b, r),
        InstrRule::Callcc => build_callcc_ok(b, r),
        InstrRule::Call => build_call_ok(b, r),
        InstrRule::CallFarVia => build_call_far_via_ok(b, r),
        InstrRule::CallFar => build_call_far_ok(b, r),
        InstrRule::JmpFarVia => build_jmp_far_via_ok(b, r),
        InstrRule::JmpFar => build_jmp_far_ok(b, r),
        InstrRule::WrongCount => fails_with(r, desc(ErrorKind::Syntax, Some(b.line), wrong_operands_msg(m))),
        InstrRule::Unknown => fails_with(r, desc(ErrorKind::Syntax, Some(b.line), unknown_instruction_msg(m))),
    }
}

impl AstBuilder {
    /// Builds the instruction its mnemonic and operands describe.
    pub fn build_instruction(self) -> (r: Result<Instruction, AssemblyError>)
        requires
            self.wf(),
            self.next == 0,
        ensures
            instruction_ok(self.rule@, self@, r),
    {
        let rule = select_instr_rule(self.rule.as_slice(), &self.pairs);
        match rule {
            InstrRule::Nop => Ok(Instruction::Nop),
            InstrRule::Halt => Ok(Instruction::Halt),
            InstrRule::Neg => Ok(Instruction::NegAcc),
            InstrRule::Not => Ok(Instruction::NotAcc),
            InstrRule::Swap => Ok(Instruction::SwapAcc),
            InstrRule::Ccf => Ok(Instruction::Ccf),
            InstrRule::Scf => Ok(Instruction::Scf),
            InstrRule::Rcf => Ok(Instruction::Rcf),
            InstrRule::Enter => Ok(Instruction::Enter),
            InstrRule::Leave => Ok(Instruction::Leave),
            InstrRule::Ret => Ok(Instruction::Ret),
            InstrRule::Reti => Ok(Instruction::Reti),
            InstrRule::Ei => Ok(Instruction::Ei),
            InstrRule::Di => Ok(Instruction::Di),
            InstrRule::AddSp => {
                let mut b = self;
                b.next = 1;
                b.build_add_sp()
            },
            InstrRule::Add2 => self.build_add_2_op(),
            InstrRule::Addi2 => self.build_addi_2_op(),
            InstrRule::Add1 => self.build_add_1_op(),
            InstrRule::Addi1 => self.build_addi_1_op(),
            InstrRule::Sub2 => self.build_sub_2_op(),
            InstrRule::Subi2 => self.build_subi_2_op(),
            InstrRule::Sub1 => self.build_sub_1_op(),
            InstrRule::Subi1 => self.build_subi_1_op(),
            InstrRule::And2 => self.build_and_2_op(),
            InstrRule::Andi2 => self.build_andi_2_op(),
            InstrRule::And1 => self.build_and_1_op(),
            InstrRule::Andi1 => self.build_andi_1_op(),
            InstrRule::Or2 => self.build_or_2_op(),
            InstrRule::Ori2 => self.build_ori_2_op(),
            InstrRule::Or1 => self.build_or_1_op(),
            InstrRule::Ori1 => self.build_ori_1_op(),
            InstrRule::Xor2 => self.build_xor_2_op(),
            InstrRule::Xori2 => self.build_xori_2_op(),
            InstrRule::Xor1 => self.build_xor_1_op(),
            InstrRule::Xori1 => self.build_xori_1_op(),
            InstrRule::Cmp2 => self.build_cmp_2_op(),
            InstrRule::Cmpi2 => self.build_cmpi_2_op(),
            InstrRule::Cmp1 => self.build_cmp_1_op(),
            InstrRule::Cmpi1 => self.build_cmpi_1_op(),
            InstrRule::Adc2 => self.build_adc_2_op(),
            InstrRule::Adci1 => self.build_adci_1_op(),
            InstrRule::Sbc2 => self.build_sbc_2_op(),
            InstrRule::Sbci1 => self.build_sbci_1_op(),
            InstrRule::AddB => self.build_add_b(),
            InstrRule::SubB => self.build_sub_b(),
            InstrRule::AndB => self.build_and_b(),
            InstrRule::OrB => self.build_or_b(),
            InstrRule::XorB => self.build_xor_b(),
            InstrRule::CmpB => self.build_cmp_b(),
            InstrRule::Inc => self.build_inc(),
            InstrRule::Dec => self.build_dec(),
            InstrRule::Sra => self.build_sra(),
            InstrRule::Shl => self.build_shl(),
            InstrRule::Shr => self.build_shr(),
            InstrRule::Rol => self.build_rol(),
            InstrRule::Ror => self.build_ror(),
            InstrRule::Djnz => self.build_djnz(),
            InstrRule::Syscall => self.build_syscall(),
            InstrRule::TestBit => self.build_bit(),
            InstrRule::SetBit => self.build_set(),
            InstrRule::ResetBit => self.build_res(),
            InstrRule::Ld => self.build_ld(),
            InstrRule::St => self.build_st(),
            InstrRule::Ldi => self.build_ldi(),
            InstrRule::LdB => self.build_ld_b(),
            InstrRule::StB => self.build_st_b(),
            InstrRule::LdiB => self.build_ldi_b(),
            InstrRule::Lea => self.build_lea(),
            InstrRule::PushF => Ok(Instruction::PushF),
            InstrRule::Push => self.build_push(),
            InstrRule::PopF => Ok(Instruction::PopF),
            InstrRule::Pop => self.build_pop(),
            InstrRule::Jcc => self.build_jcc(),
            InstrRule::Jmp => self.build_jmp(),
            InstrRule::Jrcc => self.build_jrcc(),
            InstrRule::Jr => self.build_jr(),
            InstrRule::Callcc => self.build_callcc(),
            InstrRule::Call => self.build_call(),
            InstrRule::CallFarVia => self.build_call_far_via(),
            InstrRule::CallFar => self.build_call_far(),
            InstrRule::JmpFarVia => self.build_jmp_far_via(),
            InstrRule::JmpFar => self.build_jmp_far(),
            InstrRule::WrongCount => {
                let m = string_from_chars(self.rule.as_slice());
                Err(AssemblyError::SyntaxError {
                    line: self.line_number,
                    reason: join2("Invalid operands for instruction: ", m.as_str()),
                })
            },
            InstrRule::Unknown => {
                let m = string_from_chars(self.rule.as_slice());
                Err(AssemblyError::SyntaxError { line: self.line_number, reason: join2("Unknown instruction: ", m.as_str()) })
            },
        }
    }
}

} // verus!
