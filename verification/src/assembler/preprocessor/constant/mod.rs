use vstd::prelude::*;
use crate::assembler::constant_table::ConstantTable;
use crate::ast::{ConditionCode, Directive, Instruction, Operand, Register};
use crate::errors::{desc, AssemblyError, ErrDesc, ErrorKind};
use validators::{
    replace_constant_with_signed_byte, replace_constant_with_unsigned_byte, replace_constant_with_word, replace_in_range,
    replace_spec, signed_byte_spec, unsigned_byte_range_msg, unsigned_byte_spec, word_range_msg, word_spec,
};

pub mod validators;

verus! {

/// The instruction rebuilt around a replaced operand, or the replacement's error.
pub open spec fn lift(i: Instruction, r: Result<Operand, ErrDesc>, rebuild: spec_fn(Operand) -> Instruction) -> Result<Instruction, ErrDesc> {
    match r {
        Ok(o) => Ok(rebuild(o)),
        Err(d) => Err(d),
    }
}

/// An instruction with the constants among its operands replaced by their
/// values, each checked against the range its operand slot allows.
pub open spec fn instruction_constants_spec(i: Instruction, c: Map<Seq<char>, i32>, line: usize) -> Result<Instruction, ErrDesc> {
    match i {
        Instruction::Ldi(a0, op) => lift(i, word_spec(op, c, line), |o: Operand| Instruction::Ldi(a0, o)),
        Instruction::LdAbs(a0, op) => lift(i, word_spec(op, c, line), |o: Operand| Instruction::LdAbs(a0, o)),
        Instruction::StAbs(op, a1) => lift(i, word_spec(op, c, line), |o: Operand| Instruction::StAbs(o, a1)),
        Instruction::PushI(op) => lift(i, word_spec(op, c, line), |o: Operand| Instruction::PushI(o)),
        Instruction::AddAccI(op) => lift(i, word_spec(op, c, line), |o: Operand| Instruction::AddAccI(o)),
        Instruction::SubAccI(op) => lift(i, word_spec(op, c, line), |o: Operand| Instruction::SubAccI(o)),
        Instruction::AndAccI(op) => lift(i, word_spec(op, c, line), |o: Operand| Instruction::AndAccI(o)),
        Instruction::OrAccI(op) => lift(i, word_spec(op, c, line), |o: Operand| Instruction::OrAccI(o)),
        Instruction::XorAccI(op) => lift(i, word_spec(op, c, line), |o: Operand| Instruction::XorAccI(o)),
        Instruction::CmpAccI(op) => lift(i, word_spec(op, c, line), |o: Operand| Instruction::CmpAccI(o)),
        Instruction::AdcAccI(op) => lift(i, word_spec(op, c, line), |o: Operand| Instruction::AdcAccI(o)),
        Instruction::SbcAccI(op) => lift(i, word_spec(op, c, line), |o: Operand| Instruction::SbcAccI(o)),
        Instruction::AddIReg(a0, op) => lift(i, word_spec(op, c, line), |o: Operand| Instruction::AddIReg(a0, o)),
        Instruction::SubIReg(a0, op) => lift(i, word_spec(op, c, line), |o: Operand| Instruction::SubIReg(a0, o)),
        Instruction::AndIReg(a0, op) => lift(i, word_spec(op, c, line), |o: Operand| Instruction::AndIReg(a0, o)),
        Instruction::OrIReg(a0, op) => lift(i, word_spec(op, c, line), |o: Operand| Instruction::OrIReg(a0, o)),
        Instruction::XorIReg(a0, op) => lift(i, word_spec(op, c, line), |o: Operand| Instruction::XorIReg(a0, o)),
        Instruction::CmpIReg(a0, op) => lift(i, word_spec(op, c, line), |o: Operand| Instruction::CmpIReg(a0, o)),
        Instruction::AddSp(op) => lift(i, word_spec(op, c, line), |o: Operand| Instruction::AddSp(o)),
        Instruction::JmpI(op) => lift(i, word_spec(op, c, line), |o: Operand| Instruction::JmpI(o)),
        Instruction::JccI(a0, op) => lift(i, word_spec(op, c, line), |o: Operand| Instruction::JccI(a0, o)),
        Instruction::CallI(op) => lift(i, word_spec(op, c, line), |o: Operand| Instruction::CallI(o)),
        Instruction::CallccI(a0, op) => lift(i, word_spec(op, c, line), |o: Operand| Instruction::CallccI(a0, o)),
        Instruction::Syscall(op) => lift(i, word_spec(op, c, line), |o: Operand| Instruction::Syscall(o)),
        Instruction::LdIndexed(a0, a1, op) => lift(i, signed_byte_spec(op, c, line), |o: Operand| Instruction::LdIndexed(a0, a1, o)),
        Instruction::StIndexed(a0, op, a2) => lift(i, signed_byte_spec(op, c, line), |o: Operand| Instruction::StIndexed(a0, o, a2)),
        Instruction::Lea(a0, a1, op) => lift(i, signed_byte_spec(op, c, line), |o: Operand| Instruction::Lea(a0, a1, o)),
        Instruction::BitReg(a0, op) => lift(i, signed_byte_spec(op, c, line), |o: Operand| Instruction::BitReg(a0, o)),
        Instruction::SetReg(a0, op) => lift(i, signed_byte_spec(op, c, line), |o: Operand| Instruction::SetReg(a0, o)),
        Instruction::ResReg(a0, op) => lift(i, signed_byte_spec(op, c, line), |o: Operand| Instruction::ResReg(a0, o)),
        Instruction::BitIndirect(a0, op) => lift(i, signed_byte_spec(op, c, line), |o: Operand| Instruction::BitIndirect(a0, o)),
        Instruction::SetIndirect(a0, op) => lift(i, signed_byte_spec(op, c, line), |o: Operand| Instruction::SetIndirect(a0, o)),
        Instruction::ResIndirect(a0, op) => lift(i, signed_byte_spec(op, c, line), |o: Operand| Instruction::ResIndirect(a0, o)),
        Instruction::JrI(op) => lift(i, signed_byte_spec(op, c, line), |o: Operand| Instruction::JrI(o)),
        Instruction::JrccI(a0, op) => lift(i, signed_byte_spec(op, c, line), |o: Operand| Instruction::JrccI(a0, o)),
        Instruction::Djnz(op) => lift(i, signed_byte_spec(op, c, line), |o: Operand| Instruction::Djnz(o)),
        Instruction::LdiB(a0, op) => lift(i, unsigned_byte_spec(op, c, line), |o: Operand| Instruction::LdiB(a0, o)),
        Instruction::BitAbs(abs, bit) => match word_spec(abs, c, line) {
            Ok(a) => lift(i, signed_byte_spec(bit, c, line), |b: Operand| Instruction::BitAbs(a, b)),
            Err(d) => Err(d),
        },
        Instruction::SetAbs(abs, bit) => match word_spec(abs, c, line) {
            Ok(a) => lift(i, signed_byte_spec(bit, c, line), |b: Operand| Instruction::SetAbs(a, b)),
            Err(d) => Err(d),
        },
        Instruction::ResAbs(abs, bit) => match word_spec(abs, c, line) {
            Ok(a) => lift(i, signed_byte_spec(bit, c, line), |b: Operand| Instruction::ResAbs(a, b)),
            Err(d) => Err(d),
        },
        _ => Ok(i),
    }
}

/// The instruction left behind when replacing its constants fails: the
/// absolute address of a bit instruction is replaced before its bit number
/// is checked; any other instruction is left as it was.
pub open spec fn instruction_after_error(i: Instruction, c: Map<Seq<char>, i32>, line: usize) -> Instruction {
    match i {
        Instruction::BitAbs(abs, bit) => match word_spec(abs, c, line) {
            Ok(a) => Instruction::BitAbs(a, bit),
            Err(_) => i,
        },
        Instruction::SetAbs(abs, bit) => match word_spec(abs, c, line) {
            Ok(a) => Instruction::SetAbs(a, bit),
            Err(_) => i,
        },
        Instruction::ResAbs(abs, bit) => match word_spec(abs, c, line) {
            Ok(a) => Instruction::ResAbs(a, bit),
            Err(_) => i,
        },
        _ => i,
    }
}

/// Replaces the constants among an instruction's operands.
pub fn process_instruction_constants(
    instruction: &mut Instruction,
    constant_table: &ConstantTable,
    line_number: &usize,
) -> (r: Result<(), AssemblyError>)
    requires
        constant_table.wf(),
    ensures
        match instruction_constants_spec(*old(instruction), constant_table.map(), *line_number) {
            Ok(i) => r is Ok && *final(instruction) == i,
            Err(d) => r matches Err(e) && e.is(d.0, d.1, d.2)
                && *final(instruction) == instruction_after_error(*old(instruction), constant_table.map(), *line_number),
        },
{
    match instruction {
        Instruction::Ldi(_, op) => replace_constant_with_word(op, constant_table, line_number),
        Instruction::LdAbs(_, op) => replace_constant_with_word(op, constant_table, line_number),
        Instruction::StAbs(op, _) => replace_constant_with_word(op, constant_table, line_number),
        Instruction::PushI(op) => replace_constant_with_word(op, constant_table, line_number),
        Instruction::AddAccI(op) => replace_constant_with_word(op, constant_table, line_number),
        Instruction::SubAccI(op) => replace_constant_with_word(op, constant_table, line_number),
        Instruction::AndAccI(op) => replace_constant_with_word(op, constant_table, line_number),
        Instruction::OrAccI(op) => replace_constant_with_word(op, constant_table, line_number),
        Instruction::XorAccI(op) => replace_constant_with_word(op, constant_table, line_number),
        Instruction::CmpAccI(op) => replace_constant_with_word(op, constant_table, line_number),
        Instruction::AdcAccI(op) => replace_constant_with_word(op, constant_table, line_number),
        Instruction::SbcAccI(op) => replace_constant_with_word(op, constant_table, line_number),
        Instruction::AddIReg(_, op) => replace_constant_with_word(op, constant_table, line_number),
        Instruction::SubIReg(_, op) => replace_constant_with_word(op, constant_table, line_number),
        Instruction::AndIReg(_, op) => replace_constant_with_word(op, constant_table, line_number),
        Instruction::OrIReg(_, op) => replace_constant_with_word(op, constant_table, line_number),
        Instruction::XorIReg(_, op) => replace_constant_with_word(op, constant_table, line_number),
        Instruction::CmpIReg(_, op) => replace_constant_with_word(op, constant_table, line_number),
        Instruction::AddSp(op) => replace_constant_with_word(op, constant_table, line_number),
        Instruction::JmpI(op) => replace_constant_with_word(op, constant_table, line_number),
        Instruction::JccI(_, op) => replace_constant_with_word(op, constant_table, line_number),
        Instruction::CallI(op) => replace_constant_with_word(op, constant_table, line_number),
        Instruction::CallccI(_, op) => replace_constant_with_word(op, constant_table, line_number),
        Instruction::Syscall(op) => replace_constant_with_word(op, constant_table, line_number),
        Instruction::LdIndexed(_, _, op) => replace_constant_with_signed_byte(op, constant_table, line_number),
        Instruction::StIndexed(_, op, _) => replace_constant_with_signed_byte(op, constant_table, line_number),
        Instruction::Lea(_, _, op) => replace_constant_with_signed_byte(op, constant_table, line_number),
        Instruction::BitReg(_, op) => replace_constant_with_signed_byte(op, constant_table, line_number),
        Instruction::SetReg(_, op) => replace_constant_with_signed_byte(op, constant_table, line_number),
        Instruction::ResReg(_, op) => replace_constant_with_signed_byte(op, constant_table, line_number),
        Instruction::BitIndirect(_, op) => replace_constant_with_signed_byte(op, constant_table, line_number),
        Instruction::SetIndirect(_, op) => replace_constant_with_signed_byte(op, constant_table, line_number),
        Instruction::ResIndirect(_, op) => replace_constant_with_signed_byte(op, constant_table, line_number),
        Instruction::JrI(op) => replace_constant_with_signed_byte(op, constant_table, line_number),
        Instruction::JrccI(_, op) => replace_constant_with_signed_byte(op, constant_table, line_number),
        Instruction::Djnz(op) => replace_constant_with_signed_byte(op, constant_table, line_number),
        Instruction::LdiB(_, op) => replace_constant_with_unsigned_byte(op, constant_table, line_number),
        Instruction::BitAbs(abs, bit) => {
            let r = replace_constant_with_word(abs, constant_table, line_number);
            if r.is_err() {
                return r;
            }
            replace_constant_with_signed_byte(bit, constant_table, line_number)
        },
        Instruction::SetAbs(abs, bit) => {
            let r = replace_constant_with_word(abs, constant_table, line_number);
            if r.is_err() {
                return r;
            }
            replace_constant_with_signed_byte(bit, constant_table, line_number)
        },
        Instruction::ResAbs(abs, bit) => {
            let r = replace_constant_with_word(abs, constant_table, line_number);
            if r.is_err() {
                return r;
            }
            replace_constant_with_signed_byte(bit, constant_table, line_number)
        },
        _ => Ok(()),
    }
}


/// Every operand of a list with its constant replaced, or the first error.
pub open spec fn replace_all_spec(
    ops: Seq<Operand>,
    c: Map<Seq<char>, i32>,
    lo: int,
    hi: int,
    msg: Seq<char>,
    line: usize,
) -> Result<Seq<Operand>, ErrDesc>
    decreases ops.len(),
{
    if ops.len() == 0 {
        Ok(Seq::empty())
    } else {
        match replace_all_spec(ops.drop_last(), c, lo, hi, msg, line) {
            Ok(prefix) => match replace_spec(ops.last(), c, lo, hi, msg, line) {
                Ok(o) => Ok(prefix.push(o)),
                Err(d) => Err(d),
            },
            Err(d) => Err(d),
        }
    }
}

/// Replacing fails at entry `k`: every entry before it is replaced and
/// entry `k` gives an error.
pub open spec fn fails_at(ops: Seq<Operand>, k: int, c: Map<Seq<char>, i32>, lo: int, hi: int, msg: Seq<char>, line: usize) -> bool {
    &&& 0 <= k < ops.len()
    &&& replace_all_spec(ops.subrange(0, k), c, lo, hi, msg, line) is Ok
    &&& replace_spec(ops[k], c, lo, hi, msg, line) is Err
}

/// The list left behind when replacing fails: the entries before the one
/// that fails are replaced, that one and those after it are as they were.
pub open spec fn left_after_error(ops: Seq<Operand>, c: Map<Seq<char>, i32>, lo: int, hi: int, msg: Seq<char>, line: usize) -> Seq<Operand> {
    let k = choose|k: int| fails_at(ops, k, c, lo, hi, msg, line);
    replace_all_spec(ops.subrange(0, k), c, lo, hi, msg, line)->Ok_0 + ops.subrange(k, ops.len() as int)
}

/// When a prefix is replaced, each of its entries is.
proof fn lemma_prefix_entries_replace(ops: Seq<Operand>, k: int, j: int, c: Map<Seq<char>, i32>, lo: int, hi: int, msg: Seq<char>, line: usize)
    requires
        0 <= j < k <= ops.len(),
        replace_all_spec(ops.subrange(0, k), c, lo, hi, msg, line) is Ok,
    ensures
        replace_spec(ops[j], c, lo, hi, msg, line) is Ok,
    decreases k - j,
{
    assert(ops.subrange(0, k).drop_last() == ops.subrange(0, k - 1));
    assert(ops.subrange(0, k).last() == ops[k - 1]);
    if j < k - 1 {
        lemma_prefix_entries_replace(ops, k - 1, j, c, lo, hi, msg, line);
    }
}

/// Replacing fails at one entry only.
proof fn lemma_fails_at_unique(ops: Seq<Operand>, k: int, c: Map<Seq<char>, i32>, lo: int, hi: int, msg: Seq<char>, line: usize)
    requires
        fails_at(ops, k, c, lo, hi, msg, line),
    ensures
        (choose|j: int| fails_at(ops, j, c, lo, hi, msg, line)) == k,
{
    let j = choose|j: int| fails_at(ops, j, c, lo, hi, msg, line);
    assert(fails_at(ops, j, c, lo, hi, msg, line));
    if j < k {
        lemma_prefix_entries_replace(ops, k, j, c, lo, hi, msg, line);
    } else if k < j {
        lemma_prefix_entries_replace(ops, j, k, c, lo, hi, msg, line);
    }
}

fn replace_all(
    ops: &mut Vec<Operand>,
    constant_table: &ConstantTable,
    lo: i32,
    hi: i32,
    msg: &str,
    line_number: &usize,
) -> (r: Result<(), AssemblyError>)
    requires
        constant_table.wf(),
    ensures
        match replace_all_spec(old(ops)@, constant_table.map(), lo as int, hi as int, msg@, *line_number) {
            Ok(s) => r is Ok && final(ops)@ == s,
            Err(d) => r matches Err(e) && e.is(d.0, d.1, d.2)
                && final(ops)@ == left_after_error(old(ops)@, constant_table.map(), lo as int, hi as int, msg@, *line_number),
        },
{
    let ghost before = ops@;
    let ghost c = constant_table.map();
    let mut i: usize = 0;
    assert(before.subrange(0, 0) == Seq::<Operand>::empty());
    assert(ops@.subrange(0, 0) == Seq::<Operand>::empty());
    assert(ops@.subrange(0, ops@.len() as int) == ops@);
    while i < ops.len()
        invariant
            constant_table.wf(),
            c == constant_table.map(),
            before == old(ops)@,
            i <= ops@.len(),
            ops@.len() == before.len(),
            replace_all_spec(before.subrange(0, i as int), c, lo as int, hi as int, msg@, *line_number)
                == Ok::<Seq<Operand>, ErrDesc>(ops@.subrange(0, i as int)),
            ops@.subrange(i as int, ops@.len() as int) == before.subrange(i as int, before.len() as int),
        decreases ops@.len() - i,
    {
        let ghost mid = ops@;
        assert(mid[i as int] == before[i as int]) by {
            assert(mid.subrange(i as int, mid.len() as int)[0] == before.subrange(i as int, before.len() as int)[0]);
        }
        let r = replace_in_range(&mut ops[i], constant_table, lo, hi, msg, line_number);
        assert(before.subrange(0, i + 1).drop_last() == before.subrange(0, i as int));
        assert(before.subrange(0, i + 1).last() == before[i as int]);
        if r.is_err() {
            proof {
                let d = replace_spec(before[i as int], c, lo as int, hi as int, msg@, *line_number)->Err_0;
                assert(replace_spec(before[i as int], c, lo as int, hi as int, msg@, *line_number) is Err);
                assert(replace_all_spec(before.subrange(0, i + 1), c, lo as int, hi as int, msg@, *line_number) == Err::<Seq<Operand>, ErrDesc>(d));
                lemma_replace_all_error_extends(before, i as int + 1, c, lo as int, hi as int, msg@, *line_number);
                assert(fails_at(before, i as int, c, lo as int, hi as int, msg@, *line_number));
                lemma_fails_at_unique(before, i as int, c, lo as int, hi as int, msg@, *line_number);
                assert(ops@[i as int] == before[i as int]);
                assert(ops@.subrange(i as int, ops@.len() as int) == mid.subrange(i as int, mid.len() as int)) by {
                    assert forall|k: int| 0 <= k < ops@.len() - i implies
                        ops@.subrange(i as int, ops@.len() as int)[k] == mid.subrange(i as int, mid.len() as int)[k] by {
                        if k > 0 {
                            assert(ops@[i + k] == mid[i + k]);
                        }
                    }
                }
                assert(ops@ =~= ops@.subrange(0, i as int) + ops@.subrange(i as int, ops@.len() as int));
                assert(ops@.subrange(0, i as int) == mid.subrange(0, i as int));
            }
            return r;
        }
        assert(ops@.subrange(0, i + 1) == mid.subrange(0, i as int).push(ops@[i as int]));
        assert(ops@.subrange(i + 1, ops@.len() as int) == mid.subrange(i + 1, mid.len() as int));
        assert(mid.subrange(i + 1, mid.len() as int) == before.subrange(i + 1, before.len() as int)) by {
            assert(mid.subrange(i + 1, mid.len() as int) == mid.subrange(i as int, mid.len() as int).subrange(1, mid.len() - i));
            assert(before.subrange(i + 1, before.len() as int) == before.subrange(i as int, before.len() as int).subrange(1, before.len() - i));
        }
        i = i + 1;
    }
    assert(before.subrange(0, i as int) == before);
    assert(ops@.subrange(0, i as int) == ops@);
    Ok(())
}

/// An error in the first `n` operands is the error of the whole list.
proof fn lemma_replace_all_error_extends(
    ops: Seq<Operand>,
    n: int,
    c: Map<Seq<char>, i32>,
    lo: int,
    hi: int,
    msg: Seq<char>,
    line: usize,
)
    requires
        0 <= n <= ops.len(),
        replace_all_spec(ops.subrange(0, n), c, lo, hi, msg, line) is Err,
    ensures
        replace_all_spec(ops, c, lo, hi, msg, line) == replace_all_spec(ops.subrange(0, n), c, lo, hi, msg, line),
    decreases ops.len() - n,
{
    if n < ops.len() {
        assert(ops.subrange(0, n + 1).drop_last() == ops.subrange(0, n));
        lemma_replace_all_error_extends(ops, n + 1, c, lo, hi, msg, line);
    } else {
        assert(ops.subrange(0, n) == ops);
    }
}

/// The directive after its constants were replaced, when that succeeds.
pub open spec fn directive_replaced(before: Directive, after: Directive, c: Map<Seq<char>, i32>, line: usize) -> bool {
    match before {
        Directive::Org(op) => word_spec(op, c, line) == Ok::<Operand, ErrDesc>(after->Org_0) && after is Org,
        Directive::Byte(ops) => after matches Directive::Byte(v)
            && replace_all_spec(ops@, c, 0, 255, unsigned_byte_range_msg(), line) == Ok::<Seq<Operand>, ErrDesc>(v@),
        Directive::Word(ops) => after matches Directive::Word(v)
            && replace_all_spec(ops@, c, 0, 65535, word_range_msg(), line) == Ok::<Seq<Operand>, ErrDesc>(v@),
        Directive::Interrupt(ops) => after matches Directive::Interrupt(v)
            && replace_all_spec(ops@, c, 0, 65535, word_range_msg(), line) == Ok::<Seq<Operand>, ErrDesc>(v@),
        _ => after == before,
    }
}

/// The error replacing the constants of a directive gives, if any.
pub open spec fn directive_error(before: Directive, c: Map<Seq<char>, i32>, line: usize) -> Option<ErrDesc> {
    match before {
        Directive::Org(op) => match word_spec(op, c, line) {
            Ok(_) => None,
            Err(d) => Some(d),
        },
        Directive::Byte(ops) => match replace_all_spec(ops@, c, 0, 255, unsigned_byte_range_msg(), line) {
            Ok(_) => None,
            Err(d) => Some(d),
        },
        Directive::Word(ops) | Directive::Interrupt(ops) => match replace_all_spec(ops@, c, 0, 65535, word_range_msg(), line) {
            Ok(_) => None,
            Err(d) => Some(d),
        },
        _ => None,
    }
}

/// The directive left behind when replacing its constants fails: a list
/// keeps its entries before the failing one replaced; an `.org` is left as
/// it was.
pub open spec fn directive_after_error(before: Directive, after: Directive, c: Map<Seq<char>, i32>, line: usize) -> bool {
    match before {
        Directive::Byte(ops) => after matches Directive::Byte(v)
            && v@ == left_after_error(ops@, c, 0, 255, unsigned_byte_range_msg(), line),
        Directive::Word(ops) => after matches Directive::Word(v)
            && v@ == left_after_error(ops@, c, 0, 65535, word_range_msg(), line),
        Directive::Interrupt(ops) => after matches Directive::Interrupt(v)
            && v@ == left_after_error(ops@, c, 0, 65535, word_range_msg(), line),
        _ => after == before,
    }
}

/// Replaces the constants among a directive's operands: the address of
/// `.org`, and every entry of `.byte`, `.word` and an interrupt table.
pub fn process_directive_constants(
    directive: &mut Directive,
    constant_table: &ConstantTable,
    line_number: &usize,
) -> (r: Result<(), AssemblyError>)
    requires
        constant_table.wf(),
    ensures
        match directive_error(*old(directive), constant_table.map(), *line_number) {
            None => r is Ok && directive_replaced(*old(directive), *final(directive), constant_table.map(), *line_number),
            Some(d) => r matches Err(e) && e.is(d.0, d.1, d.2)
                && directive_after_error(*old(directive), *final(directive), constant_table.map(), *line_number),
        },
{
    match directive {
        Directive::Org(op) => replace_constant_with_word(op, constant_table, line_number),
        Directive::Byte(ops) => replace_all(ops, constant_table, 0, 255, "Expected constant to be an unsigned 8 bit value (max: 255, min: 0)", line_number),
        Directive::Word(ops) => replace_all(ops, constant_table, 0, 65535, "Expected constant to be an unsigned 16 bit value (max: 65535, min: 0)", line_number),
        Directive::Interrupt(ops) => replace_all(ops, constant_table, 0, 65535, "Expected constant to be an unsigned 16 bit value (max: 65535, min: 0)", line_number),
        _ => Ok(()),
    }
}

/// A replaced operand names no constant, so replacing it again, under any
/// range, lets it stand.
proof fn lemma_op_stays(op: Operand, c: Map<Seq<char>, i32>, lo: int, hi: int, msg: Seq<char>, line: usize)
    requires
        replace_spec(op, c, lo, hi, msg, line) is Ok,
    ensures
        ({
            let o = replace_spec(op, c, lo, hi, msg, line)->Ok_0;
            &&& word_spec(o, c, line) == Ok::<Operand, ErrDesc>(o)
            &&& signed_byte_spec(o, c, line) == Ok::<Operand, ErrDesc>(o)
            &&& unsigned_byte_spec(o, c, line) == Ok::<Operand, ErrDesc>(o)
        }),
{
}

/// Replacing constants leaves no constant's name behind, so replacing them
/// once more changes nothing.
pub proof fn lemma_replacing_twice_changes_nothing(i: Instruction, c: Map<Seq<char>, i32>, line: usize)
    requires
        instruction_constants_spec(i, c, line) is Ok,
    ensures
        instruction_constants_spec(instruction_constants_spec(i, c, line)->Ok_0, c, line)
            == instruction_constants_spec(i, c, line),
{
    match i {
        Instruction::Ldi(a0, op) => lemma_op_stays(op, c, 0, 65535, validators::word_range_msg(), line),
        Instruction::LdAbs(a0, op) => lemma_op_stays(op, c, 0, 65535, validators::word_range_msg(), line),
        Instruction::StAbs(op, a1) => lemma_op_stays(op, c, 0, 65535, validators::word_range_msg(), line),
        Instruction::PushI(op) => lemma_op_stays(op, c, 0, 65535, validators::word_range_msg(), line),
        Instruction::AddAccI(op) => lemma_op_stays(op, c, 0, 65535, validators::word_range_msg(), line),
        Instruction::SubAccI(op) => lemma_op_stays(op, c, 0, 65535, validators::word_range_msg(), line),
        Instruction::AndAccI(op) => lemma_op_stays(op, c, 0, 65535, validators::word_range_msg(), line),
        Instruction::OrAccI(op) => lemma_op_stays(op, c, 0, 65535, validators::word_range_msg(), line),
        Instruction::XorAccI(op) => lemma_op_stays(op, c, 0, 65535, validators::word_range_msg(), line),
        Instruction::CmpAccI(op) => lemma_op_stays(op, c, 0, 65535, validators::word_range_msg(), line),
        Instruction::AdcAccI(op) => lemma_op_stays(op, c, 0, 65535, validators::word_range_msg(), line),
        Instruction::SbcAccI(op) => lemma_op_stays(op, c, 0, 65535, validators::word_range_msg(), line),
        Instruction::AddIReg(a0, op) => lemma_op_stays(op, c, 0, 65535, validators::word_range_msg(), line),
        Instruction::SubIReg(a0, op) => lemma_op_stays(op, c, 0, 65535, validators::word_range_msg(), line),
        Instruction::AndIReg(a0, op) => lemma_op_stays(op, c, 0, 65535, validators::word_range_msg(), line),
        Instruction::OrIReg(a0, op) => lemma_op_stays(op, c, 0, 65535, validators::word_range_msg(), line),
        Instruction::XorIReg(a0, op) => lemma_op_stays(op, c, 0, 65535, validators::word_range_msg(), line),
        Instruction::CmpIReg(a0, op) => lemma_op_stays(op, c, 0, 65535, validators::word_range_msg(), line),
        Instruction::AddSp(op) => lemma_op_stays(op, c, 0, 65535, validators::word_range_msg(), line),
        Instruction::JmpI(op) => lemma_op_stays(op, c, 0, 65535, validators::word_range_msg(), line),
        Instruction::JccI(a0, op) => lemma_op_stays(op, c, 0, 65535, validators::word_range_msg(), line),
        Instruction::CallI(op) => lemma_op_stays(op, c, 0, 65535, validators::word_range_msg(), line),
        Instruction::CallccI(a0, op) => lemma_op_stays(op, c, 0, 65535, validators::word_range_msg(), line),
        Instruction::Syscall(op) => lemma_op_stays(op, c, 0, 65535, validators::word_range_msg(), line),
        Instruction::LdIndexed(a0, a1, op) => lemma_op_stays(op, c, -128, 127, validators::signed_byte_range_msg(), line),
        Instruction::StIndexed(a0, op, a2) => lemma_op_stays(op, c, -128, 127, validators::signed_byte_range_msg(), line),
        Instruction::Lea(a0, a1, op) => lemma_op_stays(op, c, -128, 127, validators::signed_byte_range_msg(), line),
        Instruction::BitReg(a0, op) => lemma_op_stays(op, c, -128, 127, validators::signed_byte_range_msg(), line),
        Instruction::SetReg(a0, op) => lemma_op_stays(op, c, -128, 127, validators::signed_byte_range_msg(), line),
        Instruction::ResReg(a0, op) => lemma_op_stays(op, c, -128, 127, validators::signed_byte_range_msg(), line),
        Instruction::BitIndirect(a0, op) => lemma_op_stays(op, c, -128, 127, validators::signed_byte_range_msg(), line),
        Instruction::SetIndirect(a0, op) => lemma_op_stays(op, c, -128, 127, validators::signed_byte_range_msg(), line),
        Instruction::ResIndirect(a0, op) => lemma_op_stays(op, c, -128, 127, validators::signed_byte_range_msg(), line),
        Instruction::JrI(op) => lemma_op_stays(op, c, -128, 127, validators::signed_byte_range_msg(), line),
        Instruction::JrccI(a0, op) => lemma_op_stays(op, c, -128, 127, validators::signed_byte_range_msg(), line),
        Instruction::Djnz(op) => lemma_op_stays(op, c, -128, 127, validators::signed_byte_range_msg(), line),
        Instruction::LdiB(a0, op) => lemma_op_stays(op, c, 0, 255, validators::unsigned_byte_range_msg(), line),
        Instruction::BitAbs(abs, bit) => {
            lemma_op_stays(abs, c, 0, 65535, validators::word_range_msg(), line);
            lemma_op_stays(bit, c, -128, 127, validators::signed_byte_range_msg(), line);
        },
        Instruction::SetAbs(abs, bit) => {
            lemma_op_stays(abs, c, 0, 65535, validators::word_range_msg(), line);
            lemma_op_stays(bit, c, -128, 127, validators::signed_byte_range_msg(), line);
        },
        Instruction::ResAbs(abs, bit) => {
            lemma_op_stays(abs, c, 0, 65535, validators::word_range_msg(), line);
            lemma_op_stays(bit, c, -128, 127, validators::signed_byte_range_msg(), line);
        },
        _ => {},
    }
}

/// `with_name` is an instruction that names a constant of value `v` in an
/// operand that takes values from `lo` to `hi`, and `with_value` the same
/// instruction with `v` in its place: the constant is replaced when its
/// value fits, and otherwise refused with the semantic error `msg`.
pub open spec fn takes_constant(
    with_name: Instruction,
    with_value: Instruction,
    v: i32,
    lo: int,
    hi: int,
    msg: Seq<char>,
    c: Map<Seq<char>, i32>,
    line: usize,
) -> bool {
    &&& lo <= v <= hi ==> instruction_constants_spec(with_name, c, line) == Ok::<Instruction, ErrDesc>(with_value)
    &&& !(lo <= v <= hi) ==> instruction_constants_spec(with_name, c, line)
        == Err::<Instruction, ErrDesc>(desc(ErrorKind::Semantic, Some(line), msg))
}

/// A constant used as an operand takes the value it was defined with for
/// every value the operand can hold: any unsigned 16 bit value in a word
/// operand (an immediate load such as `LDI`, an absolute address, a jump or
/// call target, an immediate of arithmetic, a system call number), any
/// unsigned byte in `LDI.b`, and any signed byte in an index offset, a bit
/// number or a relative jump. Only a value outside that range is refused,
/// with a semantic error on the line that names the range.
pub proof fn lemma_constant_operands_take_their_value(
    name: String,
    rd: Register,
    rs: Register,
    cc: ConditionCode,
    k: i32,
    c: Map<Seq<char>, i32>,
    line: usize,
)
    requires
        c.contains_key(name@),
    ensures
        ({
            let l = Operand::Label(name);
            let v = c[name@];
            let n = Operand::Immediate(v);
            let k = Operand::Immediate(k);
            let word = "Expected constant to be an unsigned 16 bit value (max: 65535, min: 0)"@;
            let sbyte = "Expected constant to be a signed 8 bit value (max: 127, min: -128)"@;
            let ubyte = "Expected constant to be an unsigned 8 bit value (max: 255, min: 0)"@;
            &&& takes_constant(Instruction::Ldi(rd, l), Instruction::Ldi(rd, n), v, 0, 65535, word, c, line)
            &&& takes_constant(Instruction::LdAbs(rd, l), Instruction::LdAbs(rd, n), v, 0, 65535, word, c, line)
            &&& takes_constant(Instruction::LdIndexed(rd, rs, l), Instruction::LdIndexed(rd, rs, n), v, -128, 127, sbyte, c, line)
            &&& takes_constant(Instruction::StAbs(l, rs), Instruction::StAbs(n, rs), v, 0, 65535, word, c, line)
            &&& takes_constant(Instruction::StIndexed(rd, l, rs), Instruction::StIndexed(rd, n, rs), v, -128, 127, sbyte, c, line)
            &&& takes_constant(Instruction::LdiB(rd, l), Instruction::LdiB(rd, n), v, 0, 255, ubyte, c, line)
            &&& takes_constant(Instruction::Lea(rd, rs, l), Instruction::Lea(rd, rs, n), v, -128, 127, sbyte, c, line)
            &&& takes_constant(Instruction::PushI(l), Instruction::PushI(n), v, 0, 65535, word, c, line)
            &&& takes_constant(Instruction::AddAccI(l), Instruction::AddAccI(n), v, 0, 65535, word, c, line)
            &&& takes_constant(Instruction::SubAccI(l), Instruction::SubAccI(n), v, 0, 65535, word, c, line)
            &&& takes_constant(Instruction::AndAccI(l), Instruction::AndAccI(n), v, 0, 65535, word, c, line)
            &&& takes_constant(Instruction::OrAccI(l), Instruction::OrAccI(n), v, 0, 65535, word, c, line)
            &&& takes_constant(Instruction::XorAccI(l), Instruction::XorAccI(n), v, 0, 65535, word, c, line)
            &&& takes_constant(Instruction::CmpAccI(l), Instruction::CmpAccI(n), v, 0, 65535, word, c, line)
            &&& takes_constant(Instruction::AdcAccI(l), Instruction::AdcAccI(n), v, 0, 65535, word, c, line)
            &&& takes_constant(Instruction::SbcAccI(l), Instruction::SbcAccI(n), v, 0, 65535, word, c, line)
            &&& takes_constant(Instruction::AddIReg(rd, l), Instruction::AddIReg(rd, n), v, 0, 65535, word, c, line)
            &&& takes_constant(Instruction::SubIReg(rd, l), Instruction::SubIReg(rd, n), v, 0, 65535, word, c, line)
            &&& takes_constant(Instruction::AndIReg(rd, l), Instruction::AndIReg(rd, n), v, 0, 65535, word, c, line)
            &&& takes_constant(Instruction::OrIReg(rd, l), Instruction::OrIReg(rd, n), v, 0, 65535, word, c, line)
            &&& takes_constant(Instruction::XorIReg(rd, l), Instruction::XorIReg(rd, n), v, 0, 65535, word, c, line)
            &&& takes_constant(Instruction::CmpIReg(rd, l), Instruction::CmpIReg(rd, n), v, 0, 65535, word, c, line)
            &&& takes_constant(Instruction::AddSp(l), Instruction::AddSp(n), v, 0, 65535, word, c, line)
            &&& takes_constant(Instruction::BitReg(rd, l), Instruction::BitReg(rd, n), v, -128, 127, sbyte, c, line)
            &&& takes_constant(Instruction::SetReg(rd, l), Instruction::SetReg(rd, n), v, -128, 127, sbyte, c, line)
            &&& takes_constant(Instruction::ResReg(rd, l), Instruction::ResReg(rd, n), v, -128, 127, sbyte, c, line)
            &&& takes_constant(Instruction::BitIndirect(rd, l), Instruction::BitIndirect(rd, n), v, -128, 127, sbyte, c, line)
            &&& takes_constant(Instruction::SetIndirect(rd, l), Instruction::SetIndirect(rd, n), v, -128, 127, sbyte, c, line)
            &&& takes_constant(Instruction::ResIndirect(rd, l), Instruction::ResIndirect(rd, n), v, -128, 127, sbyte, c, line)
            &&& takes_constant(Instruction::BitAbs(l, k), Instruction::BitAbs(n, k), v, 0, 65535, word, c, line)
            &&& takes_constant(Instruction::SetAbs(l, k), Instruction::SetAbs(n, k), v, 0, 65535, word, c, line)
            &&& takes_constant(Instruction::ResAbs(l, k), Instruction::ResAbs(n, k), v, 0, 65535, word, c, line)
            &&& takes_constant(Instruction::BitAbs(k, l), Instruction::BitAbs(k, n), v, -128, 127, sbyte, c, line)
            &&& takes_constant(Instruction::SetAbs(k, l), Instruction::SetAbs(k, n), v, -128, 127, sbyte, c, line)
            &&& takes_constant(Instruction::ResAbs(k, l), Instruction::ResAbs(k, n), v, -128, 127, sbyte, c, line)
            &&& takes_constant(Instruction::JmpI(l), Instruction::JmpI(n), v, 0, 65535, word, c, line)
            &&& takes_constant(Instruction::JccI(cc, l), Instruction::JccI(cc, n), v, 0, 65535, word, c, line)
            &&& takes_constant(Instruction::JrI(l), Instruction::JrI(n), v, -128, 127, sbyte, c, line)
            &&& takes_constant(Instruction::JrccI(cc, l), Instruction::JrccI(cc, n), v, -128, 127, sbyte, c, line)
            &&& takes_constant(Instruction::Djnz(l), Instruction::Djnz(n), v, -128, 127, sbyte, c, line)
            &&& takes_constant(Instruction::CallI(l), Instruction::CallI(n), v, 0, 65535, word, c, line)
            &&& takes_constant(Instruction::CallccI(cc, l), Instruction::CallccI(cc, n), v, 0, 65535, word, c, line)
            &&& takes_constant(Instruction::Syscall(l), Instruction::Syscall(n), v, 0, 65535, word, c, line)
        }),
{
}

} // verus!
