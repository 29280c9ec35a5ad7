use vstd::prelude::*;
use crate::assembler::code_pass::{
    at_least, bump, bytecode_spec, rom_image, byte_data, emit, header_bytes, lemma_pass2_error_extends, pass2_step, pass2_upto, vector_data,
    word_data, zeros, Pass2View,
};
use crate::assembler::encoder::{encode_spec, instruction_size, lemma_encoding_has_instruction_size};
use crate::assembler::layout::{grow, pad_to};
use crate::assembler::section_stack::AddrCounter;
use crate::assembler::symbol_pass::{
    label_step, lemma_pass1_error_extends, pass1_step, pass1_upto, symbols_spec, Pass1Params, Pass1View,
};
use crate::assembler::symbol_table::Symbol;
use crate::ast::{AssemblyLine, Directive, Instruction, Operand};

verus! {

/// A line whose room pass 1 reserves and pass 2 fills: an empty or label
/// line, an instruction, or a `.byte` list of numbers, a `.word` list of
/// numbers and labels, a header, an interrupt table of at most 16 entries,
/// an `.align`, a `.define`, or an `.org` to a number.
pub open spec fn fills_reserved_room(l: AssemblyLine) -> bool {
    match l.instruction {
        Some(_) => l.directive is None,
        None => match l.directive {
            None => true,
            Some(Directive::Byte(ops)) => ops@.len() <= u32::MAX
                && forall|i: int| 0 <= i < ops@.len() ==> (#[trigger] ops@[i]) is Immediate,
            Some(Directive::Word(ops)) => ops@.len() <= u32::MAX
                && forall|i: int| 0 <= i < ops@.len() ==> ((#[trigger] ops@[i]) is Immediate || ops@[i] is Label),
            Some(Directive::Header(_)) => true,
            Some(Directive::Interrupt(ops)) => ops@.len() <= 16,
            Some(Directive::Align(_)) => true,
            Some(Directive::Define(_, _)) => true,
            Some(Directive::Org(Operand::Immediate(_))) => true,
            Some(_) => false,
        },
    }
}

proof fn lemma_byte_data_len(ops: Seq<Operand>)
    requires
        forall|i: int| 0 <= i < ops.len() ==> (#[trigger] ops[i]) is Immediate,
    ensures
        byte_data(ops).len() == ops.len(),
    decreases ops.len(),
{
    if ops.len() > 0 {
        assert forall|i: int| 0 <= i < ops.drop_last().len() implies (#[trigger] ops.drop_last()[i]) is Immediate by {
            assert(ops.drop_last()[i] == ops[i]);
        }
        lemma_byte_data_len(ops.drop_last());
        assert(ops.last() == ops[ops.len() - 1]);
    }
}

proof fn lemma_word_data_len(ops: Seq<Operand>, syms: Map<Seq<char>, Symbol>, line: usize)
    requires
        forall|i: int| 0 <= i < ops.len() ==> ((#[trigger] ops[i]) is Immediate || ops[i] is Label),
    ensures
        word_data(ops, syms, line) matches Ok(d) ==> d.len() == 2 * ops.len(),
    decreases ops.len(),
{
    if ops.len() > 0 {
        assert forall|i: int| 0 <= i < ops.drop_last().len() implies
            ((#[trigger] ops.drop_last()[i]) is Immediate || ops.drop_last()[i] is Label) by {
            assert(ops.drop_last()[i] == ops[i]);
        }
        lemma_word_data_len(ops.drop_last(), syms, line);
        assert(ops.last() == ops[ops.len() - 1]);
    }
}

proof fn lemma_vector_data_len(ops: Seq<Operand>, syms: Map<Seq<char>, Symbol>, line: usize)
    ensures
        vector_data(ops, syms, line) matches Ok(d) ==> d.len() == 2 * ops.len(),
    decreases ops.len(),
{
    if ops.len() > 0 {
        lemma_vector_data_len(ops.drop_last(), syms, line);
    }
}

/// Growing the counter by `n` bytes in pass 1 and moving it by `n` bytes
/// in pass 2 agree when pass 1 does not overflow.
proof fn lemma_grow_is_bump(c: AddrCounter, n: int, line: usize)
    requires
        0 <= n,
        grow(c, n, line) is Ok,
    ensures
        n <= u32::MAX,
        grow(c, n, line) == Ok::<AddrCounter, crate::errors::ErrDesc>(bump(c, n as u32)),
{
    assert(c.physical_addr + n <= u32::MAX);
    assert(c.physical_addr.wrapping_add(n as u32) == (c.physical_addr + n) as u32);
}

/// The counter of bank 0, where logical and physical addresses are the same.
pub open spec fn in_bank0(c: AddrCounter) -> bool {
    c.bank == 0 && c.logical_addr == c.physical_addr
}

#[verifier::rlimit(60)]
/// Pass 2 emits exactly the room pass 1 reserves: from the same address
/// counter in bank 0, a line of code or data leaves both passes at the same
/// counter, still in bank 0, having written as many bytes as pass 1 moved
/// forward.
pub proof fn lemma_passes_agree_on_room(
    s1: Pass1View,
    s2: Pass2View,
    l: AssemblyLine,
    p: Pass1Params,
    syms: Map<Seq<char>, Symbol>,
)
    requires
        s1.counter == s2.counter,
        in_bank0(s1.counter),
        fills_reserved_room(l),
        pass1_step(s1, l, p) is Ok,
        pass2_step(s2, l, syms) is Ok,
    ensures
        pass1_step(s1, l, p)->Ok_0.counter == pass2_step(s2, l, syms)->Ok_0.counter,
        in_bank0(pass1_step(s1, l, p)->Ok_0.counter),
        pass2_step(s2, l, syms)->Ok_0.bytes.len() - s2.bytes.len()
            == pass1_step(s1, l, p)->Ok_0.counter.physical_addr - s1.counter.physical_addr,
{
    let t1 = label_step(s1, l, p)->Ok_0;
    assert(t1.counter == s1.counter);
    let c = s1.counter;
    match l.instruction {
        Some(i) => {
            let code = encode_spec(i, syms, s2.counter.logical_addr, s2.counter.bank, l.line_number)->Ok_0;
            lemma_encoding_has_instruction_size(i, syms, s2.counter.logical_addr, s2.counter.bank, l.line_number);
            lemma_grow_is_bump(c, instruction_size(i) as int, l.line_number);
            assert(pass2_step(s2, l, syms) == Ok::<Pass2View, crate::errors::ErrDesc>(emit(s2, code)));
        },
        None => match l.directive {
            None => {},
            Some(d) => {
                match d {
                    Directive::Byte(ops) => {
                        lemma_byte_data_len(ops@);
                        lemma_grow_is_bump(c, ops@.len() as u32 as int, l.line_number);
                    },
                    Directive::Word(ops) => {
                        lemma_word_data_len(ops@, syms, l.line_number);
                        lemma_grow_is_bump(c, ops@.len() as u32 as int * 2, l.line_number);
                    },
                    Directive::Header(info) => {
                        lemma_grow_is_bump(c, 96, l.line_number);
                        let h = header_bytes(info);
                        assert(h.len() == 0x60);
                    },
                    Directive::Interrupt(ops) => {
                        lemma_vector_data_len(ops@, syms, l.line_number);
                        lemma_grow_is_bump(c, 32, l.line_number);
                        let data = vector_data(ops@, syms, l.line_number)->Ok_0;
                        assert(at_least(data, 32).len() == 32);
                    },
                    Directive::Org(Operand::Immediate(a)) => {
                        let logical = a as u32;
                        assert(logical <= p.final_logical_addr as u32);
                        assert(logical <= 0x3FFF);
                        assert((logical as u16) as u32 == logical);
                        assert((a as u32) as u16 == a as u16) by (bit_vector);
                    },
                    Directive::Align(al) => {
                        let n = pad_to(c.physical_addr, al);
                        assert(n >= 0) by {
                            if al != 0 {
                                assert(((al - c.physical_addr % al) as int) % (al as int) >= 0);
                            }
                        }
                        lemma_grow_is_bump(c, n, l.line_number);
                        assert(zeros(n).len() == n);
                    },
                    _ => {},
                }
            },
        },
    }
}

/// Every line of the program fills the room pass 1 reserves for it.
pub open spec fn all_fill_reserved_room(lines: Seq<AssemblyLine>) -> bool {
    forall|i: int| 0 <= i < lines.len() ==> fills_reserved_room(#[trigger] lines[i])
}

proof fn lemma_pass1_prefix_ok(lines: Seq<AssemblyLine>, n: int, p: Pass1Params)
    requires
        0 <= n <= lines.len(),
        pass1_upto(lines, lines.len() as int, p) is Ok,
    ensures
        pass1_upto(lines, n, p) is Ok,
{
    if pass1_upto(lines, n, p) is Err {
        lemma_pass1_error_extends(lines, n, p);
    }
}

proof fn lemma_pass2_prefix_ok(lines: Seq<AssemblyLine>, n: int, syms: Map<Seq<char>, Symbol>)
    requires
        0 <= n <= lines.len(),
        pass2_upto(lines, lines.len() as int, syms) is Ok,
    ensures
        pass2_upto(lines, n, syms) is Ok,
{
    if pass2_upto(lines, n, syms) is Err {
        lemma_pass2_error_extends(lines, n, syms);
    }
}

/// Over the first `n` lines of a program of code and data, both passes
/// reach the same address counter, and pass 2 has written exactly as many
/// bytes as the physical address says.
pub proof fn lemma_passes_agree_upto(lines: Seq<AssemblyLine>, n: int, p: Pass1Params, syms: Map<Seq<char>, Symbol>)
    requires
        all_fill_reserved_room(lines),
        0 <= n <= lines.len(),
        pass1_upto(lines, n, p) is Ok,
        pass2_upto(lines, n, syms) is Ok,
    ensures
        pass1_upto(lines, n, p)->Ok_0.counter == pass2_upto(lines, n, syms)->Ok_0.counter,
        pass2_upto(lines, n, syms)->Ok_0.bytes.len() == pass2_upto(lines, n, syms)->Ok_0.counter.physical_addr,
        in_bank0(pass1_upto(lines, n, p)->Ok_0.counter),
    decreases n,
{
    if n > 0 {
        lemma_passes_agree_upto(lines, n - 1, p, syms);
        let s1 = pass1_upto(lines, n - 1, p)->Ok_0;
        let s2 = pass2_upto(lines, n - 1, syms)->Ok_0;
        assert(fills_reserved_room(lines[n - 1]));
        lemma_passes_agree_on_room(s1, s2, lines[n - 1], p, syms);
    }
}

/// Pass 1 on fewer lines succeeds where it succeeds on more.
proof fn lemma_pass1_ok_down(lines: Seq<AssemblyLine>, n: int, m: int, p: Pass1Params)
    requires
        0 <= n <= m <= lines.len(),
        pass1_upto(lines, m, p) is Ok,
    ensures
        pass1_upto(lines, n, p) is Ok,
    decreases m - n,
{
    if n < m {
        assert(pass1_upto(lines, m - 1, p) is Ok);
        lemma_pass1_ok_down(lines, n, m - 1, p);
    }
}

/// One line of pass 1 keeps every symbol defined before it.
proof fn lemma_pass1_step_keeps(s: Pass1View, l: AssemblyLine, p: Pass1Params, key: Seq<char>)
    requires
        pass1_step(s, l, p) is Ok,
        s.symbols.contains_key(key),
    ensures
        pass1_step(s, l, p)->Ok_0.symbols.contains_key(key),
        pass1_step(s, l, p)->Ok_0.symbols[key] == s.symbols[key],
{
    let t = label_step(s, l, p)->Ok_0;
    assert(t.symbols.contains_key(key) && t.symbols[key] == s.symbols[key]);
    lemma_step_keeps_symbols(t, l, p);
}

/// Pass 1 keeps every symbol it has defined.
proof fn lemma_symbols_kept(lines: Seq<AssemblyLine>, k: int, m: int, p: Pass1Params, key: Seq<char>)
    requires
        0 <= k <= m <= lines.len(),
        pass1_upto(lines, m, p) is Ok,
        pass1_upto(lines, k, p) is Ok,
        pass1_upto(lines, k, p)->Ok_0.symbols.contains_key(key),
    ensures
        pass1_upto(lines, m, p)->Ok_0.symbols.contains_key(key),
        pass1_upto(lines, m, p)->Ok_0.symbols[key] == pass1_upto(lines, k, p)->Ok_0.symbols[key],
    decreases m - k,
{
    if k < m {
        lemma_pass1_ok_down(lines, k + 1, m, p);
        let s = pass1_upto(lines, k, p)->Ok_0;
        assert(pass1_upto(lines, k + 1, p) == pass1_step(s, lines[k], p));
        lemma_pass1_step_keeps(s, lines[k], p, key);
        lemma_symbols_kept(lines, k + 1, m, p, key);
    }
}

/// The steps after a line's label leave the symbols as they are.
proof fn lemma_step_keeps_symbols(t: Pass1View, l: AssemblyLine, p: Pass1Params)
    ensures
        ({
            let r2 = match l.instruction {
                Some(i) => crate::assembler::symbol_pass::with_counter(t, grow(t.counter, instruction_size(i) as int, l.line_number)),
                None => Ok(t),
            };
            r2 matches Ok(t2) ==> t2.symbols == t.symbols && (match l.directive {
                Some(d) => crate::assembler::symbol_pass::directive_step(t2, d, l.line_number, p) matches Ok(t3) ==> t3.symbols == t.symbols,
                None => true,
            })
        }),
{
}

/// A label marks its code: the address and bank pass 1 gives a label are
/// those at which pass 2 writes the line that follows it, and the bytes
/// written before it are exactly those that lie before that address.
pub proof fn lemma_label_marks_its_code(
    lines: Seq<AssemblyLine>,
    k: int,
    p: Pass1Params,
    syms: Map<Seq<char>, Symbol>,
)
    requires
        all_fill_reserved_room(lines),
        0 <= k < lines.len(),
        lines[k].label is Some,
        symbols_spec(lines, p) is Ok,
        pass2_upto(lines, lines.len() as int, syms) is Ok,
    ensures
        ({
            let m = symbols_spec(lines, p)->Ok_0;
            let here = pass2_upto(lines, k, syms)->Ok_0;
            let label = lines[k].label->Some_0@;
            &&& m.contains_key(label)
            &&& m[label] == Symbol { logical_address: here.counter.logical_addr, bank: here.counter.bank }
            &&& here.bytes.len() == here.counter.physical_addr
            &&& here.bytes.len() == m[label].logical_address
        }),
{
    let n = lines.len() as int;
    assert(pass1_upto(lines, n, p) is Ok);
    lemma_pass1_prefix_ok(lines, k, p);
    lemma_pass1_prefix_ok(lines, k + 1, p);
    lemma_pass2_prefix_ok(lines, k, syms);
    lemma_passes_agree_upto(lines, k, p, syms);
    let s = pass1_upto(lines, k, p)->Ok_0;
    let l = lines[k];
    let label = l.label->Some_0@;
    let t = label_step(s, l, p)->Ok_0;
    assert(t.symbols.contains_key(label));
    assert(t.symbols[label] == Symbol { logical_address: s.counter.logical_addr, bank: s.counter.bank });
    lemma_step_keeps_symbols(t, l, p);
    assert(pass1_upto(lines, k + 1, p)->Ok_0.symbols == t.symbols);
    lemma_symbols_kept(lines, k + 1, n, p, label);
}

/// Line `l` defines the label `key`.
pub open spec fn label_is(l: AssemblyLine, key: Seq<char>) -> bool {
    l.label matches Some(s) && s@ == key
}

/// One of the first `n` lines defines the label `key`.
pub open spec fn has_label(lines: Seq<AssemblyLine>, n: int, key: Seq<char>) -> bool {
    exists|i: int| 0 <= i < n && #[trigger] label_is(lines[i], key)
}

/// No two of the first `n` lines define the same label.
pub open spec fn labels_distinct(lines: Seq<AssemblyLine>, n: int) -> bool {
    forall|i: int, j: int, key: Seq<char>|
        0 <= i < j < n && #[trigger] label_is(lines[i], key) ==> !#[trigger] label_is(lines[j], key)
}

/// Pass 1 on a line changes the symbols only by its label.
proof fn lemma_step_symbols(s: Pass1View, l: AssemblyLine, p: Pass1Params)
    requires
        pass1_step(s, l, p) is Ok,
    ensures
        label_step(s, l, p) is Ok,
        pass1_step(s, l, p)->Ok_0.symbols == label_step(s, l, p)->Ok_0.symbols,
{
    let t = label_step(s, l, p)->Ok_0;
    lemma_step_keeps_symbols(t, l, p);
}

/// The symbols of the first `n` lines are their labels, each defined once
/// and none a constant.
proof fn lemma_symbols_are_labels_upto(lines: Seq<AssemblyLine>, n: int, p: Pass1Params)
    requires
        0 <= n <= lines.len(),
        pass1_upto(lines, n, p) is Ok,
    ensures
        forall|key: Seq<char>| #[trigger] pass1_upto(lines, n, p)->Ok_0.symbols.contains_key(key) <==> has_label(lines, n, key),
        labels_distinct(lines, n),
        forall|key: Seq<char>| #[trigger] pass1_upto(lines, n, p)->Ok_0.symbols.contains_key(key) ==> !p.consts.contains_key(key),
    decreases n,
{
    if n > 0 {
        lemma_pass1_ok_down(lines, n - 1, n, p);
        lemma_symbols_are_labels_upto(lines, n - 1, p);
        let s = pass1_upto(lines, n - 1, p)->Ok_0;
        let l = lines[n - 1];
        lemma_step_symbols(s, l, p);
        let m = pass1_upto(lines, n, p)->Ok_0.symbols;
        assert forall|key: Seq<char>| #[trigger] m.contains_key(key) <==> has_label(lines, n, key) by {
            if m.contains_key(key) && !s.symbols.contains_key(key) {
                assert(label_is(lines[n - 1], key));
            }
            if has_label(lines, n, key) {
                let i = choose|i: int| 0 <= i < n && #[trigger] label_is(lines[i], key);
                if i < n - 1 {
                    assert(has_label(lines, n - 1, key));
                }
            }
            if has_label(lines, n - 1, key) {
                let i = choose|i: int| 0 <= i < n - 1 && #[trigger] label_is(lines[i], key);
                assert(has_label(lines, n, key));
            }
        }
        assert forall|i: int, j: int, key: Seq<char>|
            0 <= i < j < n && #[trigger] label_is(lines[i], key) implies !#[trigger] label_is(lines[j], key) by {
            if j == n - 1 && label_is(lines[j], key) {
                assert(has_label(lines, n - 1, key));
            }
        }
    }
}

/// The symbol table holds exactly the labels of the program: no label is
/// defined twice, and none is also a constant.
pub proof fn lemma_symbols_are_the_labels(lines: Seq<AssemblyLine>, p: Pass1Params)
    requires
        symbols_spec(lines, p) is Ok,
    ensures
        forall|key: Seq<char>| #[trigger] symbols_spec(lines, p)->Ok_0.contains_key(key) <==> has_label(lines, lines.len() as int, key),
        labels_distinct(lines, lines.len() as int),
        forall|key: Seq<char>| #[trigger] symbols_spec(lines, p)->Ok_0.contains_key(key) ==> !p.consts.contains_key(key),
{
    lemma_symbols_are_labels_upto(lines, lines.len() as int, p);
}

/// The room the instructions of the first `n` lines take.
pub open spec fn code_size_upto(lines: Seq<AssemblyLine>, n: int) -> int
    decreases n,
{
    if n <= 0 {
        0
    } else {
        code_size_upto(lines, n - 1) + match lines[n - 1].instruction {
            Some(i) => instruction_size(i) as int,
            None => 0,
        }
    }
}

/// The lines hold no directive.
pub open spec fn only_code(lines: Seq<AssemblyLine>) -> bool {
    forall|i: int| 0 <= i < lines.len() ==> (#[trigger] lines[i]).directive is None
}

/// No line defines a constant's name as a label.
pub open spec fn no_label_is_constant(lines: Seq<AssemblyLine>, consts: Map<Seq<char>, i32>) -> bool {
    forall|i: int, key: Seq<char>| 0 <= i < lines.len() && #[trigger] label_is(lines[i], key) ==> !consts.contains_key(key)
}

proof fn lemma_code_size_grows(lines: Seq<AssemblyLine>, n: int, m: int)
    requires
        0 <= n <= m,
    ensures
        0 <= code_size_upto(lines, n) <= code_size_upto(lines, m),
    decreases m,
{
    if n < m {
        lemma_code_size_grows(lines, n, m - 1);
    } else if n > 0 {
        lemma_code_size_grows(lines, n - 1, n - 1);
    }
}

/// Pass 1 over code that fits bank 0 lays it out end to end from address 0.
proof fn lemma_code_layout_upto(lines: Seq<AssemblyLine>, n: int, p: Pass1Params)
    requires
        only_code(lines),
        labels_distinct(lines, lines.len() as int),
        no_label_is_constant(lines, p.consts),
        code_size_upto(lines, lines.len() as int) <= 0x4000,
        0 <= n <= lines.len(),
    ensures
        pass1_upto(lines, n, p) is Ok,
        pass1_upto(lines, n, p)->Ok_0.counter.physical_addr == code_size_upto(lines, n),
        pass1_upto(lines, n, p)->Ok_0.counter.logical_addr == code_size_upto(lines, n),
        pass1_upto(lines, n, p)->Ok_0.counter.bank == 0,
        pass1_upto(lines, n, p)->Ok_0.section is None,
        pass1_upto(lines, n, p)->Ok_0.found_header is None,
        pass1_upto(lines, n, p)->Ok_0.found_interrupt is None,
        forall|key: Seq<char>| #[trigger] pass1_upto(lines, n, p)->Ok_0.symbols.contains_key(key) <==> has_label(lines, n, key),
    decreases n,
{
    lemma_code_size_grows(lines, n, lines.len() as int);
    if n > 0 {
        lemma_code_layout_upto(lines, n - 1, p);
        lemma_code_size_grows(lines, n - 1, n);
        let s = pass1_upto(lines, n - 1, p)->Ok_0;
        let l = lines[n - 1];
        assert(l.directive is None);
        if let Some(label) = l.label {
            assert(label_is(lines[n - 1], label@));
            assert(!s.symbols.contains_key(label@)) by {
                if s.symbols.contains_key(label@) {
                    let i = choose|i: int| 0 <= i < n - 1 && #[trigger] label_is(lines[i], label@);
                    assert(label_is(lines[i], label@));
                }
            }
        }
        let t = label_step(s, l, p)->Ok_0;
        assert(label_step(s, l, p) is Ok);
        assert(pass1_upto(lines, n, p) == pass1_step(s, l, p));
        assert(pass1_step(s, l, p) is Ok);
        let m = pass1_upto(lines, n, p)->Ok_0.symbols;
        lemma_step_symbols(s, l, p);
        assert forall|key: Seq<char>| #[trigger] m.contains_key(key) <==> has_label(lines, n, key) by {
            if m.contains_key(key) && !s.symbols.contains_key(key) {
                assert(label_is(lines[n - 1], key));
            }
            if has_label(lines, n, key) {
                let i = choose|i: int| 0 <= i < n && #[trigger] label_is(lines[i], key);
                if i < n - 1 {
                    assert(has_label(lines, n - 1, key));
                }
            }
            if has_label(lines, n - 1, key) {
                let i = choose|i: int| 0 <= i < n - 1 && #[trigger] label_is(lines[i], key);
                assert(has_label(lines, n, key));
            }
        }
    }
}

/// Labels in code: in a program of instructions only that fits bank 0,
/// with each label defined once and none a constant, pass 1 succeeds and
/// each label gets, in bank 0, the room the instructions before its line take.
pub proof fn lemma_labels_get_code_offsets(lines: Seq<AssemblyLine>, p: Pass1Params)
    requires
        only_code(lines),
        labels_distinct(lines, lines.len() as int),
        no_label_is_constant(lines, p.consts),
        code_size_upto(lines, lines.len() as int) <= 0x4000,
        p.expected_interrupt is None,
        p.expected_header is None,
    ensures
        symbols_spec(lines, p) is Ok,
        forall|i: int, key: Seq<char>| 0 <= i < lines.len() && #[trigger] label_is(lines[i], key)
            ==> symbols_spec(lines, p)->Ok_0.contains_key(key)
                && symbols_spec(lines, p)->Ok_0[key] == (Symbol { logical_address: code_size_upto(lines, i) as u32, bank: 0 }),
{
    let len = lines.len() as int;
    lemma_code_layout_upto(lines, len, p);
    assert(symbols_spec(lines, p) == Ok::<Map<Seq<char>, Symbol>, crate::errors::ErrDesc>(pass1_upto(lines, len, p)->Ok_0.symbols));
    assert forall|i: int, key: Seq<char>| 0 <= i < lines.len() && #[trigger] label_is(lines[i], key)
        implies symbols_spec(lines, p)->Ok_0.contains_key(key)
            && symbols_spec(lines, p)->Ok_0[key] == (Symbol { logical_address: code_size_upto(lines, i) as u32, bank: 0 }) by {
        lemma_code_layout_upto(lines, i, p);
        lemma_code_layout_upto(lines, i + 1, p);
        let s = pass1_upto(lines, i, p)->Ok_0;
        let l = lines[i];
        assert(pass1_upto(lines, i + 1, p) == pass1_step(s, l, p));
        lemma_step_symbols(s, l, p);
        assert(pass1_upto(lines, i + 1, p)->Ok_0.symbols.contains_key(key));
        lemma_symbols_kept(lines, i + 1, len, p, key);
    }
}

/// The code of the first `n` lines of a program of instructions: each
/// instruction encoded, in bank 0, at the address where the code before it
/// ends; or the first error.
pub open spec fn code_upto(lines: Seq<AssemblyLine>, syms: Map<Seq<char>, Symbol>, n: int) -> Result<Seq<u8>, crate::errors::ErrDesc>
    decreases n,
{
    if n <= 0 {
        Ok(Seq::empty())
    } else {
        match code_upto(lines, syms, n - 1) {
            Err(d) => Err(d),
            Ok(b) => match lines[n - 1].instruction {
                Some(i) => match encode_spec(i, syms, b.len() as u32, 0, lines[n - 1].line_number) {
                    Ok(e) => Ok(b + e),
                    Err(d) => Err(d),
                },
                None => Ok(b),
            },
        }
    }
}

proof fn lemma_code_prefix(lines: Seq<AssemblyLine>, syms: Map<Seq<char>, Symbol>, n: int, m: int)
    requires
        0 <= n <= m,
        code_upto(lines, syms, m) is Ok,
    ensures
        code_upto(lines, syms, n) is Ok,
        code_upto(lines, syms, n)->Ok_0.len() <= code_upto(lines, syms, m)->Ok_0.len(),
    decreases m - n,
{
    if n < m {
        assert(code_upto(lines, syms, m - 1) is Ok);
        lemma_code_prefix(lines, syms, n, m - 1);
    }
}

/// Pass 2 over the first `n` lines of a program of instructions has written
/// their code and stands at its end.
proof fn lemma_pass2_writes_code_upto(lines: Seq<AssemblyLine>, syms: Map<Seq<char>, Symbol>, n: int)
    requires
        only_code(lines),
        0 <= n <= lines.len(),
        code_upto(lines, syms, lines.len() as int) is Ok,
        code_upto(lines, syms, lines.len() as int)->Ok_0.len() <= u32::MAX,
    ensures
        ({
            let b = code_upto(lines, syms, n)->Ok_0;
            &&& code_upto(lines, syms, n) is Ok
            &&& pass2_upto(lines, n, syms) == Ok::<Pass2View, crate::errors::ErrDesc>(Pass2View {
                counter: AddrCounter { physical_addr: b.len() as u32, logical_addr: b.len() as u32, num_bytes: b.len() as u32, bank: 0 },
                sections: Seq::empty(),
                bytes: b,
            })
        }),
    decreases n,
{
    lemma_code_prefix(lines, syms, n, lines.len() as int);
    if n > 0 {
        lemma_pass2_writes_code_upto(lines, syms, n - 1);
        lemma_code_prefix(lines, syms, n - 1, n);
        assert(lines[n - 1].directive is None);
    }
}

/// Code lands end to end: the rom of a program of instructions is the
/// encoding of each instruction, at the address where the code before it
/// ends, one after the other, then 0xFF up to whole banks.
pub proof fn lemma_rom_is_the_code(lines: Seq<AssemblyLine>, syms: Map<Seq<char>, Symbol>)
    requires
        only_code(lines),
        code_upto(lines, syms, lines.len() as int) is Ok,
        code_upto(lines, syms, lines.len() as int)->Ok_0.len() <= u32::MAX,
    ensures
        bytecode_spec(lines, syms) == Ok::<Seq<u8>, crate::errors::ErrDesc>(rom_image(code_upto(lines, syms, lines.len() as int)->Ok_0)),
{
    lemma_pass2_writes_code_upto(lines, syms, lines.len() as int);
}

/// An operand that names no label.
pub open spec fn names_no_label(op: Operand) -> bool {
    !(op is Label) && !(op is AbsLabel) && !(op is IndexedLabel)
}

/// An instruction that names no label: none of its operands does, and it is
/// no far call or jump.
pub open spec fn label_free(i: Instruction) -> bool {
    match i {
        Instruction::Ldi(_, o) | Instruction::LdAbs(_, o) | Instruction::LdIndexed(_, _, o) | Instruction::StAbs(o, _)
        | Instruction::StIndexed(_, o, _) | Instruction::LdiB(_, o) | Instruction::LdBAbs(_, o)
        | Instruction::StBAbs(o, _) | Instruction::Lea(_, _, o) | Instruction::PushI(o) | Instruction::AddAccI(o)
        | Instruction::SubAccI(o) | Instruction::AndAccI(o) | Instruction::OrAccI(o) | Instruction::XorAccI(o)
        | Instruction::CmpAccI(o) | Instruction::AdcAccI(o) | Instruction::SbcAccI(o) | Instruction::AddIReg(_, o)
        | Instruction::SubIReg(_, o) | Instruction::AndIReg(_, o) | Instruction::OrIReg(_, o)
        | Instruction::XorIReg(_, o) | Instruction::CmpIReg(_, o) | Instruction::AddSp(o) | Instruction::BitReg(_, o)
        | Instruction::SetReg(_, o) | Instruction::ResReg(_, o) | Instruction::BitIndirect(_, o)
        | Instruction::SetIndirect(_, o) | Instruction::ResIndirect(_, o) | Instruction::JmpI(o) | Instruction::JrI(o)
        | Instruction::JccI(_, o) | Instruction::JrccI(_, o) | Instruction::Djnz(o) | Instruction::CallI(o)
        | Instruction::CallccI(_, o) | Instruction::Syscall(o) => names_no_label(o),
        Instruction::BitAbs(a, b) | Instruction::SetAbs(a, b) | Instruction::ResAbs(a, b) => names_no_label(a)
            && names_no_label(b),
        Instruction::CallFar(_) | Instruction::CallFarVia(_, _) | Instruction::JmpFar(_) | Instruction::JmpFarVia(_, _) => false,
        _ => true,
    }
}

/// An instruction that names no label encodes the same whatever the
/// symbols, the address and the bank it is encoded at.
#[verifier::rlimit(100)]
pub proof fn lemma_label_free_encoding(
    i: Instruction,
    syms1: Map<Seq<char>, Symbol>,
    addr1: u32,
    bank1: u32,
    syms2: Map<Seq<char>, Symbol>,
    addr2: u32,
    bank2: u32,
    line: usize,
)
    requires
        label_free(i),
    ensures
        encode_spec(i, syms1, addr1, bank1, line) == encode_spec(i, syms2, addr2, bank2, line),
{
    reveal(crate::assembler::encoder::instruction_group);
}

} // verus!
