use vstd::prelude::*;
use crate::assembler::encoder::utility_functions::{hi, lo, resolve_label_or_immediate, resolve_spec};
use crate::assembler::encoder::{encode_instruction, encode_spec};
use crate::assembler::layout::{calculate_logical_addr, logical_of, pad_to, padding_to, BANK_SIZE};
use crate::assembler::section_stack::{AddrCounter, Context};
use crate::assembler::symbol_table::{get_symbol, undefined_label_msg, Symbol, SymbolTable};
use crate::ast::{AssemblyLine, Directive, HeaderInfo, Operand, SectionOptions};
use crate::errors::{desc, AssemblyError, ErrDesc, ErrorKind};
use crate::text::owned;
use vstd::utf8::encode_utf8;

verus! {

/// `n` zero bytes.
pub open spec fn zeros(n: int) -> Seq<u8> {
    Seq::new(n as nat, |i: int| 0u8)
}

/// `v` cut or padded with zeros to exactly `len` bytes.
pub open spec fn fit(v: Seq<u8>, len: int) -> Seq<u8> {
    if v.len() >= len {
        v.subrange(0, len)
    } else {
        v + zeros(len - v.len())
    }
}

/// `v` padded with zeros to at least `len` bytes.
pub open spec fn at_least(v: Seq<u8>, len: int) -> Seq<u8> {
    if v.len() >= len {
        v
    } else {
        v + zeros(len - v.len())
    }
}

/// The physical offset pass 2 computes for `.org`, in wrapping 32 bit
/// arithmetic.
pub open spec fn phys2(logical: u16, bank: u32) -> u32 {
    if bank <= 1 {
        logical as u32
    } else {
        bank.wrapping_mul(16384).wrapping_add((logical as u32).wrapping_sub(0x4000))
    }
}

/// The counter moved `n` bytes on, in wrapping 32 bit arithmetic.
pub open spec fn bump(c: AddrCounter, n: u32) -> AddrCounter {
    AddrCounter {
        physical_addr: c.physical_addr.wrapping_add(n),
        logical_addr: c.logical_addr.wrapping_add(n),
        num_bytes: c.num_bytes.wrapping_add(n),
        bank: c.bank,
    }
}

/// The bytes of a `.byte` list: one per number, truncated to a byte.
pub open spec fn byte_data(ops: Seq<Operand>) -> Seq<u8>
    decreases ops.len(),
{
    if ops.len() == 0 {
        Seq::empty()
    } else {
        byte_data(ops.drop_last()) + match ops.last() {
            Operand::Immediate(v) => seq![v as u8],
            _ => Seq::empty(),
        }
    }
}

/// The little endian bytes of a `.word` list: a number truncated to a word,
/// or the logical address of a label.
pub open spec fn word_data(ops: Seq<Operand>, syms: Map<Seq<char>, Symbol>, line: usize) -> Result<Seq<u8>, ErrDesc>
    decreases ops.len(),
{
    if ops.len() == 0 {
        Ok(Seq::empty())
    } else {
        match word_data(ops.drop_last(), syms, line) {
            Err(d) => Err(d),
            Ok(prefix) => match ops.last() {
                Operand::Immediate(v) => Ok(prefix + seq![lo(v as u16), hi(v as u16)]),
                Operand::Label(l) => if syms.contains_key(l@) {
                    let a = syms[l@].logical_address as u16;
                    Ok(prefix + seq![lo(a), hi(a)])
                } else {
                    Err(desc(ErrorKind::Semantic, Some(line), undefined_label_msg(l@)))
                },
                _ => Ok(prefix),
            },
        }
    }
}

/// The little endian addresses of an interrupt table's entries.
pub open spec fn vector_data(ops: Seq<Operand>, syms: Map<Seq<char>, Symbol>, line: usize) -> Result<Seq<u8>, ErrDesc>
    decreases ops.len(),
{
    if ops.len() == 0 {
        Ok(Seq::empty())
    } else {
        match vector_data(ops.drop_last(), syms, line) {
            Err(d) => Err(d),
            Ok(prefix) => match resolve_spec(ops.last(), syms, line) {
                Ok(a) => Ok(prefix + seq![lo(a), hi(a)]),
                Err(d) => Err(d),
            },
        }
    }
}

/// The cartridge info byte: hardware revision and region.
pub open spec fn cart_info_byte(info: HeaderInfo) -> u8 {
    (((info.hardware_rev & 3) << 3u8) | (info.region & 7)) << 3u8
}

/// The feature flags byte: interrupt mode and mapper.
pub open spec fn features_byte(info: HeaderInfo) -> u8 {
    (((info.interrupt_mode & 1) << 2u8) | (info.mapper & 3)) << 5u8
}

/// The 96 byte cartridge header: the boot animation, the title and the
/// developer (each padded with zeros to its field), then version, rom size,
/// ram size, cartridge info and feature flags, then zeros.
pub open spec fn header_bytes(info: HeaderInfo) -> Seq<u8> {
    let h1 = at_least(encode_utf8(info.boot_anim@) + encode_utf8(info.title@), 0x14);
    let h2 = at_least(h1 + encode_utf8(info.developer@), 0x24);
    fit(
        h2 + seq![info.version, info.rom_size, info.ram_size, cart_info_byte(info), features_byte(info)],
        0x60,
    )
}

/// What pass 2 remembers of an open section.
pub struct Section2View {
    pub size: Option<u32>,
    pub has_vaddr: bool,
}

/// The state of pass 2 between two lines: the counter, the open sections
/// and the machine code so far.
pub struct Pass2View {
    pub counter: AddrCounter,
    pub sections: Seq<Section2View>,
    pub bytes: Seq<u8>,
}

pub open spec fn pass2_start() -> Pass2View {
    Pass2View {
        counter: AddrCounter { physical_addr: 0, logical_addr: 0, num_bytes: 0, bank: 0 },
        sections: Seq::empty(),
        bytes: Seq::empty(),
    }
}

/// The state after `data` is emitted.
pub open spec fn emit(s: Pass2View, data: Seq<u8>) -> Pass2View {
    Pass2View { counter: bump(s.counter, data.len() as u32), bytes: s.bytes + data, ..s }
}

/// `.org`: pads with zeros up to the given address when it lies ahead.
pub open spec fn org2(s: Pass2View, a: i32) -> Pass2View {
    let c = s.counter;
    let new_phys = phys2(a as u16, c.bank);
    if new_phys > c.physical_addr {
        let pad = (new_phys - c.physical_addr) as u32;
        Pass2View {
            counter: AddrCounter {
                physical_addr: new_phys,
                logical_addr: c.logical_addr.wrapping_add(pad),
                num_bytes: c.num_bytes.wrapping_add(pad),
                bank: c.bank,
            },
            bytes: s.bytes + zeros(pad as int),
            ..s
        }
    } else {
        s
    }
}

/// `.bank`: pads with zeros up to the start of the bank when it lies ahead.
pub open spec fn bank2(s: Pass2View, n: i32) -> Pass2View {
    let c = s.counter;
    let new_addr = (n as u32).wrapping_mul(16384);
    let pad: u32 = if new_addr > c.physical_addr { (new_addr - c.physical_addr) as u32 } else { 0 };
    Pass2View {
        counter: AddrCounter {
            physical_addr: new_addr,
            logical_addr: 0,
            num_bytes: c.num_bytes.wrapping_add(pad),
            bank: n as u32,
        },
        bytes: s.bytes + zeros(pad as int),
        ..s
    }
}

/// `.section`: its byte count starts over; it may pad up to a physical
/// address, pad to an alignment and set the logical address.
pub open spec fn section_start2(s: Pass2View, o: SectionOptions) -> Pass2View {
    let s1 = Pass2View {
        counter: AddrCounter { num_bytes: 0, ..s.counter },
        sections: s.sections.push(Section2View { size: o.size, has_vaddr: o.vaddr is Some }),
        ..s
    };
    let s2 = match o.paddr {
        Some(pa) => Pass2View {
            counter: AddrCounter { physical_addr: pa, ..s1.counter },
            bytes: s1.bytes + zeros(if pa > s1.counter.physical_addr { pa - s1.counter.physical_addr } else { 0 }),
            ..s1
        },
        None => s1,
    };
    let s3 = match o.align {
        Some(al) => emit(s2, zeros(pad_to(s2.counter.physical_addr, al))),
        None => s2,
    };
    match o.vaddr {
        Some(va) => Pass2View { counter: AddrCounter { logical_addr: va, ..s3.counter }, ..s3 },
        None => s3,
    }
}

pub open spec fn section_end_without_start2_msg() -> Seq<char> {
    ".section_end found without a preceding .section statement."@
}

/// `.section_end`: closes the innermost section and pads it to its size.
pub open spec fn section_end2(s: Pass2View, line: usize) -> Result<Pass2View, ErrDesc> {
    if s.sections.len() == 0 {
        Err(desc(ErrorKind::Structure, Some(line), section_end_without_start2_msg()))
    } else {
        let sec = s.sections.last();
        let c1 = if sec.has_vaddr {
            AddrCounter { logical_addr: logical_of(s.counter.physical_addr), ..s.counter }
        } else {
            s.counter
        };
        let s1 = Pass2View { counter: c1, sections: s.sections.drop_last(), ..s };
        Ok(
            match sec.size {
                Some(size) => if size > c1.num_bytes {
                    emit(s1, zeros(size - c1.num_bytes))
                } else {
                    s1
                },
                None => s1,
            },
        )
    }
}

/// What a directive does in pass 2.
pub open spec fn directive2(s: Pass2View, d: Directive, syms: Map<Seq<char>, Symbol>, line: usize) -> Result<Pass2View, ErrDesc> {
    match d {
        Directive::Org(Operand::Immediate(a)) => Ok(org2(s, a)),
        Directive::Bank(Operand::Immediate(n)) => Ok(bank2(s, n)),
        Directive::Byte(ops) => Ok(emit(s, byte_data(ops@))),
        Directive::Word(ops) => match word_data(ops@, syms, line) {
            Ok(data) => Ok(emit(s, data)),
            Err(e) => Err(e),
        },
        Directive::Header(info) => Ok(emit(s, header_bytes(info))),
        Directive::Interrupt(ops) => match vector_data(ops@, syms, line) {
            Ok(data) => Ok(emit(s, at_least(data, 32))),
            Err(e) => Err(e),
        },
        Directive::SectionStart(o) => Ok(section_start2(s, o)),
        Directive::SectionEnd => section_end2(s, line),
        Directive::Align(al) => Ok(emit(s, zeros(pad_to(s.counter.physical_addr, al)))),
        _ => Ok(s),
    }
}

/// Pass 2 on one line: its directive, then its instruction, encoded at the
/// current logical address and bank.
pub open spec fn pass2_step(s: Pass2View, l: AssemblyLine, syms: Map<Seq<char>, Symbol>) -> Result<Pass2View, ErrDesc> {
    let r1 = match l.directive {
        Some(d) => directive2(s, d, syms, l.line_number),
        None => Ok(s),
    };
    match r1 {
        Err(e) => Err(e),
        Ok(s1) => match l.instruction {
            Some(i) => match encode_spec(i, syms, s1.counter.logical_addr, s1.counter.bank, l.line_number) {
                Ok(code) => Ok(emit(s1, code)),
                Err(e) => Err(e),
            },
            None => Ok(s1),
        },
    }
}

/// Pass 2 on the first `n` lines.
pub open spec fn pass2_upto(lines: Seq<AssemblyLine>, n: int, syms: Map<Seq<char>, Symbol>) -> Result<Pass2View, ErrDesc>
    decreases n,
{
    if n <= 0 {
        Ok(pass2_start())
    } else {
        match pass2_upto(lines, n - 1, syms) {
            Ok(s) => pass2_step(s, lines[n - 1], syms),
            Err(d) => Err(d),
        }
    }
}

/// The number of bytes a rom image of `n` bytes of code fills: whole banks,
/// and at least two.
pub open spec fn rom_len(n: int) -> int {
    let banks = if n % 16384 > 0 { n / 16384 + 1 } else { n / 16384 };
    if banks < 2 { 32768int } else { banks * 16384 }
}

/// The rom image: the code, padded with 0xFF to whole banks.
pub open spec fn rom_image(code: Seq<u8>) -> Seq<u8> {
    code + Seq::new((rom_len(code.len() as int) - code.len()) as nat, |i: int| 0xFFu8)
}

/// The rom image pass 2 makes of `lines`, or the error it stops at.
pub open spec fn bytecode_spec(lines: Seq<AssemblyLine>, syms: Map<Seq<char>, Symbol>) -> Result<Seq<u8>, ErrDesc> {
    match pass2_upto(lines, lines.len() as int, syms) {
        Ok(s) => Ok(rom_image(s.bytes)),
        Err(d) => Err(d),
    }
}

pub proof fn lemma_pass2_error_extends(lines: Seq<AssemblyLine>, n: int, syms: Map<Seq<char>, Symbol>)
    requires
        0 <= n <= lines.len(),
        pass2_upto(lines, n, syms) is Err,
    ensures
        pass2_upto(lines, lines.len() as int, syms) == pass2_upto(lines, n, syms),
    decreases lines.len() - n,
{
    if n < lines.len() {
        lemma_pass2_error_extends(lines, n + 1, syms);
    }
}


pub open spec fn section2_view(c: Context) -> Section2View {
    Section2View { size: c.size, has_vaddr: c.vaddr is Some }
}

/// The state of pass 2 between two lines.
pub struct CodePass {
    pub counter: AddrCounter,
    pub context_stack: Vec<Context>,
    pub bytecode: Vec<u8>,
}

impl View for CodePass {
    type V = Pass2View;

    open spec fn view(&self) -> Pass2View {
        Pass2View {
            counter: self.counter,
            sections: self.context_stack@.map_values(|c: Context| section2_view(c)),
            bytes: self.bytecode@,
        }
    }
}

impl CodePass {
    pub fn new() -> (cp: Self)
        ensures
            cp@ == pass2_start(),
    {
        let cp = CodePass { counter: AddrCounter::new(), context_stack: Vec::new(), bytecode: Vec::new() };
        assert(cp@.sections == Seq::<Section2View>::empty());
        cp
    }
}

/// Appends `n` zero bytes.
pub fn push_zeros(v: &mut Vec<u8>, n: u32)
    ensures
        final(v)@ == old(v)@ + zeros(n as int),
{
    let mut k: u32 = 0;
    while k < n
        invariant
            k <= n,
            v@ == old(v)@ + zeros(k as int),
        decreases n - k,
    {
        v.push(0);
        k = k + 1;
        assert(v@ =~= old(v)@ + zeros(k as int));
    }
}

fn bump_counter(c: &mut AddrCounter, n: u32)
    ensures
        *final(c) == bump(*old(c), n),
{
    c.physical_addr = c.physical_addr.wrapping_add(n);
    c.logical_addr = c.logical_addr.wrapping_add(n);
    c.num_bytes = c.num_bytes.wrapping_add(n);
}

fn emit_bytes(cp: &mut CodePass, data: &mut Vec<u8>)
    ensures
        final(cp)@ == emit(old(cp)@, old(data)@),
{
    bump_counter(&mut cp.counter, data.len() as u32);
    cp.bytecode.append(data);
}

fn emit_zeros(cp: &mut CodePass, n: u32)
    ensures
        final(cp)@ == emit(old(cp)@, zeros(n as int)),
{
    let mut data: Vec<u8> = Vec::new();
    push_zeros(&mut data, n);
    assert(data@ =~= zeros(n as int));
    emit_bytes(cp, &mut data);
}

fn byte_list(ops: &Vec<Operand>) -> (v: Vec<u8>)
    ensures
        v@ == byte_data(ops@),
{
    let mut v: Vec<u8> = Vec::new();
    let mut i: usize = 0;
    assert(ops@.subrange(0, 0) == Seq::<Operand>::empty());
    while i < ops.len()
        invariant
            i <= ops@.len(),
            v@ == byte_data(ops@.subrange(0, i as int)),
        decreases ops@.len() - i,
    {
        assert(ops@.subrange(0, i + 1).drop_last() == ops@.subrange(0, i as int));
        assert(ops@.subrange(0, i + 1).last() == ops@[i as int]);
        match &ops[i] {
            Operand::Immediate(b) => {
                v.push(*b as u8);
            },
            _ => {},
        }
        assert(v@ =~= byte_data(ops@.subrange(0, i + 1)));
        i = i + 1;
    }
    assert(ops@.subrange(0, i as int) == ops@);
    v
}

proof fn lemma_word_data_error_extends(ops: Seq<Operand>, n: int, syms: Map<Seq<char>, Symbol>, line: usize)
    requires
        0 <= n <= ops.len(),
        word_data(ops.subrange(0, n), syms, line) is Err,
    ensures
        word_data(ops, syms, line) == word_data(ops.subrange(0, n), syms, line),
    decreases ops.len() - n,
{
    if n < ops.len() {
        assert(ops.subrange(0, n + 1).drop_last() == ops.subrange(0, n));
        lemma_word_data_error_extends(ops, n + 1, syms, line);
    } else {
        assert(ops.subrange(0, n) == ops);
    }
}

proof fn lemma_vector_data_error_extends(ops: Seq<Operand>, n: int, syms: Map<Seq<char>, Symbol>, line: usize)
    requires
        0 <= n <= ops.len(),
        vector_data(ops.subrange(0, n), syms, line) is Err,
    ensures
        vector_data(ops, syms, line) == vector_data(ops.subrange(0, n), syms, line),
    decreases ops.len() - n,
{
    if n < ops.len() {
        assert(ops.subrange(0, n + 1).drop_last() == ops.subrange(0, n));
        lemma_vector_data_error_extends(ops, n + 1, syms, line);
    } else {
        assert(ops.subrange(0, n) == ops);
    }
}

fn word_list(ops: &Vec<Operand>, symbol_table: &SymbolTable, line: usize) -> (r: Result<Vec<u8>, AssemblyError>)
    requires
        symbol_table.wf(),
    ensures
        match word_data(ops@, symbol_table.map(), line) {
            Ok(data) => r matches Ok(v) && v@ == data,
            Err(d) => r matches Err(e) && e.is(d.0, d.1, d.2),
        },
{
    let ghost syms = symbol_table.map();
    let mut v: Vec<u8> = Vec::new();
    let mut i: usize = 0;
    assert(ops@.subrange(0, 0) == Seq::<Operand>::empty());
    while i < ops.len()
        invariant
            symbol_table.wf(),
            syms == symbol_table.map(),
            i <= ops@.len(),
            word_data(ops@.subrange(0, i as int), syms, line) == Ok::<Seq<u8>, ErrDesc>(v@),
        decreases ops@.len() - i,
    {
        assert(ops@.subrange(0, i + 1).drop_last() == ops@.subrange(0, i as int));
        assert(ops@.subrange(0, i + 1).last() == ops@[i as int]);
        let ghost prev = v@;
        match &ops[i] {
            Operand::Immediate(w) => {
                let w16 = *w as u16;
                v.push((w16 % 256) as u8);
                v.push((w16 / 256) as u8);
                assert(v@ =~= prev + seq![lo(w16), hi(w16)]);
            },
            Operand::Label(label_name) => {
                match get_symbol(symbol_table, label_name, &line) {
                    Ok(sym) => {
                        let a = sym.logical_address as u16;
                        v.push((a % 256) as u8);
                        v.push((a / 256) as u8);
                        assert(v@ =~= prev + seq![lo(a), hi(a)]);
                    },
                    Err(e) => {
                        proof {
                            lemma_word_data_error_extends(ops@, i + 1, syms, line);
                        }
                        return Err(e);
                    },
                }
            },
            _ => {},
        }
        assert(word_data(ops@.subrange(0, i + 1), syms, line) == Ok::<Seq<u8>, ErrDesc>(v@));
        i = i + 1;
    }
    assert(ops@.subrange(0, i as int) == ops@);
    Ok(v)
}

fn vector_list(ops: &Vec<Operand>, symbol_table: &SymbolTable, line: usize) -> (r: Result<Vec<u8>, AssemblyError>)
    requires
        symbol_table.wf(),
    ensures
        match vector_data(ops@, symbol_table.map(), line) {
            Ok(data) => r matches Ok(v) && v@ == data,
            Err(d) => r matches Err(e) && e.is(d.0, d.1, d.2),
        },
{
    let ghost syms = symbol_table.map();
    let mut v: Vec<u8> = Vec::new();
    let mut i: usize = 0;
    assert(ops@.subrange(0, 0) == Seq::<Operand>::empty());
    while i < ops.len()
        invariant
            symbol_table.wf(),
            syms == symbol_table.map(),
            i <= ops@.len(),
            vector_data(ops@.subrange(0, i as int), syms, line) == Ok::<Seq<u8>, ErrDesc>(v@),
        decreases ops@.len() - i,
    {
        assert(ops@.subrange(0, i + 1).drop_last() == ops@.subrange(0, i as int));
        assert(ops@.subrange(0, i + 1).last() == ops@[i as int]);
        let ghost prev = v@;
        match resolve_label_or_immediate(&ops[i], symbol_table, &line) {
            Ok(a) => {
                v.push((a % 256) as u8);
                v.push((a / 256) as u8);
                assert(v@ =~= prev + seq![lo(a), hi(a)]);
            },
            Err(e) => {
                proof {
                    lemma_vector_data_error_extends(ops@, i + 1, syms, line);
                }
                return Err(e);
            },
        }
        assert(vector_data(ops@.subrange(0, i + 1), syms, line) == Ok::<Seq<u8>, ErrDesc>(v@));
        i = i + 1;
    }
    assert(ops@.subrange(0, i as int) == ops@);
    Ok(v)
}

fn pad_at_least(v: &mut Vec<u8>, len: usize)
    ensures
        final(v)@ == at_least(old(v)@, len as int),
{
    if v.len() < len {
        let n = len - v.len();
        let mut k: usize = 0;
        while k < n
            invariant
                k <= n,
                n == len - old(v)@.len(),
                v@ == old(v)@ + zeros(k as int),
            decreases n - k,
        {
            v.push(0);
            k = k + 1;
            assert(v@ =~= old(v)@ + zeros(k as int));
        }
    }
}

fn utf8_bytes(s: &String) -> (v: Vec<u8>)
    ensures
        v@ == encode_utf8(s@),
{
    vstd::slice::slice_to_vec(s.as_str().as_bytes())
}

/// The 96 bytes of a cartridge header block.
pub fn build_header(info: &HeaderInfo) -> (header: Vec<u8>)
    ensures
        header@ == header_bytes(*info),
{
    let mut header = utf8_bytes(&info.boot_anim);
    let mut title = utf8_bytes(&info.title);
    header.append(&mut title);
    pad_at_least(&mut header, 0x14);
    let mut developer = utf8_bytes(&info.developer);
    header.append(&mut developer);
    pad_at_least(&mut header, 0x24);
    header.push(info.version);
    header.push(info.rom_size);
    header.push(info.ram_size);
    let mut cart_info: u8 = info.hardware_rev & 0x3;
    cart_info = (cart_info << 3) | (info.region & 0x7);
    cart_info = cart_info << 3;
    header.push(cart_info);
    let mut features: u8 = info.interrupt_mode & 0x1;
    features = (features << 2) | (info.mapper & 0x3);
    features = features << 5;
    header.push(features);
    let ghost before = header@;
    if header.len() >= 0x60 {
        header.truncate(0x60);
    } else {
        pad_at_least(&mut header, 0x60);
    }
    assert(before =~= at_least(header_bytes_prefix(*info), 0x24) + seq![
        info.version,
        info.rom_size,
        info.ram_size,
        cart_info_byte(*info),
        features_byte(*info),
    ]);
    header
}

spec fn header_bytes_prefix(info: HeaderInfo) -> Seq<u8> {
    at_least(encode_utf8(info.boot_anim@) + encode_utf8(info.title@), 0x14) + encode_utf8(info.developer@)
}


pub open spec fn step2_matches(r: Result<(), AssemblyError>, after: CodePass, s: Result<Pass2View, ErrDesc>) -> bool {
    match s {
        Ok(v) => r is Ok && after@ == v,
        Err(d) => r matches Err(e) && e.is(d.0, d.1, d.2),
    }
}

fn org2_line(cp: &mut CodePass, a: i32)
    ensures
        final(cp)@ == org2(old(cp)@, a),
{
    let new_addr = a as u16;
    let new_physical_addr: u32 = if cp.counter.bank <= 1 {
        new_addr as u32
    } else {
        cp.counter.bank.wrapping_mul(BANK_SIZE).wrapping_add((new_addr as u32).wrapping_sub(0x4000))
    };
    if new_physical_addr > cp.counter.physical_addr {
        let padding_size = new_physical_addr - cp.counter.physical_addr;
        push_zeros(&mut cp.bytecode, padding_size);
        cp.counter.logical_addr = cp.counter.logical_addr.wrapping_add(padding_size);
        cp.counter.num_bytes = cp.counter.num_bytes.wrapping_add(padding_size);
        cp.counter.physical_addr = new_physical_addr;
    }
}

fn bank2_line(cp: &mut CodePass, n: i32)
    ensures
        final(cp)@ == bank2(old(cp)@, n),
{
    let new_addr = (n as u32).wrapping_mul(BANK_SIZE);
    let padding_size: u32 = if new_addr > cp.counter.physical_addr { new_addr - cp.counter.physical_addr } else { 0 };
    push_zeros(&mut cp.bytecode, padding_size);
    cp.counter.num_bytes = cp.counter.num_bytes.wrapping_add(padding_size);
    cp.counter.bank = n as u32;
    cp.counter.physical_addr = new_addr;
    cp.counter.logical_addr = 0;
}

fn copy_name(name: &Option<String>) -> (r: Option<String>)
    ensures
        match r {
            Some(s) => name matches Some(n) && s@ == n@,
            None => name is None,
        },
{
    match name {
        Some(n) => Some(crate::text::copy_string(n)),
        None => None,
    }
}

fn section_start2_line(cp: &mut CodePass, o: &SectionOptions)
    ensures
        final(cp)@ == section_start2(old(cp)@, *o),
{
    let new_context = Context {
        name: copy_name(&o.name),
        size: o.size,
        vaddr: o.vaddr,
        paddr: o.paddr,
        align: o.align,
        address: cp.counter,
    };
    let ghost ctx_view = section2_view(new_context);
    cp.context_stack.push(new_context);
    assert(cp.context_stack@.map_values(|c: Context| section2_view(c))
        =~= old(cp).context_stack@.map_values(|c: Context| section2_view(c)).push(ctx_view));
    cp.counter.num_bytes = 0;
    if let Some(paddr) = o.paddr {
        if paddr > cp.counter.physical_addr {
            let padding_size = paddr - cp.counter.physical_addr;
            push_zeros(&mut cp.bytecode, padding_size);
        } else {
            push_zeros(&mut cp.bytecode, 0);
        }
        cp.counter.physical_addr = paddr;
    }
    if let Some(align) = o.align {
        let pad = padding_to(cp.counter.physical_addr, align);
        emit_zeros(cp, pad);
    }
    if let Some(vaddr) = o.vaddr {
        cp.counter.logical_addr = vaddr;
    }
}

fn section_end2_line(cp: &mut CodePass, line: usize) -> (r: Result<(), AssemblyError>)
    ensures
        step2_matches(r, *final(cp), section_end2(old(cp)@, line)),
{
    let old_context = match cp.context_stack.pop() {
        Some(ctx) => ctx,
        None => {
            return Err(AssemblyError::StructuralError {
                line,
                reason: owned(".section_end found without a preceding .section statement."),
            });
        },
    };
    assert(cp.context_stack@.map_values(|c: Context| section2_view(c))
        =~= old(cp).context_stack@.map_values(|c: Context| section2_view(c)).drop_last());
    if old_context.vaddr.is_some() {
        cp.counter.logical_addr = calculate_logical_addr(&cp.counter.physical_addr);
    }
    if let Some(size) = old_context.size {
        if size > cp.counter.num_bytes {
            let padding_size = size - cp.counter.num_bytes;
            emit_zeros(cp, padding_size);
        }
    }
    Ok(())
}

fn directive2_line(cp: &mut CodePass, d: &Directive, symbol_table: &SymbolTable, line: usize) -> (r: Result<(), AssemblyError>)
    requires
        symbol_table.wf(),
    ensures
        step2_matches(r, *final(cp), directive2(old(cp)@, *d, symbol_table.map(), line)),
{
    match d {
        Directive::Org(Operand::Immediate(a)) => {
            org2_line(cp, *a);
            Ok(())
        },
        Directive::Bank(Operand::Immediate(n)) => {
            bank2_line(cp, *n);
            Ok(())
        },
        Directive::Byte(bytes) => {
            let mut data = byte_list(bytes);
            emit_bytes(cp, &mut data);
            Ok(())
        },
        Directive::Word(words) => {
            match word_list(words, symbol_table, line) {
                Ok(mut data) => {
                    emit_bytes(cp, &mut data);
                    Ok(())
                },
                Err(e) => Err(e),
            }
        },
        Directive::Header(info) => {
            let mut header = build_header(info);
            emit_bytes(cp, &mut header);
            Ok(())
        },
        Directive::Interrupt(words) => {
            match vector_list(words, symbol_table, line) {
                Ok(mut data) => {
                    pad_at_least(&mut data, 32);
                    emit_bytes(cp, &mut data);
                    Ok(())
                },
                Err(e) => Err(e),
            }
        },
        Directive::SectionStart(o) => {
            section_start2_line(cp, o);
            Ok(())
        },
        Directive::SectionEnd => section_end2_line(cp, line),
        Directive::Align(align) => {
            let pad = padding_to(cp.counter.physical_addr, *align);
            emit_zeros(cp, pad);
            Ok(())
        },
        _ => Ok(()),
    }
}

/// Pass 2 on one line.
pub fn pass2_line(cp: &mut CodePass, l: &AssemblyLine, symbol_table: &SymbolTable) -> (r: Result<(), AssemblyError>)
    requires
        symbol_table.wf(),
    ensures
        step2_matches(r, *final(cp), pass2_step(old(cp)@, *l, symbol_table.map())),
{
    if let Some(directive) = &l.directive {
        let r = directive2_line(cp, directive, symbol_table, l.line_number);
        if r.is_err() {
            return r;
        }
    }
    if let Some(instruction) = &l.instruction {
        match encode_instruction(instruction, symbol_table, &cp.counter.logical_addr, &cp.counter.bank, &l.line_number) {
            Ok(mut code) => {
                emit_bytes(cp, &mut code);
            },
            Err(e) => {
                return Err(e);
            },
        }
    }
    Ok(())
}

/// Pads the code with 0xFF to whole banks, at least two.
pub fn pad_rom(bytecode: &mut Vec<u8>)
    ensures
        final(bytecode)@ == rom_image(old(bytecode)@),
{
    let n = bytecode.len();
    let pad: usize = if n < 32768 {
        32768 - n
    } else if n % 16384 == 0 {
        0
    } else {
        16384 - n % 16384
    };
    assert(pad == rom_len(n as int) - n);
    let mut k: usize = 0;
    while k < pad
        invariant
            k <= pad,
            n == old(bytecode)@.len(),
            bytecode@ == old(bytecode)@ + Seq::new(k as nat, |i: int| 0xFFu8),
        decreases pad - k,
    {
        bytecode.push(0xFF);
        k = k + 1;
        assert(bytecode@ =~= old(bytecode)@ + Seq::new(k as nat, |i: int| 0xFFu8));
    }
    assert(bytecode@ =~= rom_image(old(bytecode)@));
}


/// A rom image always fills whole 16 KiB banks, at least two of them, and
/// begins with the code it was made of.
pub proof fn lemma_rom_image_fills_banks(code: Seq<u8>)
    ensures
        rom_image(code).len() % 16384 == 0,
        rom_image(code).len() >= 32768,
        rom_image(code).len() >= code.len(),
        rom_image(code).subrange(0, code.len() as int) == code,
        forall|i: int| code.len() <= i < rom_image(code).len() ==> #[trigger] rom_image(code)[i] == 0xFFu8,
{
    let n = code.len() as int;
    assert(rom_len(n) >= n);
    assert(rom_image(code).subrange(0, n) =~= code);
}

/// The layout of the cartridge header, when the boot animation and title
/// fit their 20 bytes and the developer its 16: 96 bytes, with the version
/// at 0x24, the rom size at 0x25 and the ram size at 0x26; the cartridge
/// info byte at 0x27 holds the hardware revision in bits 7-6 and the region
/// in bits 5-3; the feature byte at 0x28 holds the interrupt mode in bit 7
/// and the mapper in bits 6-5; every other bit of those two bytes, and every
/// byte after them, is zero.
pub proof fn lemma_header_layout(info: HeaderInfo)
    requires
        encode_utf8(info.boot_anim@).len() + encode_utf8(info.title@).len() <= 0x14,
        encode_utf8(info.developer@).len() <= 0x10,
    ensures
        header_bytes(info).len() == 0x60,
        header_bytes(info)[0x24] == info.version,
        header_bytes(info)[0x25] == info.rom_size,
        header_bytes(info)[0x26] == info.ram_size,
        header_bytes(info)[0x27] as int == (info.hardware_rev % 4) * 64 + (info.region % 8) * 8,
        header_bytes(info)[0x28] as int == (info.interrupt_mode % 2) * 128 + (info.mapper % 4) * 32,
        forall|i: int| 0x29 <= i < 0x60 ==> header_bytes(info)[i] == 0,
{
    let h1 = at_least(encode_utf8(info.boot_anim@) + encode_utf8(info.title@), 0x14);
    let h2 = at_least(h1 + encode_utf8(info.developer@), 0x24);
    assert(h1.len() == 0x14);
    assert(h2.len() == 0x24);
    let v = h2 + seq![info.version, info.rom_size, info.ram_size, cart_info_byte(info), features_byte(info)];
    assert(v.len() == 0x29);
    assert(header_bytes(info) == v + zeros(0x60 - 0x29));
    let hr = info.hardware_rev;
    let rg = info.region;
    let im = info.interrupt_mode;
    let mp = info.mapper;
    assert(((((hr & 3) << 3u8) | (rg & 7)) << 3u8) as int == (hr % 4) * 64 + (rg % 8) * 8) by (bit_vector);
    assert(((((im & 1) << 2u8) | (mp & 3)) << 5u8) as int == (im % 2) * 128 + (mp % 4) * 32) by (bit_vector);
}

/// The number a `.word` entry stands for: a number truncated to a word, or
/// a label's logical address truncated to a word.
pub open spec fn word_entry(op: Operand, syms: Map<Seq<char>, Symbol>) -> int {
    match op {
        Operand::Immediate(v) => (v as u16) as int,
        Operand::Label(l) => (syms[l@].logical_address as u16) as int,
        _ => 0,
    }
}

/// A `.word` list of numbers and defined labels is written as one little
/// endian word per entry, in order: bytes `2 * k` and `2 * k + 1` hold
/// entry `k`, low byte first.
pub proof fn lemma_word_data_little_endian(ops: Seq<Operand>, syms: Map<Seq<char>, Symbol>, line: usize, k: int)
    requires
        forall|j: int| 0 <= j < ops.len() ==> (#[trigger] ops[j] is Immediate || (ops[j] matches Operand::Label(l) && syms.contains_key(l@))),
        0 <= k < ops.len(),
    ensures
        word_data(ops, syms, line) matches Ok(b) && b.len() == 2 * ops.len()
            && b[2 * k] as int + 256 * b[2 * k + 1] as int == word_entry(ops[k], syms),
    decreases ops.len(),
{
    let init = ops.drop_last();
    let last = ops.last();
    assert(ops[ops.len() - 1] == last);
    if init.len() > 0 {
        assert forall|j: int| 0 <= j < init.len() implies (#[trigger] init[j] is Immediate || (init[j] matches Operand::Label(l) && syms.contains_key(l@))) by {
            assert(init[j] == ops[j]);
        }
        let kk = if k < init.len() { k } else { 0 };
        lemma_word_data_little_endian(init, syms, line, kk);
        if k < init.len() {
            assert(init[k] == ops[k]);
        }
    }
    let w: u16 = match last {
        Operand::Immediate(v) => v as u16,
        Operand::Label(l) => syms[l@].logical_address as u16,
        _ => 0,
    };
    assert(lo(w) as int + 256 * hi(w) as int == w as int);
}

/// The entries of an interrupt table of numbers and defined labels are
/// written as one little endian word per entry, in order.
pub proof fn lemma_interrupt_table_little_endian(ops: Seq<Operand>, syms: Map<Seq<char>, Symbol>, line: usize, k: int)
    requires
        forall|j: int| 0 <= j < ops.len() ==> (#[trigger] ops[j] is Immediate || (ops[j] matches Operand::Label(l) && syms.contains_key(l@))),
        0 <= k < ops.len(),
    ensures
        vector_data(ops, syms, line) matches Ok(b) && b.len() == 2 * ops.len()
            && b[2 * k] as int + 256 * b[2 * k + 1] as int == word_entry(ops[k], syms),
    decreases ops.len(),
{
    let init = ops.drop_last();
    let last = ops.last();
    assert(ops[ops.len() - 1] == last);
    if init.len() > 0 {
        assert forall|j: int| 0 <= j < init.len() implies (#[trigger] init[j] is Immediate || (init[j] matches Operand::Label(l) && syms.contains_key(l@))) by {
            assert(init[j] == ops[j]);
        }
        let kk = if k < init.len() { k } else { 0 };
        lemma_interrupt_table_little_endian(init, syms, line, kk);
        if k < init.len() {
            assert(init[k] == ops[k]);
        }
    }
    let w: u16 = match last {
        Operand::Immediate(v) => v as u16,
        Operand::Label(l) => syms[l@].logical_address as u16,
        _ => 0,
    };
    assert(lo(w) as int + 256 * hi(w) as int == w as int);
}

} // verus!
