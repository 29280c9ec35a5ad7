use vstd::prelude::*;
use crate::assembler::constant_table::ConstantTable;
use crate::assembler::encoder::{calculate_instruction_size, instruction_size};
use crate::assembler::layout::{
    bank_overflow_error, bank_overflow_msg, calculate_logical_addr, calculate_physical_addr, grow, grow_counter,
    logical_of, pad_to, padding_to, phys_of, section_name, section_name_of, BANK_SIZE, MAX_BANK,
};
use crate::assembler::section_stack::{AddrCounter, Context};
use crate::assembler::symbol_table::{Symbol, SymbolTable};
use crate::ast::{AssemblyLine, Directive, Operand, SectionOptions};
use crate::errors::{desc, AssemblyError, ErrDesc, ErrorKind};
use crate::text::{dec_string, dec_text, hex4_string, hex4_text, join2, join3, owned};
use vstd::string::StringExecFns;

verus! {

pub open spec fn duplicate_label_msg(l: Seq<char>) -> Seq<char> {
    "Duplicate label definition: "@ + l
}

pub open spec fn label_is_constant_msg(l: Seq<char>) -> Seq<char> {
    "Label already defined as a constant: "@ + l
}

pub open spec fn org_beyond_final_msg(fin: u16) -> Seq<char> {
    ".org directive cannot move beyond the final logical address for a rom (final addr: "@ + hex4_text(fin as nat)
        + ")."@
}

pub open spec fn org_bank0_msg(addr: u32) -> Seq<char> {
    "Currently selected bank is bank 0, the given .org address ("@ + hex4_text(addr as nat)
        + ") is outside of the bank 0 fixed address space 0x0000-0x3FFF."@
}

pub open spec fn org_switchable_msg(bank: u32, addr: u32) -> Seq<char> {
    "Currently selected bank is bank "@ + dec_text(bank as nat) + " (a switchable bank), the given .org address ("@
        + hex4_text(addr as nat) + ") is outside of the switchable bank address space 0x4000-0x7FFF."@
}

pub open spec fn org_backwards_msg() -> Seq<char> {
    ".org directive cannot move the address backwards."@
}

pub open spec fn bank_backwards_msg() -> Seq<char> {
    ".bank directive cannot move to a previous bank."@
}

pub open spec fn header_not_allowed_msg() -> Seq<char> {
    "Cartridge rom header not allowed in boot roms."@
}

pub open spec fn interrupt_not_expected_msg() -> Seq<char> {
    "Interrupt vector table not expected."@
}

pub open spec fn nested_section_msg(name: Seq<char>) -> Seq<char> {
    "Cannot nest a section within a section, already within the \""@ + name + "\" section."@
}

pub open spec fn section_end_without_start_msg() -> Seq<char> {
    ".section_end found without a preceding .section statement."@
}

pub open spec fn section_too_large_msg(name: Seq<char>, size: u32, n: u32) -> Seq<char> {
    "Section \""@ + name + "\" larger than the allotted section size of "@ + dec_text(size as nat) + " bytes, ("@
        + dec_text(n as nat) + " bytes)"@
}

pub open spec fn unclosed_section_msg(name: Seq<char>) -> Seq<char> {
    "section \""@ + name + "\" has no matching .section_end statement."@
}

pub open spec fn header_misplaced_msg(expected: u16, found: u32) -> Seq<char> {
    "Expected cartridge rom header at "@ + hex4_text(expected as nat) + ", found at "@ + hex4_text(found as nat)
}

pub open spec fn header_missing_msg(expected: u16) -> Seq<char> {
    "Expected cartridge rom header at "@ + hex4_text(expected as nat)
}

pub open spec fn interrupt_misplaced_msg(expected: u16, found: u32) -> Seq<char> {
    "Expected interrupt vector table at "@ + hex4_text(expected as nat) + ", found at "@ + hex4_text(found as nat)
}

pub open spec fn interrupt_missing_msg(expected: u16) -> Seq<char> {
    "Expected interrupt vector table at "@ + hex4_text(expected as nat)
}

/// What pass 1 remembers of an open section.
pub struct SectionView {
    pub name: Option<Seq<char>>,
    pub size: Option<u32>,
    pub has_vaddr: bool,
    pub saved_num_bytes: u32,
}

/// The state of pass 1 between two lines.
pub struct Pass1View {
    pub counter: AddrCounter,
    pub symbols: Map<Seq<char>, Symbol>,
    pub section: Option<SectionView>,
    pub found_interrupt: Option<u32>,
    pub found_header: Option<u32>,
}

/// What pass 1 is given besides the lines.
pub struct Pass1Params {
    pub final_logical_addr: u16,
    pub expected_interrupt: Option<u16>,
    pub expected_header: Option<u16>,
    pub consts: Map<Seq<char>, i32>,
}

pub open spec fn pass1_start() -> Pass1View {
    Pass1View {
        counter: AddrCounter { physical_addr: 0, logical_addr: 0, num_bytes: 0, bank: 0 },
        symbols: Map::empty(),
        section: None,
        found_interrupt: None,
        found_header: None,
    }
}

pub open spec fn opt_name(name: Option<String>) -> Option<Seq<char>> {
    match name {
        Some(n) => Some(n@),
        None => None,
    }
}

/// A label gets the current logical address and bank; it must be new and
/// must not name a constant.
pub open spec fn label_step(s: Pass1View, l: AssemblyLine, p: Pass1Params) -> Result<Pass1View, ErrDesc> {
    match l.label {
        Some(label) => if s.symbols.contains_key(label@) {
            Err(desc(ErrorKind::Semantic, Some(l.line_number), duplicate_label_msg(label@)))
        } else if p.consts.contains_key(label@) {
            Err(desc(ErrorKind::Semantic, Some(l.line_number), label_is_constant_msg(label@)))
        } else {
            Ok(
                Pass1View {
                    symbols: s.symbols.insert(
                        label@,
                        Symbol { logical_address: s.counter.logical_addr, bank: s.counter.bank },
                    ),
                    ..s
                },
            )
        },
        None => Ok(s),
    }
}

pub open spec fn with_counter(s: Pass1View, r: Result<AddrCounter, ErrDesc>) -> Result<Pass1View, ErrDesc> {
    match r {
        Ok(c) => Ok(Pass1View { counter: c, ..s }),
        Err(d) => Err(d),
    }
}

/// `.org`: moves to a logical address of the current bank, never backwards.
pub open spec fn org_step(s: Pass1View, a: i32, line: usize, fin: u16) -> Result<Pass1View, ErrDesc> {
    let c = s.counter;
    let logical = a as u32;
    if logical > fin as u32 {
        Err(desc(ErrorKind::Semantic, Some(line), org_beyond_final_msg(fin)))
    } else if c.bank == 0 && logical > 0x3FFF {
        Err(desc(ErrorKind::Semantic, Some(line), org_bank0_msg(logical)))
    } else if c.bank != 0 && logical < 0x4000 {
        Err(desc(ErrorKind::Semantic, Some(line), org_switchable_msg(c.bank, logical)))
    } else if phys_of(logical as u16, c.bank) > u32::MAX {
        Err(desc(ErrorKind::Structure, Some(line), bank_overflow_msg(c.bank)))
    } else if phys_of(logical as u16, c.bank) < c.physical_addr {
        Err(desc(ErrorKind::Semantic, Some(line), org_backwards_msg()))
    } else {
        let new_phys = phys_of(logical as u16, c.bank) as u32;
        Ok(
            Pass1View {
                counter: AddrCounter {
                    physical_addr: new_phys,
                    logical_addr: logical,
                    num_bytes: c.num_bytes.wrapping_add(new_phys.wrapping_sub(c.physical_addr)),
                    bank: c.bank,
                },
                ..s
            },
        )
    }
}

/// `.bank`: moves forward to the start of a bank.
pub open spec fn bank_step(s: Pass1View, n: i32, line: usize) -> Result<Pass1View, ErrDesc> {
    let c = s.counter;
    let b = n as u32;
    if b < c.bank {
        Err(desc(ErrorKind::Semantic, Some(line), bank_backwards_msg()))
    } else if b == c.bank {
        Ok(s)
    } else if b > MAX_BANK {
        Err(desc(ErrorKind::Structure, Some(line), bank_overflow_msg(b)))
    } else {
        let new_phys = (b * 16384) as u32;
        Ok(
            Pass1View {
                counter: AddrCounter {
                    physical_addr: new_phys,
                    logical_addr: 0,
                    num_bytes: c.num_bytes.wrapping_add(new_phys.wrapping_sub(c.physical_addr)),
                    bank: b,
                },
                ..s
            },
        )
    }
}

/// `.section`: opens a section, which may not be nested. Its byte count
/// starts over; it may move the physical address, pad it to an alignment
/// (the padding counts as part of the section) and set the logical address.
pub open spec fn section_start_step(s: Pass1View, o: SectionOptions, line: usize) -> Result<Pass1View, ErrDesc> {
    match s.section {
        Some(sec) => Err(desc(ErrorKind::Structure, Some(line), nested_section_msg(section_name(sec.name)))),
        None => {
            let c1 = AddrCounter { num_bytes: 0, ..s.counter };
            let c2 = match o.paddr {
                Some(pa) => AddrCounter { physical_addr: pa, ..c1 },
                None => c1,
            };
            let c3 = match o.align {
                Some(al) => grow(c2, pad_to(c2.physical_addr, al), line),
                None => Ok(c2),
            };
            match c3 {
                Err(d) => Err(d),
                Ok(c3) => {
                    let c4 = match o.vaddr {
                        Some(va) => AddrCounter { logical_addr: va, ..c3 },
                        None => c3,
                    };
                    Ok(
                        Pass1View {
                            counter: c4,
                            section: Some(
                                SectionView {
                                    name: opt_name(o.name),
                                    size: o.size,
                                    has_vaddr: o.vaddr is Some,
                                    saved_num_bytes: s.counter.num_bytes,
                                },
                            ),
                            ..s
                        },
                    )
                },
            }
        },
    }
}

/// `.section_end`: closes the open section, pads it to its size, and
/// gives back the logical address its physical address maps to when the
/// section had moved it.
pub open spec fn section_end_step(s: Pass1View, line: usize) -> Result<Pass1View, ErrDesc> {
    match s.section {
        None => Err(desc(ErrorKind::Structure, Some(line), section_end_without_start_msg())),
        Some(sec) => {
            let c1 = if sec.has_vaddr {
                AddrCounter { logical_addr: logical_of(s.counter.physical_addr), ..s.counter }
            } else {
                s.counter
            };
            let c2 = match sec.size {
                Some(size) => if c1.num_bytes > size {
                    Err(
                        desc(
                            ErrorKind::Structure,
                            Some(line),
                            section_too_large_msg(section_name(sec.name), size, c1.num_bytes),
                        ),
                    )
                } else {
                    grow(c1, size - c1.num_bytes, line)
                },
                None => Ok(c1),
            };
            match c2 {
                Err(d) => Err(d),
                Ok(c2) => Ok(
                    Pass1View {
                        counter: AddrCounter { num_bytes: c2.num_bytes.wrapping_add(sec.saved_num_bytes), ..c2 },
                        section: None,
                        ..s
                    },
                ),
            }
        },
    }
}

/// What a directive does to the state of pass 1.
pub open spec fn directive_step(s: Pass1View, d: Directive, line: usize, p: Pass1Params) -> Result<Pass1View, ErrDesc> {
    match d {
        Directive::Org(Operand::Immediate(a)) => org_step(s, a, line, p.final_logical_addr),
        Directive::Bank(Operand::Immediate(n)) => bank_step(s, n, line),
        Directive::Byte(bytes) => with_counter(s, grow(s.counter, bytes@.len() as u32 as int, line)),
        Directive::Word(words) => with_counter(s, grow(s.counter, words@.len() as u32 as int * 2, line)),
        Directive::Header(_) => match p.expected_header {
            None => Err(desc(ErrorKind::Structure, Some(line), header_not_allowed_msg())),
            Some(_) => with_counter(
                Pass1View { found_header: Some(s.counter.physical_addr), ..s },
                grow(s.counter, 96, line),
            ),
        },
        Directive::Interrupt(_) => match p.expected_interrupt {
            None => Err(desc(ErrorKind::Structure, Some(line), interrupt_not_expected_msg())),
            Some(_) => with_counter(
                Pass1View { found_interrupt: Some(s.counter.physical_addr), ..s },
                grow(s.counter, 32, line),
            ),
        },
        Directive::SectionStart(o) => section_start_step(s, o, line),
        Directive::SectionEnd => section_end_step(s, line),
        Directive::Align(al) => with_counter(s, grow(s.counter, pad_to(s.counter.physical_addr, al), line)),
        _ => Ok(s),
    }
}

/// Pass 1 on one line: its label, the size of its instruction, its
/// directive, and then the check that the current bank did not overflow.
pub open spec fn pass1_step(s: Pass1View, l: AssemblyLine, p: Pass1Params) -> Result<Pass1View, ErrDesc> {
    match label_step(s, l, p) {
        Err(d) => Err(d),
        Ok(s1) => {
            let r2 = match l.instruction {
                Some(i) => with_counter(s1, grow(s1.counter, instruction_size(i) as int, l.line_number)),
                None => Ok(s1),
            };
            match r2 {
                Err(d) => Err(d),
                Ok(s2) => {
                    let r3 = match l.directive {
                        Some(d) => directive_step(s2, d, l.line_number, p),
                        None => Ok(s2),
                    };
                    match r3 {
                        Err(d) => Err(d),
                        Ok(s3) => if s3.counter.physical_addr > (s3.counter.bank + 1) * 16384 {
                            Err(desc(ErrorKind::Structure, Some(l.line_number), bank_overflow_msg(s3.counter.bank)))
                        } else {
                            Ok(s3)
                        },
                    }
                },
            }
        },
    }
}

/// Pass 1 on the first `n` lines.
pub open spec fn pass1_upto(lines: Seq<AssemblyLine>, n: int, p: Pass1Params) -> Result<Pass1View, ErrDesc>
    decreases n,
{
    if n <= 0 {
        Ok(pass1_start())
    } else {
        match pass1_upto(lines, n - 1, p) {
            Ok(s) => pass1_step(s, lines[n - 1], p),
            Err(d) => Err(d),
        }
    }
}

/// The checks after the last line: no section is left open, and the header
/// and the interrupt table are where they are expected.
pub open spec fn pass1_finish(s: Pass1View, p: Pass1Params) -> Result<Map<Seq<char>, Symbol>, ErrDesc> {
    if s.section is Some {
        Err(desc(ErrorKind::StructureNoLine, None, unclosed_section_msg(section_name(s.section->Some_0.name))))
    } else if p.expected_header is Some && s.found_header is Some && p.expected_header->Some_0 as u32
        != s.found_header->Some_0 {
        Err(
            desc(
                ErrorKind::StructureNoLine,
                None,
                header_misplaced_msg(p.expected_header->Some_0, s.found_header->Some_0),
            ),
        )
    } else if p.expected_header is Some && s.found_header is None {
        Err(desc(ErrorKind::StructureNoLine, None, header_missing_msg(p.expected_header->Some_0)))
    } else if p.expected_interrupt is Some && s.found_interrupt is Some && p.expected_interrupt->Some_0 as u32
        != s.found_interrupt->Some_0 {
        Err(
            desc(
                ErrorKind::StructureNoLine,
                None,
                interrupt_misplaced_msg(p.expected_interrupt->Some_0, s.found_interrupt->Some_0),
            ),
        )
    } else if p.expected_interrupt is Some && s.found_interrupt is None {
        Err(desc(ErrorKind::StructureNoLine, None, interrupt_missing_msg(p.expected_interrupt->Some_0)))
    } else {
        Ok(s.symbols)
    }
}

/// The symbol table pass 1 builds from `lines`, or the error it stops at.
pub open spec fn symbols_spec(lines: Seq<AssemblyLine>, p: Pass1Params) -> Result<Map<Seq<char>, Symbol>, ErrDesc> {
    match pass1_upto(lines, lines.len() as int, p) {
        Ok(s) => pass1_finish(s, p),
        Err(d) => Err(d),
    }
}

pub proof fn lemma_pass1_error_extends(lines: Seq<AssemblyLine>, n: int, p: Pass1Params)
    requires
        0 <= n <= lines.len(),
        pass1_upto(lines, n, p) is Err,
    ensures
        pass1_upto(lines, lines.len() as int, p) == pass1_upto(lines, n, p),
    decreases lines.len() - n,
{
    if n < lines.len() {
        lemma_pass1_error_extends(lines, n + 1, p);
    }
}


/// The state of pass 1 between two lines.
pub struct SymbolPass {
    pub counter: AddrCounter,
    pub symbols: SymbolTable,
    pub section: Option<Context>,
    pub found_interrupt: Option<u32>,
    pub found_header: Option<u32>,
}

pub open spec fn section_view(section: Option<Context>) -> Option<SectionView> {
    match section {
        Some(ctx) => Some(
            SectionView {
                name: opt_name(ctx.name),
                size: ctx.size,
                has_vaddr: ctx.vaddr is Some,
                saved_num_bytes: ctx.address.num_bytes,
            },
        ),
        None => None,
    }
}

impl View for SymbolPass {
    type V = Pass1View;

    open spec fn view(&self) -> Pass1View {
        Pass1View {
            counter: self.counter,
            symbols: self.symbols.map(),
            section: section_view(self.section),
            found_interrupt: self.found_interrupt,
            found_header: self.found_header,
        }
    }
}

impl SymbolPass {
    /// The table has each label once, and the bank is one whose addresses fit.
    pub open spec fn wf(&self) -> bool {
        self.symbols.wf() && self.counter.bank <= MAX_BANK
    }

    pub fn new() -> (st: Self)
        ensures
            st.wf(),
            st@ == pass1_start(),
    {
        SymbolPass {
            counter: AddrCounter::new(),
            symbols: SymbolTable::new(),
            section: None,
            found_interrupt: None,
            found_header: None,
        }
    }
}

pub open spec fn pass1_params(fin: u16, ei: Option<u16>, eh: Option<u16>, c: Map<Seq<char>, i32>) -> Pass1Params {
    Pass1Params { final_logical_addr: fin, expected_interrupt: ei, expected_header: eh, consts: c }
}

/// The state a step ends in agrees with the spec of the step.
pub open spec fn step_matches(r: Result<(), AssemblyError>, after: SymbolPass, s: Result<Pass1View, ErrDesc>) -> bool {
    match s {
        Ok(v) => r is Ok && after.wf() && after@ == v,
        Err(d) => r matches Err(e) && e.is(d.0, d.1, d.2),
    }
}

fn label_line(st: &mut SymbolPass, l: &AssemblyLine, constant_table: &ConstantTable, Ghost(p): Ghost<Pass1Params>) -> (r: Result<(), AssemblyError>)
    requires
        old(st).wf(),
        constant_table.wf(),
        p.consts == constant_table.map(),
    ensures
        step_matches(r, *final(st), label_step(old(st)@, *l, p)),
{
    match &l.label {
        Some(label) => {
            if st.symbols.contains_key(label) {
                return Err(AssemblyError::SemanticError {
                    line: l.line_number,
                    reason: join2("Duplicate label definition: ", label.as_str()),
                });
            }
            if constant_table.contains_key(label) {
                return Err(AssemblyError::SemanticError {
                    line: l.line_number,
                    reason: join2("Label already defined as a constant: ", label.as_str()),
                });
            }
            let sym = Symbol { logical_address: st.counter.logical_addr, bank: st.counter.bank };
            st.symbols.insert(crate::text::copy_string(label), sym);
            Ok(())
        },
        None => Ok(()),
    }
}

fn org_line(st: &mut SymbolPass, a: i32, line: usize, fin: u16) -> (r: Result<(), AssemblyError>)
    requires
        old(st).wf(),
    ensures
        step_matches(r, *final(st), org_step(old(st)@, a, line, fin)),
{
    let logical = a as u32;
    if logical > fin as u32 {
        let h = hex4_string(fin as u64);
        return Err(AssemblyError::SemanticError {
            line,
            reason: join3(
                ".org directive cannot move beyond the final logical address for a rom (final addr: ",
                h.as_str(),
                ").",
            ),
        });
    }
    if st.counter.bank == 0 && logical > 0x3FFF {
        let h = hex4_string(logical as u64);
        return Err(AssemblyError::SemanticError {
            line,
            reason: join3(
                "Currently selected bank is bank 0, the given .org address (",
                h.as_str(),
                ") is outside of the bank 0 fixed address space 0x0000-0x3FFF.",
            ),
        });
    }
    if st.counter.bank != 0 && logical < 0x4000 {
        let b = dec_string(st.counter.bank as u64);
        let h = hex4_string(logical as u64);
        let mut reason = owned("Currently selected bank is bank ");
        reason.append(b.as_str());
        reason.append(" (a switchable bank), the given .org address (");
        reason.append(h.as_str());
        reason.append(") is outside of the switchable bank address space 0x4000-0x7FFF.");
        return Err(AssemblyError::SemanticError { line, reason });
    }
    let l16 = logical as u16;
    if st.counter.bank > 1 && (st.counter.bank as u64) * (BANK_SIZE as u64) + (l16 as u64) - 0x4000 > u32::MAX as u64 {
        return Err(bank_overflow_error(st.counter.bank, line));
    }
    let new_physical_addr = calculate_physical_addr(&l16, &st.counter.bank);
    if new_physical_addr < st.counter.physical_addr {
        return Err(AssemblyError::SemanticError {
            line,
            reason: owned(".org directive cannot move the address backwards."),
        });
    }
    st.counter.logical_addr = logical;
    st.counter.num_bytes = st.counter.num_bytes.wrapping_add(new_physical_addr.wrapping_sub(st.counter.physical_addr));
    st.counter.physical_addr = new_physical_addr;
    Ok(())
}

fn bank_line(st: &mut SymbolPass, n: i32, line: usize) -> (r: Result<(), AssemblyError>)
    requires
        old(st).wf(),
    ensures
        step_matches(r, *final(st), bank_step(old(st)@, n, line)),
{
    let b = n as u32;
    if b < st.counter.bank {
        return Err(AssemblyError::SemanticError {
            line,
            reason: owned(".bank directive cannot move to a previous bank."),
        });
    }
    if b != st.counter.bank {
        if b > MAX_BANK {
            return Err(bank_overflow_error(b, line));
        }
        let new_physical_addr = b * BANK_SIZE;
        st.counter.bank = b;
        st.counter.num_bytes = st.counter.num_bytes.wrapping_add(new_physical_addr.wrapping_sub(st.counter.physical_addr));
        st.counter.physical_addr = new_physical_addr;
        st.counter.logical_addr = 0;
    }
    Ok(())
}

fn copy_name(name: &Option<String>) -> (r: Option<String>)
    ensures
        opt_name(r) == opt_name(*name),
{
    match name {
        Some(n) => Some(crate::text::copy_string(n)),
        None => None,
    }
}

fn section_start_line(st: &mut SymbolPass, o: &SectionOptions, line: usize) -> (r: Result<(), AssemblyError>)
    requires
        old(st).wf(),
    ensures
        step_matches(r, *final(st), section_start_step(old(st)@, *o, line)),
{
    if let Some(ctx) = &st.section {
        let name = section_name_of(&ctx.name);
        return Err(AssemblyError::StructuralError {
            line,
            reason: join3("Cannot nest a section within a section, already within the \"", name.as_str(), "\" section."),
        });
    }
    let context = Context {
        name: copy_name(&o.name),
        size: o.size,
        vaddr: o.vaddr,
        paddr: o.paddr,
        align: o.align,
        address: st.counter,
    };
    st.counter.num_bytes = 0;
    if let Some(paddr) = o.paddr {
        st.counter.physical_addr = paddr;
    }
    if let Some(align) = o.align {
        let pad = padding_to(st.counter.physical_addr, align);
        let r = grow_counter(&mut st.counter, pad as u64, line);
        if r.is_err() {
            return r;
        }
    }
    if let Some(vaddr) = o.vaddr {
        st.counter.logical_addr = vaddr;
    }
    st.section = Some(context);
    Ok(())
}

fn section_end_line(st: &mut SymbolPass, line: usize) -> (r: Result<(), AssemblyError>)
    requires
        old(st).wf(),
    ensures
        step_matches(r, *final(st), section_end_step(old(st)@, line)),
{
    let old_context = match st.section.take() {
        Some(ctx) => ctx,
        None => {
            return Err(AssemblyError::StructuralError {
                line,
                reason: owned(".section_end found without a preceding .section statement."),
            });
        },
    };
    if old_context.vaddr.is_some() {
        st.counter.logical_addr = calculate_logical_addr(&st.counter.physical_addr);
    }
    if let Some(size) = old_context.size {
        if st.counter.num_bytes > size {
            let name = section_name_of(&old_context.name);
            let sz = dec_string(size as u64);
            let n = dec_string(st.counter.num_bytes as u64);
            let mut reason = owned("Section \"");
            reason.append(name.as_str());
            reason.append("\" larger than the allotted section size of ");
            reason.append(sz.as_str());
            reason.append(" bytes, (");
            reason.append(n.as_str());
            reason.append(" bytes)");
            return Err(AssemblyError::StructuralError { line, reason });
        }
        let pad_size = size - st.counter.num_bytes;
        let r = grow_counter(&mut st.counter, pad_size as u64, line);
        if r.is_err() {
            return r;
        }
    }
    st.counter.num_bytes = st.counter.num_bytes.wrapping_add(old_context.address.num_bytes);
    Ok(())
}

fn directive_line(
    st: &mut SymbolPass,
    d: &Directive,
    line: usize,
    fin: u16,
    expected_interrupt_table_addr: Option<u16>,
    expected_header_addr: Option<u16>,
    Ghost(p): Ghost<Pass1Params>,
) -> (r: Result<(), AssemblyError>)
    requires
        old(st).wf(),
        p.final_logical_addr == fin,
        p.expected_interrupt == expected_interrupt_table_addr,
        p.expected_header == expected_header_addr,
    ensures
        step_matches(r, *final(st), directive_step(old(st)@, *d, line, p)),
{
    match d {
        Directive::Org(Operand::Immediate(a)) => org_line(st, *a, line, fin),
        Directive::Bank(Operand::Immediate(n)) => bank_line(st, *n, line),
        Directive::Byte(bytes) => grow_counter(&mut st.counter, bytes.len() as u32 as u64, line),
        Directive::Word(words) => grow_counter(&mut st.counter, (words.len() as u32 as u64) * 2, line),
        Directive::Header(_) => {
            if expected_header_addr.is_none() {
                return Err(AssemblyError::StructuralError {
                    line,
                    reason: owned("Cartridge rom header not allowed in boot roms."),
                });
            }
            st.found_header = Some(st.counter.physical_addr);
            grow_counter(&mut st.counter, 96, line)
        },
        Directive::Interrupt(_) => {
            if expected_interrupt_table_addr.is_none() {
                return Err(AssemblyError::StructuralError {
                    line,
                    reason: owned("Interrupt vector table not expected."),
                });
            }
            st.found_interrupt = Some(st.counter.physical_addr);
            grow_counter(&mut st.counter, 32, line)
        },
        Directive::SectionStart(o) => section_start_line(st, o, line),
        Directive::SectionEnd => section_end_line(st, line),
        Directive::Align(align) => {
            let pad = padding_to(st.counter.physical_addr, *align);
            grow_counter(&mut st.counter, pad as u64, line)
        },
        _ => Ok(()),
    }
}

/// Pass 1 on one line.
pub fn pass1_line(
    st: &mut SymbolPass,
    l: &AssemblyLine,
    fin: u16,
    expected_interrupt_table_addr: Option<u16>,
    expected_header_addr: Option<u16>,
    constant_table: &ConstantTable,
) -> (r: Result<(), AssemblyError>)
    requires
        old(st).wf(),
        constant_table.wf(),
    ensures
        step_matches(
            r,
            *final(st),
            pass1_step(
                old(st)@,
                *l,
                pass1_params(fin, expected_interrupt_table_addr, expected_header_addr, constant_table.map()),
            ),
        ),
{
    let ghost p = pass1_params(fin, expected_interrupt_table_addr, expected_header_addr, constant_table.map());
    let r = label_line(st, l, constant_table, Ghost(p));
    if r.is_err() {
        return r;
    }
    if let Some(instruction) = &l.instruction {
        let size = calculate_instruction_size(instruction);
        let r = grow_counter(&mut st.counter, size as u64, l.line_number);
        if r.is_err() {
            return r;
        }
    }
    if let Some(directive) = &l.directive {
        let r = directive_line(st, directive, l.line_number, fin, expected_interrupt_table_addr, expected_header_addr, Ghost(p));
        if r.is_err() {
            return r;
        }
    }
    if st.counter.physical_addr as u64 > (st.counter.bank as u64 + 1) * (BANK_SIZE as u64) {
        return Err(bank_overflow_error(st.counter.bank, l.line_number));
    }
    Ok(())
}

} // verus!
