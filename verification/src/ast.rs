use vstd::prelude::*;

verus! {

/// Fields of a cartridge rom header block.
#[derive(Debug, Clone, PartialEq)]
pub struct HeaderInfo {
    pub boot_anim: String,
    pub title: String,
    pub developer: String,
    pub version: u8,
    pub mapper: u8,
    pub rom_size: u8,
    pub ram_size: u8,
    pub interrupt_mode: u8,
    pub hardware_rev: u8,
    pub region: u8,
}

/// The eight general purpose registers.
#[derive(Debug, Copy, Clone, PartialEq, Eq, Structural)]
pub enum Register {
    R0,
    R1,
    R2,
    R3,
    R4,
    R5,
    R6,
    R7,
}

/// All forms an argument to an instruction or directive can take.
#[derive(Debug, Clone, PartialEq)]
pub enum Operand {
    Register(Register),
    Immediate(i32),
    /// `(R1)`
    Indirect(Register),
    /// `(0x2020)`
    AbsAddr(u16),
    /// `(label)`
    AbsLabel(String),
    /// `(R1, 0x10)` or `(R1, -2)`
    Indexed(Register, i8),
    /// `(R1, const_val)`
    IndexedLabel(Register, String),
    Label(String),
    /// `-(R1)`
    PreDecrement(Register),
    /// `(R1)+`
    PostIncrement(Register),
    String(String),
}

/// One machine instruction of the Cicada-16 instruction set.
#[derive(Debug, Clone, PartialEq)]
pub enum Instruction {
    Nop,
    Halt,
    Ei,
    Di,
    Ret,
    Reti,
    Ccf,
    Scf,
    Rcf,
    Enter,
    Leave,
    // 16 bit load/store
    LdReg(Register, Register),
    Ldi(Register, Operand),
    LdIndirect(Register, Register),
    LdAbs(Register, Operand),
    LdIndexed(Register, Register, Operand),
    LdPreDec(Register, Register),
    LdPostInc(Register, Register),
    StIndirect(Register, Register),
    StAbs(Operand, Register),
    StIndexed(Register, Operand, Register),
    StPreDec(Register, Register),
    StPostInc(Register, Register),
    // 8 bit load/store
    LdiB(Register, Operand),
    LdBIndirect(Register, Register),
    LdBPreDec(Register, Register),
    LdBPostInc(Register, Register),
    LdBAbs(Register, Operand),
    StBIndirect(Register, Register),
    StBPreDec(Register, Register),
    StBPostInc(Register, Register),
    StBAbs(Operand, Register),
    Lea(Register, Register, Operand),
    // stack
    Push(Register),
    Pop(Register),
    PushI(Operand),
    PushF,
    PopF,
    // 16 bit accumulator arithmetic
    AddAcc(Register),
    SubAcc(Register),
    AndAcc(Register),
    OrAcc(Register),
    XorAcc(Register),
    CmpAcc(Register),
    NegAcc,
    NotAcc,
    SwapAcc,
    // 16 bit accumulator immediate arithmetic
    AddAccI(Operand),
    SubAccI(Operand),
    AndAccI(Operand),
    OrAccI(Operand),
    XorAccI(Operand),
    CmpAccI(Operand),
    AdcAccI(Operand),
    SbcAccI(Operand),
    // register to register arithmetic
    AddReg(Register, Register),
    SubReg(Register, Register),
    AndReg(Register, Register),
    OrReg(Register, Register),
    XorReg(Register, Register),
    CmpReg(Register, Register),
    AdcReg(Register, Register),
    SbcReg(Register, Register),
    // immediate to register arithmetic
    AddIReg(Register, Operand),
    SubIReg(Register, Operand),
    AndIReg(Register, Operand),
    OrIReg(Register, Operand),
    XorIReg(Register, Operand),
    CmpIReg(Register, Operand),
    AddSp(Operand),
    Inc(Register),
    Dec(Register),
    // 8 bit accumulator arithmetic
    AddBAcc(Register),
    SubBAcc(Register),
    AndBAcc(Register),
    OrBAcc(Register),
    XorBAcc(Register),
    CmpBAcc(Register),
    // bit manipulation
    Sra(Register),
    Shl(Register),
    Shr(Register),
    Rol(Register),
    Ror(Register),
    BitReg(Register, Operand),
    SetReg(Register, Operand),
    ResReg(Register, Operand),
    BitAbs(Operand, Operand),
    SetAbs(Operand, Operand),
    ResAbs(Operand, Operand),
    BitIndirect(Register, Operand),
    SetIndirect(Register, Operand),
    ResIndirect(Register, Operand),
    // control flow
    JmpI(Operand),
    JmpIndirect(Register),
    JrI(Operand),
    JccI(ConditionCode, Operand),
    JrccI(ConditionCode, Operand),
    Djnz(Operand),
    CallI(Operand),
    CallIndirect(Register),
    CallccI(ConditionCode, Operand),
    Syscall(Operand),
    CallFar(String),
    CallFarVia(String, String),
    JmpFar(String),
    JmpFarVia(String, String),
}

/// Flag conditions of conditional jumps and calls.
#[derive(Debug, Copy, Clone, PartialEq, Eq, Structural)]
pub enum ConditionCode {
    Z,
    Nz,
    C,
    Nc,
    N,
    Nn,
    V,
    Nv,
}

/// How a condition is written in assembly source, in lower case: the flag
/// letter (`z`ero, `c`arry, `n`egative, o`v`erflow) for "flag set", with an
/// `n` before it for "flag clear".
pub open spec fn cc_name(cc: ConditionCode) -> Seq<char> {
    match cc {
        ConditionCode::Z => seq!['z'],
        ConditionCode::Nz => seq!['n', 'z'],
        ConditionCode::C => seq!['c'],
        ConditionCode::Nc => seq!['n', 'c'],
        ConditionCode::N => seq!['n'],
        ConditionCode::Nn => seq!['n', 'n'],
        ConditionCode::V => seq!['v'],
        ConditionCode::Nv => seq!['n', 'v'],
    }
}

/// Assembler directives.
#[derive(Debug, Clone, PartialEq)]
pub enum Directive {
    Org(Operand),
    Bank(Operand),
    Byte(Vec<Operand>),
    Word(Vec<Operand>),
    Define(String, Operand),
    Include(String),
    Incbin(String),
    Header(HeaderInfo),
    Interrupt(Vec<Operand>),
    SectionStart(SectionOptions),
    SectionEnd,
    Align(u32),
}

/// Attributes of a `.section` directive.
#[derive(Debug, Clone, PartialEq)]
pub struct SectionOptions {
    pub name: Option<String>,
    pub size: Option<u32>,
    pub vaddr: Option<u32>,
    pub paddr: Option<u32>,
    pub align: Option<u32>,
}

/// A single source line: a label, an instruction or a directive.
#[derive(Debug, Clone)]
pub struct AssemblyLine {
    pub line_number: usize,
    pub label: Option<String>,
    pub instruction: Option<Instruction>,
    pub directive: Option<Directive>,
}

/// The index of a register in its encodings.
pub open spec fn reg_index(r: Register) -> u8 {
    match r {
        Register::R0 => 0,
        Register::R1 => 1,
        Register::R2 => 2,
        Register::R3 => 3,
        Register::R4 => 4,
        Register::R5 => 5,
        Register::R6 => 6,
        Register::R7 => 7,
    }
}

/// The offset of a condition code from the base opcode of a conditional instruction.
pub open spec fn cc_offset(cc: ConditionCode) -> u8 {
    match cc {
        ConditionCode::V => 0,
        ConditionCode::Nv => 1,
        ConditionCode::N => 2,
        ConditionCode::Nn => 3,
        ConditionCode::C => 4,
        ConditionCode::Nc => 5,
        ConditionCode::Z => 6,
        ConditionCode::Nz => 7,
    }
}

/// The place of a flag letter among the conditional opcodes: overflow,
/// negative, carry, zero.
pub open spec fn flag_place(flag: char) -> int {
    if flag == 'v' {
        0
    } else if flag == 'n' {
        1
    } else if flag == 'c' {
        2
    } else {
        3
    }
}

/// The conditional opcodes come in pairs, one per flag in the order
/// overflow, negative, carry, zero: first the condition "flag set", then
/// "flag clear" (the name with an `n` in front).
pub proof fn lemma_condition_offsets_pair_flags(cc: ConditionCode)
    ensures
        cc_offset(cc) == 2 * flag_place(cc_name(cc).last()) + (if cc_name(cc).len() == 2 { 1int } else { 0int }),
{
}

impl Default for HeaderInfo {
    fn default() -> (r: Self)
        ensures
            r.boot_anim@ == Seq::<char>::empty(),
            r.title@ == Seq::<char>::empty(),
            r.developer@ == Seq::<char>::empty(),
            r.version == 0 && r.mapper == 0 && r.rom_size == 0 && r.ram_size == 0,
            r.interrupt_mode == 0 && r.hardware_rev == 0 && r.region == 0,
    {
        HeaderInfo {
            boot_anim: String::new(),
            title: String::new(),
            developer: String::new(),
            version: 0,
            mapper: 0,
            rom_size: 0,
            ram_size: 0,
            interrupt_mode: 0,
            hardware_rev: 0,
            region: 0,
        }
    }
}

impl Default for SectionOptions {
    fn default() -> (r: Self)
        ensures
            r.name is None && r.size is None && r.vaddr is None && r.paddr is None && r.align is None,
    {
        SectionOptions { name: None, size: None, vaddr: None, paddr: None, align: None }
    }
}

impl Default for AssemblyLine {
    fn default() -> (r: Self)
        ensures
            r.line_number == 0 && r.label is None && r.instruction is None && r.directive is None,
    {
        AssemblyLine { line_number: 0, label: None, instruction: None, directive: None }
    }
}


/// An operand as plain values: strings as their characters.
pub enum OperandView {
    Register(Register),
    Immediate(i32),
    Indirect(Register),
    AbsAddr(u16),
    AbsLabel(Seq<char>),
    Indexed(Register, i8),
    IndexedLabel(Register, Seq<char>),
    Label(Seq<char>),
    PreDecrement(Register),
    PostIncrement(Register),
    String(Seq<char>),
}

impl View for Operand {
    type V = OperandView;

    open spec fn view(&self) -> OperandView {
        match self {
            Operand::Register(r) => OperandView::Register(*r),
            Operand::Immediate(v) => OperandView::Immediate(*v),
            Operand::Indirect(r) => OperandView::Indirect(*r),
            Operand::AbsAddr(a) => OperandView::AbsAddr(*a),
            Operand::AbsLabel(l) => OperandView::AbsLabel(l@),
            Operand::Indexed(r, o) => OperandView::Indexed(*r, *o),
            Operand::IndexedLabel(r, l) => OperandView::IndexedLabel(*r, l@),
            Operand::Label(l) => OperandView::Label(l@),
            Operand::PreDecrement(r) => OperandView::PreDecrement(*r),
            Operand::PostIncrement(r) => OperandView::PostIncrement(*r),
            Operand::String(t) => OperandView::String(t@),
        }
    }
}

/// The register whose index is `i`.
pub open spec fn register_of(i: int) -> Register {
    if i == 0 {
        Register::R0
    } else if i == 1 {
        Register::R1
    } else if i == 2 {
        Register::R2
    } else if i == 3 {
        Register::R3
    } else if i == 4 {
        Register::R4
    } else if i == 5 {
        Register::R5
    } else if i == 6 {
        Register::R6
    } else {
        Register::R7
    }
}

} // verus!
