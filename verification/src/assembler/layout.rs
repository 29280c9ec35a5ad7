use vstd::prelude::*;
use crate::assembler::section_stack::AddrCounter;
use crate::errors::{desc, AssemblyError, ErrDesc, ErrorKind};
use crate::text::{dec_string, dec_text, hex_text, join2, join3};
use vstd::string::StringExecFns;

verus! {

/// Bytes in one rom bank.
pub const BANK_SIZE: u32 = 16384;

/// The highest bank whose start still fits a 32 bit physical address.
pub const MAX_BANK: u32 = 262143;

/// The physical rom offset of a logical address in a bank: banks 0 and 1
/// are mapped as they are, a higher bank appears in the switchable window
/// at 0x4000.
pub open spec fn phys_of(logical: u16, bank: u32) -> int {
    if bank <= 1 {
        logical as int
    } else {
        bank * 16384 + logical - 0x4000
    }
}

/// The logical address the cpu sees for a physical rom offset.
pub open spec fn logical_of(physical: u32) -> u32 {
    if physical < 16384 {
        physical
    } else {
        (physical % 16384 + 16384) as u32
    }
}

/// The padding that moves `physical` up to the next multiple of `align`.
pub open spec fn pad_to(physical: u32, align: u32) -> int {
    if align == 0 {
        0
    } else {
        ((align - physical % align) as int) % (align as int)
    }
}

pub fn calculate_physical_addr(logical_addr: &u16, bank: &u32) -> (p: u32)
    requires
        *bank <= MAX_BANK,
        phys_of(*logical_addr, *bank) <= u32::MAX,
    ensures
        p == phys_of(*logical_addr, *bank),
{
    if *bank <= 1 {
        *logical_addr as u32
    } else {
        (*bank * BANK_SIZE - 0x4000) + *logical_addr as u32
    }
}

pub fn calculate_logical_addr(physical_addr: &u32) -> (l: u32)
    ensures
        l == logical_of(*physical_addr),
{
    if *physical_addr < BANK_SIZE {
        *physical_addr
    } else {
        (*physical_addr % BANK_SIZE) + BANK_SIZE
    }
}

pub fn padding_to(physical: u32, align: u32) -> (p: u32)
    ensures
        p == pad_to(physical, align),
{
    if align == 0 {
        0
    } else {
        (align - physical % align) % align
    }
}

pub open spec fn bank_overflow_msg(bank: u32) -> Seq<char> {
    "ROM bank "@ + dec_text(bank as nat) + " overflow."@
}

pub fn bank_overflow_error(bank: u32, line: usize) -> (e: AssemblyError)
    ensures
        e.is(ErrorKind::Structure, Some(line), bank_overflow_msg(bank)),
{
    let n = dec_string(bank as u64);
    AssemblyError::StructuralError { line, reason: join3("ROM bank ", n.as_str(), " overflow.") }
}

/// The counter `n` bytes further on. A physical address beyond 32 bits lies
/// beyond the end of any bank.
pub open spec fn grow(c: AddrCounter, n: int, line: usize) -> Result<AddrCounter, ErrDesc> {
    if c.physical_addr + n > u32::MAX {
        Err(desc(ErrorKind::Structure, Some(line), bank_overflow_msg(c.bank)))
    } else {
        Ok(c.incremented(n as u32))
    }
}

pub fn grow_counter(c: &mut AddrCounter, n: u64, line: usize) -> (r: Result<(), AssemblyError>)
    ensures
        match grow(*old(c), n as int, line) {
            Ok(c2) => r is Ok && *final(c) == c2,
            Err(d) => r matches Err(e) && e.is(d.0, d.1, d.2),
        },
{
    if n > (u32::MAX - c.physical_addr) as u64 {
        Err(bank_overflow_error(c.bank, line))
    } else {
        c.increment_by(n as u32);
        Ok(())
    }
}

/// The name a section is called by in messages.
pub open spec fn section_name(name: Option<Seq<char>>) -> Seq<char> {
    match name {
        Some(n) => n,
        None => "UNNAMED"@,
    }
}

pub fn section_name_of(name: &Option<String>) -> (s: String)
    ensures
        s@ == section_name(match name {
            Some(n) => Some(n@),
            None => None,
        }),
{
    match name {
        Some(n) => crate::text::copy_string(n),
        None => crate::text::owned("UNNAMED"),
    }
}

/// Mapping a logical address of a bank to its rom offset and back gives the
/// address again: for bank 0 an address below 0x4000, for any other bank an
/// address in the switchable window 0x4000 to 0x7FFF. The offset lies in the
/// bank's own 16 KiB.
pub proof fn lemma_logical_address_round_trip(logical: u16, bank: u32)
    requires
        bank == 0 ==> logical < 0x4000,
        bank != 0 ==> 0x4000 <= logical < 0x8000,
        phys_of(logical, bank) <= u32::MAX,
    ensures
        logical_of(phys_of(logical, bank) as u32) == logical,
        bank * 16384 <= phys_of(logical, bank) < (bank + 1) * 16384,
{
    if bank >= 2 {
        let p = phys_of(logical, bank);
        let r: int = logical - 0x4000;
        assert(p == bank * 16384 + r);
        vstd::arithmetic::div_mod::lemma_fundamental_div_mod_converse(p, 16384, bank as int, r);
    }
}

/// The padding to an alignment is the least that reaches it: less than the
/// alignment, and it brings the offset to a multiple of the alignment.
pub proof fn lemma_padding_reaches_alignment(physical: u32, align: u32)
    requires
        align > 0,
    ensures
        0 <= pad_to(physical, align) < align,
        (physical + pad_to(physical, align)) % (align as int) == 0,
{
    let r = physical % align;
    let a = align as int;
    let q = physical / align;
    assert(physical == q * a + r) by {
        vstd::arithmetic::div_mod::lemma_fundamental_div_mod(physical as int, a);
    }
    if r == 0 {
        assert(pad_to(physical, align) == 0) by {
            vstd::arithmetic::div_mod::lemma_mod_self_0(a);
        }
        vstd::arithmetic::div_mod::lemma_mod_multiples_basic(q as int, a);
    } else {
        assert(pad_to(physical, align) == a - r) by {
            vstd::arithmetic::div_mod::lemma_small_mod((a - r) as nat, a as nat);
        }
        assert(physical + (a - r) == (q + 1) * a) by (nonlinear_arith)
            requires
                physical == q * a + r,
        ;
        vstd::arithmetic::div_mod::lemma_mod_multiples_basic(q + 1, a);
    }
}

} // verus!
