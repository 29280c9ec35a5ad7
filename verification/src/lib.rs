pub mod assembler;
pub mod ast;
pub mod errors;
pub mod file_reader;
pub mod parser;
pub mod text;

use vstd::prelude::*;
use crate::assembler::code_pass::bytecode_spec;
use crate::assembler::symbol_pass::{pass1_params, symbols_spec};
use crate::assembler::{
    build_constant_table, build_symbol_table, constants_spec, first_constants_error, generate_bytecode,
    line_constants_replaced, process_constants,
};
use crate::ast::AssemblyLine;
use crate::errors::{bytes_match, AssemblyError};
use crate::file_reader::FileReader;
use crate::parser::{failure_is, file_leaves, leaves_match, stack_view};

verus! {

/// What assembling parsed lines gives: the constants are collected and put
/// in place of their names, then the first pass lays out the symbols and the
/// second writes the rom image.
pub open spec fn assembled(
    lines: Seq<AssemblyLine>,
    final_logical_addr: u16,
    expected_interrupt_table_addr: Option<u16>,
    expected_header_addr: Option<u16>,
    r: Result<Vec<u8>, AssemblyError>,
) -> bool {
    match constants_spec(lines) {
        Err(d) => r matches Err(e) && e.is(d.0, d.1, d.2),
        Ok(c) => match first_constants_error(lines, c) {
            Some(d) => r matches Err(e) && e.is(d.0, d.1, d.2),
            None => exists|replaced: Seq<AssemblyLine>| {
                &&& replaced.len() == lines.len()
                &&& forall|i: int| 0 <= i < lines.len() ==> line_constants_replaced(#[trigger] lines[i], replaced[i], c)
                &&& match symbols_spec(
                    replaced,
                    pass1_params(final_logical_addr, expected_interrupt_table_addr, expected_header_addr, c),
                ) {
                    Err(d) => r matches Err(e) && e.is(d.0, d.1, d.2),
                    Ok(m) => bytes_match(r, bytecode_spec(replaced, m)),
                }
            },
        },
    }
}

/// Assembles parsed lines into a rom image.
pub fn assemble_lines(
    lines: Vec<AssemblyLine>,
    final_logical_addr: u16,
    expected_interrupt_table_addr: Option<u16>,
    expected_header_addr: Option<u16>,
) -> (r: Result<Vec<u8>, AssemblyError>)
    ensures
        assembled(lines@, final_logical_addr, expected_interrupt_table_addr, expected_header_addr, r),
        r matches Ok(rom) ==> rom@.len() % 16384 == 0 && rom@.len() >= 32768,
{
    let constant_table = match build_constant_table(lines.as_slice()) {
        Ok(t) => t,
        Err(e) => {
            return Err(e);
        },
    };
    let mut lines = lines;
    match process_constants(&mut lines, &constant_table) {
        Ok(()) => {},
        Err(e) => {
            return Err(e);
        },
    }
    let symbol_table = match build_symbol_table(
        lines.as_slice(),
        &final_logical_addr,
        expected_interrupt_table_addr,
        expected_header_addr,
        &constant_table,
    ) {
        Ok(t) => t,
        Err(e) => {
            return Err(e);
        },
    };
    generate_bytecode(lines.as_slice(), &symbol_table)
}

/// Reads the program at `source_path`, with the files it includes, and
/// assembles it into a rom image of whole 16 KiB banks.
/// `final_logical_addr` is the last logical address the program may use;
/// where given, the interrupt table and the header must start at the given
/// addresses.
pub fn assemble<F: FileReader>(
    source_path: &str,
    final_logical_addr: u16,
    expected_interrupt_table_addr: Option<u16>,
    expected_header_addr: Option<u16>,
    reader: &F,
) -> (r: Result<Vec<u8>, AssemblyError>)
    ensures
        r matches Ok(rom) ==> rom@.len() % 16384 == 0 && rom@.len() >= 32768,
        r is Ok ==> exists|lines: Seq<AssemblyLine>| {
            &&& crate::parser::expanded(lines)
            &&& assembled(lines, final_logical_addr, expected_interrupt_table_addr, expected_header_addr, r)
        },
        reader.stable() ==> match file_leaves(reader.files(), source_path@, Seq::empty()) {
            Ok(ls) => exists|lines: Seq<AssemblyLine>| {
                &&& leaves_match(ls, lines)
                &&& assembled(lines, final_logical_addr, expected_interrupt_table_addr, expected_header_addr, r)
            },
            Err(f) => r matches Err(e) && failure_is(f, e),
        },
{
    let mut include_stack: Vec<String> = Vec::new();
    assert(stack_view(include_stack@) =~= Seq::<Seq<char>>::empty());
    let parsed_lines = match crate::parser::parse_source_recursive(source_path, &mut include_stack, reader) {
        Ok(v) => v,
        Err(e) => {
            return Err(e);
        },
    };
    assemble_lines(parsed_lines, final_logical_addr, expected_interrupt_table_addr, expected_header_addr)
}

} // verus!
