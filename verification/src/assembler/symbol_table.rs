use vstd::prelude::*;
use crate::assembler::label_table::LabelTable;
use crate::errors::{AssemblyError, ErrorKind};
use crate::text::join3;
use vstd::string::StringExecFns;

verus! {

/// Where a label lives: its logical address and its rom bank.
#[derive(Debug, Clone, Copy, PartialEq, Eq, Structural)]
pub struct Symbol {
    pub logical_address: u32,
    pub bank: u32,
}

/// Label names and their addresses.
pub type SymbolTable = LabelTable<Symbol>;

pub open spec fn undefined_label_msg(label: Seq<char>) -> Seq<char> {
    "Undefined label: "@ + label
}

pub open spec fn other_bank_msg(label: Seq<char>) -> Seq<char> {
    "Label \""@ + label + "\" exists in a different bank than the current instruction."@
}

/// Looks up a label; an unknown label is a semantic error.
pub fn get_symbol<'a>(
    symbol_table: &'a SymbolTable,
    label_name: &String,
    line_num: &usize,
) -> (r: Result<&'a Symbol, AssemblyError>)
    requires
        symbol_table.wf(),
    ensures
        r matches Ok(s) ==> symbol_table.map().contains_key(label_name@) && *s == symbol_table.map()[label_name@],
        r matches Err(e) ==> !symbol_table.map().contains_key(label_name@)
            && e.is(ErrorKind::Semantic, Some(*line_num), undefined_label_msg(label_name@)),
{
    match symbol_table.get(label_name) {
        Some(s) => Ok(s),
        None => {
            let mut reason = crate::text::owned("Undefined label: ");
            reason.append(label_name.as_str());
            Err(AssemblyError::SemanticError { line: *line_num, reason })
        },
    }
}

/// Looks up a label that must live in `current_bank`.
pub fn get_and_check_symbol<'a>(
    symbol_table: &'a SymbolTable,
    label_name: &String,
    line_num: &usize,
    current_bank: &u32,
) -> (r: Result<&'a Symbol, AssemblyError>)
    requires
        symbol_table.wf(),
    ensures
        r matches Ok(s) ==> symbol_table.map().contains_key(label_name@)
            && *s == symbol_table.map()[label_name@] && s.bank == *current_bank,
        r matches Err(e) ==> {
            if !symbol_table.map().contains_key(label_name@) {
                e.is(ErrorKind::Semantic, Some(*line_num), undefined_label_msg(label_name@))
            } else {
                symbol_table.map()[label_name@].bank != *current_bank
                    && e.is(ErrorKind::Semantic, Some(*line_num), other_bank_msg(label_name@))
            }
        },
{
    let target_symbol = get_symbol(symbol_table, label_name, line_num)?;
    if target_symbol.bank != *current_bank {
        return Err(AssemblyError::SemanticError {
            line: *line_num,
            reason: join3("Label \"", label_name.as_str(), "\" exists in a different bank than the current instruction."),
        });
    }
    Ok(target_symbol)
}

} // verus!
