use vstd::prelude::*;
use crate::assembler::encoder::constants::{
    CCF_OPCODE, DI_OPCODE, EI_OPCODE, ENTER_OPCODE, HALT_OPCODE, LEAVE_OPCODE, NOP_OPCODE, RCF_OPCODE, RETI_OPCODE,
    RET_OPCODE, SCF_OPCODE,
};
use crate::assembler::encoder::Encoder;
use crate::errors::AssemblyError;

verus! {

impl<'a> Encoder<'a> {
    pub fn encode_nop(self) -> (r: Result<Vec<u8>, AssemblyError>)
        ensures r matches Ok(v) && v@ == seq![NOP_OPCODE],
    {
        Ok(vec![NOP_OPCODE])
    }

    pub fn encode_halt(self) -> (r: Result<Vec<u8>, AssemblyError>)
        ensures r matches Ok(v) && v@ == seq![HALT_OPCODE],
    {
        Ok(vec![HALT_OPCODE])
    }

    pub fn encode_ccf(self) -> (r: Result<Vec<u8>, AssemblyError>)
        ensures r matches Ok(v) && v@ == seq![CCF_OPCODE],
    {
        Ok(vec![CCF_OPCODE])
    }

    pub fn encode_scf(self) -> (r: Result<Vec<u8>, AssemblyError>)
        ensures r matches Ok(v) && v@ == seq![SCF_OPCODE],
    {
        Ok(vec![SCF_OPCODE])
    }

    pub fn encode_rcf(self) -> (r: Result<Vec<u8>, AssemblyError>)
        ensures r matches Ok(v) && v@ == seq![RCF_OPCODE],
    {
        Ok(vec![RCF_OPCODE])
    }

    pub fn encode_enter(self) -> (r: Result<Vec<u8>, AssemblyError>)
        ensures r matches Ok(v) && v@ == seq![ENTER_OPCODE],
    {
        Ok(vec![ENTER_OPCODE])
    }

    pub fn encode_leave(self) -> (r: Result<Vec<u8>, AssemblyError>)
        ensures r matches Ok(v) && v@ == seq![LEAVE_OPCODE],
    {
        Ok(vec![LEAVE_OPCODE])
    }

    pub fn encode_ret(self) -> (r: Result<Vec<u8>, AssemblyError>)
        ensures r matches Ok(v) && v@ == seq![RET_OPCODE],
    {
        Ok(vec![RET_OPCODE])
    }

    pub fn encode_reti(self) -> (r: Result<Vec<u8>, AssemblyError>)
        ensures r matches Ok(v) && v@ == seq![RETI_OPCODE],
    {
        Ok(vec![RETI_OPCODE])
    }

    pub fn encode_ei(self) -> (r: Result<Vec<u8>, AssemblyError>)
        ensures r matches Ok(v) && v@ == seq![EI_OPCODE],
    {
        Ok(vec![EI_OPCODE])
    }

    pub fn encode_di(self) -> (r: Result<Vec<u8>, AssemblyError>)
        ensures r matches Ok(v) && v@ == seq![DI_OPCODE],
    {
        Ok(vec![DI_OPCODE])
    }
}

} // verus!
