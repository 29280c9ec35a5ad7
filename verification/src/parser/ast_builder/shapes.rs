use vstd::prelude::*;
use crate::ast::{ConditionCode, Instruction, Operand, OperandView, Register};
use crate::errors::{AssemblyError, ErrDesc};
use crate::parser::ast_builder::validators::{
    addr_or_label_spec, cc_spec, label_spec, register_spec, sbyte_or_label_spec, ubyte_or_label_spec, BuilderView,
};

verus! {

/// Two registers.
pub open spec fn rr_spec(b: BuilderView) -> Result<(Register, Register), ErrDesc> {
    match register_spec(b) {
        Ok((rd, b1)) => match register_spec(b1) {
            Ok((rs, _)) => Ok((rd, rs)),
            Err(d) => Err(d),
        },
        Err(d) => Err(d),
    }
}

/// One register.
pub open spec fn r_spec(b: BuilderView) -> Result<Register, ErrDesc> {
    match register_spec(b) {
        Ok((r, _)) => Ok(r),
        Err(d) => Err(d),
    }
}

/// A register, then an address or label.
pub open spec fn ra_spec(b: BuilderView) -> Result<(Register, OperandView), ErrDesc> {
    match register_spec(b) {
        Ok((rd, b1)) => match addr_or_label_spec(b1) {
            Ok((v, _)) => Ok((rd, v)),
            Err(d) => Err(d),
        },
        Err(d) => Err(d),
    }
}

/// A register, then an unsigned byte or label.
pub open spec fn r_ubl_spec(b: BuilderView) -> Result<(Register, OperandView), ErrDesc> {
    match register_spec(b) {
        Ok((rd, b1)) => match ubyte_or_label_spec(b1) {
            Ok((v, _)) => Ok((rd, v)),
            Err(d) => Err(d),
        },
        Err(d) => Err(d),
    }
}

/// An address or label.
pub open spec fn a_spec(b: BuilderView) -> Result<OperandView, ErrDesc> {
    match addr_or_label_spec(b) {
        Ok((v, _)) => Ok(v),
        Err(d) => Err(d),
    }
}

/// A signed byte or label.
pub open spec fn sbl_spec(b: BuilderView) -> Result<OperandView, ErrDesc> {
    match sbyte_or_label_spec(b) {
        Ok((v, _)) => Ok(v),
        Err(d) => Err(d),
    }
}

/// An unsigned byte or label.
pub open spec fn ubl_spec(b: BuilderView) -> Result<OperandView, ErrDesc> {
    match ubyte_or_label_spec(b) {
        Ok((v, _)) => Ok(v),
        Err(d) => Err(d),
    }
}

/// A condition code, then an address or label.
pub open spec fn cc_a_spec(b: BuilderView) -> Result<(ConditionCode, OperandView), ErrDesc> {
    match cc_spec(b) {
        Ok((cc, b1)) => match addr_or_label_spec(b1) {
            Ok((v, _)) => Ok((cc, v)),
            Err(d) => Err(d),
        },
        Err(d) => Err(d),
    }
}

/// A condition code, then a signed byte or label.
pub open spec fn cc_sbl_spec(b: BuilderView) -> Result<(ConditionCode, OperandView), ErrDesc> {
    match cc_spec(b) {
        Ok((cc, b1)) => match sbyte_or_label_spec(b1) {
            Ok((v, _)) => Ok((cc, v)),
            Err(d) => Err(d),
        },
        Err(d) => Err(d),
    }
}

/// A label.
pub open spec fn l_spec(b: BuilderView) -> Result<Seq<char>, ErrDesc> {
    match label_spec(b) {
        Ok((l, _)) => Ok(l),
        Err(d) => Err(d),
    }
}

/// Two labels.
pub open spec fn ll_spec(b: BuilderView) -> Result<(Seq<char>, Seq<char>), ErrDesc> {
    match label_spec(b) {
        Ok((l1, b1)) => match label_spec(b1) {
            Ok((l2, _)) => Ok((l1, l2)),
            Err(d) => Err(d),
        },
        Err(d) => Err(d),
    }
}

/// The instruction result is an error described by `d`.
pub open spec fn fails_with(r: Result<Instruction, AssemblyError>, d: ErrDesc) -> bool {
    r matches Err(e) && e.is(d.0, d.1, d.2)
}

} // verus!
