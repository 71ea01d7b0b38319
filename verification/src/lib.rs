//! A library for reading and writing the textual smali dialect: registers,
//! labels, type signatures, references, and the full instruction catalog with
//! its bidirectional codec (parser and canonical serializer).

use vstd::prelude::*;

pub mod annotation;
pub mod class;
pub mod field;
pub mod field_ref;
pub mod laws;
pub mod modifier;
pub mod method;
pub mod method_ref;
pub mod num;
pub mod object_identifier;
pub mod op;
pub mod param;
pub mod signature;
pub mod text;

verus! {

/// General error type carrying a human-readable description.
#[derive(Debug, Clone, PartialEq, Eq)]
pub struct SmaliError {
    pub details: String,
}

impl SmaliError {
    pub fn new(msg: &str) -> (r: SmaliError)
        ensures
            r.details@ == msg@,
    {
        SmaliError { details: msg.to_owned() }
    }
}

/// Why a piece of instruction text was rejected. Each variant carries the
/// character offset at which the failure was detected.
#[derive(Debug, Clone, Copy, PartialEq, Eq, Structural)]
pub enum ParseError {
    /// The leading mnemonic token matches no instruction family.
    UnknownMnemonic(usize),
    /// An operand's sub-grammar failed: register, label, literal or reference.
    MalformedOperand(usize),
    /// A numeric literal does not fit the width the instruction requires.
    LiteralOutOfRange(usize),
    /// The mnemonic was recognized but an expected operand or separator is missing.
    ArityMismatch(usize),
}

} // verus!
