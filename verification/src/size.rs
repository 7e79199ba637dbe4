//! Operand widths.

use crate::ast::Ident;
use vstd::prelude::*;

verus! {

/// Width of an operand. The widths are ordered by the number of their bytes.
#[derive(Debug, PartialOrd, PartialEq, Ord, Eq, Hash, Clone, Copy, Structural)]
pub enum Size {
    BYTE,
    WORD,
    DWORD,
    FWORD,
    QWORD,
    PWORD,
    OWORD,
    HWORD,
}

impl Size {
    /// The number of bytes that an operand of this width occupies.
    pub open spec fn bytes(self) -> nat {
        match self {
            Size::BYTE => 1,
            Size::WORD => 2,
            Size::DWORD => 4,
            Size::FWORD => 6,
            Size::QWORD => 8,
            Size::PWORD => 10,
            Size::OWORD => 16,
            Size::HWORD => 32,
        }
    }

    /// Whether a value of this width can be written into the instruction stream:
    /// the widths of one, two, four and eight bytes.
    pub open spec fn encodable(self) -> bool {
        self == Size::BYTE || self == Size::WORD || self == Size::DWORD || self == Size::QWORD
    }

    /// The name of the signed integer type that is as wide as this operand.
    pub open spec fn literal_name(self) -> Seq<char> {
        match self {
            Size::BYTE => "i8"@,
            Size::WORD => "i16"@,
            Size::DWORD => "i32"@,
            Size::FWORD => "i48"@,
            Size::QWORD => "i64"@,
            Size::PWORD => "i80"@,
            Size::OWORD => "i128"@,
            Size::HWORD => "i256"@,
        }
    }

    pub fn in_bytes(&self) -> (n: u8)
        ensures
            n == self.bytes(),
    {
        match self {
            Size::BYTE => 1,
            Size::WORD => 2,
            Size::DWORD => 4,
            Size::FWORD => 6,
            Size::QWORD => 8,
            Size::PWORD => 10,
            Size::OWORD => 16,
            Size::HWORD => 32,
        }
    }

    /// Whether this is one of the widths that can be written into the instruction
    /// stream.
    pub fn is_encodable(&self) -> (b: bool)
        ensures
            b == self.encodable(),
    {
        match self {
            Size::BYTE | Size::WORD | Size::DWORD | Size::QWORD => true,
            _ => false,
        }
    }

    /// The identifier of the integer type to cast to for this width.
    pub fn as_literal(&self) -> (id: Ident)
        ensures
            id@ == Ident::named(self.literal_name()),
    {
        Ident::from_str(
            match self {
                Size::BYTE => "i8",
                Size::WORD => "i16",
                Size::DWORD => "i32",
                Size::FWORD => "i48",
                Size::QWORD => "i64",
                Size::PWORD => "i80",
                Size::OWORD => "i128",
                Size::HWORD => "i256",
            },
        )
    }
}

} // verus!
