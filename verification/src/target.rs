//! The methods of the run-time assembler that generated code calls.

use vstd::prelude::*;

verus! {

/// A method of the assembler.
#[derive(Debug, PartialEq, Eq, Clone, Copy, Hash, Structural)]
pub enum Method {
    Push,
    PushU16,
    PushU32,
    PushU64,
    PushI8,
    PushI16,
    PushI32,
    PushI64,
    Extend,
    Align,
    GlobalLabel,
    LocalLabel,
    DynamicLabel,
    GlobalReloc,
    ForwardReloc,
    BackwardReloc,
    DynamicReloc,
    BareReloc,
    RuntimeError,
}

impl Method {
    /// The name under which the assembler has the method.
    pub open spec fn name(self) -> Seq<char> {
        match self {
            Method::Push => "push"@,
            Method::PushU16 => "push_u16"@,
            Method::PushU32 => "push_u32"@,
            Method::PushU64 => "push_u64"@,
            Method::PushI8 => "push_i8"@,
            Method::PushI16 => "push_i16"@,
            Method::PushI32 => "push_i32"@,
            Method::PushI64 => "push_i64"@,
            Method::Extend => "extend"@,
            Method::Align => "align"@,
            Method::GlobalLabel => "global_label"@,
            Method::LocalLabel => "local_label"@,
            Method::DynamicLabel => "dynamic_label"@,
            Method::GlobalReloc => "global_reloc"@,
            Method::ForwardReloc => "forward_reloc"@,
            Method::BackwardReloc => "backward_reloc"@,
            Method::DynamicReloc => "dynamic_reloc"@,
            Method::BareReloc => "bare_reloc"@,
            Method::RuntimeError => "runtime_error"@,
        }
    }

    pub fn as_str(&self) -> (name: &'static str)
        ensures
            name@ == self.name(),
    {
        match self {
            Method::Push => "push",
            Method::PushU16 => "push_u16",
            Method::PushU32 => "push_u32",
            Method::PushU64 => "push_u64",
            Method::PushI8 => "push_i8",
            Method::PushI16 => "push_i16",
            Method::PushI32 => "push_i32",
            Method::PushI64 => "push_i64",
            Method::Extend => "extend",
            Method::Align => "align",
            Method::GlobalLabel => "global_label",
            Method::LocalLabel => "local_label",
            Method::DynamicLabel => "dynamic_label",
            Method::GlobalReloc => "global_reloc",
            Method::ForwardReloc => "forward_reloc",
            Method::BackwardReloc => "backward_reloc",
            Method::DynamicReloc => "dynamic_reloc",
            Method::BareReloc => "bare_reloc",
            Method::RuntimeError => "runtime_error",
        }
    }
}

} // verus!
