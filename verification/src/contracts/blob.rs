//! The rules of the blob registry that are checked before it is called.

use vstd::prelude::*;

verus! {

/// A field of a blob that callers may not set themselves.
#[derive(Clone, Copy, Debug, PartialEq, Eq, Structural)]
pub enum ReservedField {
    /// The program binary, `p`.
    ProgramBinary,
    /// The program description, `d`.
    ProgramDescription,
    /// The type of the virtual machine, `v`.
    VmType,
}

impl ReservedField {
    /// Returns the name of the field.
    pub fn key(self) -> (key: &'static str)
        ensures
            key@ == match self {
                ReservedField::ProgramBinary => "p"@,
                ReservedField::ProgramDescription => "d"@,
                ReservedField::VmType => "v"@,
            },
    {
        match self {
            ReservedField::ProgramBinary => "p",
            ReservedField::ProgramDescription => "d",
            ReservedField::VmType => "v",
        }
    }

    /// Returns the reason why a blob with the field is refused.
    pub fn message(self) -> (text: &'static str)
        ensures
            text@ == match self {
                ReservedField::ProgramBinary => "reserved field: `p`"@,
                ReservedField::ProgramDescription => "reserved field: `d`"@,
                ReservedField::VmType => "reserved field: `v`"@,
            },
    {
        match self {
            ReservedField::ProgramBinary => "reserved field: `p`",
            ReservedField::ProgramDescription => "reserved field: `d`",
            ReservedField::VmType => "reserved field: `v`",
        }
    }
}

/// The first reserved field that a blob sets, if it sets one: the binary
/// before the description, the description before the type.
pub open spec fn first_reserved(binary: bool, description: bool, vm_type: bool) -> Option<
    ReservedField,
> {
    if binary {
        Some(ReservedField::ProgramBinary)
    } else if description {
        Some(ReservedField::ProgramDescription)
    } else if vm_type {
        Some(ReservedField::VmType)
    } else {
        None
    }
}

/// A simple wrapper around the core blob contract.
#[derive(Clone, Copy, Debug)]
pub struct Blob;

impl Blob {
    /// Returns the name of the contract.
    pub fn name() -> (name: &'static str)
        ensures
            name@ == "blob"@,
    {
        "blob"
    }

    /// Returns the description of the contract.
    pub fn description() -> (text: &'static str)
        ensures
            text@ == "Blob Contract"@,
    {
        "Blob Contract"
    }

    /// Checks a blob before it is stored: it may set none of the reserved
    /// fields. The flags say which of them it sets.
    pub fn store(binary: bool, description: bool, vm_type: bool) -> (checked: Result<
        (),
        ReservedField,
    >)
        ensures
            match checked {
                Ok(_) => first_reserved(binary, description, vm_type).is_none(),
                Err(field) => first_reserved(binary, description, vm_type) == Some(field),
            },
    {
        if binary {
            Err(ReservedField::ProgramBinary)
        } else if description {
            Err(ReservedField::ProgramDescription)
        } else if vm_type {
            Err(ReservedField::VmType)
        } else {
            Ok(())
        }
    }

    /// Returns true if `vm_type`, the type field of a blob, marks the blob
    /// as a WebAssembly binary: the bytes spell `wasmtimevm`.
    pub fn is_wasm(vm_type: &[u8]) -> (is: bool)
        ensures
            is == (vm_type@ == seq![
                0x77u8,
                0x61u8,
                0x73u8,
                0x6du8,
                0x74u8,
                0x69u8,
                0x6du8,
                0x65u8,
                0x76u8,
                0x6du8,
            ]),
    {
        let marker: [u8; 10] = [0x77, 0x61, 0x73, 0x6d, 0x74, 0x69, 0x6d, 0x65, 0x76, 0x6d];
        if vm_type.len() != 10 {
            return false;
        }
        let mut index: usize = 0;
        while index < 10
            invariant
                index <= 10,
                vm_type@.len() == 10,
                marker@ == seq![
                    0x77u8,
                    0x61u8,
                    0x73u8,
                    0x6du8,
                    0x74u8,
                    0x69u8,
                    0x6du8,
                    0x65u8,
                    0x76u8,
                    0x6du8,
                ],
                forall|i: int| 0 <= i < index ==> vm_type@[i] == marker@[i],
            decreases 10 - index,
        {
            if vm_type[index] != marker[index] {
                return false;
            }
            index = index + 1;
        }
        assert(vm_type@ =~= marker@);
        true
    }
}

} // verus!
