//! Errors of the virtual machine, its memory and its builtin runners.
use vstd::prelude::*;
use crate::bigint::{BigInt, int_decimal};
use crate::relocatable::{MaybeRelocatable, MaybeRelocatableValue};
use crate::strings::{push_bigint, push_isize, push_usize};

verus! {

/// Errors raised while reading, writing or relocating memory.
#[derive(Debug, PartialEq, Eq, Clone)]
pub enum MemoryError {
    AddressNotRelocatable,
    TemporarySegmentInRelocation(isize),
    Relocation,
    NumOutOfBounds,
    FoundNonInt,
    ErrorCalculatingMemoryUnits,
    AddressInTemporarySegment(isize),
    MissingSegmentUsedSizes,
    InsufficientAllocatedCells,
    /// A write to `address` would replace `old` by `new`.
    InconsistentMemory(MaybeRelocatable, MaybeRelocatable, MaybeRelocatable),
    /// The address lies in a segment that was never added.
    UnallocatedSegment(isize, usize),
}

/// The mathematical content of a `MemoryError`.
pub ghost enum MemoryErrorValue {
    AddressNotRelocatable,
    TemporarySegmentInRelocation(isize),
    Relocation,
    NumOutOfBounds,
    FoundNonInt,
    ErrorCalculatingMemoryUnits,
    AddressInTemporarySegment(isize),
    MissingSegmentUsedSizes,
    InsufficientAllocatedCells,
    InconsistentMemory(MaybeRelocatableValue, MaybeRelocatableValue, MaybeRelocatableValue),
    UnallocatedSegment(isize, usize),
}

impl View for MemoryError {
    type V = MemoryErrorValue;

    open spec fn view(&self) -> MemoryErrorValue {
        match self {
            MemoryError::AddressNotRelocatable => MemoryErrorValue::AddressNotRelocatable,
            MemoryError::TemporarySegmentInRelocation(i) => MemoryErrorValue::TemporarySegmentInRelocation(*i),
            MemoryError::Relocation => MemoryErrorValue::Relocation,
            MemoryError::NumOutOfBounds => MemoryErrorValue::NumOutOfBounds,
            MemoryError::FoundNonInt => MemoryErrorValue::FoundNonInt,
            MemoryError::ErrorCalculatingMemoryUnits => MemoryErrorValue::ErrorCalculatingMemoryUnits,
            MemoryError::AddressInTemporarySegment(i) => MemoryErrorValue::AddressInTemporarySegment(*i),
            MemoryError::MissingSegmentUsedSizes => MemoryErrorValue::MissingSegmentUsedSizes,
            MemoryError::InsufficientAllocatedCells => MemoryErrorValue::InsufficientAllocatedCells,
            MemoryError::InconsistentMemory(a, b, c) => MemoryErrorValue::InconsistentMemory(a@, b@, c@),
            MemoryError::UnallocatedSegment(i, o) => MemoryErrorValue::UnallocatedSegment(*i, *o),
        }
    }
}

/// Errors raised by the virtual machine and its hints.
#[derive(Debug, PartialEq, Eq, Clone)]
pub enum VirtualMachineError {
    CantSubOffset(usize, usize),
    OffsetExceeded(BigInt),
    RelocatableAdd,
    DiffIndexSub,
    NotImplemented,
    ExpectedInteger(MaybeRelocatable),
    ExpectedRelocatable(MaybeRelocatable),
    BigintToUsizeFail,
    ValueNotPositive(BigInt),
    MemoryError(MemoryError),
    InvalidSetRange(MaybeRelocatable, MaybeRelocatable),
    SecpSplitNegative(BigInt),
    SecpSplitutOfRange(BigInt),
    MissingConstant(String),
    FailedToGetIds,
    Unexpected,
}

/// The mathematical content of a `VirtualMachineError`.
pub ghost enum VirtualMachineErrorValue {
    CantSubOffset(usize, usize),
    OffsetExceeded(int),
    RelocatableAdd,
    DiffIndexSub,
    NotImplemented,
    ExpectedInteger(MaybeRelocatableValue),
    ExpectedRelocatable(MaybeRelocatableValue),
    BigintToUsizeFail,
    ValueNotPositive(int),
    MemoryError(MemoryErrorValue),
    InvalidSetRange(MaybeRelocatableValue, MaybeRelocatableValue),
    SecpSplitNegative(int),
    SecpSplitutOfRange(int),
    MissingConstant(Seq<char>),
    FailedToGetIds,
    Unexpected,
}

impl View for VirtualMachineError {
    type V = VirtualMachineErrorValue;

    open spec fn view(&self) -> VirtualMachineErrorValue {
        match self {
            VirtualMachineError::CantSubOffset(a, b) => VirtualMachineErrorValue::CantSubOffset(*a, *b),
            VirtualMachineError::OffsetExceeded(n) => VirtualMachineErrorValue::OffsetExceeded(n@),
            VirtualMachineError::RelocatableAdd => VirtualMachineErrorValue::RelocatableAdd,
            VirtualMachineError::DiffIndexSub => VirtualMachineErrorValue::DiffIndexSub,
            VirtualMachineError::NotImplemented => VirtualMachineErrorValue::NotImplemented,
            VirtualMachineError::ExpectedInteger(m) => VirtualMachineErrorValue::ExpectedInteger(m@),
            VirtualMachineError::ExpectedRelocatable(m) => VirtualMachineErrorValue::ExpectedRelocatable(m@),
            VirtualMachineError::BigintToUsizeFail => VirtualMachineErrorValue::BigintToUsizeFail,
            VirtualMachineError::ValueNotPositive(n) => VirtualMachineErrorValue::ValueNotPositive(n@),
            VirtualMachineError::MemoryError(e) => VirtualMachineErrorValue::MemoryError(e@),
            VirtualMachineError::InvalidSetRange(a, b) => VirtualMachineErrorValue::InvalidSetRange(a@, b@),
            VirtualMachineError::SecpSplitNegative(n) => VirtualMachineErrorValue::SecpSplitNegative(n@),
            VirtualMachineError::SecpSplitutOfRange(n) => VirtualMachineErrorValue::SecpSplitutOfRange(n@),
            VirtualMachineError::MissingConstant(s) => VirtualMachineErrorValue::MissingConstant(s@),
            VirtualMachineError::FailedToGetIds => VirtualMachineErrorValue::FailedToGetIds,
            VirtualMachineError::Unexpected => VirtualMachineErrorValue::Unexpected,
        }
    }
}

/// Errors raised by the builtin runners.
#[derive(Debug, PartialEq, Eq, Clone)]
pub enum RunnerError {
    RunnerInTemporarySegment(isize),
    FinalStack,
    InvalidStopPointer(String),
}

/// The debug rendering of a value: `RelocatableValue(Relocatable {
/// segment_index: i, offset: o })` or `Int(n)`.
pub open spec fn value_debug(v: MaybeRelocatableValue) -> Seq<char> {
    match v {
        MaybeRelocatableValue::RelocatableValue(r) => "RelocatableValue(Relocatable { segment_index: "@
            + int_decimal(r.segment_index as int) + ", offset: "@ + int_decimal(r.offset as int)
            + " })"@,
        MaybeRelocatableValue::Int(n) => "Int("@ + int_decimal(n) + ")"@,
    }
}

fn push_value_debug(s: &mut String, v: &MaybeRelocatable)
    ensures
        final(s)@ == old(s)@ + value_debug(v@),
{
    match v {
        MaybeRelocatable::RelocatableValue(r) => {
            s.append("RelocatableValue(Relocatable { segment_index: ");
            push_isize(s, r.segment_index);
            s.append(", offset: ");
            push_usize(s, r.offset);
            s.append(" })");
        },
        MaybeRelocatable::Int(n) => {
            s.append("Int(");
            push_bigint(s, n);
            s.append(")");
        },
    }
}

/// The message of a memory error.
pub open spec fn memory_error_message(e: MemoryErrorValue) -> Seq<char> {
    match e {
        MemoryErrorValue::AddressNotRelocatable => "Memory addresses must be relocatable"@,
        MemoryErrorValue::TemporarySegmentInRelocation(i) => "Temporary segment found while relocating (flattening), segment: "@
            + int_decimal(i as int),
        MemoryErrorValue::Relocation => "Relocation failure"@,
        MemoryErrorValue::NumOutOfBounds => "Range-check validation failed, number is out of valid range"@,
        MemoryErrorValue::FoundNonInt => "Range-check validation failed, encountered non-int value"@,
        MemoryErrorValue::ErrorCalculatingMemoryUnits => "Error calculating builtin memory units"@,
        MemoryErrorValue::AddressInTemporarySegment(i) => "Address in temporary segment: "@
            + int_decimal(i as int),
        MemoryErrorValue::MissingSegmentUsedSizes => "Missing segment used sizes"@,
        MemoryErrorValue::InsufficientAllocatedCells => "Insufficient allocated cells"@,
        MemoryErrorValue::InconsistentMemory(a, b, c) => "Inconsistent memory assignment at address "@
            + value_debug(a) + ". "@ + value_debug(b) + " != "@ + value_debug(c),
        MemoryErrorValue::UnallocatedSegment(i, n) => "Can't insert into segment #"@ + int_decimal(
            i as int,
        ) + "; memory only has "@ + int_decimal(n as int) + " segment"@,
    }
}

impl MemoryError {
    /// The message of the error.
    pub fn to_string(&self) -> (r: String)
        ensures
            r@ == memory_error_message(self@),
    {
        let mut s = String::new();
        match self {
            MemoryError::AddressNotRelocatable => s.append("Memory addresses must be relocatable"),
            MemoryError::TemporarySegmentInRelocation(i) => {
                s.append("Temporary segment found while relocating (flattening), segment: ");
                push_isize(&mut s, *i);
            },
            MemoryError::Relocation => s.append("Relocation failure"),
            MemoryError::NumOutOfBounds => s.append("Range-check validation failed, number is out of valid range",
            ),
            MemoryError::FoundNonInt => s.append("Range-check validation failed, encountered non-int value",
            ),
            MemoryError::ErrorCalculatingMemoryUnits => s.append("Error calculating builtin memory units",
            ),
            MemoryError::AddressInTemporarySegment(i) => {
                s.append("Address in temporary segment: ");
                push_isize(&mut s, *i);
            },
            MemoryError::MissingSegmentUsedSizes => s.append("Missing segment used sizes"),
            MemoryError::InsufficientAllocatedCells => s.append("Insufficient allocated cells"),
            MemoryError::InconsistentMemory(a, b, c) => {
                s.append("Inconsistent memory assignment at address ");
                push_value_debug(&mut s, a);
                s.append(". ");
                push_value_debug(&mut s, b);
                s.append(" != ");
                push_value_debug(&mut s, c);
            },
            MemoryError::UnallocatedSegment(i, n) => {
                s.append("Can't insert into segment #");
                push_isize(&mut s, *i);
                s.append("; memory only has ");
                push_usize(&mut s, *n);
                s.append(" segment");
            },
        }
        s
    }
}

/// The message of a virtual machine error.
pub open spec fn vm_error_message(e: VirtualMachineErrorValue) -> Seq<char> {
    match e {
        VirtualMachineErrorValue::CantSubOffset(a, b) => "Cant substract "@ + int_decimal(a as int)
            + " from offset "@ + int_decimal(b as int) + ", offsets cant be negative"@,
        VirtualMachineErrorValue::OffsetExceeded(n) => "Offset "@ + int_decimal(n)
            + " exeeds maximum offset value"@,
        VirtualMachineErrorValue::RelocatableAdd => "Cannot add two relocatable values"@,
        VirtualMachineErrorValue::DiffIndexSub => "Can only subtract two relocatable values of the same segment"@,
        VirtualMachineErrorValue::NotImplemented => "This is not implemented"@,
        VirtualMachineErrorValue::ExpectedInteger(v) => "Expected integer at address "@ + value_debug(v),
        VirtualMachineErrorValue::ExpectedRelocatable(v) => "Expected relocatable at address "@
            + value_debug(v),
        VirtualMachineErrorValue::BigintToUsizeFail => "Couldn't convert BigInt to usize"@,
        VirtualMachineErrorValue::ValueNotPositive(n) => "Value: "@ + int_decimal(n)
            + " should be positive"@,
        VirtualMachineErrorValue::MemoryError(m) => memory_error_message(m),
        VirtualMachineErrorValue::InvalidSetRange(a, b) => "Set starting point "@ + value_debug(a)
            + " is bigger it's ending point "@ + value_debug(b),
        VirtualMachineErrorValue::SecpSplitNegative(n) => "Integer must be postive or zero, got: "@
            + int_decimal(n),
        VirtualMachineErrorValue::SecpSplitutOfRange(n) => "Integer: "@ + int_decimal(n)
            + " out of range"@,
        VirtualMachineErrorValue::MissingConstant(c) => "Missing constant: "@ + c,
        VirtualMachineErrorValue::FailedToGetIds => "Failed to get ids for hint execution"@,
        VirtualMachineErrorValue::Unexpected => "Unexpected Failure"@,
    }
}

impl VirtualMachineError {
    /// The message of the error.
    pub fn to_string(&self) -> (r: String)
        ensures
            r@ == vm_error_message(self@),
    {
        let mut s = String::new();
        match self {
            VirtualMachineError::CantSubOffset(a, b) => {
                s.append("Cant substract ");
                push_usize(&mut s, *a);
                s.append(" from offset ");
                push_usize(&mut s, *b);
                s.append(", offsets cant be negative");
            },
            VirtualMachineError::OffsetExceeded(n) => {
                s.append("Offset ");
                push_bigint(&mut s, n);
                s.append(" exeeds maximum offset value");
            },
            VirtualMachineError::RelocatableAdd => s.append("Cannot add two relocatable values"),
            VirtualMachineError::DiffIndexSub => s.append("Can only subtract two relocatable values of the same segment",
            ),
            VirtualMachineError::NotImplemented => s.append("This is not implemented"),
            VirtualMachineError::ExpectedInteger(v) => {
                s.append("Expected integer at address ");
                push_value_debug(&mut s, v);
            },
            VirtualMachineError::ExpectedRelocatable(v) => {
                s.append("Expected relocatable at address ");
                push_value_debug(&mut s, v);
            },
            VirtualMachineError::BigintToUsizeFail => s.append("Couldn't convert BigInt to usize"),
            VirtualMachineError::ValueNotPositive(n) => {
                s.append("Value: ");
                push_bigint(&mut s, n);
                s.append(" should be positive");
            },
            VirtualMachineError::MemoryError(m) => {
                let t = m.to_string();
                s.append(t.as_str());
            },
            VirtualMachineError::InvalidSetRange(a, b) => {
                s.append("Set starting point ");
                push_value_debug(&mut s, a);
                s.append(" is bigger it's ending point ");
                push_value_debug(&mut s, b);
            },
            VirtualMachineError::SecpSplitNegative(n) => {
                s.append("Integer must be postive or zero, got: ");
                push_bigint(&mut s, n);
            },
            VirtualMachineError::SecpSplitutOfRange(n) => {
                s.append("Integer: ");
                push_bigint(&mut s, n);
                s.append(" out of range");
            },
            VirtualMachineError::MissingConstant(c) => {
                s.append("Missing constant: ");
                s.append(c.as_str());
            },
            VirtualMachineError::FailedToGetIds => s.append("Failed to get ids for hint execution"),
            VirtualMachineError::Unexpected => s.append("Unexpected Failure"),
        }
        s
    }
}

} // verus!
