//! Relocatable addresses and the values that memory cells hold.
use vstd::prelude::*;
use crate::bigint::{BigInt, floor_mod, trunc_div};
use crate::errors::{MemoryError, MemoryErrorValue, VirtualMachineError, VirtualMachineErrorValue};

verus! {

/// An address: an offset inside a memory segment.  Segments with a negative
/// index are temporary segments.
#[derive(Clone, Copy, Debug, PartialEq, Eq, Hash, PartialOrd, Structural)]
pub struct Relocatable {
    pub segment_index: isize,
    pub offset: usize,
}

/// The content of a memory cell: an address or an integer.
#[derive(Clone, Debug, PartialEq, Eq, Hash)]
pub enum MaybeRelocatable {
    RelocatableValue(Relocatable),
    Int(BigInt),
}

/// The mathematical content of a `MaybeRelocatable`.
pub ghost enum MaybeRelocatableValue {
    RelocatableValue(Relocatable),
    Int(int),
}

impl View for MaybeRelocatable {
    type V = MaybeRelocatableValue;

    open spec fn view(&self) -> MaybeRelocatableValue {
        match self {
            MaybeRelocatable::RelocatableValue(r) => MaybeRelocatableValue::RelocatableValue(*r),
            MaybeRelocatable::Int(n) => MaybeRelocatableValue::Int(n@),
        }
    }
}

pub open spec fn rel(segment_index: isize, offset: usize) -> Relocatable {
    Relocatable { segment_index, offset }
}

/// `Ok` with the address `(segment_index, v)` when `v` fits in a `usize`,
/// otherwise the `OffsetExceeded` error that carries `v`.
pub open spec fn offset_result(segment_index: isize, v: int) -> Result<
    Relocatable,
    VirtualMachineErrorValue,
> {
    if 0 <= v <= usize::MAX {
        Ok(rel(segment_index, v as usize))
    } else {
        Err(VirtualMachineErrorValue::OffsetExceeded(v))
    }
}

pub open spec fn rel_result(r: Result<Relocatable, VirtualMachineError>) -> Result<
    Relocatable,
    VirtualMachineErrorValue,
> {
    match r {
        Ok(x) => Ok(x),
        Err(e) => Err(e@),
    }
}

pub open spec fn usize_result(r: Result<usize, VirtualMachineError>) -> Result<
    usize,
    VirtualMachineErrorValue,
> {
    match r {
        Ok(x) => Ok(x),
        Err(e) => Err(e@),
    }
}

pub open spec fn value_result(r: Result<MaybeRelocatable, VirtualMachineError>) -> Result<
    MaybeRelocatableValue,
    VirtualMachineErrorValue,
> {
    match r {
        Ok(x) => Ok(x@),
        Err(e) => Err(e@),
    }
}

/// What `Relocatable::sub` gives.
pub open spec fn spec_rel_sub(a: Relocatable, n: usize) -> Result<Relocatable, VirtualMachineErrorValue> {
    if a.offset < n {
        Err(VirtualMachineErrorValue::CantSubOffset(a.offset, n))
    } else {
        Ok(rel(a.segment_index, (a.offset - n) as usize))
    }
}

/// What `Relocatable::sub_rel` gives.
pub open spec fn spec_sub_rel(a: Relocatable, b: Relocatable) -> Result<usize, VirtualMachineErrorValue> {
    if a.segment_index != b.segment_index {
        Err(VirtualMachineErrorValue::DiffIndexSub)
    } else if a.offset < b.offset {
        Err(VirtualMachineErrorValue::CantSubOffset(a.offset, b.offset))
    } else {
        Ok((a.offset - b.offset) as usize)
    }
}

/// The address `n` cells after `a`.
pub open spec fn spec_rel_add(a: Relocatable, n: int) -> Relocatable {
    rel(a.segment_index, (a.offset + n) as usize)
}

/// What `Relocatable::add_int_mod` gives.
pub open spec fn spec_add_int_mod(a: Relocatable, other: int, prime: int) -> Result<
    Relocatable,
    VirtualMachineErrorValue,
> {
    offset_result(a.segment_index, floor_mod(a.offset + other, prime))
}

/// What `Relocatable::add_maybe_mod` gives.
pub open spec fn spec_add_maybe_mod(a: Relocatable, other: MaybeRelocatableValue, prime: int) -> Result<
    Relocatable,
    VirtualMachineErrorValue,
> {
    match other {
        MaybeRelocatableValue::Int(n) => offset_result(
            a.segment_index,
            floor_mod(n + a.offset, prime),
        ),
        MaybeRelocatableValue::RelocatableValue(_) => Err(VirtualMachineErrorValue::RelocatableAdd),
    }
}

pub open spec fn lift(r: Result<Relocatable, VirtualMachineErrorValue>) -> Result<
    MaybeRelocatableValue,
    VirtualMachineErrorValue,
> {
    match r {
        Ok(x) => Ok(MaybeRelocatableValue::RelocatableValue(x)),
        Err(e) => Err(e),
    }
}

/// What `MaybeRelocatable::add_int_mod` gives.
pub open spec fn spec_value_add_int_mod(a: MaybeRelocatableValue, other: int, prime: int) -> Result<
    MaybeRelocatableValue,
    VirtualMachineErrorValue,
> {
    match a {
        MaybeRelocatableValue::Int(v) => Ok(MaybeRelocatableValue::Int(floor_mod(v + other, prime))),
        MaybeRelocatableValue::RelocatableValue(r) => lift(spec_add_int_mod(r, other, prime)),
    }
}

/// What `MaybeRelocatable::add_usize_mod` gives.
pub open spec fn spec_add_usize_mod(a: MaybeRelocatableValue, other: usize, prime: Option<int>) -> MaybeRelocatableValue {
    match a {
        MaybeRelocatableValue::Int(v) => MaybeRelocatableValue::Int(
            match prime {
                Some(p) => floor_mod(v + other, p),
                None => v + other,
            },
        ),
        MaybeRelocatableValue::RelocatableValue(r) => MaybeRelocatableValue::RelocatableValue(
            spec_rel_add(r, other as int),
        ),
    }
}

/// What `MaybeRelocatable::add_mod` gives.
pub open spec fn spec_add_mod(a: MaybeRelocatableValue, b: MaybeRelocatableValue, prime: int) -> Result<
    MaybeRelocatableValue,
    VirtualMachineErrorValue,
> {
    match (a, b) {
        (MaybeRelocatableValue::Int(x), MaybeRelocatableValue::Int(y)) => Ok(
            MaybeRelocatableValue::Int(floor_mod(x + y, prime)),
        ),
        (MaybeRelocatableValue::RelocatableValue(_), MaybeRelocatableValue::RelocatableValue(_)) => Err(
            VirtualMachineErrorValue::RelocatableAdd,
        ),
        (MaybeRelocatableValue::RelocatableValue(r), MaybeRelocatableValue::Int(n)) => lift(
            offset_result(r.segment_index, floor_mod(n + r.offset, prime)),
        ),
        (MaybeRelocatableValue::Int(n), MaybeRelocatableValue::RelocatableValue(r)) => lift(
            offset_result(r.segment_index, floor_mod(n + r.offset, prime)),
        ),
    }
}

/// What `MaybeRelocatable::sub` gives.
pub open spec fn spec_value_sub(a: MaybeRelocatableValue, b: MaybeRelocatableValue, prime: int) -> Result<
    MaybeRelocatableValue,
    VirtualMachineErrorValue,
> {
    match (a, b) {
        (MaybeRelocatableValue::Int(x), MaybeRelocatableValue::Int(y)) => Ok(
            MaybeRelocatableValue::Int(floor_mod(x - y, prime)),
        ),
        (MaybeRelocatableValue::RelocatableValue(ra), MaybeRelocatableValue::RelocatableValue(rb)) => {
            if ra.segment_index == rb.segment_index {
                Ok(MaybeRelocatableValue::Int(ra.offset - rb.offset))
            } else {
                Err(VirtualMachineErrorValue::DiffIndexSub)
            }
        },
        (MaybeRelocatableValue::RelocatableValue(ra), MaybeRelocatableValue::Int(y)) => lift(
            offset_result(ra.segment_index, ra.offset - y),
        ),
        (MaybeRelocatableValue::Int(_), MaybeRelocatableValue::RelocatableValue(_)) => Err(
            VirtualMachineErrorValue::NotImplemented,
        ),
    }
}

/// What `MaybeRelocatable::mod_floor` gives.
pub open spec fn spec_value_mod_floor(a: MaybeRelocatableValue, m: int) -> MaybeRelocatableValue {
    match a {
        MaybeRelocatableValue::Int(v) => MaybeRelocatableValue::Int(floor_mod(v, m)),
        MaybeRelocatableValue::RelocatableValue(_) => a,
    }
}

pub open spec fn is_int(a: MaybeRelocatableValue) -> bool {
    a is Int
}

impl Relocatable {
    /// The address `other` cells before `self`; an error when the offset
    /// would become negative.
    pub fn sub(&self, other: usize) -> (r: Result<Relocatable, VirtualMachineError>)
        ensures
            rel_result(r) == spec_rel_sub(*self, other),
    {
        if self.offset < other {
            return Err(VirtualMachineError::CantSubOffset(self.offset, other));
        }
        let new_offset = self.offset - other;
        Ok(Relocatable { segment_index: self.segment_index, offset: new_offset })
    }

    /// Adds an integer to the offset, then reduces modulo `prime`.  An address
    /// offset can't be negative: the sum must not be (`requires`).
    pub fn add_int_mod(&self, other: &BigInt, prime: &BigInt) -> (r: Result<
        Relocatable,
        VirtualMachineError,
    >)
        requires
            prime@ != 0,
            self.offset + other@ >= 0,
        ensures
            rel_result(r) == spec_add_int_mod(*self, other@, prime@),
    {
        let big_offset = BigInt::from_usize(self.offset).plus(other);
        let big_offset = big_offset.mod_floor(prime);
        match big_offset.to_usize() {
            Some(new_offset) => Ok(Relocatable { segment_index: self.segment_index, offset: new_offset }),
            None => Err(VirtualMachineError::OffsetExceeded(big_offset)),
        }
    }

    /// Adds an integer value to the offset, then reduces modulo `prime`;
    /// two relocatable values cannot be added.
    pub fn add_maybe_mod(&self, other: &MaybeRelocatable, prime: &BigInt) -> (r: Result<
        Relocatable,
        VirtualMachineError,
    >)
        requires
            is_int(other@) ==> prime@ != 0,
        ensures
            rel_result(r) == spec_add_maybe_mod(*self, other@, prime@),
    {
        let num_ref = match other {
            MaybeRelocatable::Int(n) => n,
            MaybeRelocatable::RelocatableValue(_) => {
                return Err(VirtualMachineError::RelocatableAdd);
            },
        };
        let big_offset = num_ref.plus(&BigInt::from_usize(self.offset)).mod_floor(prime);
        match big_offset.to_usize() {
            Some(new_offset) => Ok(Relocatable { segment_index: self.segment_index, offset: new_offset }),
            None => Err(VirtualMachineError::OffsetExceeded(big_offset)),
        }
    }

    /// The distance from `other` to `self`, both in the same segment.
    pub fn sub_rel(&self, other: &Self) -> (r: Result<usize, VirtualMachineError>)
        ensures
            usize_result(r) == spec_sub_rel(*self, *other),
    {
        if self.segment_index != other.segment_index {
            return Err(VirtualMachineError::DiffIndexSub);
        }
        if self.offset < other.offset {
            return Err(VirtualMachineError::CantSubOffset(self.offset, other.offset));
        }
        let result = self.offset - other.offset;
        Ok(result)
    }

    /// Adds a signed number of cells; the offset must stay in range.
    pub fn add_i32(&self, other: i32) -> (r: Relocatable)
        requires
            0 <= self.offset + other <= usize::MAX,
        ensures
            r == spec_rel_add(*self, other as int),
    {
        if other >= 0 {
            Relocatable { segment_index: self.segment_index, offset: self.offset + other as usize }
        } else {
            let magnitude: usize = (0i64 - other as i64) as usize;
            Relocatable { segment_index: self.segment_index, offset: self.offset - magnitude }
        }
    }

    /// Adds a number of cells; the offset must stay in range.
    pub fn add_usize(&self, other: usize) -> (r: Relocatable)
        requires
            self.offset + other <= usize::MAX,
        ensures
            r == spec_rel_add(*self, other as int),
    {
        Relocatable { segment_index: self.segment_index, offset: self.offset + other }
    }

    /// `self > other` in the order of segments, then offsets.
    pub fn greater_than(&self, other: &Relocatable) -> (r: bool)
        ensures
            r == (self.segment_index > other.segment_index || (self.segment_index
                == other.segment_index && self.offset > other.offset)),
    {
        self.segment_index > other.segment_index || (self.segment_index == other.segment_index
            && self.offset > other.offset)
    }
}

impl MaybeRelocatable {
    /// A copy with the same value.
    pub fn duplicate(&self) -> (r: MaybeRelocatable)
        ensures
            r@ == self@,
    {
        match self {
            MaybeRelocatable::RelocatableValue(r) => MaybeRelocatable::RelocatableValue(*r),
            MaybeRelocatable::Int(n) => MaybeRelocatable::Int(n.duplicate()),
        }
    }

    /// Value equality.
    pub fn equals(&self, other: &MaybeRelocatable) -> (r: bool)
        ensures
            r == (self@ == other@),
    {
        match (self, other) {
            (MaybeRelocatable::RelocatableValue(a), MaybeRelocatable::RelocatableValue(b)) => a == b,
            (MaybeRelocatable::Int(a), MaybeRelocatable::Int(b)) => a.equals(b),
            _ => false,
        }
    }

    /// Adds an integer, then reduces modulo `prime` (an address has its
    /// offset reduced).  An address offset can't be negative: for an address,
    /// its offset plus `other` must not be (`requires`).
    pub fn add_int_mod(&self, other: &BigInt, prime: &BigInt) -> (r: Result<
        MaybeRelocatable,
        VirtualMachineError,
    >)
        requires
            prime@ != 0,
            self@ matches MaybeRelocatableValue::RelocatableValue(a) ==> a.offset + other@ >= 0,
        ensures
            value_result(r) == spec_value_add_int_mod(self@, other@, prime@),
    {
        match self {
            MaybeRelocatable::Int(value) => Ok(MaybeRelocatable::Int(value.plus(other).mod_floor(prime))),
            MaybeRelocatable::RelocatableValue(rel) => {
                match rel.add_int_mod(other, prime) {
                    Ok(x) => Ok(MaybeRelocatable::RelocatableValue(x)),
                    Err(e) => Err(e),
                }
            },
        }
    }

    /// Adds a `usize`, reducing an integer modulo `prime` when one is given.
    pub fn add_usize_mod(&self, other: usize, prime: Option<BigInt>) -> (r: MaybeRelocatable)
        requires
            prime matches Some(p) ==> p@ != 0,
            self@ matches MaybeRelocatableValue::RelocatableValue(a) ==> a.offset + other <= usize::MAX,
        ensures
            r@ == spec_add_usize_mod(
                self@,
                other,
                match prime {
                    Some(p) => Some(p@),
                    None => None,
                },
            ),
    {
        match self {
            MaybeRelocatable::Int(value) => {
                let num = value.plus(&BigInt::from_usize(other));
                match prime {
                    Some(p) => MaybeRelocatable::Int(num.mod_floor(&p)),
                    None => MaybeRelocatable::Int(num),
                }
            },
            MaybeRelocatable::RelocatableValue(rel) => MaybeRelocatable::RelocatableValue(
                rel.add_usize(other),
            ),
        }
    }

    /// Adds two values, then reduces modulo `prime`; two addresses cannot be
    /// added.
    pub fn add_mod(&self, other: &MaybeRelocatable, prime: &BigInt) -> (r: Result<
        MaybeRelocatable,
        VirtualMachineError,
    >)
        requires
            is_int(self@) || is_int(other@) ==> prime@ != 0,
        ensures
            value_result(r) == spec_add_mod(self@, other@, prime@),
    {
        match (self, other) {
            (MaybeRelocatable::Int(a), MaybeRelocatable::Int(b)) => Ok(
                MaybeRelocatable::Int(a.plus(b).mod_floor(prime)),
            ),
            (MaybeRelocatable::RelocatableValue(_), MaybeRelocatable::RelocatableValue(_)) => Err(
                VirtualMachineError::RelocatableAdd,
            ),
            (MaybeRelocatable::RelocatableValue(rel), MaybeRelocatable::Int(num))
            | (MaybeRelocatable::Int(num), MaybeRelocatable::RelocatableValue(rel)) => {
                let big_offset = num.plus(&BigInt::from_usize(rel.offset)).mod_floor(prime);
                match big_offset.to_usize() {
                    Some(new_offset) => Ok(
                        MaybeRelocatable::RelocatableValue(
                            Relocatable { segment_index: rel.segment_index, offset: new_offset },
                        ),
                    ),
                    None => Err(VirtualMachineError::OffsetExceeded(big_offset)),
                }
            },
        }
    }

    /// Subtracts two values of the same kind (integers modulo `prime`, or two
    /// addresses of one segment), or an integer from an address.
    pub fn sub(&self, other: &MaybeRelocatable, prime: &BigInt) -> (r: Result<
        MaybeRelocatable,
        VirtualMachineError,
    >)
        requires
            is_int(self@) && is_int(other@) ==> prime@ != 0,
            self@ matches MaybeRelocatableValue::RelocatableValue(a) ==> (
            other@ matches MaybeRelocatableValue::RelocatableValue(b) ==> (a.segment_index
                == b.segment_index ==> a.offset >= b.offset)),
        ensures
            value_result(r) == spec_value_sub(self@, other@, prime@),
    {
        match (self, other) {
            (MaybeRelocatable::Int(a), MaybeRelocatable::Int(b)) => Ok(
                MaybeRelocatable::Int(a.minus(b).mod_floor(prime)),
            ),
            (MaybeRelocatable::RelocatableValue(ra), MaybeRelocatable::RelocatableValue(rb)) => {
                if ra.segment_index == rb.segment_index {
                    return Ok(MaybeRelocatable::Int(BigInt::from_usize(ra.offset - rb.offset)));
                }
                Err(VirtualMachineError::DiffIndexSub)
            },
            (MaybeRelocatable::RelocatableValue(ra), MaybeRelocatable::Int(b)) => {
                let diff = BigInt::from_usize(ra.offset).minus(b);
                match diff.to_usize() {
                    Some(o) => Ok(
                        MaybeRelocatable::RelocatableValue(
                            Relocatable { segment_index: ra.segment_index, offset: o },
                        ),
                    ),
                    None => Err(VirtualMachineError::OffsetExceeded(diff)),
                }
            },
            _ => Err(VirtualMachineError::NotImplemented),
        }
    }

    /// Reduces an integer modulo `other`; an address is returned unchanged.
    pub fn mod_floor(&self, other: &BigInt) -> (r: Result<MaybeRelocatable, VirtualMachineError>)
        requires
            is_int(self@) ==> other@ != 0,
        ensures
            value_result(r) == Ok::<MaybeRelocatableValue, VirtualMachineErrorValue>(
                spec_value_mod_floor(self@, other@),
            ),
    {
        match self {
            MaybeRelocatable::Int(value) => Ok(MaybeRelocatable::Int(value.mod_floor(other))),
            MaybeRelocatable::RelocatableValue(_) => Ok(self.duplicate()),
        }
    }

    /// Quotient (rounded towards zero) and floored remainder of two integers.
    pub fn divmod(&self, other: &MaybeRelocatable) -> (r: Result<
        (MaybeRelocatable, MaybeRelocatable),
        VirtualMachineError,
    >)
        requires
            is_int(self@) ==> other@ != MaybeRelocatableValue::Int(0),
        ensures
            match (self@, other@) {
                (MaybeRelocatableValue::Int(v), MaybeRelocatableValue::Int(d)) => r matches Ok(
                    (q, m),
                ) && q@ == MaybeRelocatableValue::Int(trunc_div(v, d)) && m@
                    == MaybeRelocatableValue::Int(floor_mod(v, d)),
                _ => r matches Err(e) && e@ == VirtualMachineErrorValue::NotImplemented,
            },
    {
        match (self, other) {
            (MaybeRelocatable::Int(val), MaybeRelocatable::Int(div)) => Ok(
                (MaybeRelocatable::Int(val.div_trunc(div)), MaybeRelocatable::Int(val.mod_floor(div))),
            ),
            _ => Err(VirtualMachineError::NotImplemented),
        }
    }

    /// The integer held, or `ExpectedInteger` for an address.
    pub fn get_int_ref(&self) -> (r: Result<&BigInt, VirtualMachineError>)
        ensures
            match self@ {
                MaybeRelocatableValue::Int(v) => r matches Ok(n) && n@ == v,
                MaybeRelocatableValue::RelocatableValue(_) => r matches Err(e) && e@
                    == VirtualMachineErrorValue::ExpectedInteger(self@),
            },
    {
        match self {
            MaybeRelocatable::Int(num) => Ok(num),
            MaybeRelocatable::RelocatableValue(_) => Err(
                VirtualMachineError::ExpectedInteger(self.duplicate()),
            ),
        }
    }

    /// The address held, or `ExpectedRelocatable` for an integer.
    pub fn get_relocatable(&self) -> (r: Result<Relocatable, VirtualMachineError>)
        ensures
            match self@ {
                MaybeRelocatableValue::RelocatableValue(a) => r == Ok::<
                    Relocatable,
                    VirtualMachineError,
                >(a),
                MaybeRelocatableValue::Int(_) => r matches Err(e) && e@
                    == VirtualMachineErrorValue::ExpectedRelocatable(self@),
            },
    {
        match self {
            MaybeRelocatable::RelocatableValue(rel) => Ok(*rel),
            MaybeRelocatable::Int(_) => Err(VirtualMachineError::ExpectedRelocatable(self.duplicate())),
        }
    }

    /// The address held, or `AddressNotRelocatable` for an integer.
    pub fn try_into_relocatable(&self) -> (r: Result<Relocatable, MemoryError>)
        ensures
            match self@ {
                MaybeRelocatableValue::RelocatableValue(a) => r == Ok::<Relocatable, MemoryError>(a),
                MaybeRelocatableValue::Int(_) => r == Err::<Relocatable, MemoryError>(
                    MemoryError::AddressNotRelocatable,
                ),
            },
    {
        match self {
            MaybeRelocatable::RelocatableValue(rel) => Ok(*rel),
            MaybeRelocatable::Int(_) => Err(MemoryError::AddressNotRelocatable),
        }
    }
}

impl core::ops::Add<usize> for Relocatable {
    type Output = Relocatable;

    fn add(self, other: usize) -> (r: Relocatable) {
        Relocatable { segment_index: self.segment_index, offset: self.offset + other }
    }
}

impl vstd::std_specs::ops::AddSpecImpl<usize> for Relocatable {
    open spec fn obeys_add_spec() -> bool {
        true
    }

    open spec fn add_req(self, other: usize) -> bool {
        self.offset + other <= usize::MAX
    }

    open spec fn add_spec(self, other: usize) -> Relocatable {
        spec_rel_add(self, other as int)
    }
}

impl core::ops::Add<i32> for &Relocatable {
    type Output = Relocatable;

    fn add(self, other: i32) -> (r: Relocatable) {
        self.add_i32(other)
    }
}

impl vstd::std_specs::ops::AddSpecImpl<i32> for &Relocatable {
    open spec fn obeys_add_spec() -> bool {
        true
    }

    open spec fn add_req(self, other: i32) -> bool {
        0 <= self.offset + other <= usize::MAX
    }

    open spec fn add_spec(self, other: i32) -> Relocatable {
        spec_rel_add(*self, other as int)
    }
}

impl core::ops::Add<usize> for &Relocatable {
    type Output = Relocatable;

    fn add(self, other: usize) -> (r: Relocatable) {
        self.add_usize(other)
    }
}

impl vstd::std_specs::ops::AddSpecImpl<usize> for &Relocatable {
    open spec fn obeys_add_spec() -> bool {
        true
    }

    open spec fn add_req(self, other: usize) -> bool {
        self.offset + other <= usize::MAX
    }

    open spec fn add_spec(self, other: usize) -> Relocatable {
        spec_rel_add(*self, other as int)
    }
}

impl core::ops::Add<i32> for Relocatable {
    type Output = Relocatable;

    fn add(self, other: i32) -> (r: Relocatable) {
        self.add_i32(other)
    }
}

impl vstd::std_specs::ops::AddSpecImpl<i32> for Relocatable {
    open spec fn obeys_add_spec() -> bool {
        true
    }

    open spec fn add_req(self, other: i32) -> bool {
        0 <= self.offset + other <= usize::MAX
    }

    open spec fn add_spec(self, other: i32) -> Relocatable {
        spec_rel_add(self, other as int)
    }
}

impl From<(isize, usize)> for Relocatable {
    fn from(index_offset: (isize, usize)) -> (r: Relocatable) {
        Relocatable { segment_index: index_offset.0, offset: index_offset.1 }
    }
}

impl vstd::std_specs::convert::FromSpecImpl<(isize, usize)> for Relocatable {
    open spec fn obeys_from_spec() -> bool {
        true
    }

    open spec fn from_spec(index_offset: (isize, usize)) -> Relocatable {
        rel(index_offset.0, index_offset.1)
    }
}

impl From<&Relocatable> for Relocatable {
    fn from(other: &Relocatable) -> (r: Relocatable) {
        *other
    }
}

impl vstd::std_specs::convert::FromSpecImpl<&Relocatable> for Relocatable {
    open spec fn obeys_from_spec() -> bool {
        true
    }

    open spec fn from_spec(other: &Relocatable) -> Relocatable {
        *other
    }
}

impl From<(isize, usize)> for MaybeRelocatable {
    fn from(index_offset: (isize, usize)) -> (r: MaybeRelocatable) {
        MaybeRelocatable::RelocatableValue(
            Relocatable { segment_index: index_offset.0, offset: index_offset.1 },
        )
    }
}

impl vstd::std_specs::convert::FromSpecImpl<(isize, usize)> for MaybeRelocatable {
    open spec fn obeys_from_spec() -> bool {
        true
    }

    open spec fn from_spec(index_offset: (isize, usize)) -> MaybeRelocatable {
        MaybeRelocatable::RelocatableValue(rel(index_offset.0, index_offset.1))
    }
}

impl From<BigInt> for MaybeRelocatable {
    fn from(num: BigInt) -> (r: MaybeRelocatable) {
        MaybeRelocatable::Int(num)
    }
}

impl vstd::std_specs::convert::FromSpecImpl<BigInt> for MaybeRelocatable {
    open spec fn obeys_from_spec() -> bool {
        true
    }

    open spec fn from_spec(num: BigInt) -> MaybeRelocatable {
        MaybeRelocatable::Int(num)
    }
}

impl From<Relocatable> for MaybeRelocatable {
    fn from(r: Relocatable) -> (m: MaybeRelocatable) {
        MaybeRelocatable::RelocatableValue(r)
    }
}

impl vstd::std_specs::convert::FromSpecImpl<Relocatable> for MaybeRelocatable {
    open spec fn obeys_from_spec() -> bool {
        true
    }

    open spec fn from_spec(r: Relocatable) -> MaybeRelocatable {
        MaybeRelocatable::RelocatableValue(r)
    }
}

impl From<&Relocatable> for MaybeRelocatable {
    fn from(r: &Relocatable) -> (m: MaybeRelocatable) {
        MaybeRelocatable::RelocatableValue(*r)
    }
}

impl vstd::std_specs::convert::FromSpecImpl<&Relocatable> for MaybeRelocatable {
    open spec fn obeys_from_spec() -> bool {
        true
    }

    open spec fn from_spec(r: &Relocatable) -> MaybeRelocatable {
        MaybeRelocatable::RelocatableValue(*r)
    }
}

impl TryFrom<MaybeRelocatable> for Relocatable {
    type Error = MemoryError;

    fn try_from(other: MaybeRelocatable) -> (r: Result<Relocatable, MemoryError>) {
        match other {
            MaybeRelocatable::RelocatableValue(rel) => Ok(rel),
            _ => Err(MemoryError::AddressNotRelocatable),
        }
    }
}

impl vstd::std_specs::convert::TryFromSpecImpl<MaybeRelocatable> for Relocatable {
    open spec fn obeys_try_from_spec() -> bool {
        true
    }

    open spec fn try_from_spec(other: MaybeRelocatable) -> Result<Relocatable, MemoryError> {
        match other {
            MaybeRelocatable::RelocatableValue(rel) => Ok(rel),
            _ => Err(MemoryError::AddressNotRelocatable),
        }
    }
}

impl TryFrom<&MaybeRelocatable> for Relocatable {
    type Error = MemoryError;

    fn try_from(other: &MaybeRelocatable) -> (r: Result<Relocatable, MemoryError>) {
        match other {
            MaybeRelocatable::RelocatableValue(rel) => Ok(*rel),
            _ => Err(MemoryError::AddressNotRelocatable),
        }
    }
}

impl vstd::std_specs::convert::TryFromSpecImpl<&MaybeRelocatable> for Relocatable {
    open spec fn obeys_try_from_spec() -> bool {
        true
    }

    open spec fn try_from_spec(other: &MaybeRelocatable) -> Result<Relocatable, MemoryError> {
        match other {
            MaybeRelocatable::RelocatableValue(rel) => Ok(*rel),
            _ => Err(MemoryError::AddressNotRelocatable),
        }
    }
}

/// Moving `n` cells forward and measuring the distance back gives `n`;
/// moving back by `n` returns to the start.
pub proof fn lemma_add_then_sub(a: Relocatable, n: usize)
    requires
        a.offset + n <= usize::MAX,
    ensures
        spec_sub_rel(spec_rel_add(a, n as int), a) == Ok::<usize, VirtualMachineErrorValue>(n),
        spec_rel_sub(spec_rel_add(a, n as int), n) == Ok::<Relocatable, VirtualMachineErrorValue>(a),
{
}

/// Subtracting `n` from an address and adding `n` back gives the address.
pub proof fn lemma_sub_then_add(a: Relocatable, n: usize)
    ensures
        spec_rel_sub(a, n) matches Ok(b) ==> spec_rel_add(b, n as int) == a,
        spec_rel_sub(a, n) is Err <==> a.offset < n,
{
}

/// The distance between two addresses of one segment, added back to the
/// lower one, gives the higher one.
pub proof fn lemma_sub_rel_then_add(a: Relocatable, b: Relocatable)
    ensures
        spec_sub_rel(a, b) matches Ok(d) ==> spec_rel_add(b, d as int) == a,
{
}

/// `add_mod` does not depend on the order of its operands.
pub proof fn lemma_add_mod_commutes(a: MaybeRelocatableValue, b: MaybeRelocatableValue, prime: int)
    ensures
        spec_add_mod(a, b, prime) == spec_add_mod(b, a, prime),
{
}

/// With a positive prime, an address produced by `add_int_mod` stays in its
/// segment and has an offset below the prime.
pub proof fn lemma_add_int_mod_offset_below_prime(a: Relocatable, n: int, prime: int)
    requires
        prime > 0,
    ensures
        spec_add_int_mod(a, n, prime) matches Ok(x) ==> x.segment_index == a.segment_index
            && x.offset < prime,
        prime <= usize::MAX + 1 ==> spec_add_int_mod(a, n, prime) is Ok,
{
}

/// The difference of two addresses of one segment, added back modulo a prime
/// larger than the offsets, restores the first address.
pub proof fn lemma_sub_then_add_mod_restores(a: Relocatable, b: Relocatable, prime: int)
    requires
        a.segment_index == b.segment_index,
        a.offset >= b.offset,
        prime > a.offset,
    ensures
        spec_value_sub(
            MaybeRelocatableValue::RelocatableValue(a),
            MaybeRelocatableValue::RelocatableValue(b),
            prime,
        ) == Ok::<MaybeRelocatableValue, VirtualMachineErrorValue>(
            MaybeRelocatableValue::Int(a.offset - b.offset),
        ),
        spec_add_mod(
            MaybeRelocatableValue::RelocatableValue(b),
            MaybeRelocatableValue::Int(a.offset - b.offset),
            prime,
        ) == Ok::<MaybeRelocatableValue, VirtualMachineErrorValue>(
            MaybeRelocatableValue::RelocatableValue(a),
        ),
{
    assert((a.offset - b.offset + b.offset) % prime == a.offset as int) by {
        vstd::arithmetic::div_mod::lemma_small_mod(a.offset as nat, prime as nat);
    }
}

/// Reducing twice modulo the same number is the same as reducing once.
pub proof fn lemma_mod_floor_idempotent(a: MaybeRelocatableValue, m: int)
    requires
        m != 0,
    ensures
        spec_value_mod_floor(spec_value_mod_floor(a, m), m) == spec_value_mod_floor(a, m),
{
    if let MaybeRelocatableValue::Int(v) = a {
        lemma_floor_mod_idempotent(v, m);
    }
}

/// The floored remainder of a floored remainder is itself.
pub proof fn lemma_floor_mod_idempotent(v: int, m: int)
    requires
        m != 0,
    ensures
        floor_mod(floor_mod(v, m), m) == floor_mod(v, m),
{
    if m > 0 {
        vstd::arithmetic::div_mod::lemma_mod_twice(v, m);
    } else {
        let e = v % m;
        assert(0 <= e < -m) by (nonlinear_arith)
            requires
                m < 0,
                e == v % m,
        ;
        if e == 0 {
            assert(0int % m == 0) by (nonlinear_arith)
                requires
                    m < 0,
            ;
        } else {
            let r = e + m;
            assert(r % m == e) by (nonlinear_arith)
                requires
                    m < 0,
                    0 < e < -m,
                    r == e + m,
            ;
        }
    }
}

/// The quotient and remainder of `divmod` rebuild the dividend whenever the
/// rounded-to-zero quotient and the floored remainder agree: the operands do
/// not have opposite signs, or the division is exact.
pub proof fn lemma_divmod_reconstructs(v: int, d: int)
    requires
        d != 0,
        (v >= 0 && d > 0) || (v <= 0 && d < 0) || floor_mod(v, d) == 0,
    ensures
        trunc_div(v, d) * d + floor_mod(v, d) == v,
{
    vstd::arithmetic::div_mod::lemma_fundamental_div_mod(v, d);
    vstd::arithmetic::mul::lemma_mul_is_commutative(trunc_div(v, d), d);
    let qe = v / d;
    let e = v % d;
    assert(0 <= e < crate::bigint::abs(d)) by (nonlinear_arith)
        requires
            d != 0,
            e == v % d,
    ;
    let a = crate::bigint::abs(v);
    let b = crate::bigint::abs(d);
    vstd::arithmetic::div_mod::lemma_fundamental_div_mod(a, b);
    let q = a / b;
    let s = a % b;
    assert(0 <= s < b) by (nonlinear_arith)
        requires
            b > 0,
            s == a % b,
    ;
    if v >= 0 && d > 0 {
        assert(a == v && b == d);
    } else if v <= 0 && d < 0 {
        assert(v == d * q - s) by (nonlinear_arith)
            requires
                a == -v,
                b == -d,
                a == b * q + s,
        ;
        if s == 0 {
            vstd::arithmetic::div_mod::lemma_fundamental_div_mod_converse(-v, b, q, 0);
            assert(e == 0) by (nonlinear_arith)
                requires
                    v == d * q,
                    v == d * qe + e,
                    0 <= e < b,
                    b == -d,
            ;
        } else {
            assert(e == b - s) by (nonlinear_arith)
                requires
                    v == d * q - s,
                    v == d * qe + e,
                    0 <= e < b,
                    b == -d,
                    0 < s < b,
            ;
        }
    } else {
        if d > 0 {
            assert(e == 0);
            if v < 0 {
                assert(a == (-qe) * b + 0) by (nonlinear_arith)
                    requires
                        v == d * qe,
                        a == -v,
                        b == d,
                ;
                vstd::arithmetic::div_mod::lemma_fundamental_div_mod_converse(a, b, -qe, 0);
                assert(trunc_div(v, d) == qe);
            } else {
                assert(a == v && b == d);
            }
        } else {
            assert(e == 0);
            assert(v > 0);
            assert(a == (-qe) * b + 0) by (nonlinear_arith)
                requires
                    v == d * qe,
                    a == v,
                    b == -d,
            ;
            vstd::arithmetic::div_mod::lemma_fundamental_div_mod_converse(a, b, -qe, 0);
            assert(trunc_div(v, d) == qe);
        }
    }
}

/// Within one segment, relocation keeps distances between addresses.
pub proof fn lemma_relocation_keeps_distances(a: Relocatable, b: Relocatable, table: Seq<usize>)
    requires
        a.segment_index == b.segment_index,
        relocation_fits(a, table),
        relocation_fits(b, table),
    ensures
        spec_relocate_address(a, table) matches Ok(x) ==> (spec_relocate_address(b, table) matches Ok(
            y,
        ) && x - y == a.offset - b.offset),
{
}

/// Where the relocation table sends an address.
pub open spec fn spec_relocate_address(a: Relocatable, table: Seq<usize>) -> Result<usize, MemoryErrorValue> {
    if a.segment_index < 0 {
        Err(MemoryErrorValue::TemporarySegmentInRelocation(a.segment_index))
    } else if table.len() <= a.segment_index {
        Err(MemoryErrorValue::Relocation)
    } else {
        Ok((table[a.segment_index as int] + a.offset) as usize)
    }
}

/// The relocated address fits in a `usize` whenever the table knows the
/// segment.
pub open spec fn relocation_fits(a: Relocatable, table: Seq<usize>) -> bool {
    0 <= a.segment_index < table.len() ==> table[a.segment_index as int] + a.offset <= usize::MAX
}

pub open spec fn mem_usize_result(r: Result<usize, MemoryError>) -> Result<usize, MemoryErrorValue> {
    match r {
        Ok(x) => Ok(x),
        Err(e) => Err(e@),
    }
}

/// Turns an address into its position after relocation: the start of its
/// segment in the table plus its offset.  Temporary segments cannot be
/// relocated.
pub fn relocate_address(relocatable: Relocatable, relocation_table: &Vec<usize>) -> (r: Result<
    usize,
    MemoryError,
>)
    requires
        relocation_fits(relocatable, relocation_table@),
    ensures
        mem_usize_result(r) == spec_relocate_address(relocatable, relocation_table@),
{
    if relocatable.segment_index < 0 {
        return Err(MemoryError::TemporarySegmentInRelocation(relocatable.segment_index));
    }
    let segment_index = relocatable.segment_index as usize;
    if relocation_table.len() <= segment_index {
        return Err(MemoryError::Relocation);
    }
    Ok(relocation_table[segment_index] + relocatable.offset)
}

/// Turns a value into an integer: an integer is kept, an address is
/// relocated.
pub fn relocate_value(value: MaybeRelocatable, relocation_table: &Vec<usize>) -> (r: Result<
    BigInt,
    MemoryError,
>)
    requires
        value@ matches MaybeRelocatableValue::RelocatableValue(a) ==> relocation_fits(
            a,
            relocation_table@,
        ),
    ensures
        match value@ {
            MaybeRelocatableValue::Int(v) => r matches Ok(n) && n@ == v,
            MaybeRelocatableValue::RelocatableValue(a) => match spec_relocate_address(
                a,
                relocation_table@,
            ) {
                Ok(x) => r matches Ok(n) && n@ == x,
                Err(e) => r matches Err(err) && err@ == e,
            },
        },
{
    match value {
        MaybeRelocatable::Int(num) => Ok(num),
        MaybeRelocatable::RelocatableValue(relocatable) => {
            match relocate_address(relocatable, relocation_table) {
                Ok(x) => Ok(BigInt::from_usize(x)),
                Err(e) => Err(e),
            }
        },
    }
}

/// Subtracting two integers is subtraction modulo the prime: the result is
/// the one value from 0 to `prime - 1` that, added to the second operand,
/// is the first one modulo the prime.
pub proof fn lemma_int_sub_is_modular_subtraction(x: int, y: int, prime: int)
    requires
        prime > 0,
    ensures
        spec_value_sub(MaybeRelocatableValue::Int(x), MaybeRelocatableValue::Int(y), prime) matches Ok(
            MaybeRelocatableValue::Int(r),
        ) && 0 <= r < prime && (r + y) % prime == x % prime,
{
    let r = (x - y) % prime;
    vstd::arithmetic::div_mod::lemma_add_mod_noop(x - y, y, prime);
    vstd::arithmetic::div_mod::lemma_add_mod_noop_right(r, y, prime);
    assert(x - y + y == x);
}

/// Relocating an address of a segment the table knows gives the table's entry
/// for that segment plus the offset; an address of a temporary segment
/// (negative index) or of a segment past the table is an error.
pub proof fn lemma_relocate_adds_table_entry(segment_index: isize, offset: usize, table: Seq<usize>)
    ensures
        0 <= segment_index < table.len() && table[segment_index as int] + offset <= usize::MAX
            ==> (spec_relocate_address((Relocatable { segment_index, offset }), table) matches Ok(x)
            && x == table[segment_index as int] + offset),
        segment_index < 0 ==> spec_relocate_address((Relocatable { segment_index, offset }), table)
            == Err::<usize, MemoryErrorValue>(
            MemoryErrorValue::TemporarySegmentInRelocation(segment_index),
        ),
        segment_index >= table.len() ==> spec_relocate_address(
            ((Relocatable { segment_index, offset })),
            table,
        ) == Err::<usize, MemoryErrorValue>(MemoryErrorValue::Relocation),
{
}

} // verus!
