//! Splitting 256-bit integers into three limbs of 86 bits, and packing
//! limbs back into an integer, as the secp hints do.
use vstd::prelude::*;
use vstd::arithmetic::power2::pow2;
use crate::bigint::{BigInt, bit_and};
use crate::errors::{VirtualMachineError, VirtualMachineErrorValue};
use crate::hint_processor_definition::{ApTracking, HintReference, assoc_get, ids_view};
use crate::hint_utils::{Lookup, cells_of, get_relocatable_from_var_name, var_address, var_fits};
use crate::relocatable::{MaybeRelocatableValue, Relocatable, rel};
use crate::vm::{VirtualMachine, cell_at};

verus! {

// Constants in package "starkware.cairo.common.cairo_secp.constants".
pub const BASE_86: &'static str = "starkware.cairo.common.cairo_secp.constants.BASE";

pub const BETA: &'static str = "starkware.cairo.common.cairo_secp.constants.BETA";

pub const N0: &'static str = "starkware.cairo.common.cairo_secp.constants.N0";

pub const N1: &'static str = "starkware.cairo.common.cairo_secp.constants.N1";

pub const N2: &'static str = "starkware.cairo.common.cairo_secp.constants.N2";

pub const P0: &'static str = "starkware.cairo.common.cairo_secp.constants.P0";

pub const P1: &'static str = "starkware.cairo.common.cairo_secp.constants.P1";

pub const P2: &'static str = "starkware.cairo.common.cairo_secp.constants.P2";

pub const SECP_REM: &'static str = "starkware.cairo.common.cairo_secp.constants.SECP_REM";

/// Names of constants mapped to their values, as views.
pub open spec fn constants_view(s: Seq<(String, BigInt)>) -> Seq<(Seq<char>, int)> {
    s.map_values(|p: (String, BigInt)| (p.0@, p.1@))
}

/// The three limbs that `split` gives: each is the remaining number masked
/// with `base - 1`, the remaining number being shifted right by 86 bits
/// after each limb; an error when something is left after three limbs.
pub open spec fn spec_split(x: int, base: int) -> Result<Seq<int>, VirtualMachineErrorValue> {
    let m = base - 1;
    let b = pow2(86) as int;
    if x < 0 {
        Err(VirtualMachineErrorValue::SecpSplitNegative(x))
    } else if x / b / b / b != 0 {
        Err(VirtualMachineErrorValue::SecpSplitutOfRange(x))
    } else {
        Ok(seq![bit_and(x, m), bit_and(x / b, m), bit_and(x / b / b, m)])
    }
}

/// A limb read as a signed value: the values from half the prime on stand
/// for negative numbers.
pub open spec fn spec_as_int(v: int, prime: int) -> int {
    if v < prime / 2 {
        v
    } else {
        v - prime
    }
}

/// The integer that three limbs of 86 bits stand for.
pub open spec fn spec_pack(d0: int, d1: int, d2: int, prime: int) -> int {
    spec_as_int(d0, prime) + spec_as_int(d1, prime) * pow2(86) + spec_as_int(d2, prime) * pow2(172)
}

/// The value of a constant, the first one with that name.
fn get_constant(constants: &Vec<(String, BigInt)>, name: &str) -> (r: Option<BigInt>)
    ensures
        match r {
            Some(v) => assoc_get(constants_view(constants@), name@) == Some(v@),
            None => assoc_get(constants_view(constants@), name@) is None,
        },
{
    let ghost cv = constants_view(constants@);
    let key = name.to_owned();
    let mut i: usize = 0;
    assert(cv.skip(0) =~= cv);
    while i < constants.len()
        invariant
            i <= constants@.len(),
            cv == constants_view(constants@),
            key@ == name@,
            assoc_get(cv, name@) == assoc_get(cv.skip(i as int), name@),
        decreases constants@.len() - i,
    {
        proof {
            assert(cv.skip(i as int).drop_first() =~= cv.skip(i + 1));
        }
        if constants[i].0 == key {
            return Some(constants[i].1.duplicate());
        }
        i = i + 1;
    }
    None
}

/// Splits a non-negative integer into three limbs of 86 bits, masking each
/// with the `BASE` constant minus one.
pub fn split(integer: &BigInt, constants: &Vec<(String, BigInt)>) -> (r: Result<
    [BigInt; 3],
    VirtualMachineError,
>)
    ensures
        integer@ >= 0 && assoc_get(constants_view(constants@), BASE_86@) is None ==> (r matches Err(e)
            && e@ == VirtualMachineErrorValue::MissingConstant(BASE_86@)),
        integer@ < 0 || assoc_get(constants_view(constants@), BASE_86@) is Some ==> {
            let base = assoc_get(constants_view(constants@), BASE_86@)->0;
            match spec_split(integer@, base) {
                Ok(d) => r matches Ok(a) && a[0]@ == d[0] && a[1]@ == d[1] && a[2]@ == d[2],
                Err(e) => r matches Err(x) && x@ == e,
            }
        },
{
    if integer.is_negative() {
        return Err(VirtualMachineError::SecpSplitNegative(integer.duplicate()));
    }
    let base = match get_constant(constants, BASE_86) {
        Some(b) => b,
        None => return Err(VirtualMachineError::MissingConstant(BASE_86.to_owned())),
    };
    let base_86_max = base.minus(&BigInt::from_i128(1));
    let d0 = integer.bitand(&base_86_max);
    let num = integer.shift_right(86);
    let d1 = num.bitand(&base_86_max);
    let num = num.shift_right(86);
    let d2 = num.bitand(&base_86_max);
    let num = num.shift_right(86);
    if !num.is_zero() {
        return Err(VirtualMachineError::SecpSplitutOfRange(integer.duplicate()));
    }
    Ok([d0, d1, d2])
}

/// A limb read as a signed value modulo `prime`.
pub fn as_int(value: &BigInt, prime: &BigInt) -> (r: BigInt)
    ensures
        r@ == spec_as_int(value@, prime@),
{
    let half_prime = prime.shift_right(1);
    proof {
        vstd::arithmetic::power2::lemma2_to64();
    }
    if value.less_than(&half_prime) {
        value.duplicate()
    } else {
        value.minus(prime)
    }
}

/// The integer `d0 + d1 * 2^86 + d2 * 2^172`, each limb read as a signed
/// value modulo `prime`.
pub fn pack(d0: &BigInt, d1: &BigInt, d2: &BigInt, prime: &BigInt) -> (r: BigInt)
    ensures
        r@ == spec_pack(d0@, d1@, d2@, prime@),
{
    let a0 = as_int(d0, prime);
    let a1 = as_int(d1, prime).shift_left(86);
    let a2 = as_int(d2, prime).shift_left(172);
    a0.plus(&a1).plus(&a2)
}

/// The limbs at `to_pack`, `to_pack + 1` and `to_pack + 2`, or why one of
/// them is not an integer.
pub open spec fn spec_limbs_at(vm: &VirtualMachine, a: Relocatable) -> Result<Seq<int>, VirtualMachineErrorValue> {
    match cell_at(vm.memory@, a) {
        Some(MaybeRelocatableValue::Int(d0)) => match cell_at(
            vm.memory@,
            rel(a.segment_index, (a.offset + 1) as usize),
        ) {
            Some(MaybeRelocatableValue::Int(d1)) => match cell_at(
                vm.memory@,
                rel(a.segment_index, (a.offset + 2) as usize),
            ) {
                Some(MaybeRelocatableValue::Int(d2)) => Ok(seq![d0, d1, d2]),
                _ => Err(
                    VirtualMachineErrorValue::ExpectedInteger(
                        MaybeRelocatableValue::RelocatableValue(
                            rel(a.segment_index, (a.offset + 2) as usize),
                        ),
                    ),
                ),
            },
            _ => Err(
                VirtualMachineErrorValue::ExpectedInteger(
                    MaybeRelocatableValue::RelocatableValue(
                        rel(a.segment_index, (a.offset + 1) as usize),
                    ),
                ),
            ),
        },
        _ => Err(
            VirtualMachineErrorValue::ExpectedInteger(MaybeRelocatableValue::RelocatableValue(a)),
        ),
    }
}

/// Packs the three limbs stored from `rel` on, modulo the machine's prime.
pub fn pack_from_relocatable(rel: Relocatable, vm: &VirtualMachine) -> (r: Result<BigInt, VirtualMachineError>)
    requires
        rel.offset + 2 <= usize::MAX,
    ensures
        match spec_limbs_at(vm, rel) {
            Ok(d) => r matches Ok(x) && x@ == spec_pack(d[0], d[1], d[2], vm.prime@),
            Err(e) => r matches Err(x) && x@ == e,
        },
{
    let d0 = vm.get_integer(&rel)?;
    let d1 = vm.get_integer(&(&rel + 1i32))?;
    let d2 = vm.get_integer(&(rel + 2i32))?;
    Ok(pack(&d0, &d1, &d2, &vm.prime))
}

/// Packs the three limbs stored at the variable `name`.
pub fn pack_from_var_name(
    name: &str,
    vm: &VirtualMachine,
    ids_data: &Vec<(String, HintReference)>,
    ap_tracking: &ApTracking,
) -> (r: Result<BigInt, VirtualMachineError>)
    requires
        var_fits(vm.run_context, cells_of(vm.memory@), ids_view(ids_data@), name@, *ap_tracking),
        var_address(vm.run_context, cells_of(vm.memory@), ids_view(ids_data@), name@, *ap_tracking) matches Lookup::Found(
            a,
        ) ==> a.offset + 2 <= usize::MAX,
    ensures
        match var_address(vm.run_context, cells_of(vm.memory@), ids_view(ids_data@), name@, *ap_tracking) {
            Lookup::Found(a) => match spec_limbs_at(vm, a) {
                Ok(d) => r matches Ok(x) && x@ == spec_pack(d[0], d[1], d[2], vm.prime@),
                Err(e) => r matches Err(x) && x@ == e,
            },
            _ => r matches Err(x) && x@ == VirtualMachineErrorValue::FailedToGetIds,
        },
{
    let to_pack = get_relocatable_from_var_name(name, vm, ids_data, ap_tracking)?;
    pack_from_relocatable(to_pack, vm)
}

/// Masking a non-negative number with `2^k - 1` keeps its `k` low bits.
pub proof fn lemma_bit_and_low_mask(a: int, k: nat)
    requires
        a >= 0,
    ensures
        bit_and(a, pow2(k) - 1) == a % (pow2(k) as int),
    decreases k,
{
    vstd::arithmetic::power2::lemma_pow2_pos(k);
    if k == 0 {
        vstd::arithmetic::power2::lemma2_to64();
        assert(pow2(0) == 1);
    } else {
        let m = pow2(k) - 1;
        let half = pow2((k - 1) as nat);
        vstd::arithmetic::power2::lemma_pow2_unfold(k);
        vstd::arithmetic::power2::lemma_pow2_pos((k - 1) as nat);
        assert(m == 2 * half - 1);
        assert(m / 2 == half - 1 && m % 2 == 1);
        if a == 0 {
            assert(bit_and(a, m) == 0);
        } else {
            lemma_bit_and_low_mask(a / 2, (k - 1) as nat);
            assert(bit_and(a, m) == 2 * bit_and(a / 2, m / 2) + (if a % 2 == 1 {
                1int
            } else {
                0int
            }));
            vstd::arithmetic::div_mod::lemma_mod_breakdown(a, 2, half as int);
            assert(a % 2 == 1 || a % 2 == 0);
        }
    }
}

/// Splitting an integer below `2^258` with `BASE = 2^86` and packing the
/// limbs back, with a prime of at least 87 bits, gives the integer again.
pub proof fn lemma_split_then_pack(x: int, prime: int)
    requires
        0 <= x < pow2(258),
        prime >= pow2(87),
    ensures
        spec_split(x, pow2(86) as int) matches Ok(d) && spec_pack(d[0], d[1], d[2], prime) == x,
{
    let b = pow2(86) as int;
    vstd::arithmetic::power2::lemma_pow2_pos(86);
    vstd::arithmetic::power2::lemma_pow2_adds(86, 86);
    vstd::arithmetic::power2::lemma_pow2_adds(172, 86);
    vstd::arithmetic::power2::lemma_pow2_adds(86, 1);
    assert(pow2(1) == 2) by {
        vstd::arithmetic::power2::lemma2_to64();
    }
    let x1 = x / b;
    let x2 = x1 / b;
    let x3 = x2 / b;
    vstd::arithmetic::div_mod::lemma_div_pos_is_pos(x, b);
    vstd::arithmetic::div_mod::lemma_div_pos_is_pos(x1, b);
    vstd::arithmetic::div_mod::lemma_div_denominator(x, b, b);
    vstd::arithmetic::div_mod::lemma_div_denominator(x1, b, b);
    vstd::arithmetic::div_mod::lemma_div_denominator(x, b * b, b);
    assert(x3 == x / (b * b * b));
    vstd::arithmetic::div_mod::lemma_basic_div(x, b * b * b);
    assert(x3 == 0);
    lemma_bit_and_low_mask(x, 86);
    lemma_bit_and_low_mask(x1, 86);
    lemma_bit_and_low_mask(x2, 86);
    let d0 = x % b;
    let d1 = x1 % b;
    let d2 = x2 % b;
    vstd::arithmetic::div_mod::lemma_mod_bound(x, b);
    vstd::arithmetic::div_mod::lemma_mod_bound(x1, b);
    vstd::arithmetic::div_mod::lemma_mod_bound(x2, b);
    assert(prime / 2 >= b) by {
        vstd::arithmetic::div_mod::lemma_div_is_ordered(2 * b, prime, 2);
        vstd::arithmetic::div_mod::lemma_div_by_multiple(b, 2);
    }
    assert(spec_as_int(d0, prime) == d0);
    assert(spec_as_int(d1, prime) == d1);
    assert(spec_as_int(d2, prime) == d2);
    vstd::arithmetic::div_mod::lemma_fundamental_div_mod(x, b);
    vstd::arithmetic::div_mod::lemma_fundamental_div_mod(x1, b);
    vstd::arithmetic::div_mod::lemma_fundamental_div_mod(x2, b);
    assert(x2 == d2) by {
        vstd::arithmetic::div_mod::lemma_small_mod(x2 as nat, b as nat);
        assert(x2 < b) by {
            assert(x2 == b * x3 + x2 % b);
        }
    }
    assert(x == d0 + d1 * b + d2 * (b * b)) by (nonlinear_arith)
        requires
            x == b * x1 + d0,
            x1 == b * x2 + d1,
            x2 == d2,
    ;
}

/// Packing from an address reads the three cells at `offset`, `offset + 1`
/// and `offset + 2` of its segment: when they hold the integers `x0`, `x1`
/// and `x2`, the packed value is `x0 + x1 * 2^86 + x2 * 2^172`, each limb read
/// as a signed value (a limb from half the prime on stands for `limb - prime`).
pub proof fn lemma_pack_reads_three_cells(
    vm: &VirtualMachine,
    segment_index: isize,
    offset: usize,
    x0: int,
    x1: int,
    x2: int,
)
    requires
        offset + 2 <= usize::MAX,
        cell_at(vm.memory@, (Relocatable { segment_index, offset })) == Some(
            MaybeRelocatableValue::Int(x0),
        ),
        cell_at(vm.memory@, (Relocatable { segment_index, offset: (offset + 1) as usize })) == Some(
            MaybeRelocatableValue::Int(x1),
        ),
        cell_at(vm.memory@, (Relocatable { segment_index, offset: (offset + 2) as usize })) == Some(
            MaybeRelocatableValue::Int(x2),
        ),
    ensures
        ({
            let p = vm.prime@;
            let s0 = if x0 < p / 2 { x0 } else { x0 - p };
            let s1 = if x1 < p / 2 { x1 } else { x1 - p };
            let s2 = if x2 < p / 2 { x2 } else { x2 - p };
            spec_limbs_at(vm, (Relocatable { segment_index, offset })) matches Ok(d) && d.len() == 3
                && spec_pack(d[0], d[1], d[2], p) == s0 + s1 * 77371252455336267181195264 + s2
                * 5986310706507378352962293074805895248510699696029696
        }),
{
    vstd::arithmetic::power2::lemma2_to64();
    vstd::arithmetic::power2::lemma_pow2_adds(64, 22);
    vstd::arithmetic::power2::lemma_pow2_adds(86, 86);
    assert(pow2(86) == 77371252455336267181195264);
    assert(pow2(86) * pow2(86) == 5986310706507378352962293074805895248510699696029696) by (
    nonlinear_arith)
        requires
            pow2(86) == 77371252455336267181195264,
    ;
    assert(pow2(172) == 5986310706507378352962293074805895248510699696029696);
    assert(rel(segment_index, (offset + 1) as usize) == Relocatable {
        segment_index,
        offset: (offset + 1) as usize,
    });
    assert(rel(segment_index, (offset + 2) as usize) == Relocatable {
        segment_index,
        offset: (offset + 2) as usize,
    });
}

} // verus!
