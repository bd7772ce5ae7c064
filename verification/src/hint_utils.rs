//! Reading and writing the Cairo variables that a hint refers to.
use vstd::prelude::*;
use crate::bigint::BigInt;
use crate::errors::{VirtualMachineError, VirtualMachineErrorValue};
use crate::hint_processor_definition::{
    ApTracking, HintReference, HintReferenceValue, OffsetValue, OffsetValueValue, Register,
    assoc_get, ids_view,
};
use crate::relocatable::{MaybeRelocatable, MaybeRelocatableValue, Relocatable, rel};
use crate::vm::{RunContext, VirtualMachine, cell_at, insert_outcome};

verus! {

/// The cells of a memory, as a function from addresses.
pub type Cells = spec_fn(Relocatable) -> Option<MaybeRelocatableValue>;

pub open spec fn cells_of(m: crate::vm::MemoryValue) -> Cells {
    |a: Relocatable| cell_at(m, a)
}

/// The cells after `a` is set to `v`.
pub open spec fn with_cell(cells: Cells, a: Relocatable, v: MaybeRelocatableValue) -> Cells {
    |b: Relocatable| if b == a {
        Some(v)
    } else {
        cells(b)
    }
}

/// The outcome of following a reference: a value, nothing (the reference
/// does not lead anywhere), or an arithmetic overflow of an offset, on which
/// the computation cannot go on.
pub ghost enum Lookup<T> {
    Found(T),
    Missing,
    Overflows,
}

/// The address a register of a reference points at, `ap` being corrected
/// by the distance between the reference's tracking data and the hint's.
pub open spec fn spec_reference_base(
    rc: RunContext,
    href: HintReferenceValue,
    register: Register,
    hint_ap: ApTracking,
) -> Lookup<Relocatable> {
    match register {
        Register::FP => Lookup::Found(rc.spec_fp()),
        Register::AP => match href.ap_tracking_data {
            None => Lookup::Missing,
            Some(t) => if t.group != hint_ap.group {
                Lookup::Missing
            } else if hint_ap.offset < t.offset {
                Lookup::Overflows
            } else if rc.ap < hint_ap.offset - t.offset {
                Lookup::Missing
            } else {
                Lookup::Found(rel(1, (rc.ap - (hint_ap.offset - t.offset)) as usize))
            },
        },
    }
}

/// The value a register-relative term of a reference stands for.
pub open spec fn spec_offset_value(
    rc: RunContext,
    cells: Cells,
    href: HintReferenceValue,
    hint_ap: ApTracking,
    ov: OffsetValueValue,
) -> Lookup<MaybeRelocatableValue> {
    match ov {
        OffsetValueValue::Reference(register, offset, deref) => match spec_reference_base(
            rc,
            href,
            register,
            hint_ap,
        ) {
            Lookup::Found(base) => if offset < 0 && base.offset < -offset {
                Lookup::Missing
            } else if base.offset + offset > usize::MAX {
                Lookup::Overflows
            } else {
                let a = rel(base.segment_index, (base.offset + offset) as usize);
                if deref {
                    match cells(a) {
                        Some(v) => Lookup::Found(v),
                        None => Lookup::Missing,
                    }
                } else {
                    Lookup::Found(MaybeRelocatableValue::RelocatableValue(a))
                }
            },
            Lookup::Missing => Lookup::Missing,
            Lookup::Overflows => Lookup::Overflows,
        },
        _ => Lookup::Missing,
    }
}

/// The address a reference stands for: its first term, which must be an
/// address, plus its second term.
pub open spec fn spec_compute_addr(
    rc: RunContext,
    cells: Cells,
    href: HintReferenceValue,
    hint_ap: ApTracking,
) -> Lookup<Relocatable> {
    match href.offset1 {
        OffsetValueValue::Reference(_, _, _) => match spec_offset_value(rc, cells,
            href,
            hint_ap,
            href.offset1,
        ) {
            Lookup::Found(MaybeRelocatableValue::RelocatableValue(b)) => match href.offset2 {
                OffsetValueValue::Reference(_, _, _) => match spec_offset_value(rc, cells,
                    href,
                    hint_ap,
                    href.offset2,
                ) {
                    Lookup::Found(MaybeRelocatableValue::Int(n)) => if 0 <= n <= usize::MAX {
                        if b.offset + n > usize::MAX {
                            Lookup::Overflows
                        } else {
                            Lookup::Found(rel(b.segment_index, (b.offset + n) as usize))
                        }
                    } else {
                        Lookup::Missing
                    },
                    Lookup::Found(_) => Lookup::Missing,
                    Lookup::Missing => Lookup::Missing,
                    Lookup::Overflows => Lookup::Overflows,
                },
                OffsetValueValue::Value(v) => if 0 <= b.offset + v <= usize::MAX {
                    Lookup::Found(rel(b.segment_index, (b.offset + v) as usize))
                } else {
                    Lookup::Overflows
                },
                OffsetValueValue::Immediate(_) => Lookup::Missing,
            },
            Lookup::Found(_) => Lookup::Missing,
            Lookup::Missing => Lookup::Missing,
            Lookup::Overflows => Lookup::Overflows,
        },
        _ => Lookup::Missing,
    }
}

/// The address of the variable `name`.
pub open spec fn var_address(
    rc: RunContext,
    cells: Cells,
    ids: Seq<(Seq<char>, HintReferenceValue)>,
    name: Seq<char>,
    hint_ap: ApTracking,
) -> Lookup<Relocatable> {
    match assoc_get(ids, name) {
        Some(h) => spec_compute_addr(rc, cells, h, hint_ap),
        None => Lookup::Missing,
    }
}

/// Following the reference of `name` does not overflow.
pub open spec fn var_fits(
    rc: RunContext,
    cells: Cells,
    ids: Seq<(Seq<char>, HintReferenceValue)>,
    name: Seq<char>,
    hint_ap: ApTracking,
) -> bool {
    !(var_address(rc, cells, ids, name, hint_ap) is Overflows)
}

/// The pointer that the variable `name` holds (or is, for a reference that
/// is not dereferenced).
pub open spec fn spec_ptr_var(
    rc: RunContext,
    cells: Cells,
    ids: Seq<(Seq<char>, HintReferenceValue)>,
    name: Seq<char>,
    hint_ap: ApTracking,
) -> Result<Relocatable, VirtualMachineErrorValue> {
    match var_address(rc, cells, ids, name, hint_ap) {
        Lookup::Found(a) => if assoc_get(ids, name)->0.dereference {
            match cells(a) {
                Some(MaybeRelocatableValue::RelocatableValue(x)) => Ok(x),
                _ => Err(
                    VirtualMachineErrorValue::ExpectedRelocatable(
                        MaybeRelocatableValue::RelocatableValue(a),
                    ),
                ),
            }
        } else {
            Ok(a)
        },
        _ => Err(VirtualMachineErrorValue::FailedToGetIds),
    }
}

/// The integer that the variable `name` holds; an immediate reference is
/// its own value.
pub open spec fn spec_int_var(
    rc: RunContext,
    cells: Cells,
    ids: Seq<(Seq<char>, HintReferenceValue)>,
    name: Seq<char>,
    hint_ap: ApTracking,
) -> Result<int, VirtualMachineErrorValue> {
    match assoc_get(ids, name) {
        None => Err(VirtualMachineErrorValue::FailedToGetIds),
        Some(h) => match h.offset1 {
            OffsetValueValue::Immediate(n) => Ok(n),
            _ => match spec_compute_addr(rc, cells, h, hint_ap) {
                Lookup::Found(a) => match cells(a) {
                    Some(MaybeRelocatableValue::Int(n)) => Ok(n),
                    _ => Err(
                        VirtualMachineErrorValue::ExpectedInteger(
                            MaybeRelocatableValue::RelocatableValue(a),
                        ),
                    ),
                },
                _ => Err(VirtualMachineErrorValue::FailedToGetIds),
            },
        },
    }
}

/// Following an integer variable does not overflow.
pub open spec fn int_var_fits(
    rc: RunContext,
    cells: Cells,
    ids: Seq<(Seq<char>, HintReferenceValue)>,
    name: Seq<char>,
    hint_ap: ApTracking,
) -> bool {
    match assoc_get(ids, name) {
        Some(h) => h.offset1 is Immediate || !(spec_compute_addr(rc, cells, h, hint_ap) is Overflows),
        None => true,
    }
}

/// The variable `name` can be written: its address does not overflow and
/// is not the last cell a `usize` offset can reach.
pub open spec fn var_writable(
    rc: RunContext,
    cells: Cells,
    ids: Seq<(Seq<char>, HintReferenceValue)>,
    name: Seq<char>,
    hint_ap: ApTracking,
) -> bool {
    match var_address(rc, cells, ids, name, hint_ap) {
        Lookup::Found(a) => a.offset < usize::MAX,
        Lookup::Missing => true,
        Lookup::Overflows => false,
    }
}

/// What writing `val` into the variable `name` does: the write of the
/// memory at the variable's address, or `FailedToGetIds` with the memory
/// unchanged when the variable has no address.
pub open spec fn var_write_outcome(
    rc: RunContext,
    before: crate::vm::Memory,
    after: crate::vm::Memory,
    ids: Seq<(Seq<char>, HintReferenceValue)>,
    name: Seq<char>,
    hint_ap: ApTracking,
    val: MaybeRelocatableValue,
    r: Result<(), VirtualMachineError>,
) -> bool {
    match var_address(rc, cells_of(before@), ids, name, hint_ap) {
        Lookup::Found(a) => match r {
            Ok(()) => insert_outcome(before, after, a, val, Ok(())),
            Err(VirtualMachineError::MemoryError(e)) => insert_outcome(before, after, a, val, Err(e)),
            Err(_) => false,
        },
        _ => r matches Err(e) && e@ == VirtualMachineErrorValue::FailedToGetIds && after == before,
    }
}

/// The reference of `name`, the first one in the list.
pub fn get_reference_from_var_name(name: &str, ids_data: &Vec<(String, HintReference)>) -> (r:
    Option<HintReference>)
    ensures
        match r {
            Some(h) => assoc_get(ids_view(ids_data@), name@) == Some(h@),
            None => assoc_get(ids_view(ids_data@), name@) is None,
        },
{
    let ghost v = ids_view(ids_data@);
    let key = name.to_owned();
    let mut i: usize = 0;
    assert(v.skip(0) =~= v);
    while i < ids_data.len()
        invariant
            i <= ids_data@.len(),
            v == ids_view(ids_data@),
            key@ == name@,
            assoc_get(v, name@) == assoc_get(v.skip(i as int), name@),
        decreases ids_data@.len() - i,
    {
        proof {
            assert(v.skip(i as int).drop_first() =~= v.skip(i + 1));
        }
        if ids_data[i].0 == key {
            return Some(ids_data[i].1.duplicate());
        }
        i = i + 1;
    }
    None
}

/// `base + offset` for a signed offset; `None` when it would be negative.
fn add_signed(base: Relocatable, offset: i32) -> (r: Option<Relocatable>)
    requires
        base.offset + offset <= usize::MAX,
    ensures
        match r {
            Some(a) => 0 <= base.offset + offset && a == rel(
                base.segment_index,
                (base.offset + offset) as usize,
            ),
            None => base.offset + offset < 0,
        },
{
    if offset >= 0 {
        Some(Relocatable { segment_index: base.segment_index, offset: base.offset + offset as usize })
    } else {
        let magnitude: usize = (0i64 - offset as i64) as usize;
        if base.offset < magnitude {
            None
        } else {
            Some(Relocatable { segment_index: base.segment_index, offset: base.offset - magnitude })
        }
    }
}

fn reference_base(vm: &VirtualMachine, href: &HintReference, register: Register, hint_ap: &ApTracking) -> (r:
    Option<Relocatable>)
    requires
        !(spec_reference_base(vm.run_context, href@, register, *hint_ap) is Overflows),
    ensures
        match spec_reference_base(vm.run_context, href@, register, *hint_ap) {
            Lookup::Found(a) => r == Some(a),
            _ => r is None,
        },
{
    match register {
        Register::FP => Some(vm.get_fp()),
        Register::AP => match href.ap_tracking_data {
            None => None,
            Some(t) => {
                if t.group != hint_ap.group {
                    return None;
                }
                let ap_diff = hint_ap.offset - t.offset;
                let ap = vm.get_ap();
                match ap.sub(ap_diff) {
                    Ok(a) => Some(a),
                    Err(_) => None,
                }
            },
        },
    }
}

fn offset_value_reference(
    vm: &VirtualMachine,
    href: &HintReference,
    hint_ap: &ApTracking,
    ov: &OffsetValue,
) -> (r: Option<MaybeRelocatable>)
    requires
        !(spec_offset_value(vm.run_context, cells_of(vm.memory@), href@, *hint_ap, ov@) is Overflows),
    ensures
        match spec_offset_value(vm.run_context, cells_of(vm.memory@), href@, *hint_ap, ov@) {
            Lookup::Found(v) => r matches Some(x) && x@ == v,
            _ => r is None,
        },
{
    match ov {
        OffsetValue::Reference(register, offset, deref) => {
            let base = match reference_base(vm, href, *register, hint_ap) {
                Some(b) => b,
                None => return None,
            };
            if *offset < 0 && (base.offset as i128) < -(*offset as i128) {
                return None;
            }
            let addr = match add_signed(base, *offset) {
                Some(a) => a,
                None => return None,
            };
            if *deref {
                vm.memory.get(&addr)
            } else {
                Some(MaybeRelocatable::RelocatableValue(addr))
            }
        },
        _ => None,
    }
}

/// The address a reference stands for, `None` when it leads nowhere.
pub fn compute_addr_from_reference(
    href: &HintReference,
    vm: &VirtualMachine,
    hint_ap: &ApTracking,
) -> (r: Option<Relocatable>)
    requires
        !(spec_compute_addr(vm.run_context, cells_of(vm.memory@), href@, *hint_ap) is Overflows),
    ensures
        match spec_compute_addr(vm.run_context, cells_of(vm.memory@), href@, *hint_ap) {
            Lookup::Found(a) => r == Some(a),
            _ => r is None,
        },
{
    let offset1 = match &href.offset1 {
        OffsetValue::Reference(_, _, _) => match offset_value_reference(vm, href, hint_ap, &href.offset1) {
            Some(MaybeRelocatable::RelocatableValue(b)) => b,
            _ => return None,
        },
        _ => return None,
    };
    match &href.offset2 {
        OffsetValue::Reference(_, _, _) => {
            let value = match offset_value_reference(vm, href, hint_ap, &href.offset2) {
                Some(MaybeRelocatable::Int(n)) => n,
                _ => return None,
            };
            match value.to_usize() {
                Some(n) => Some(offset1.add_usize(n)),
                None => None,
            }
        },
        OffsetValue::Value(v) => Some(offset1.add_i32(*v)),
        _ => None,
    }
}

/// The address of the variable `name`.
pub fn get_relocatable_from_var_name(
    name: &str,
    vm: &VirtualMachine,
    ids_data: &Vec<(String, HintReference)>,
    ap_tracking: &ApTracking,
) -> (r: Result<Relocatable, VirtualMachineError>)
    requires
        var_fits(vm.run_context, cells_of(vm.memory@), ids_view(ids_data@), name@, *ap_tracking),
    ensures
        match var_address(vm.run_context, cells_of(vm.memory@), ids_view(ids_data@), name@, *ap_tracking) {
            Lookup::Found(a) => r == Ok::<Relocatable, VirtualMachineError>(a),
            _ => r matches Err(e) && e@ == VirtualMachineErrorValue::FailedToGetIds,
        },
{
    let href = match get_reference_from_var_name(name, ids_data) {
        Some(h) => h,
        None => return Err(VirtualMachineError::FailedToGetIds),
    };
    match compute_addr_from_reference(&href, vm, ap_tracking) {
        Some(a) => Ok(a),
        None => Err(VirtualMachineError::FailedToGetIds),
    }
}

/// The pointer that the variable `name` holds.
pub fn get_ptr_from_var_name(
    name: &str,
    vm: &VirtualMachine,
    ids_data: &Vec<(String, HintReference)>,
    ap_tracking: &ApTracking,
) -> (r: Result<Relocatable, VirtualMachineError>)
    requires
        var_fits(vm.run_context, cells_of(vm.memory@), ids_view(ids_data@), name@, *ap_tracking),
    ensures
        match r {
            Ok(x) => spec_ptr_var(vm.run_context, cells_of(vm.memory@), ids_view(ids_data@), name@, *ap_tracking)
                == Ok::<Relocatable, VirtualMachineErrorValue>(x),
            Err(e) => spec_ptr_var(vm.run_context, cells_of(vm.memory@), ids_view(ids_data@), name@, *ap_tracking)
                == Err::<Relocatable, VirtualMachineErrorValue>(e@),
        },
{
    let href = match get_reference_from_var_name(name, ids_data) {
        Some(h) => h,
        None => return Err(VirtualMachineError::FailedToGetIds),
    };
    let addr = match compute_addr_from_reference(&href, vm, ap_tracking) {
        Some(a) => a,
        None => return Err(VirtualMachineError::FailedToGetIds),
    };
    if href.dereference {
        vm.get_relocatable(&addr)
    } else {
        Ok(addr)
    }
}

/// The integer that the variable `name` holds.
pub fn get_integer_from_var_name(
    name: &str,
    vm: &VirtualMachine,
    ids_data: &Vec<(String, HintReference)>,
    ap_tracking: &ApTracking,
) -> (r: Result<BigInt, VirtualMachineError>)
    requires
        int_var_fits(vm.run_context, cells_of(vm.memory@), ids_view(ids_data@), name@, *ap_tracking),
    ensures
        match r {
            Ok(x) => spec_int_var(vm.run_context, cells_of(vm.memory@), ids_view(ids_data@), name@, *ap_tracking)
                == Ok::<int, VirtualMachineErrorValue>(x@),
            Err(e) => spec_int_var(vm.run_context, cells_of(vm.memory@), ids_view(ids_data@), name@, *ap_tracking)
                == Err::<int, VirtualMachineErrorValue>(e@),
        },
{
    let href = match get_reference_from_var_name(name, ids_data) {
        Some(h) => h,
        None => return Err(VirtualMachineError::FailedToGetIds),
    };
    if let OffsetValue::Immediate(n) = &href.offset1 {
        return Ok(n.duplicate());
    }
    let addr = match compute_addr_from_reference(&href, vm, ap_tracking) {
        Some(a) => a,
        None => return Err(VirtualMachineError::FailedToGetIds),
    };
    vm.get_integer(&addr)
}

/// Writes `value` into the variable `name`.
pub fn insert_value_from_var_name(
    name: &str,
    value: MaybeRelocatable,
    vm: &mut VirtualMachine,
    ids_data: &Vec<(String, HintReference)>,
    ap_tracking: &ApTracking,
) -> (r: Result<(), VirtualMachineError>)
    requires
        var_writable(old(vm).run_context, cells_of(old(vm).memory@), ids_view(ids_data@), name@, *ap_tracking),
    ensures
        final(vm).run_context == old(vm).run_context,
        final(vm).segments == old(vm).segments,
        final(vm).current_step == old(vm).current_step,
        final(vm).skip_instruction_execution == old(vm).skip_instruction_execution,
        final(vm).prime == old(vm).prime,
        var_write_outcome(
            old(vm).run_context,
            old(vm).memory,
            final(vm).memory,
            ids_view(ids_data@),
            name@,
            *ap_tracking,
            value@,
            r,
        ),
{
    let addr = match get_relocatable_from_var_name(name, vm, ids_data, ap_tracking) {
        Ok(a) => a,
        Err(e) => return Err(e),
    };
    match vm.memory.insert(&addr, &value) {
        Ok(()) => Ok(()),
        Err(e) => Err(VirtualMachineError::MemoryError(e)),
    }
}

} // verus!
