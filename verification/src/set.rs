//! The `set_add` hint: finds an element in a set laid out in memory.
use vstd::prelude::*;
use crate::bigint::BigInt;
use crate::errors::{VirtualMachineError, VirtualMachineErrorValue};
use crate::hint_processor_definition::{ApTracking, HintReference, HintReferenceValue, ids_view};
use crate::hint_utils::{
    Cells, Lookup, cells_of, get_integer_from_var_name, get_ptr_from_var_name,
    insert_value_from_var_name, int_var_fits, spec_int_var, spec_ptr_var, var_address, var_fits,
    var_writable, var_write_outcome, with_cell,
};
use crate::relocatable::{MaybeRelocatable, MaybeRelocatableValue, Relocatable, rel, spec_sub_rel};
use crate::vm::{VirtualMachine, cell_value};

verus! {

/// The variables that `set_add` reads.
pub ghost struct SetAddInputs {
    pub set_ptr: Relocatable,
    pub elm_size: nat,
    pub elm_ptr: Relocatable,
    pub set_end_ptr: Relocatable,
}

/// The `n` cells from `a` on.
pub open spec fn cell_range(cells: Cells, a: Relocatable, n: nat) -> Seq<Option<MaybeRelocatableValue>> {
    Seq::new(n, |i: int| cells(rel(a.segment_index, (a.offset + i) as usize)))
}

/// Reads `set_ptr`, `elm_size`, `elm_ptr` and `set_end_ptr`, in this order;
/// the element size must fit in a `usize` and be positive.
pub open spec fn spec_set_add_inputs(
    rc: crate::vm::RunContext,
    cells: Cells,
    ids: Seq<(Seq<char>, HintReferenceValue)>,
    ap: ApTracking,
) -> Result<SetAddInputs, VirtualMachineErrorValue> {
    match spec_ptr_var(rc, cells, ids, "set_ptr"@, ap) {
        Err(e) => Err(e),
        Ok(set_ptr) => match spec_int_var(rc, cells, ids, "elm_size"@, ap) {
            Err(e) => Err(e),
            Ok(n) => if !(0 <= n <= usize::MAX) {
                Err(VirtualMachineErrorValue::BigintToUsizeFail)
            } else {
                match spec_ptr_var(rc, cells, ids, "elm_ptr"@, ap) {
                    Err(e) => Err(e),
                    Ok(elm_ptr) => match spec_ptr_var(rc, cells, ids, "set_end_ptr"@, ap) {
                        Err(e) => Err(e),
                        Ok(set_end_ptr) => if n == 0 {
                            Err(VirtualMachineErrorValue::ValueNotPositive(0))
                        } else {
                            Ok(SetAddInputs { set_ptr, elm_size: n as nat, elm_ptr, set_end_ptr })
                        },
                    },
                }
            },
        },
    }
}

/// Whether `a` comes after `b` (segment first, then offset).
pub open spec fn rel_gt(a: Relocatable, b: Relocatable) -> bool {
    a.segment_index > b.segment_index || (a.segment_index == b.segment_index && a.offset > b.offset)
}

/// The length of the set, or why there is none.
pub open spec fn spec_set_limit(inp: SetAddInputs) -> Result<usize, VirtualMachineErrorValue> {
    if rel_gt(inp.set_ptr, inp.set_end_ptr) {
        Err(
            VirtualMachineErrorValue::InvalidSetRange(
                MaybeRelocatableValue::RelocatableValue(inp.set_ptr),
                MaybeRelocatableValue::RelocatableValue(inp.set_end_ptr),
            ),
        )
    } else {
        spec_sub_rel(inp.set_end_ptr, inp.set_ptr)
    }
}

/// The set holds the element at distance `k` from its start.
pub open spec fn element_at(cells: Cells, inp: SetAddInputs, k: int) -> bool {
    cell_range(cells, rel(inp.set_ptr.segment_index, (inp.set_ptr.offset + k) as usize), inp.elm_size)
        == cell_range(cells, inp.elm_ptr, inp.elm_size)
}

/// `k` is the first position (a multiple of the element size below `limit`)
/// that holds the element.
pub open spec fn first_match(cells: Cells, inp: SetAddInputs, limit: int, k: int) -> bool {
    &&& 0 <= k < limit
    &&& k % (inp.elm_size as int) == 0
    &&& element_at(cells, inp, k)
    &&& forall|j: int|
        0 <= j < k && j % (inp.elm_size as int) == 0 ==> !#[trigger] element_at(cells, inp, j)
}

/// No reading of cells overflows an offset, and the variables written have
/// addresses below the largest offset.
pub open spec fn set_add_fits(
    rc: crate::vm::RunContext,
    cells: Cells,
    ids: Seq<(Seq<char>, HintReferenceValue)>,
    ap: ApTracking,
) -> bool {
    &&& var_fits(rc, cells, ids, "set_ptr"@, ap)
    &&& spec_ptr_var(rc, cells, ids, "set_ptr"@, ap) is Ok ==> {
        &&& int_var_fits(rc, cells, ids, "elm_size"@, ap)
        &&& (spec_int_var(rc, cells, ids, "elm_size"@, ap) matches Ok(n) && 0 <= n && n <= usize::MAX)
            ==> {
            &&& var_fits(rc, cells, ids, "elm_ptr"@, ap)
            &&& spec_ptr_var(rc, cells, ids, "elm_ptr"@, ap) is Ok ==> var_fits(
                rc,
                cells,
                ids,
                "set_end_ptr"@,
                ap,
            )
        }
    }
    &&& spec_set_add_inputs(rc, cells, ids, ap) matches Ok(inp) ==> {
        &&& inp.elm_ptr.offset + inp.elm_size <= usize::MAX
        &&& spec_set_limit(inp) matches Ok(limit) ==> {
            &&& forall|k: int|
                #![trigger k % (inp.elm_size as int)]
                0 <= k < limit && k % (inp.elm_size as int) == 0 && (forall|j: int|
                    0 <= j < k && j % (inp.elm_size as int) == 0 ==> !#[trigger] element_at(
                        cells,
                        inp,
                        j,
                    )) ==> inp.set_ptr.offset + k + inp.elm_size <= usize::MAX
            &&& forall|k: int|
                #[trigger] first_match(cells, inp, limit as int, k) ==> {
                    &&& var_writable(rc, cells, ids, "index"@, ap)
                    &&& var_address(rc, cells, ids, "index"@, ap) matches Lookup::Found(a)
                        ==> var_writable(
                        rc,
                        with_cell(
                            cells,
                            a,
                            MaybeRelocatableValue::Int(k / (inp.elm_size as int)),
                        ),
                        ids,
                        "is_elm_in_set"@,
                        ap,
                    )
                }
            &&& (forall|k: int| !#[trigger] first_match(cells, inp, limit as int, k)) ==> var_writable(
                rc,
                cells,
                ids,
                "is_elm_in_set"@,
                ap,
            )
        }
    }
}

/// Compares two ranges of cells by value.
fn ranges_equal(a: &Vec<Option<MaybeRelocatable>>, b: &Vec<Option<MaybeRelocatable>>) -> (r: bool)
    ensures
        r == (a@.map_values(|c: Option<MaybeRelocatable>| cell_value(c)) == b@.map_values(
            |c: Option<MaybeRelocatable>| cell_value(c),
        )),
{
    let ghost va = a@.map_values(|c: Option<MaybeRelocatable>| cell_value(c));
    let ghost vb = b@.map_values(|c: Option<MaybeRelocatable>| cell_value(c));
    if a.len() != b.len() {
        assert(va.len() != vb.len());
        return false;
    }
    let mut i: usize = 0;
    while i < a.len()
        invariant
            i <= a@.len(),
            a@.len() == b@.len(),
            va == a@.map_values(|c: Option<MaybeRelocatable>| cell_value(c)),
            vb == b@.map_values(|c: Option<MaybeRelocatable>| cell_value(c)),
            forall|j: int| 0 <= j < i ==> va[j] == vb[j],
        decreases a@.len() - i,
    {
        let same = match (&a[i], &b[i]) {
            (Some(x), Some(y)) => x.equals(y),
            (None, None) => true,
            _ => false,
        };
        if !same {
            assert(va[i as int] != vb[i as int]);
            return false;
        }
        i = i + 1;
    }
    assert(va =~= vb);
    true
}

/// Looks for the element of `elm_size` cells at `elm_ptr` in the set that
/// runs from `set_ptr` to `set_end_ptr`, stepping by `elm_size`.  When it is
/// found at distance `k`, writes `k / elm_size` into `index` and 1 into
/// `is_elm_in_set`; otherwise writes 0 into `is_elm_in_set`.
pub fn set_add(
    vm: &mut VirtualMachine,
    ids_data: &Vec<(String, HintReference)>,
    ap_tracking: &ApTracking,
) -> (r: Result<(), VirtualMachineError>)
    requires
        set_add_fits(old(vm).run_context, cells_of(old(vm).memory@), ids_view(ids_data@), *ap_tracking),
    ensures
        final(vm).run_context == old(vm).run_context,
        final(vm).segments == old(vm).segments,
        final(vm).current_step == old(vm).current_step,
        final(vm).skip_instruction_execution == old(vm).skip_instruction_execution,
        final(vm).prime == old(vm).prime,
        ({
            let rc = old(vm).run_context;
            let cells = cells_of(old(vm).memory@);
            let ids = ids_view(ids_data@);
            match spec_set_add_inputs(rc, cells, ids, *ap_tracking) {
                Err(e) => r matches Err(x) && x@ == e && final(vm).memory == old(vm).memory,
                Ok(inp) => match spec_set_limit(inp) {
                    Err(e) => r matches Err(x) && x@ == e && final(vm).memory == old(vm).memory,
                    Ok(limit) => if exists|k: int| first_match(cells, inp, limit as int, k) {
                        let k = choose|k: int| first_match(cells, inp, limit as int, k);
                        exists|m1: crate::vm::Memory, r1: Result<(), VirtualMachineError>|
                            {
                                &&& #[trigger] var_write_outcome(
                                    rc,
                                    old(vm).memory,
                                    m1,
                                    ids,
                                    "index"@,
                                    *ap_tracking,
                                    MaybeRelocatableValue::Int(k / (inp.elm_size as int)),
                                    r1,
                                )
                                &&& r1 is Err ==> r == r1 && final(vm).memory == m1
                                &&& r1 is Ok ==> var_write_outcome(
                                    rc,
                                    m1,
                                    final(vm).memory,
                                    ids,
                                    "is_elm_in_set"@,
                                    *ap_tracking,
                                    MaybeRelocatableValue::Int(1),
                                    r,
                                )
                            }
                    } else {
                        var_write_outcome(
                            rc,
                            old(vm).memory,
                            final(vm).memory,
                            ids,
                            "is_elm_in_set"@,
                            *ap_tracking,
                            MaybeRelocatableValue::Int(0),
                            r,
                        )
                    },
                },
            }
        }),
{
    let ghost rc = vm.run_context;
    let ghost cells = cells_of(vm.memory@);
    let ghost ids = ids_view(ids_data@);
    let set_ptr = get_ptr_from_var_name("set_ptr", vm, ids_data, ap_tracking)?;
    let elm_size_big = get_integer_from_var_name("elm_size", vm, ids_data, ap_tracking)?;
    let elm_size = match elm_size_big.to_usize() {
        Some(n) => n,
        None => return Err(VirtualMachineError::BigintToUsizeFail),
    };
    let elm_ptr = get_ptr_from_var_name("elm_ptr", vm, ids_data, ap_tracking)?;
    let set_end_ptr = get_ptr_from_var_name("set_end_ptr", vm, ids_data, ap_tracking)?;
    if elm_size == 0 {
        return Err(VirtualMachineError::ValueNotPositive(BigInt::from_usize(elm_size)));
    }
    let ghost inp = SetAddInputs { set_ptr, elm_size: elm_size as nat, elm_ptr, set_end_ptr };
    assert(spec_set_add_inputs(rc, cells, ids, *ap_tracking) == Ok::<
        SetAddInputs,
        VirtualMachineErrorValue,
    >(inp));
    let elm = vm.memory.get_range(&elm_ptr, elm_size);
    assert(elm@.map_values(|c: Option<MaybeRelocatable>| cell_value(c)) =~= cell_range(
        cells,
        elm_ptr,
        elm_size as nat,
    ));
    if set_ptr.greater_than(&set_end_ptr) {
        return Err(
            VirtualMachineError::InvalidSetRange(
                MaybeRelocatable::RelocatableValue(set_ptr),
                MaybeRelocatable::RelocatableValue(set_end_ptr),
            ),
        );
    }
    let range_limit = set_end_ptr.sub_rel(&set_ptr)?;
    let ghost limit = range_limit as int;
    let n = elm_size;
    let mut i: usize = 0;
    while i < range_limit
        invariant
            vm.run_context == rc,
            vm.run_context == old(vm).run_context,
            vm.memory == old(vm).memory,
            vm.segments == old(vm).segments,
            vm.current_step == old(vm).current_step,
            vm.skip_instruction_execution == old(vm).skip_instruction_execution,
            vm.prime == old(vm).prime,
            cells == cells_of(vm.memory@),
            ids == ids_view(ids_data@),
            spec_set_add_inputs(rc, cells, ids, *ap_tracking) == Ok::<
                SetAddInputs,
                VirtualMachineErrorValue,
            >(inp),
            spec_set_limit(inp) == Ok::<usize, VirtualMachineErrorValue>(range_limit),
            set_add_fits(rc, cells, ids, *ap_tracking),
            inp.set_ptr == set_ptr,
            inp.elm_size == n,
            n == elm_size,
            limit == range_limit as int,
            n > 0,
            elm@.map_values(|c: Option<MaybeRelocatable>| cell_value(c)) == cell_range(
                cells,
                elm_ptr,
                n as nat,
            ),
            inp.elm_ptr == elm_ptr,
            i <= range_limit,
            i < range_limit ==> i % n == 0,
            forall|j: int| 0 <= j < i && j % (n as int) == 0 ==> !#[trigger] element_at(cells, inp, j),
        decreases range_limit - i,
    {
        assert(set_ptr.offset + i + n <= usize::MAX) by {
            assert((i as int) % (inp.elm_size as int) == 0);
        }
        let start = set_ptr.add_usize(i);
        assert(start.offset == set_ptr.offset + i);
        let set_iter = vm.memory.get_range(&start, elm_size);
        assert(set_iter@.map_values(|c: Option<MaybeRelocatable>| cell_value(c)) =~= cell_range(
            cells,
            start,
            n as nat,
        ));
        if ranges_equal(&set_iter, &elm) {
            assert(first_match(cells, inp, limit, i as int));
            let ghost m0 = vm.memory;
            proof {
                assert forall|k: int| #[trigger] first_match(cells, inp, limit, k) implies k == i as int by {
                    if k < i {
                        assert(!element_at(cells, inp, k));
                    } else if k > i {
                        assert(!element_at(cells, inp, i as int));
                    }
                }
                let kk = choose|k: int| first_match(cells, inp, limit, k);
                assert(kk == i as int);
            }
            let ghost idx_val = MaybeRelocatableValue::Int((i as int) / (n as int));
            let r1 = insert_value_from_var_name(
                "index",
                MaybeRelocatable::Int(BigInt::from_usize(i / elm_size)),
                vm,
                ids_data,
                ap_tracking,
            );
            let ghost m1 = vm.memory;
            assert(var_write_outcome(rc, m0, m1, ids, "index"@, *ap_tracking, idx_val, r1));
            if r1.is_err() {
                return r1;
            }
            proof {
                let a = var_address(rc, cells, ids, "index"@, *ap_tracking)->Found_0;
                assert(cells_of(m1@) =~= with_cell(cells, a, idx_val));
            }
            let r2 = insert_value_from_var_name(
                "is_elm_in_set",
                MaybeRelocatable::Int(BigInt::from_i128(1)),
                vm,
                ids_data,
                ap_tracking,
            );
            assert(var_write_outcome(
                rc,
                m1,
                vm.memory,
                ids,
                "is_elm_in_set"@,
                *ap_tracking,
                MaybeRelocatableValue::Int(1),
                r2,
            ));
            return r2;
        }
        if elm_size >= range_limit - i {
            proof {
                assert forall|j: int| 0 <= j < range_limit && j % (n as int) == 0 implies !#[trigger] element_at(
                    cells,
                    inp,
                    j,
                ) by {
                    if j > i {
                        vstd::arithmetic::div_mod::lemma_fundamental_div_mod(j, n as int);
                        vstd::arithmetic::div_mod::lemma_fundamental_div_mod(i as int, n as int);
                        assert(j >= i + n) by (nonlinear_arith)
                            requires
                                j == (n as int) * (j / (n as int)),
                                i == (n as int) * ((i as int) / (n as int)),
                                j > i,
                                n > 0,
                        ;
                    }
                }
            }
            i = range_limit;
        } else {
            proof {
                vstd::arithmetic::div_mod::lemma_mod_add_multiples_vanish(i as int, n as int);
                assert forall|j: int| 0 <= j < i + n && j % (n as int) == 0 implies !#[trigger] element_at(
                    cells,
                    inp,
                    j,
                ) by {
                    if j > i {
                        vstd::arithmetic::div_mod::lemma_fundamental_div_mod(j, n as int);
                        vstd::arithmetic::div_mod::lemma_fundamental_div_mod(i as int, n as int);
                        assert(j >= i + n) by (nonlinear_arith)
                            requires
                                j == (n as int) * (j / (n as int)),
                                i == (n as int) * ((i as int) / (n as int)),
                                j > i,
                                n > 0,
                        ;
                    }
                }
            }
            i = i + elm_size;
        }
    }
    proof {
        assert forall|k: int| !#[trigger] first_match(cells, inp, limit, k) by {
            if first_match(cells, inp, limit, k) {
                assert(!element_at(cells, inp, k));
            }
        }
    }
    insert_value_from_var_name(
        "is_elm_in_set",
        MaybeRelocatable::Int(BigInt::from_i128(0)),
        vm,
        ids_data,
        ap_tracking,
    )
}

} // verus!
