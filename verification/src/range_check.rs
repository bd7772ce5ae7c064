//! The range-check builtin runner: its segment, its stack pointers and the
//! bookkeeping of the cells and range-check units it uses.
use vstd::prelude::*;
use vstd::arithmetic::power::pow;
use crate::bigint::{BigInt, floor_mod};
use crate::errors::{MemoryError, RunnerError};
use crate::relocatable::{MaybeRelocatable, MaybeRelocatableValue, Relocatable, rel};
use crate::vm::{
    Memory, MemorySegmentManager, ValidationRule, VirtualMachine, cell_at, segment_value,
};

verus! {

/// Cells of memory taken by one range check.
pub const CELLS_PER_RANGE_CHECK: u32 = 1;

/// The range-check builtin runner.
pub struct RangeCheckBuiltinRunner {
    pub ratio: u32,
    pub base: isize,
    pub stop_ptr: Option<usize>,
    pub cells_per_instance: u32,
    pub n_input_cells: u32,
    pub inner_rc_bound: usize,
    pub _bound: BigInt,
    pub _included: bool,
    pub n_parts: u32,
    pub instances_per_component: u32,
}

/// `x / y` when `y` divides `x`.
pub open spec fn spec_safe_div(x: usize, y: usize) -> Option<usize> {
    if y == 0 || x % y != 0 {
        None
    } else {
        Some((x / y) as usize)
    }
}

/// Division of `x` by `y` that must be exact.
pub fn safe_div_usize(x: usize, y: usize) -> (r: Option<usize>)
    ensures
        r == spec_safe_div(x, y),
{
    if y == 0 || x % y != 0 {
        None
    } else {
        Some(x / y)
    }
}

/// The used size that the segment manager records for the runner's segment.
pub open spec fn spec_used_cells(base: isize, vm: &VirtualMachine) -> Result<usize, MemoryError> {
    if base < 0 {
        Err(MemoryError::AddressInTemporarySegment(base))
    } else {
        match vm.segments.segment_used_sizes {
            Some(v) => if base < v@.len() {
                Ok(v@[base as int])
            } else {
                Err(MemoryError::MissingSegmentUsedSizes)
            },
            None => Err(MemoryError::MissingSegmentUsedSizes),
        }
    }
}

/// The low part of a range-checked cell, `None` for an unknown cell or an
/// address.
pub open spec fn part_of(c: Option<MaybeRelocatableValue>, bound: int) -> Option<int> {
    match c {
        Some(MaybeRelocatableValue::Int(v)) => Some(floor_mod(v, bound)),
        _ => None,
    }
}

/// The low part of cell `i` of a segment.
pub open spec fn part_at(seg: Seq<Option<MaybeRelocatableValue>>, i: int, b: int) -> int {
    part_of(seg[i], b)->0
}

/// Every cell of the segment is a known integer.
pub open spec fn all_parts_known(seg: Seq<Option<MaybeRelocatableValue>>, bound: int) -> bool {
    forall|i: int| 0 <= i < seg.len() ==> #[trigger] part_of(seg[i], bound) is Some
}

impl RangeCheckBuiltinRunner {
    /// A runner for `n_parts` parts of 16 bits each.
    pub fn new(ratio: u32, n_parts: u32, included: bool) -> (r: RangeCheckBuiltinRunner)
        ensures
            r.ratio == ratio,
            r.base == 0,
            r.stop_ptr is None,
            r.cells_per_instance == CELLS_PER_RANGE_CHECK,
            r.n_input_cells == CELLS_PER_RANGE_CHECK,
            r.inner_rc_bound == 65536,
            r._bound@ == pow(65536, n_parts as nat),
            r._included == included,
            r.n_parts == n_parts,
            r.instances_per_component == 1,
    {
        let inner_rc_bound: usize = 1usize << 16u32;
        assert(inner_rc_bound == 65536) by (bit_vector)
            requires
                inner_rc_bound == 1usize << 16u32,
        ;
        RangeCheckBuiltinRunner {
            ratio,
            base: 0,
            stop_ptr: None,
            cells_per_instance: CELLS_PER_RANGE_CHECK,
            n_input_cells: CELLS_PER_RANGE_CHECK,
            inner_rc_bound,
            _bound: BigInt::from_usize(inner_rc_bound).power(n_parts),
            _included: included,
            n_parts,
            instances_per_component: 1,
        }
    }

    /// Adds the runner's segment and records its index as the base.
    pub fn initialize_segments(&mut self, segments: &mut MemorySegmentManager, memory: &mut Memory)
        requires
            old(segments).num_segments < isize::MAX,
        ensures
            final(self).base == old(segments).num_segments,
            final(self).ratio == old(self).ratio,
            final(self).stop_ptr == old(self).stop_ptr,
            final(self)._included == old(self)._included,
            final(self).n_parts == old(self).n_parts,
            final(segments).num_segments == old(segments).num_segments + 1,
            final(segments).segment_used_sizes == old(segments).segment_used_sizes,
            final(memory)@ == old(memory)@.push(Seq::<Option<MaybeRelocatableValue>>::empty()),
            final(memory).validation_rules == old(memory).validation_rules,
    {
        self.base = segments.add(memory).segment_index;
    }

    /// The start of the segment when the builtin is included, nothing otherwise.
    pub fn initial_stack(&self) -> (r: Vec<MaybeRelocatable>)
        ensures
            self._included ==> r@.len() == 1 && r@[0]@ == MaybeRelocatableValue::RelocatableValue(
                rel(self.base, 0),
            ),
            !self._included ==> r@.len() == 0,
    {
        let mut v: Vec<MaybeRelocatable> = Vec::new();
        if self._included {
            v.push(MaybeRelocatable::RelocatableValue(Relocatable { segment_index: self.base, offset: 0 }));
        }
        v
    }

    pub fn base(&self) -> (r: isize)
        ensures
            r == self.base,
    {
        self.base
    }

    pub fn ratio(&self) -> (r: u32)
        ensures
            r == self.ratio,
    {
        self.ratio
    }

    /// Makes every value written to the runner's segment be checked to be an
    /// integer in `[0, 2^128)`.
    pub fn add_validation_rule(&self, memory: &mut Memory) -> (r: Result<(), RunnerError>)
        ensures
            self.base < 0 ==> r == Err::<(), RunnerError>(RunnerError::RunnerInTemporarySegment(self.base))
                && *final(memory) == *old(memory),
            self.base >= 0 ==> r is Ok && final(memory)@ == old(memory)@
                && final(memory).validation_rules@ == seq![(self.base as usize, ValidationRule::RangeCheck)]
                + old(memory).validation_rules@,
    {
        if self.base < 0 {
            return Err(RunnerError::RunnerInTemporarySegment(self.base));
        }
        memory.add_validation_rule(self.base as usize, ValidationRule::RangeCheck);
        Ok(())
    }

    /// The runner deduces no cell.
    pub fn deduce_memory_cell(&mut self, _address: &Relocatable, _memory: &Memory) -> (r: Result<
        Option<MaybeRelocatable>,
        RunnerError,
    >)
        ensures
            r == Ok::<Option<MaybeRelocatable>, RunnerError>(None),
            *final(self) == *old(self),
    {
        Ok(None)
    }

    /// Cells allocated to the runner: its cells per instance times the
    /// number of steps per ratio, which must be exact.
    pub fn get_allocated_memory_units(&self, vm: &VirtualMachine) -> (r: Result<usize, MemoryError>)
        requires
            spec_safe_div(vm.current_step, self.ratio as usize) matches Some(q) ==> self.cells_per_instance
                * q <= usize::MAX,
        ensures
            r == (match spec_safe_div(vm.current_step, self.ratio as usize) {
                Some(q) => Ok::<usize, MemoryError>((self.cells_per_instance * q) as usize),
                None => Err::<usize, MemoryError>(MemoryError::ErrorCalculatingMemoryUnits),
            }),
    {
        let value = match safe_div_usize(vm.current_step, self.ratio as usize) {
            Some(v) => v,
            None => return Err(MemoryError::ErrorCalculatingMemoryUnits),
        };
        Ok(self.cells_per_instance as usize * value)
    }

    /// The name of the builtin with its base and stop pointer.
    pub fn get_memory_segment_addresses(&self) -> (r: (&'static str, (isize, Option<usize>)))
        ensures
            r.0@ == "range_check"@,
            r.1 == (self.base, self.stop_ptr),
    {
        ("range_check", (self.base, self.stop_ptr))
    }

    /// The used size of the runner's segment.
    pub fn get_used_cells(&self, vm: &VirtualMachine) -> (r: Result<usize, MemoryError>)
        ensures
            r == spec_used_cells(self.base, vm),
    {
        let base = self.base();
        if base < 0 {
            return Err(MemoryError::AddressInTemporarySegment(base));
        }
        match vm.segments.get_segment_used_size(base as usize) {
            Some(s) => Ok(s),
            None => Err(MemoryError::MissingSegmentUsedSizes),
        }
    }

    /// The used cells, and the cells allocated for the steps run so far.
    pub fn get_used_cells_and_allocated_size(&self, vm: &VirtualMachine) -> (r: Result<
        (usize, usize),
        MemoryError,
    >)
        requires
            self.ratio * self.instances_per_component <= usize::MAX,
            spec_safe_div(vm.current_step, self.ratio as usize) matches Some(q) ==> self.cells_per_instance
                * q <= usize::MAX,
        ensures
            r == (if vm.current_step < self.ratio * self.instances_per_component {
                Err::<(usize, usize), MemoryError>(MemoryError::InsufficientAllocatedCells)
            } else {
                match spec_used_cells(self.base, vm) {
                    Err(e) => Err::<(usize, usize), MemoryError>(e),
                    Ok(used) => match spec_safe_div(vm.current_step, self.ratio as usize) {
                        Some(q) => Ok::<(usize, usize), MemoryError>(
                            (used, (self.cells_per_instance * q) as usize),
                        ),
                        None => Err::<(usize, usize), MemoryError>(
                            MemoryError::InsufficientAllocatedCells,
                        ),
                    },
                }
            }),
    {
        let ratio = self.ratio as usize;
        let cells_per_instance = self.cells_per_instance;
        let min_step = ratio * self.instances_per_component as usize;
        if vm.current_step < min_step {
            Err(MemoryError::InsufficientAllocatedCells)
        } else {
            let used = self.get_used_cells(vm)?;
            let q = match safe_div_usize(vm.current_step, ratio) {
                Some(q) => q,
                None => return Err(MemoryError::InsufficientAllocatedCells),
            };
            let size = cells_per_instance as usize * q;
            Ok((used, size))
        }
    }

    /// The least and greatest low parts (the values modulo the inner bound)
    /// of the cells of the runner's segment; `None` when the segment does not
    /// exist, is empty, has an unknown or non-integer cell, or when there
    /// are no parts.
    pub fn get_range_check_usage(&self, memory: &Memory) -> (r: Option<(usize, usize)>)
        requires
            self.inner_rc_bound > 0,
        ensures
            ({
                let b = self.inner_rc_bound as int;
                if self.base < 0 || self.base >= memory@.len() || self.n_parts == 0 {
                    r is None
                } else {
                    let seg = memory@[self.base as int];
                    if seg.len() == 0 || !all_parts_known(seg, b) {
                        r is None
                    } else {
                        r matches Some((lo, hi)) && (forall|i: int|
                            0 <= i < seg.len() ==> lo <= #[trigger] part_at(seg, i, b) <= hi)
                            && (exists|i: int| 0 <= i < seg.len() && #[trigger] part_at(seg, i, b) == lo)
                            && (exists|i: int| 0 <= i < seg.len() && #[trigger] part_at(seg, i, b) == hi)
                    }
                }
            }),
    {
        if self.base < 0 || self.base as usize >= memory.data.len() {
            return None;
        }
        let seg_index = self.base as usize;
        let ghost b = self.inner_rc_bound as int;
        let ghost seg = memory@[seg_index as int];
        let range_check_segment = &memory.data[seg_index];
        assert(seg == segment_value(range_check_segment@));
        let inner_rc_bound = BigInt::from_usize(self.inner_rc_bound);
        let mut rc_bounds: Option<(usize, usize)> = None;
        let mut i: usize = 0;
        while i < range_check_segment.len()
            invariant
                i <= range_check_segment@.len(),
                seg == segment_value(range_check_segment@),
                0 <= self.base < memory@.len(),
                seg == memory@[self.base as int],
                b == self.inner_rc_bound as int,
                inner_rc_bound@ == b,
                b > 0,
                b <= usize::MAX,
                self.n_parts == 0 ==> rc_bounds is None,
                self.n_parts > 0 ==> {
                    &&& forall|j: int| 0 <= j < i ==> #[trigger] part_of(seg[j], b) is Some
                    &&& (i == 0 <==> rc_bounds is None)
                    &&& rc_bounds matches Some((lo, hi)) ==> {
                        &&& forall|j: int| 0 <= j < i ==> lo <= #[trigger] part_at(seg, j, b) <= hi
                        &&& exists|j: int| 0 <= j < i && #[trigger] part_at(seg, j, b) == lo
                        &&& exists|j: int| 0 <= j < i && #[trigger] part_at(seg, j, b) == hi
                    }
                },
            decreases range_check_segment@.len() - i,
        {
            let mut p: u32 = 0;
            while p < self.n_parts
                invariant
                    p <= self.n_parts,
                    i < range_check_segment@.len(),
                    seg == segment_value(range_check_segment@),
                    0 <= self.base < memory@.len(),
                    seg == memory@[self.base as int],
                    b == self.inner_rc_bound as int,
                    inner_rc_bound@ == b,
                    b > 0,
                    b <= usize::MAX,
                    p > 0 ==> part_of(seg[i as int], b) is Some,
                    self.n_parts == 0 ==> rc_bounds is None,
                    self.n_parts > 0 && p == 0 ==> {
                        &&& forall|j: int| 0 <= j < i ==> #[trigger] part_of(seg[j], b) is Some
                        &&& (i == 0 <==> rc_bounds is None)
                        &&& rc_bounds matches Some((lo, hi)) ==> {
                            &&& forall|j: int| 0 <= j < i ==> lo <= #[trigger] part_at(seg, j, b) <= hi
                            &&& exists|j: int| 0 <= j < i && #[trigger] part_at(seg, j, b) == lo
                            &&& exists|j: int| 0 <= j < i && #[trigger] part_at(seg, j, b) == hi
                        }
                    },
                    p > 0 ==> {
                        &&& forall|j: int| 0 <= j <= i ==> #[trigger] part_of(seg[j], b) is Some
                        &&& rc_bounds matches Some((lo, hi)) && {
                            &&& forall|j: int| 0 <= j <= i ==> lo <= #[trigger] part_at(seg, j, b) <= hi
                            &&& exists|j: int| 0 <= j <= i && #[trigger] part_at(seg, j, b) == lo
                            &&& exists|j: int| 0 <= j <= i && #[trigger] part_at(seg, j, b) == hi
                        }
                    },
                decreases self.n_parts - p,
            {
                assert(seg[i as int] == crate::vm::cell_value(range_check_segment@[i as int]));
                let part_val: usize = match &range_check_segment[i] {
                    Some(MaybeRelocatable::Int(num)) => {
                        let m = num.mod_floor(&inner_rc_bound);
                        proof {
                            let v = num@;
                            assert(0 <= v % b < b) by (nonlinear_arith)
                                requires
                                    b > 0,
                            ;
                        }
                        match m.to_usize() {
                            Some(v) => v,
                            None => return None,
                        }
                    },
                    _ => {
                        assert(part_of(seg[i as int], b) is None);
                        assert(!all_parts_known(seg, b));
                        return None;
                    },
                };
                assert(part_of(seg[i as int], b) == Some(part_val as int));
                assert(part_at(seg, i as int, b) == part_val);
                rc_bounds = Some(
                    match rc_bounds {
                        None => (part_val, part_val),
                        Some((rc_min, rc_max)) => {
                            let rc_min = if part_val < rc_min {
                                part_val
                            } else {
                                rc_min
                            };
                            let rc_max = if part_val > rc_max {
                                part_val
                            } else {
                                rc_max
                            };
                            (rc_min, rc_max)
                        },
                    },
                );
                p = p + 1;
            }
            i = i + 1;
        }
        rc_bounds
    }

    /// The number of used instances: the used cells of the segment.
    pub fn get_used_instances(&self, vm: &VirtualMachine) -> (r: Result<usize, MemoryError>)
        ensures
            r == spec_used_cells(self.base, vm),
    {
        self.get_used_cells(vm)
    }

    /// Checks the stop pointer that the program left on its stack and returns
    /// the pointer below it; a runner that is not included keeps the
    /// pointer and records its base as stop pointer.
    pub fn final_stack(&mut self, vm: &VirtualMachine, pointer: Relocatable) -> (r: Result<
        Relocatable,
        RunnerError,
    >)
        requires
            final_stack_fits(*old(self), vm, pointer),
        ensures
            final_stack_outcome(*old(self), *final(self), vm, pointer, r),
    {
        if self._included {
            let prev = match pointer.sub(1) {
                Ok(p) => p,
                Err(_) => return Err(RunnerError::FinalStack),
            };
            if let Ok(stop_pointer) = vm.get_relocatable(&prev) {
                self.stop_ptr = Some(stop_pointer.offset);
                let num_instances = match self.get_used_instances(vm) {
                    Ok(n) => n,
                    Err(_) => return Err(RunnerError::FinalStack),
                };
                let used_cells = num_instances * self.cells_per_instance as usize;
                if stop_pointer.offset != self.base as usize + used_cells {
                    return Err(RunnerError::InvalidStopPointer("range_check".to_owned()));
                }
                Ok(prev)
            } else {
                Err(RunnerError::FinalStack)
            }
        } else {
            self.stop_ptr = Some(self.base as usize);
            Ok(pointer)
        }
    }

    /// The range-check units used: the used cells times the number of parts.
    pub fn get_used_perm_range_check_units(&self, vm: &VirtualMachine) -> (r: Result<usize, MemoryError>)
        requires
            self.ratio * self.instances_per_component <= usize::MAX,
            spec_safe_div(vm.current_step, self.ratio as usize) matches Some(q) ==> self.cells_per_instance
                * q <= usize::MAX,
            spec_used_cells(self.base, vm) matches Ok(u) ==> u * self.n_parts <= usize::MAX,
        ensures
            r == (if vm.current_step < self.ratio * self.instances_per_component {
                Err::<usize, MemoryError>(MemoryError::InsufficientAllocatedCells)
            } else {
                match spec_used_cells(self.base, vm) {
                    Err(e) => Err::<usize, MemoryError>(e),
                    Ok(used) => match spec_safe_div(vm.current_step, self.ratio as usize) {
                        Some(q) => Ok::<usize, MemoryError>((used * self.n_parts) as usize),
                        None => Err::<usize, MemoryError>(MemoryError::InsufficientAllocatedCells),
                    },
                }
            }),
    {
        let (used_cells, _) = self.get_used_cells_and_allocated_size(vm)?;
        Ok(used_cells * self.n_parts as usize)
    }
}

/// The stop pointer that the cell below `pointer` holds, if any.
pub open spec fn stop_pointer_below(vm: &VirtualMachine, pointer: Relocatable) -> Option<Relocatable> {
    if pointer.offset < 1 {
        None
    } else {
        match cell_at(vm.memory@, rel(pointer.segment_index, (pointer.offset - 1) as usize)) {
            Some(MaybeRelocatableValue::RelocatableValue(x)) => Some(x),
            _ => None,
        }
    }
}

/// `final_stack` computes the used cells and the expected stop pointer
/// without overflow.
pub open spec fn final_stack_fits(runner: RangeCheckBuiltinRunner, vm: &VirtualMachine, pointer: Relocatable) -> bool {
    runner._included && stop_pointer_below(vm, pointer) is Some ==> match spec_used_cells(
        runner.base,
        vm,
    ) {
        Ok(n) => n * runner.cells_per_instance <= usize::MAX && (runner.base as usize) + n
            * runner.cells_per_instance <= usize::MAX,
        Err(_) => true,
    }
}

/// What `final_stack` returns and records.
pub open spec fn final_stack_outcome(
    before: RangeCheckBuiltinRunner,
    after: RangeCheckBuiltinRunner,
    vm: &VirtualMachine,
    pointer: Relocatable,
    r: Result<Relocatable, RunnerError>,
) -> bool {
    &&& after.ratio == before.ratio
    &&& after.base == before.base
    &&& after.cells_per_instance == before.cells_per_instance
    &&& after.n_input_cells == before.n_input_cells
    &&& after.inner_rc_bound == before.inner_rc_bound
    &&& after._bound == before._bound
    &&& after._included == before._included
    &&& after.n_parts == before.n_parts
    &&& after.instances_per_component == before.instances_per_component
    &&& if before._included {
        match stop_pointer_below(vm, pointer) {
            None => r == Err::<Relocatable, RunnerError>(RunnerError::FinalStack) && after.stop_ptr
                == before.stop_ptr,
            Some(stop) => {
                &&& after.stop_ptr == Some(stop.offset)
                &&& match spec_used_cells(before.base, vm) {
                    Err(_) => r == Err::<Relocatable, RunnerError>(RunnerError::FinalStack),
                    Ok(n) => if stop.offset != (before.base as usize) + n * before.cells_per_instance {
                        r matches Err(RunnerError::InvalidStopPointer(s)) && s@ == "range_check"@
                    } else {
                        r == Ok::<Relocatable, RunnerError>(
                            rel(pointer.segment_index, (pointer.offset - 1) as usize),
                        )
                    },
                }
            },
        }
    } else {
        r == Ok::<Relocatable, RunnerError>(pointer) && after.stop_ptr == Some(before.base as usize)
    }
}

} // verus!
