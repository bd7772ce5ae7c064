//! The state of the virtual machine that hints and builtin runners read and
//! write: segmented memory, segment bookkeeping and the run context.
use vstd::prelude::*;
use crate::bigint::BigInt;
use crate::errors::{MemoryError, VirtualMachineError, VirtualMachineErrorValue};
use crate::relocatable::{MaybeRelocatable, MaybeRelocatableValue, Relocatable, rel};

verus! {

/// A check that every value written to a segment must pass.
#[derive(Clone, Copy, Debug, PartialEq, Eq, Structural)]
pub enum ValidationRule {
    /// The value must be an integer in `[0, 2^128)`.
    RangeCheck,
}

/// What the memory cells of the machine hold, segment by segment.
pub type MemoryValue = Seq<Seq<Option<MaybeRelocatableValue>>>;

/// Segmented memory.  Segment `i` is `data[i]`; a missing or `None` cell is
/// unknown.  Segments with a negative index hold no cells here.
pub struct Memory {
    pub data: Vec<Vec<Option<MaybeRelocatable>>>,
    pub validation_rules: Vec<(usize, ValidationRule)>,
}

pub open spec fn cell_value(c: Option<MaybeRelocatable>) -> Option<MaybeRelocatableValue> {
    match c {
        Some(v) => Some(v@),
        None => None,
    }
}

pub open spec fn segment_value(s: Seq<Option<MaybeRelocatable>>) -> Seq<Option<MaybeRelocatableValue>> {
    s.map_values(|c: Option<MaybeRelocatable>| cell_value(c))
}

/// The cell at `a`, `None` when unknown.
pub open spec fn cell_at(m: MemoryValue, a: Relocatable) -> Option<MaybeRelocatableValue> {
    if 0 <= a.segment_index < m.len() && a.offset < m[a.segment_index as int].len() {
        m[a.segment_index as int][a.offset as int]
    } else {
        None
    }
}

/// The `size` cells from `a` on.
pub open spec fn range_at(m: MemoryValue, a: Relocatable, size: nat) -> Seq<Option<MaybeRelocatableValue>> {
    Seq::new(size, |i: int| cell_at(m, rel(a.segment_index, (a.offset + i) as usize)))
}

/// Whether `v` passes `rule`.
pub open spec fn passes_rule(rule: ValidationRule, v: MaybeRelocatableValue) -> bool {
    match rule {
        ValidationRule::RangeCheck => v matches MaybeRelocatableValue::Int(n) && 0 <= n
            < vstd::arithmetic::power2::pow2(128),
    }
}

/// The rule of segment `seg`: the first one registered for it.
pub open spec fn rule_of(rules: Seq<(usize, ValidationRule)>, seg: int) -> Option<ValidationRule>
    decreases rules.len(),
{
    if rules.len() == 0 {
        None
    } else if rules[0].0 == seg {
        Some(rules[0].1)
    } else {
        rule_of(rules.drop_first(), seg)
    }
}

/// What writing `val` at `key` does: the segment must exist; a known cell
/// may only be written with an equal value; the value must then pass the
/// rule of the segment, if there is one (the cell is written before the
/// check, so a failing value stays written).
pub open spec fn insert_outcome(
    before: Memory,
    after: Memory,
    key: Relocatable,
    val: MaybeRelocatableValue,
    r: Result<(), MemoryError>,
) -> bool {
    &&& after.validation_rules == before.validation_rules
    &&& !(0 <= key.segment_index < before@.len()) ==> r == Err::<(), MemoryError>(
        MemoryError::UnallocatedSegment(key.segment_index, before@.len() as usize),
    ) && after@ == before@
    &&& 0 <= key.segment_index < before@.len() ==> {
        let old_cell = cell_at(before@, key);
        if old_cell is Some && old_cell->0 != val {
            r matches Err(e) && e@ == crate::errors::MemoryErrorValue::InconsistentMemory(
                MaybeRelocatableValue::RelocatableValue(key),
                old_cell->0,
                val,
            ) && after@ == before@
        } else {
            &&& cell_at(after@, key) == Some(val)
            &&& forall|a: Relocatable| a != key ==> #[trigger] cell_at(after@, a) == cell_at(before@, a)
            &&& after@.len() == before@.len()
            &&& after@[key.segment_index as int].len() == (if key.offset + 1 > before@[key.segment_index as int].len() {
                key.offset + 1
            } else {
                before@[key.segment_index as int].len() as int
            })
            &&& forall|s: int|
                0 <= s < before@.len() && s != key.segment_index ==> #[trigger] after@[s].len()
                    == before@[s].len()
            &&& match rule_of(before.validation_rules@, key.segment_index as int) {
                Some(rule) => if passes_rule(rule, val) {
                    r is Ok
                } else {
                    r == Err::<(), MemoryError>(
                        if val is Int {
                            MemoryError::NumOutOfBounds
                        } else {
                            MemoryError::FoundNonInt
                        },
                    )
                },
                None => r is Ok,
            }
        }
    }
}

impl Memory {
    pub open spec fn view(&self) -> MemoryValue {
        self.data@.map_values(|s: Vec<Option<MaybeRelocatable>>| segment_value(s@))
    }

    /// A memory with no segment.
    pub fn new() -> (r: Memory)
        ensures
            r@ == Seq::<Seq<Option<MaybeRelocatableValue>>>::empty(),
            r.validation_rules@ == Seq::<(usize, ValidationRule)>::empty(),
    {
        let r = Memory { data: Vec::new(), validation_rules: Vec::new() };
        assert(r@ =~= Seq::<Seq<Option<MaybeRelocatableValue>>>::empty());
        r
    }

    /// Adds an empty segment and returns its index.
    pub fn add_segment(&mut self) -> (r: usize)
        ensures
            r == old(self)@.len(),
            final(self)@ == old(self)@.push(Seq::<Option<MaybeRelocatableValue>>::empty()),
            final(self).validation_rules == old(self).validation_rules,
    {
        let r = self.data.len();
        self.data.push(Vec::new());
        assert(self@ =~= old(self)@.push(Seq::<Option<MaybeRelocatableValue>>::empty())) by {
            assert(segment_value(Seq::<Option<MaybeRelocatable>>::empty()) =~= Seq::<
                Option<MaybeRelocatableValue>,
            >::empty());
        }
        r
    }

    /// The cell at `addr`, `None` when unknown.
    pub fn get(&self, addr: &Relocatable) -> (r: Option<MaybeRelocatable>)
        ensures
            cell_value(r) == cell_at(self@, *addr),
    {
        if addr.segment_index < 0 {
            return None;
        }
        let seg = addr.segment_index as usize;
        if seg >= self.data.len() {
            return None;
        }
        if addr.offset >= self.data[seg].len() {
            return None;
        }
        match &self.data[seg][addr.offset] {
            Some(v) => Some(v.duplicate()),
            None => None,
        }
    }

    /// The `size` cells from `addr` on.
    pub fn get_range(&self, addr: &Relocatable, size: usize) -> (r: Vec<Option<MaybeRelocatable>>)
        requires
            addr.offset + size <= usize::MAX,
        ensures
            r@.map_values(|c: Option<MaybeRelocatable>| cell_value(c)) == range_at(
                self@,
                *addr,
                size as nat,
            ),
    {
        let mut r: Vec<Option<MaybeRelocatable>> = Vec::new();
        let mut i: usize = 0;
        while i < size
            invariant
                i <= size,
                addr.offset + size <= usize::MAX,
                r@.len() == i,
                forall|j: int|
                    0 <= j < i ==> cell_value(#[trigger] r@[j]) == cell_at(
                        self@,
                        rel(addr.segment_index, (addr.offset + j) as usize),
                    ),
            decreases size - i,
        {
            let a = Relocatable { segment_index: addr.segment_index, offset: addr.offset + i };
            r.push(self.get(&a));
            i = i + 1;
        }
        assert(r@.map_values(|c: Option<MaybeRelocatable>| cell_value(c)) =~= range_at(
            self@,
            *addr,
            size as nat,
        ));
        r
    }

    /// The rule registered for a segment, if any.
    pub fn rule_for(&self, seg: usize) -> (r: Option<ValidationRule>)
        ensures
            r == rule_of(self.validation_rules@, seg as int),
    {
        let mut i: usize = 0;
        assert(self.validation_rules@.skip(0) =~= self.validation_rules@);
        while i < self.validation_rules.len()
            invariant
                i <= self.validation_rules@.len(),
                rule_of(self.validation_rules@, seg as int) == rule_of(
                    self.validation_rules@.skip(i as int),
                    seg as int,
                ),
            decreases self.validation_rules@.len() - i,
        {
            proof {
                let s = self.validation_rules@.skip(i as int);
                assert(s.drop_first() =~= self.validation_rules@.skip(i + 1));
            }
            if self.validation_rules[i].0 == seg {
                return Some(self.validation_rules[i].1);
            }
            i = i + 1;
        }
        None
    }

    /// Registers a rule that every value written to segment `seg` must pass.
    pub fn add_validation_rule(&mut self, seg: usize, rule: ValidationRule)
        ensures
            final(self)@ == old(self)@,
            final(self).validation_rules@ == seq![(seg, rule)] + old(self).validation_rules@,
    {
        let mut rules: Vec<(usize, ValidationRule)> = Vec::new();
        rules.push((seg, rule));
        let mut i: usize = 0;
        while i < self.validation_rules.len()
            invariant
                i <= self.validation_rules@.len(),
                rules@ == seq![(seg, rule)] + self.validation_rules@.subrange(0, i as int),
            decreases self.validation_rules@.len() - i,
        {
            rules.push(self.validation_rules[i]);
            i = i + 1;
        }
        assert(self.validation_rules@.subrange(0, self.validation_rules@.len() as int)
            =~= self.validation_rules@);
        self.validation_rules = rules;
    }

    /// Writes `val` at `key`.  The segment must exist; a known cell may only
    /// be written with an equal value; the value must pass the rule of the
    /// segment, if there is one (the cell is written before the check).
    pub fn insert(&mut self, key: &Relocatable, val: &MaybeRelocatable) -> (r: Result<(), MemoryError>)
        requires
            key.offset < usize::MAX,
        ensures
            insert_outcome(*old(self), *final(self), *key, val@, r),
    {
        if key.segment_index < 0 || key.segment_index as usize >= self.data.len() {
            return Err(MemoryError::UnallocatedSegment(key.segment_index, self.data.len()));
        }
        let seg = key.segment_index as usize;
        let off = key.offset;
        let ghost before = self@;
        if off < self.data[seg].len() {
            match &self.data[seg][off] {
                Some(current) => {
                    if !current.equals(val) {
                        return Err(
                            MemoryError::InconsistentMemory(
                                MaybeRelocatable::RelocatableValue(*key),
                                current.duplicate(),
                                val.duplicate(),
                            ),
                        );
                    }
                },
                None => {},
            }
        }
        let mut segment: Vec<Option<MaybeRelocatable>> = Vec::new();
        std::mem::swap(&mut segment, &mut self.data[seg]);
        let ghost old_segment = segment@;
        assert(segment_value(old_segment) == before[seg as int]);
        while segment.len() <= off
            invariant
                off < usize::MAX,
                segment@.len() >= old_segment.len(),
                segment@.len() == old_segment.len() || segment@.len() <= off + 1,
                forall|j: int| 0 <= j < old_segment.len() ==> segment@[j] == old_segment[j],
                forall|j: int| old_segment.len() <= j < segment@.len() ==> segment@[j] is None,
            decreases off + 1 - segment@.len(),
        {
            segment.push(None);
        }
        segment.set(off, Some(val.duplicate()));
        self.data.set(seg, segment);
        proof {
            assert forall|a: Relocatable| a != *key implies #[trigger] cell_at(self@, a) == cell_at(
                before,
                a,
            ) by {
                if a.segment_index == key.segment_index && 0 <= a.segment_index {
                    let s = a.segment_index as int;
                    if a.offset < old_segment.len() {
                        assert(self@[s][a.offset as int] == before[s][a.offset as int]);
                    }
                }
            }
            assert(cell_at(self@, *key) == Some(val@));
            assert(self@[seg as int].len() == segment@.len());
            assert forall|s: int|
                0 <= s < before.len() && s != seg ==> #[trigger] self@[s].len() == before[s].len() by {
            }
        }
        match self.rule_for(seg) {
            Some(rule) => check_rule(rule, val),
            None => Ok(()),
        }
    }
}

/// Cells are written once: whatever an insert returns, a cell that held a value
/// holds the same value afterwards, and after a successful insert the address
/// written holds the value given.
pub proof fn lemma_cells_written_once(
    before: Memory,
    after: Memory,
    key: Relocatable,
    val: MaybeRelocatableValue,
    r: Result<(), MemoryError>,
    a: Relocatable,
)
    requires
        insert_outcome(before, after, key, val, r),
    ensures
        cell_at(before@, a) is Some ==> cell_at(after@, a) == cell_at(before@, a),
        r is Ok ==> cell_at(after@, key) == Some(val),
{
}

/// Runs a validation rule on a written value.
pub fn check_rule(rule: ValidationRule, val: &MaybeRelocatable) -> (r: Result<(), MemoryError>)
    ensures
        if passes_rule(rule, val@) {
            r is Ok
        } else {
            r == Err::<(), MemoryError>(
                if val@ is Int {
                    MemoryError::NumOutOfBounds
                } else {
                    MemoryError::FoundNonInt
                },
            )
        },
{
    match rule {
        ValidationRule::RangeCheck => match val {
            MaybeRelocatable::Int(num) => {
                let bound = BigInt::from_i128(1).shift_left(128);
                if !num.is_negative() && num.less_than(&bound) {
                    proof {
                        assert(bound@ == vstd::arithmetic::power2::pow2(128));
                    }
                    Ok(())
                } else {
                    Err(MemoryError::NumOutOfBounds)
                }
            },
            _ => Err(MemoryError::FoundNonInt),
        },
    }
}

/// Bookkeeping of the segments in use.
pub struct MemorySegmentManager {
    pub num_segments: usize,
    pub segment_used_sizes: Option<Vec<usize>>,
}

impl MemorySegmentManager {
    pub fn new() -> (r: MemorySegmentManager)
        ensures
            r.num_segments == 0,
            r.segment_used_sizes is None,
    {
        MemorySegmentManager { num_segments: 0, segment_used_sizes: None }
    }

    /// Adds a segment to `memory` and returns its first address.
    pub fn add(&mut self, memory: &mut Memory) -> (r: Relocatable)
        requires
            old(self).num_segments < isize::MAX,
        ensures
            r == rel(old(self).num_segments as isize, 0),
            final(self).num_segments == old(self).num_segments + 1,
            final(self).segment_used_sizes == old(self).segment_used_sizes,
            final(memory)@ == old(memory)@.push(Seq::<Option<MaybeRelocatableValue>>::empty()),
            final(memory).validation_rules == old(memory).validation_rules,
    {
        let segment_index = self.num_segments;
        self.num_segments = self.num_segments + 1;
        memory.add_segment();
        Relocatable { segment_index: segment_index as isize, offset: 0 }
    }

    /// The used size of segment `index`, if sizes were computed and the
    /// segment has one.
    pub fn get_segment_used_size(&self, index: usize) -> (r: Option<usize>)
        ensures
            r == (match self.segment_used_sizes {
                Some(v) => if index < v@.len() {
                    Some(v@[index as int])
                } else {
                    None::<usize>
                },
                None => None::<usize>,
            }),
    {
        match &self.segment_used_sizes {
            Some(v) => if index < v.len() {
                Some(v[index])
            } else {
                None
            },
            None => None,
        }
    }
}

/// The registers of the machine; `ap` and `fp` point into the execution
/// segment, whose index is 1.
#[derive(Clone, Copy, Debug, PartialEq, Eq, Structural)]
pub struct RunContext {
    pub pc: Relocatable,
    pub ap: usize,
    pub fp: usize,
}

impl RunContext {
    pub open spec fn spec_ap(&self) -> Relocatable {
        rel(1, self.ap)
    }

    pub open spec fn spec_fp(&self) -> Relocatable {
        rel(1, self.fp)
    }
}

/// The state of the virtual machine.
pub struct VirtualMachine {
    pub run_context: RunContext,
    pub memory: Memory,
    pub segments: MemorySegmentManager,
    pub current_step: usize,
    pub skip_instruction_execution: bool,
    pub prime: BigInt,
}

impl VirtualMachine {
    /// A machine with empty memory, registers at zero, at step zero.
    pub fn new(prime: BigInt) -> (r: VirtualMachine)
        ensures
            r.memory@ == Seq::<Seq<Option<MaybeRelocatableValue>>>::empty(),
            r.memory.validation_rules@ == Seq::<(usize, ValidationRule)>::empty(),
            r.segments.num_segments == 0,
            r.segments.segment_used_sizes is None,
            r.run_context == (RunContext { pc: rel(0, 0), ap: 0, fp: 0 }),
            r.current_step == 0,
            !r.skip_instruction_execution,
            r.prime == prime,
    {
        VirtualMachine {
            run_context: RunContext { pc: Relocatable { segment_index: 0, offset: 0 }, ap: 0, fp: 0 },
            memory: Memory::new(),
            segments: MemorySegmentManager::new(),
            current_step: 0,
            skip_instruction_execution: false,
            prime,
        }
    }

    pub fn get_ap(&self) -> (r: Relocatable)
        ensures
            r == self.run_context.spec_ap(),
    {
        Relocatable { segment_index: 1, offset: self.run_context.ap }
    }

    pub fn get_fp(&self) -> (r: Relocatable)
        ensures
            r == self.run_context.spec_fp(),
    {
        Relocatable { segment_index: 1, offset: self.run_context.fp }
    }

    /// Marks the next instruction to be skipped.
    pub fn skip_next_instruction_execution(&mut self)
        ensures
            final(self).skip_instruction_execution,
            final(self).run_context == old(self).run_context,
            final(self).memory == old(self).memory,
            final(self).segments == old(self).segments,
            final(self).current_step == old(self).current_step,
            final(self).prime == old(self).prime,
    {
        self.skip_instruction_execution = true;
    }

    /// The address held at `addr`; `ExpectedRelocatable` when the cell is
    /// unknown or holds an integer.
    pub fn get_relocatable(&self, addr: &Relocatable) -> (r: Result<Relocatable, VirtualMachineError>)
        ensures
            match cell_at(self.memory@, *addr) {
                Some(MaybeRelocatableValue::RelocatableValue(x)) => r == Ok::<
                    Relocatable,
                    VirtualMachineError,
                >(x),
                _ => r matches Err(e) && e@ == VirtualMachineErrorValue::ExpectedRelocatable(
                    MaybeRelocatableValue::RelocatableValue(*addr),
                ),
            },
    {
        match self.memory.get(addr) {
            Some(MaybeRelocatable::RelocatableValue(x)) => Ok(x),
            _ => Err(VirtualMachineError::ExpectedRelocatable(MaybeRelocatable::RelocatableValue(*addr))),
        }
    }

    /// The integer held at `addr`; `ExpectedInteger` when the cell is
    /// unknown or holds an address.
    pub fn get_integer(&self, addr: &Relocatable) -> (r: Result<BigInt, VirtualMachineError>)
        ensures
            match cell_at(self.memory@, *addr) {
                Some(MaybeRelocatableValue::Int(n)) => r matches Ok(x) && x@ == n,
                _ => r matches Err(e) && e@ == VirtualMachineErrorValue::ExpectedInteger(
                    MaybeRelocatableValue::RelocatableValue(*addr),
                ),
            },
    {
        match self.memory.get(addr) {
            Some(MaybeRelocatable::Int(n)) => Ok(n),
            _ => Err(VirtualMachineError::ExpectedInteger(MaybeRelocatable::RelocatableValue(*addr))),
        }
    }
}

/// The range-check rule accepts exactly the integers from 0 to 2^128 - 1,
/// and no address.
pub proof fn lemma_range_check_rule_bounds(v: MaybeRelocatableValue)
    ensures
        passes_rule(ValidationRule::RangeCheck, v) <==> (v matches MaybeRelocatableValue::Int(n) && 0
            <= n <= 340282366920938463463374607431768211455),
{
    vstd::arithmetic::power2::lemma2_to64();
    vstd::arithmetic::power2::lemma_pow2_adds(64, 64);
    assert(vstd::arithmetic::power2::pow2(128) == 340282366920938463463374607431768211456);
}

} // verus!
