use cairo_relocatable::bigint::BigInt;
use cairo_relocatable::errors::{MemoryError, RunnerError};
use cairo_relocatable::range_check::RangeCheckBuiltinRunner;
use cairo_relocatable::relocatable::{MaybeRelocatable, Relocatable};
use cairo_relocatable::vm::{Memory, MemorySegmentManager, VirtualMachine};

fn prime() -> BigInt {
    let n: num_bigint::BigInt =
        "3618502788666131213697322783095070105623107215331596699973092056135872020481"
            .parse()
            .unwrap();
    BigInt::from_signed_bytes_le(&n.to_signed_bytes_le())
}


fn memory(cells: Vec<((isize, usize), MaybeRelocatable)>) -> Memory {
    let mut m = Memory::new();
    for ((s, o), v) in cells {
        while m.data.len() <= s as usize {
            m.add_segment();
        }
        m.insert(&Relocatable { segment_index: s, offset: o }, &v).unwrap();
    }
    m
}

fn rel(s: isize, o: usize) -> MaybeRelocatable {
    MaybeRelocatable::from((s, o))
}

fn int_value(v: i128) -> MaybeRelocatable {
    MaybeRelocatable::Int(BigInt::from_i128(v))
}

fn vm() -> VirtualMachine {
    VirtualMachine::new(prime())
}

fn stack_memory(last: MaybeRelocatable) -> Memory {
    memory(vec![
        ((0, 0), rel(0, 0)),
        ((0, 1), rel(0, 1)),
        ((2, 0), rel(0, 0)),
        ((2, 1), last),
    ])
}

#[test]
fn get_used_instances() {
    let builtin = RangeCheckBuiltinRunner::new(10, 12, true);
    let mut vm = vm();
    vm.memory = stack_memory(rel(0, 0));
    vm.segments.segment_used_sizes = Some(vec![1]);
    assert_eq!(builtin.get_used_instances(&vm), Ok(1));
}

#[test]
fn final_stack() {
    let mut builtin = RangeCheckBuiltinRunner::new(10, 12, true);
    let mut vm = vm();
    vm.memory = stack_memory(rel(0, 0));
    vm.segments.segment_used_sizes = Some(vec![0]);
    let pointer = Relocatable::from((2, 2));
    assert_eq!(
        builtin.final_stack(&vm, pointer),
        Ok(Relocatable::from((2, 1)))
    );
}

#[test]
fn final_stack_error_stop_pointer() {
    let mut builtin = RangeCheckBuiltinRunner::new(10, 12, true);
    let mut vm = vm();
    vm.memory = stack_memory(rel(0, 0));
    vm.segments.segment_used_sizes = Some(vec![999]);
    let pointer = Relocatable::from((2, 2));
    assert_eq!(
        builtin.final_stack(&vm, pointer),
        Err(RunnerError::InvalidStopPointer("range_check".to_string()))
    );
}

#[test]
fn final_stack_error_when_not_included() {
    let mut builtin = RangeCheckBuiltinRunner::new(10, 12, false);
    let mut vm = vm();
    vm.memory = stack_memory(rel(0, 0));
    vm.segments.segment_used_sizes = Some(vec![0]);
    let pointer = Relocatable::from((2, 2));
    assert_eq!(
        builtin.final_stack(&vm, pointer),
        Ok(Relocatable::from((2, 2)))
    );
}

#[test]
fn final_stack_error_non_relocatable() {
    let mut builtin = RangeCheckBuiltinRunner::new(10, 12, true);
    let mut vm = vm();
    vm.memory = stack_memory(int_value(2));
    vm.segments.segment_used_sizes = Some(vec![0]);
    let pointer = Relocatable::from((2, 2));
    assert_eq!(
        builtin.final_stack(&vm, pointer),
        Err(RunnerError::FinalStack)
    );
}

#[test]
fn initialize_segments_for_range_check() {
    let mut builtin = RangeCheckBuiltinRunner::new(8, 8, true);
    let mut segments = MemorySegmentManager::new();
    let mut memory = Memory::new();
    builtin.initialize_segments(&mut segments, &mut memory);
    assert_eq!(builtin.base, 0);
}

#[test]
fn get_initial_stack_for_range_check_with_base() {
    let mut builtin = RangeCheckBuiltinRunner::new(8, 8, true);
    builtin.base = 1;
    let initial_stack = builtin.initial_stack();
    assert_eq!(
        initial_stack[0].clone(),
        MaybeRelocatable::RelocatableValue((builtin.base(), 0).into())
    );
    assert_eq!(initial_stack.len(), 1);
}

#[test]
fn get_memory_segment_addresses() {
    let builtin = RangeCheckBuiltinRunner::new(8, 8, true);
    assert_eq!(
        builtin.get_memory_segment_addresses(),
        ("range_check", (0, None)),
    );
}

#[test]
fn get_used_cells_missing_segment_used_sizes() {
    let builtin = RangeCheckBuiltinRunner::new(256, 8, true);
    let vm = vm();
    assert_eq!(
        builtin.get_used_cells(&vm),
        Err(MemoryError::MissingSegmentUsedSizes)
    );
}

#[test]
fn get_used_cells_empty() {
    let builtin = RangeCheckBuiltinRunner::new(256, 8, true);
    let mut vm = vm();
    vm.segments.segment_used_sizes = Some(vec![0]);
    assert_eq!(builtin.get_used_cells(&vm), Ok(0));
}

#[test]
fn get_used_cells() {
    let builtin = RangeCheckBuiltinRunner::new(256, 8, true);
    let mut vm = vm();
    vm.segments.segment_used_sizes = Some(vec![4]);
    assert_eq!(builtin.get_used_cells(&vm), Ok(4));
}

#[test]
fn get_range_check_usage_succesful_a() {
    let builtin = RangeCheckBuiltinRunner::new(8, 8, true);
    let memory = memory(vec![
        ((0, 0), int_value(1)),
        ((0, 1), int_value(2)),
        ((0, 2), int_value(3)),
        ((0, 3), int_value(4)),
    ]);
    assert_eq!(builtin.get_range_check_usage(&memory), Some((1, 4)));
}

#[test]
fn get_range_check_usage_succesful_b() {
    let builtin = RangeCheckBuiltinRunner::new(8, 8, true);
    let memory = memory(vec![
        ((0, 0), int_value(1465218365)),
        ((0, 1), int_value(2134570341)),
        ((0, 2), int_value(31349610736_i128)),
        ((0, 3), int_value(413468326585859_i128)),
    ]);
    assert_eq!(builtin.get_range_check_usage(&memory), Some((6384, 62821)));
}

#[test]
fn get_range_check_usage_succesful_c() {
    let builtin = RangeCheckBuiltinRunner::new(8, 8, true);
    let memory = memory(vec![
        ((0, 0), int_value(634834751465218365_i128)),
        ((0, 1), int_value(42876922134570341_i128)),
        ((0, 2), int_value(23469831349610736_i128)),
        ((0, 3), int_value(23468413468326585859_i128)),
        ((0, 4), int_value(75346043276073460326_i128)),
        ((0, 5), int_value(87234598724867609478353436890268_i128)),
    ]);
    assert_eq!(builtin.get_range_check_usage(&memory), Some((10480, 42341)));
}

#[test]
fn get_range_check_empty_memory() {
    let builtin = RangeCheckBuiltinRunner::new(8, 8, true);
    let memory = Memory::new();
    assert_eq!(builtin.get_range_check_usage(&memory), None);
}

#[test]
fn get_used_perm_range_check_units() {
    let builtin_runner = RangeCheckBuiltinRunner::new(8, 8, true);
    let mut vm = vm();
    vm.current_step = 8;
    vm.segments.segment_used_sizes = Some(vec![5]);
    assert_eq!(builtin_runner.get_used_perm_range_check_units(&vm), Ok(40));
}

#[test]
fn range_check_bound_is_power_of_inner_bound() {
    let builtin = RangeCheckBuiltinRunner::new(8, 2, true);
    assert_eq!(builtin._bound, BigInt::from_i128(1 << 32));
}

#[test]
fn validation_rule_rejects_out_of_range_values() {
    let builtin = RangeCheckBuiltinRunner::new(8, 8, true);
    let mut memory = Memory::new();
    memory.add_segment();
    assert_eq!(builtin.add_validation_rule(&mut memory), Ok(()));
    let at = |o| Relocatable { segment_index: 0, offset: o };
    assert_eq!(memory.insert(&at(0), &int_value(5)), Ok(()));
    assert_eq!(memory.insert(&at(1), &int_value(-1)), Err(MemoryError::NumOutOfBounds));
    assert_eq!(memory.insert(&at(2), &rel(0, 0)), Err(MemoryError::FoundNonInt));
    assert_eq!(
        memory.insert(&at(3), &MaybeRelocatable::Int(BigInt::from_i128(1).shift_left(128))),
        Err(MemoryError::NumOutOfBounds)
    );
}

#[test]
fn allocated_memory_units_need_exact_ratio() {
    let builtin = RangeCheckBuiltinRunner::new(10, 12, true);
    let mut vm = vm();
    vm.current_step = 10;
    assert_eq!(builtin.get_allocated_memory_units(&vm), Ok(1));
    vm.current_step = 15;
    assert_eq!(
        builtin.get_allocated_memory_units(&vm),
        Err(MemoryError::ErrorCalculatingMemoryUnits)
    );
}
