use cairo_relocatable::bigint::BigInt;
use cairo_relocatable::errors::VirtualMachineError;
use cairo_relocatable::hint_processor_definition::{ApTracking, HintReference};
use cairo_relocatable::relocatable::{MaybeRelocatable, Relocatable};
use cairo_relocatable::set::set_add;
use cairo_relocatable::vm::VirtualMachine;

fn prime() -> BigInt {
    let n: num_bigint::BigInt =
        "3618502788666131213697322783095070105623107215331596699973092056135872020481"
            .parse()
            .unwrap();
    BigInt::from_signed_bytes_le(&n.to_signed_bytes_le())
}

fn cell(vm: &mut VirtualMachine, at: (isize, usize), value: MaybeRelocatable) {
    while vm.memory.data.len() <= at.0 as usize {
        vm.memory.add_segment();
    }
    vm.memory
        .insert(&Relocatable { segment_index: at.0, offset: at.1 }, &value)
        .unwrap();
}

fn int_value(v: i128) -> MaybeRelocatable {
    MaybeRelocatable::Int(BigInt::from_i128(v))
}

fn ids_data(names: &[&str]) -> Vec<(String, HintReference)> {
    let n = names.len() as i32;
    names
        .iter()
        .enumerate()
        .map(|(i, name)| (name.to_string(), HintReference::new_simple(i as i32 - n)))
        .collect()
}

fn init_vm_ids_data(
    set_ptr: Option<(usize, usize)>,
    elm_size: Option<i32>,
    elm_a: Option<usize>,
    elm_b: Option<usize>,
) -> (VirtualMachine, Vec<(String, HintReference)>) {
    init_vm_ids_data_with_end(set_ptr, elm_size, elm_a, elm_b, (2, 2))
}

fn init_vm_ids_data_with_end(
    set_ptr: Option<(usize, usize)>,
    elm_size: Option<i32>,
    elm_a: Option<usize>,
    elm_b: Option<usize>,
    set_end: (isize, usize),
) -> (VirtualMachine, Vec<(String, HintReference)>) {
    let mut vm = VirtualMachine::new(prime());
    vm.run_context.fp = 6;

    let set_ptr = set_ptr.unwrap_or((2, 0));
    let elm_size = elm_size.unwrap_or(2);
    let elm_a = elm_a.unwrap_or(2);
    let elm_b = elm_b.unwrap_or(3);

    cell(&mut vm, (1, 2), MaybeRelocatable::from((set_ptr.0 as isize, set_ptr.1)));
    cell(&mut vm, (1, 3), int_value(elm_size as i128));
    cell(&mut vm, (1, 4), MaybeRelocatable::from((3, 0)));
    cell(&mut vm, (1, 5), MaybeRelocatable::from(set_end));
    cell(&mut vm, (2, 0), int_value(1));
    cell(&mut vm, (2, 1), int_value(3));
    cell(&mut vm, (2, 2), int_value(5));
    cell(&mut vm, (2, 3), int_value(7));
    cell(&mut vm, (3, 0), int_value(elm_a as i128));
    cell(&mut vm, (3, 1), int_value(elm_b as i128));
    let ids_data = ids_data(&[
        "is_elm_in_set",
        "index",
        "set_ptr",
        "elm_size",
        "elm_ptr",
        "set_end_ptr",
    ]);
    (vm, ids_data)
}

fn run(vm: &mut VirtualMachine, ids: &Vec<(String, HintReference)>) -> Result<(), VirtualMachineError> {
    set_add(vm, ids, &ApTracking { group: 0, offset: 0 })
}

fn get(vm: &VirtualMachine, at: (isize, usize)) -> Option<MaybeRelocatable> {
    vm.memory.get(&Relocatable { segment_index: at.0, offset: at.1 })
}

#[test]
fn set_add_new_elem() {
    let (mut vm, ids_data) = init_vm_ids_data(None, None, None, None);
    assert_eq!(run(&mut vm, &ids_data), Ok(()));
    assert_eq!(get(&vm, (1, 0)), Some(MaybeRelocatable::Int(BigInt::from_i128(0))));
}

#[test]
fn set_add_already_exists() {
    let (mut vm, ids_data) = init_vm_ids_data(None, None, Some(1), Some(3));
    assert_eq!(run(&mut vm, &ids_data), Ok(()));
    assert_eq!(get(&vm, (1, 0)), Some(int_value(1)));
    assert_eq!(get(&vm, (1, 1)), Some(int_value(0)));
}

#[test]
fn elm_size_negative() {
    let (mut vm, ids_data) = init_vm_ids_data(None, Some(-2), None, None);
    assert_eq!(
        run(&mut vm, &ids_data),
        Err(VirtualMachineError::BigintToUsizeFail)
    );
}

#[test]
fn elm_size_zero() {
    let int = BigInt::from_i128(0);
    let (mut vm, ids_data) = init_vm_ids_data(None, Some(0), None, None);
    assert_eq!(
        run(&mut vm, &ids_data),
        Err(VirtualMachineError::ValueNotPositive(int))
    );
}

#[test]
fn set_ptr_gt_set_end_ptr() {
    let (mut vm, ids_data) = init_vm_ids_data(Some((2, 3)), None, None, None);
    assert_eq!(
        run(&mut vm, &ids_data),
        Err(VirtualMachineError::InvalidSetRange(
            MaybeRelocatable::from((2, 3)),
            MaybeRelocatable::from((2, 2)),
        ))
    );
}

#[test]
fn set_add_element_past_the_end_is_not_found() {
    let (mut vm, ids_data) = init_vm_ids_data(None, None, Some(5), Some(7));
    assert_eq!(run(&mut vm, &ids_data), Ok(()));
    assert_eq!(get(&vm, (1, 0)), Some(int_value(0)));
    assert_eq!(get(&vm, (1, 1)), None);
}

#[test]
fn set_add_finds_second_element() {
    let (mut vm, ids_data) = init_vm_ids_data_with_end(None, None, Some(5), Some(7), (2, 4));
    assert_eq!(run(&mut vm, &ids_data), Ok(()));
    assert_eq!(get(&vm, (1, 0)), Some(int_value(1)));
    assert_eq!(get(&vm, (1, 1)), Some(int_value(1)));
}

#[test]
fn set_add_missing_variable() {
    let (mut vm, _) = init_vm_ids_data(None, None, None, None);
    let ids = ids_data(&["is_elm_in_set", "index", "elm_size", "elm_ptr", "set_end_ptr"]);
    assert_eq!(run(&mut vm, &ids), Err(VirtualMachineError::FailedToGetIds));
}
