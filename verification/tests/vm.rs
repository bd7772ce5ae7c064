use cairo_relocatable::bigint::BigInt;
use cairo_relocatable::errors::MemoryError;
use cairo_relocatable::relocatable::{MaybeRelocatable, Relocatable};
use cairo_relocatable::vm::Memory;

fn int_value(n: i128) -> MaybeRelocatable {
    MaybeRelocatable::Int(BigInt::from_i128(n))
}

#[test]
fn cells_are_written_once() {
    let mut memory = Memory::new();
    memory.add_segment();
    let key = Relocatable { segment_index: 0, offset: 3 };
    assert_eq!(memory.insert(&key, &int_value(5)), Ok(()));
    assert_eq!(memory.get(&key), Some(int_value(5)));
    assert_eq!(memory.insert(&key, &int_value(5)), Ok(()));
    assert_eq!(
        memory.insert(&key, &int_value(6)),
        Err(MemoryError::InconsistentMemory(
            MaybeRelocatable::RelocatableValue(key),
            int_value(5),
            int_value(6)
        ))
    );
    assert_eq!(memory.get(&key), Some(int_value(5)));
    assert_eq!(memory.get(&Relocatable { segment_index: 0, offset: 2 }), None);
}

#[test]
fn insert_into_missing_segment_fails() {
    let mut memory = Memory::new();
    let key = Relocatable { segment_index: 1, offset: 0 };
    assert_eq!(
        memory.insert(&key, &int_value(1)),
        Err(MemoryError::UnallocatedSegment(1, 0))
    );
    assert_eq!(memory.get(&key), None);
}

#[test]
fn a_write_grows_its_segment_only_to_the_written_cell() {
    let mut memory = Memory::new();
    memory.add_segment();
    memory.add_segment();
    assert_eq!(memory.insert(&Relocatable { segment_index: 0, offset: 3 }, &int_value(1)), Ok(()));
    assert_eq!(memory.data[0].len(), 4);
    assert_eq!(memory.data[1].len(), 0);
    assert_eq!(memory.insert(&Relocatable { segment_index: 0, offset: 1 }, &int_value(2)), Ok(()));
    assert_eq!(memory.data[0].len(), 4);
}
