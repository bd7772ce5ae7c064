use cairo_relocatable::bigint::BigInt;
use cairo_relocatable::memory::Memory;
use cairo_relocatable::relocatable::MaybeRelocatable;

#[test]
fn get_test() {
    let key = MaybeRelocatable::Int(BigInt::from_i128(2));
    let val = MaybeRelocatable::Int(BigInt::from_i128(5));
    let _val_clone = val.clone();
    let mut mem = Memory::new();
    mem.insert(&key, &val);
    assert_eq!(matches!(mem.get(&key), _val_clone), true);
    assert_eq!(mem.get(&key), Some(&val));
}

#[test]
fn from_array_test() {
    let mem = Memory::from_pairs(&[(
        MaybeRelocatable::Int(BigInt::from_i128(2)),
        MaybeRelocatable::Int(BigInt::from_i128(5)),
    )]);
    assert_eq!(
        matches!(
            mem.get(&MaybeRelocatable::Int(BigInt::from_i128(2))),
            _val_clone
        ),
        true
    );
    assert_eq!(
        mem.get(&MaybeRelocatable::Int(BigInt::from_i128(2))),
        Some(&MaybeRelocatable::Int(BigInt::from_i128(5)))
    );
}

#[test]
fn insert_replaces_and_keeps_other_keys() {
    let mut mem = Memory::new();
    let a = MaybeRelocatable::from((1, 2));
    let b = MaybeRelocatable::Int(BigInt::from_i128(7));
    mem.insert(&a, &MaybeRelocatable::Int(BigInt::from_i128(1)));
    mem.insert(&b, &MaybeRelocatable::from((0, 0)));
    mem.insert(&a, &MaybeRelocatable::Int(BigInt::from_i128(9)));
    assert_eq!(mem.get(&a), Some(&MaybeRelocatable::Int(BigInt::from_i128(9))));
    assert_eq!(mem.get(&b), Some(&MaybeRelocatable::from((0, 0))));
    assert_eq!(mem.get(&MaybeRelocatable::from((1, 3))), None);
}

#[test]
fn from_pairs_later_pair_wins() {
    let k = MaybeRelocatable::Int(BigInt::from_i128(3));
    let mem = Memory::from_pairs(&[
        (k.clone(), MaybeRelocatable::Int(BigInt::from_i128(1))),
        (k.clone(), MaybeRelocatable::Int(BigInt::from_i128(2))),
    ]);
    assert_eq!(mem.get(&k), Some(&MaybeRelocatable::Int(BigInt::from_i128(2))));
}
