use cairo_relocatable::keccak_instance_def::KeccakInstanceDef;

#[test]
fn get_range_check_units_per_builtin() {
    let builtin_instance = KeccakInstanceDef::default();
    assert_eq!(builtin_instance._range_check_units_per_builtin(), 0);
}

#[test]
fn get_cells_per_builtin() {
    let builtin_instance = KeccakInstanceDef::default();
    assert_eq!(builtin_instance._cells_per_builtin(), 2);
}

#[test]
fn test_new() {
    let builtin_instance = KeccakInstanceDef {
        _ratio: 8,
        _repetitions: 1,
        _height: 256,
        _n_hash_bits: 251,
    };
    assert_eq!(KeccakInstanceDef::new(8), builtin_instance);
}

#[test]
fn test_default() {
    let builtin_instance = KeccakInstanceDef {
        _ratio: 512,
        _repetitions: 1,
        _height: 256,
        _n_hash_bits: 251,
    };
    assert_eq!(KeccakInstanceDef::default(), builtin_instance);
}
