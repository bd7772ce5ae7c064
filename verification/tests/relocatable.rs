use cairo_relocatable::bigint::{BigInt, Sign};
use cairo_relocatable::errors::{MemoryError, VirtualMachineError};
use cairo_relocatable::relocatable::{relocate_address, relocate_value, MaybeRelocatable, Relocatable};

fn bigint(v: i128) -> BigInt {
    BigInt::from_i128(v)
}

fn bigint_str(s: &str) -> BigInt {
    let n: num_bigint::BigInt = s.parse().unwrap();
    BigInt::from_signed_bytes_le(&n.to_signed_bytes_le())
}

fn relocatable(segment_index: isize, offset: usize) -> Relocatable {
    Relocatable { segment_index, offset }
}

fn mayberelocatable_int(v: i128) -> MaybeRelocatable {
    MaybeRelocatable::Int(bigint(v))
}

#[test]
fn add_bigint_to_int() {
    let addr = MaybeRelocatable::from(bigint(7));
    let added_addr = addr.add_int_mod(&bigint(2), &bigint(17));
    assert_eq!(Ok(MaybeRelocatable::Int(bigint(9))), added_addr);
}

#[test]
fn add_usize_to_int() {
    let addr = MaybeRelocatable::from(bigint(7));
    let added_addr = addr.add_usize_mod(2, Some(bigint(17)));
    assert_eq!(MaybeRelocatable::Int(bigint(9)), added_addr);
}

#[test]
fn add_bigint_to_relocatable() {
    let addr = MaybeRelocatable::RelocatableValue(relocatable(7, 65));
    let added_addr = addr.add_int_mod(&bigint(2), &bigint(121));
    assert_eq!(Ok(MaybeRelocatable::from((7, 67))), added_addr);
}

#[test]
fn add_int_mod_offset_exceeded() {
    let addr = MaybeRelocatable::from((0, 0));
    let error = addr.add_int_mod(
        &bigint_str("18446744073709551616"),
        &bigint_str("18446744073709551617"),
    );
    assert_eq!(
        error,
        Err(VirtualMachineError::OffsetExceeded(bigint_str(
            "18446744073709551616"
        )))
    );
    assert_eq!(
        error.unwrap_err().to_string(),
        "Offset 18446744073709551616 exeeds maximum offset value"
    );
}

#[test]
fn add_usize_to_relocatable() {
    let addr = MaybeRelocatable::RelocatableValue(relocatable(7, 65));
    let added_addr = addr.add_int_mod(&bigint(2), &bigint(121));
    assert_eq!(Ok(MaybeRelocatable::from((7, 67))), added_addr);
}

#[test]
fn add_bigint_to_int_prime_mod() {
    let addr = MaybeRelocatable::Int(BigInt::new(
        Sign::Plus,
        vec![
            43680, 0, 0, 0, 0, 0, 0, 2013265920, 4294967289, 4294967295, 4294967295,
            4294967295, 4294967295, 4294967295, 4294967295, 1048575,
        ],
    ));
    let added_addr = addr.add_int_mod(
        &bigint(1),
        &BigInt::new(
            Sign::Plus,
            vec![
                4294967089, 4294967295, 4294967295, 4294967295, 4294967295, 4294967295,
                4294967295, 67108863,
            ],
        ),
    );
    assert_eq!(Ok(MaybeRelocatable::Int(bigint(4))), added_addr);
}

#[test]
fn add_bigint_to_relocatable_prime() {
    let addr = MaybeRelocatable::RelocatableValue(relocatable(1, 9));
    let added_addr = addr.add_int_mod(
        &BigInt::new(Sign::Plus, vec![1, 0, 0, 0, 0, 0, 17, 134217728]),
        &BigInt::new(Sign::Plus, vec![1, 0, 0, 0, 0, 0, 17, 134217728]),
    );
    assert_eq!(
        Ok(MaybeRelocatable::RelocatableValue(relocatable(1, 9))),
        added_addr
    );
}

#[test]
fn add_int_to_int() {
    let addr_a = &MaybeRelocatable::from(bigint(7));
    let addr_b = &MaybeRelocatable::from(bigint(17));
    let added_addr = addr_a.add_mod(addr_b, &bigint(71));
    assert_eq!(Ok(MaybeRelocatable::from(bigint(24))), added_addr);
}

#[test]
fn add_int_to_int_prime() {
    let addr_a = &MaybeRelocatable::Int(BigInt::new(
        Sign::Plus,
        vec![1, 0, 0, 0, 0, 0, 17, 134217728],
    ));
    let addr_b = &MaybeRelocatable::from(bigint(17));
    let added_addr = addr_a.add_mod(
        addr_b,
        &BigInt::new(Sign::Plus, vec![1, 0, 0, 0, 0, 0, 17, 134217728]),
    );
    assert_eq!(Ok(MaybeRelocatable::from(bigint(17))), added_addr);
}

#[test]
fn add_relocatable_to_relocatable_should_fail() {
    let addr_a = &MaybeRelocatable::from((7, 5));
    let addr_b = &MaybeRelocatable::RelocatableValue(relocatable(7, 10));
    let error = addr_a.add_mod(addr_b, &bigint(17));
    assert_eq!(error, Err(VirtualMachineError::RelocatableAdd));
    assert_eq!(
        error.unwrap_err().to_string(),
        "Cannot add two relocatable values"
    );
}

#[test]
fn add_int_to_relocatable() {
    let addr_a = &MaybeRelocatable::from((7, 7));
    let addr_b = &MaybeRelocatable::from(bigint(10));
    let added_addr = addr_a.add_mod(addr_b, &bigint(21));
    assert_eq!(
        Ok(MaybeRelocatable::RelocatableValue(relocatable(7, 17))),
        added_addr
    );
}

#[test]
fn add_relocatable_to_int() {
    let addr_a = &MaybeRelocatable::from(bigint(10));
    let addr_b = &MaybeRelocatable::RelocatableValue(relocatable(7, 7));
    let added_addr = addr_a.add_mod(addr_b, &bigint(21));
    assert_eq!(
        Ok(MaybeRelocatable::RelocatableValue(relocatable(7, 17))),
        added_addr
    );
}

#[test]
fn add_int_to_relocatable_prime() {
    let addr_a = &MaybeRelocatable::from((7, 14));
    let addr_b = &MaybeRelocatable::Int(BigInt::new(
        Sign::Plus,
        vec![1, 0, 0, 0, 0, 0, 17, 134217728],
    ));
    let added_addr = addr_a.add_mod(
        addr_b,
        &BigInt::new(Sign::Plus, vec![1, 0, 0, 0, 0, 0, 17, 134217728]),
    );
    assert_eq!(
        Ok(MaybeRelocatable::RelocatableValue(relocatable(7, 14))),
        added_addr
    );
}

#[test]
fn add_int_rel_int_offset_exceeded() {
    let addr = MaybeRelocatable::from((0, 0));
    let error = addr.add_mod(
        &MaybeRelocatable::from(bigint_str("18446744073709551616")),
        &bigint_str("18446744073709551617"),
    );
    assert_eq!(
        error,
        Err(VirtualMachineError::OffsetExceeded(bigint_str(
            "18446744073709551616"
        )))
    );
}

#[test]
fn add_int_int_rel_offset_exceeded() {
    let addr = MaybeRelocatable::Int(bigint_str("18446744073709551616"));
    let relocatable = Relocatable {
        offset: 0,
        segment_index: 0,
    };
    let error = addr.add_mod(
        &MaybeRelocatable::RelocatableValue(relocatable),
        &bigint_str("18446744073709551617"),
    );
    assert_eq!(
        error,
        Err(VirtualMachineError::OffsetExceeded(bigint_str(
            "18446744073709551616"
        )))
    );
}

#[test]
fn sub_int_from_int() {
    let addr_a = &MaybeRelocatable::from(bigint(7));
    let addr_b = &MaybeRelocatable::from(bigint(5));
    let sub_addr = addr_a.sub(addr_b, &bigint(23));
    assert_eq!(Ok(MaybeRelocatable::from(bigint(2))), sub_addr);
}

#[test]
fn sub_relocatable_from_relocatable_same_offset() {
    let addr_a = &MaybeRelocatable::from((7, 17));
    let addr_b = &MaybeRelocatable::from((7, 7));
    let sub_addr = addr_a.sub(addr_b, &bigint(23));
    assert_eq!(Ok(MaybeRelocatable::from(bigint(10))), sub_addr);
}

#[test]
fn sub_relocatable_from_relocatable_diff_offset() {
    let addr_a = &MaybeRelocatable::from((7, 17));
    let addr_b = &MaybeRelocatable::from((8, 7));
    let error = addr_a.sub(addr_b, &bigint(23));
    assert_eq!(error, Err(VirtualMachineError::DiffIndexSub));
    assert_eq!(
        error.unwrap_err().to_string(),
        "Can only subtract two relocatable values of the same segment"
    );
}

#[test]
fn sub_int_addr_ref_from_relocatable_addr_ref() {
    let addr_a = &MaybeRelocatable::from((7, 17));
    let addr_b = &MaybeRelocatable::from(bigint(5));
    let addr_c = addr_a.sub(addr_b, &bigint(23));
    assert_eq!(addr_c, Ok(MaybeRelocatable::from((7, 12))));
}

#[test]
fn sub_rel_to_int_error() {
    let a = &MaybeRelocatable::from(bigint(7));
    let b = &MaybeRelocatable::from((7, 10));
    assert_eq!(
        Err(VirtualMachineError::NotImplemented),
        a.sub(b, &bigint(23))
    );
}

#[test]
fn divmod_working() {
    let value = &MaybeRelocatable::from(bigint(10));
    let div = &MaybeRelocatable::from(bigint(3));
    let (q, r) = value.divmod(div).expect("Unexpected error in divmod");
    assert_eq!(q, MaybeRelocatable::from(bigint(3)));
    assert_eq!(r, MaybeRelocatable::from(bigint(1)));
}

#[test]
fn divmod_bad_type() {
    let value = &MaybeRelocatable::from(bigint(10));
    let div = &MaybeRelocatable::from((2, 7));
    assert_eq!(value.divmod(div), Err(VirtualMachineError::NotImplemented));
}

#[test]
fn mod_floor_int() {
    let num = MaybeRelocatable::Int(bigint(7));
    let div = bigint(5);
    let expected_rem = MaybeRelocatable::Int(bigint(2));
    assert_eq!(num.mod_floor(&div), Ok(expected_rem));
}

#[test]
fn mod_floor_relocatable() {
    let value = &MaybeRelocatable::from((2, 7));
    let div = bigint(5);
    assert_eq!(value.mod_floor(&div), Ok(value.clone()));
}

#[test]
fn relocate_relocatable_value() {
    let value = MaybeRelocatable::from((2, 7));
    let relocation_table = vec![1, 2, 5];
    assert_eq!(relocate_value(value, &relocation_table), Ok(bigint(12)));
}

#[test]
fn relocate_relocatable_in_temp_segment_value() {
    let value = MaybeRelocatable::from((-1, 7));
    let relocation_table = vec![1, 2, 5];
    assert_eq!(
        relocate_value(value, &relocation_table),
        Err(MemoryError::TemporarySegmentInRelocation(-1)),
    );
}

#[test]
fn relocate_relocatable_in_temp_segment_value_with_offset() {
    let value = MaybeRelocatable::from((-1, 7));
    let relocation_table = vec![1, 2, 5];
    assert_eq!(
        relocate_value(value, &relocation_table),
        Err(MemoryError::TemporarySegmentInRelocation(-1)),
    );
}

#[test]
fn relocate_relocatable_in_temp_segment_value_error() {
    let value = MaybeRelocatable::from((-1, 7));
    let relocation_table = vec![1, 2, 5];
    assert_eq!(
        relocate_value(value, &relocation_table),
        Err(MemoryError::TemporarySegmentInRelocation(-1))
    );
}

#[test]
fn relocate_int_value() {
    let value = MaybeRelocatable::from(bigint(7));
    let relocation_table = vec![1, 2, 5];
    assert_eq!(relocate_value(value, &relocation_table), Ok(bigint(7)));
}

#[test]
fn relocate_relocatable_value_no_relocation() {
    let value = MaybeRelocatable::from((2, 7));
    let relocation_table = vec![1, 2];
    assert_eq!(
        relocate_value(value, &relocation_table),
        Err(MemoryError::Relocation)
    );
}

#[test]
fn relocatable_add_int_mod_ok() {
    assert_eq!(
        Ok(relocatable(1, 6)),
        relocatable(1, 2).add_int_mod(&bigint(4), &bigint(71))
    );
    assert_eq!(
        Ok(relocatable(3, 2)),
        relocatable(3, 2).add_int_mod(&bigint(0), &bigint(71))
    );
    assert_eq!(
        Ok(relocatable(9, 12)),
        relocatable(9, 48).add_int_mod(&bigint(35), &bigint(71))
    );
}

#[test]
fn relocatable_add_int_mod_offset_exceeded_error() {
    assert_eq!(
        Err(VirtualMachineError::OffsetExceeded(
            bigint(usize::MAX as i128).plus(&bigint(1))
        )),
        relocatable(0, 0).add_int_mod(
            &bigint(usize::MAX as i128).plus(&bigint(1)),
            &bigint(usize::MAX as i128).plus(&bigint(2))
        )
    );
}

#[test]
fn relocatable_add_i32() {
    let reloc = relocatable(1, 5);

    assert_eq!(&reloc + 3, relocatable(1, 8));
    assert_eq!(&reloc + (-3), relocatable(1, 2));
}

#[test]
fn mayberelocatable_try_into_reloctable() {
    let address = MaybeRelocatable::from((1, 2));
    assert_eq!(Ok(relocatable(1, 2)), address.try_into());

    let value = mayberelocatable_int(1);
    let err: Result<Relocatable, _> = value.try_into();
    assert_eq!(Err(MemoryError::AddressNotRelocatable), err)
}

#[test]
fn relocatable_sub_rel_test() {
    let reloc = relocatable(7, 6);

    assert_eq!(Ok(1), reloc.sub_rel(&relocatable(7, 5)));
    assert_eq!(
        Err(VirtualMachineError::CantSubOffset(6, 9)),
        reloc.sub_rel(&relocatable(7, 9))
    );
}

#[test]
fn sub_rel_different_indexes() {
    let a = relocatable(7, 6);
    let b = relocatable(8, 6);

    assert_eq!(Err(VirtualMachineError::DiffIndexSub), a.sub_rel(&b));
}

#[test]
fn add_maybe_mod_ok() {
    assert_eq!(
        Ok(relocatable(1, 2)),
        relocatable(1, 0).add_maybe_mod(&mayberelocatable_int(2), &bigint(71))
    );
    assert_eq!(
        Ok(relocatable(0, 58)),
        relocatable(0, 29).add_maybe_mod(&mayberelocatable_int(100), &bigint(71))
    );
    assert_eq!(
        Ok(relocatable(2, 45)),
        relocatable(2, 12).add_maybe_mod(&mayberelocatable_int(104), &bigint(71))
    );

    assert_eq!(
        Ok(relocatable(1, 0)),
        relocatable(1, 0).add_maybe_mod(&mayberelocatable_int(0), &bigint(71))
    );
    assert_eq!(
        Ok(relocatable(1, 2)),
        relocatable(1, 2).add_maybe_mod(&mayberelocatable_int(71), &bigint(71))
    );

    assert_eq!(
        Ok(relocatable(14, 0)),
        relocatable(14, 71 * 12).add_maybe_mod(&mayberelocatable_int(71i128.pow(3)), &bigint(71))
    );
}

#[test]
fn add_maybe_mod_add_two_relocatable_error() {
    assert_eq!(
        Err(VirtualMachineError::RelocatableAdd),
        relocatable(1, 0).add_maybe_mod(&MaybeRelocatable::from((1, 2)), &bigint(71))
    );
}

#[test]
fn add_maybe_mod_offset_exceeded_error() {
    assert_eq!(
        Err(VirtualMachineError::OffsetExceeded(
            bigint(usize::MAX as i128).plus(&bigint(1))
        )),
        relocatable(1, 0).add_maybe_mod(
            &MaybeRelocatable::from(bigint(usize::MAX as i128).plus(&bigint(1))),
            &bigint(usize::MAX as i128).plus(&bigint(8))
        )
    );
}

#[test]
fn get_relocatable_test() {
    assert_eq!(
        Ok(relocatable(1, 2)),
        MaybeRelocatable::from((1, 2)).get_relocatable()
    );
    assert_eq!(
        Err(VirtualMachineError::ExpectedRelocatable(mayberelocatable_int(3))),
        mayberelocatable_int(3).get_relocatable()
    )
}

#[test]
fn moving_forward_then_back_returns_to_the_address() {
    let a = relocatable(2, 5);
    let b = a.add_usize(7);
    assert_eq!(b.sub(7), Ok(a));
    assert_eq!(b.sub_rel(&a), Ok(7));
    assert_eq!(a.sub(5).map(|c| c.add_usize(5)), Ok(a));
}

#[test]
fn add_mod_does_not_depend_on_operand_order() {
    let prime = bigint(17);
    let x = MaybeRelocatable::RelocatableValue(relocatable(1, 4));
    let y = mayberelocatable_int(15);
    assert_eq!(x.add_mod(&y, &prime), y.add_mod(&x, &prime));
    assert_eq!(x.add_mod(&y, &prime), Ok(MaybeRelocatable::from((1, 2))));
    let z = mayberelocatable_int(9);
    assert_eq!(z.add_mod(&y, &prime), y.add_mod(&z, &prime));
}

#[test]
fn divmod_rebuilds_the_dividend_for_same_signs() {
    let v = mayberelocatable_int(23);
    let d = mayberelocatable_int(5);
    let (q, r) = v.divmod(&d).unwrap();
    assert_eq!((q.clone(), r.clone()), (mayberelocatable_int(4), mayberelocatable_int(3)));
    let v = mayberelocatable_int(-7);
    let d = mayberelocatable_int(3);
    assert_eq!(v.divmod(&d), Ok((mayberelocatable_int(-2), mayberelocatable_int(2))));
}

#[test]
fn relocation_keeps_distances_in_a_segment() {
    let table = vec![1, 30, 70];
    let a = relocate_address(relocatable(1, 9), &table).unwrap();
    let b = relocate_address(relocatable(1, 2), &table).unwrap();
    assert_eq!(a - b, 7);
    assert_eq!(a, 39);
}
