use cairo_relocatable::bigint::BigInt;
use cairo_relocatable::errors::VirtualMachineError;
use cairo_relocatable::secp_utils::{pack, split, BASE_86};

fn bigint(v: i128) -> BigInt {
    BigInt::from_i128(v)
}

fn bigint_str(s: &str) -> BigInt {
    let n: num_bigint::BigInt = s.parse().unwrap();
    BigInt::from_signed_bytes_le(&n.to_signed_bytes_le())
}

#[test]
fn secp_split() {
    let constants = vec![(BASE_86.to_string(), bigint(1).shift_left(86))];

    let array_1 = split(&bigint(0), &constants);
    let array_2 = split(&bigint(999992), &constants);
    let array_3 = split(
        &bigint_str("7737125245533626718119526477371252455336267181195264773712524553362"),
        &constants,
    );
    let array_4 = split(&bigint(-1), &constants);
    let array_5 = split(
        &bigint_str(
            "773712524553362671811952647737125245533626718119526477371252455336267181195264",
        ),
        &constants,
    );

    assert_eq!(array_1, Ok([bigint(0), bigint(0), bigint(0)]));
    assert_eq!(array_2, Ok([bigint(999992), bigint(0), bigint(0)]));
    assert_eq!(
        array_3,
        Ok([
            bigint_str("773712524553362"),
            bigint_str("57408430697461422066401280"),
            bigint_str("1292469707114105")
        ])
    );
    assert_eq!(
        array_4,
        Err(VirtualMachineError::SecpSplitNegative(bigint(-1)))
    );
    assert_eq!(
        array_5,
        Err(VirtualMachineError::SecpSplitutOfRange(bigint_str(
            "773712524553362671811952647737125245533626718119526477371252455336267181195264"
        )))
    );
}

#[test]
fn secp_pack() {
    let pack_1 = pack(&bigint(10), &bigint(10), &bigint(10), &bigint(160));
    assert_eq!(
        pack_1,
        bigint_str("59863107065073783529622931521771477038469668772249610")
    );

    let pack_2 = pack(
        &bigint_str("773712524553362"),
        &bigint_str("57408430697461422066401280"),
        &bigint_str("1292469707114105"),
        &bigint_str("1292469707114105"),
    );
    assert_eq!(
        pack_2,
        bigint_str("4441762184457963985490320281689802156301430343378457")
    );
}

#[test]
fn split_without_base_constant() {
    let constants: Vec<(String, BigInt)> = vec![];
    assert_eq!(
        split(&bigint(5), &constants),
        Err(VirtualMachineError::MissingConstant(BASE_86.to_string()))
    );
}

#[test]
fn split_then_pack_gives_the_integer_back() {
    let constants = vec![(BASE_86.to_string(), bigint(1).shift_left(86))];
    let x = bigint_str("7737125245533626718119526477371252455336267181195264773712524553362");
    let prime = bigint_str(
        "3618502788666131213697322783095070105623107215331596699973092056135872020481",
    );
    let [d0, d1, d2] = split(&x, &constants).unwrap();
    assert_eq!(pack(&d0, &d1, &d2, &prime), x);
}
