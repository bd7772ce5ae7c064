use cairo_relocatable::cairo_programs::{
    array_sum_source, array_sum_values, bitwise_source, decimal, ec_op_source, ecdsa_source,
    fill_template, hexadecimal, pedersen_source, poseidon_source, program_paths,
    range_check_source, unsafe_keccak_source, unsafe_keccak_values, BITWISE_TEMPLATE,
};
use cairo_relocatable::strings::{push_isize, push_usize};

#[test]
fn decimal_notation() {
    assert_eq!(decimal(0), "0");
    assert_eq!(decimal(7), "7");
    assert_eq!(decimal(1000), "1000");
    assert_eq!(decimal(u128::MAX), u128::MAX.to_string());
}

#[test]
fn hexadecimal_notation_with_prefix() {
    assert_eq!(hexadecimal(0), format!("{:#02x}", 0u8));
    assert_eq!(hexadecimal(5), "0x5");
    assert_eq!(hexadecimal(171), "0xab");
    assert_eq!(hexadecimal(255), format!("{:#02x}", 255u8));
}

#[test]
fn signed_decimal_notation() {
    let mut s = String::from("n=");
    push_isize(&mut s, -42);
    assert_eq!(s, "n=-42");
    let mut t = String::new();
    push_isize(&mut t, isize::MIN);
    assert_eq!(t, isize::MIN.to_string());
    let mut u = String::new();
    push_usize(&mut u, usize::MAX);
    assert_eq!(u, usize::MAX.to_string());
}

#[test]
fn template_holes_are_filled_in_order() {
    let pieces = ["a", "-", "-", "z"];
    let args = vec![String::from("1"), String::from("22"), String::from("333")];
    assert_eq!(fill_template(&pieces, &args), "a1-22-333z");
    assert_eq!(fill_template(&["only"], &Vec::new()), "only");
}

#[test]
fn array_sum_values_repeat_once_per_byte() {
    let one = "assert [ptr + 0] = 1;  \n            assert [ptr + 1] = 2;  \n";
    assert_eq!(array_sum_values("12"), one.repeat(2));
    assert_eq!(array_sum_values(""), "");
}

#[test]
fn unsafe_keccak_values_shrink_by_index() {
    assert_eq!(
        unsafe_keccak_values("123"),
        "assert data[0] = 11; \n            assert data[1] = 2; \n            assert data[2] = ; \n"
    );
}

#[test]
fn array_sum_program_text() {
    let text = array_sum_source("34");
    assert!(text.contains("const ARRAY_SIZE = 2;"));
    assert!(text.contains("assert [ptr + 0] = 3;  \n            assert [ptr + 1] = 4;  \n"));
    assert!(text.starts_with("\n        %builtins output\n"));
}

#[test]
fn unsafe_keccak_program_text() {
    let text = unsafe_keccak_source("90");
    assert!(text.contains("assert data[0] = 9; \n            assert data[1] = ; \n"));
    assert!(text.contains("unsafe_keccak(data, 2);"));
}

#[test]
fn bitwise_program_text() {
    let (num1, num2) = (12u8, 10u8);
    let expected = format!(
        "{}{}{}{}{}{}{}{}{}{}{}{}{}{}{}{}{}{}{}{}{}",
        BITWISE_TEMPLATE[0],
        num1,
        BITWISE_TEMPLATE[1],
        num2,
        BITWISE_TEMPLATE[2],
        8,
        BITWISE_TEMPLATE[3],
        6,
        BITWISE_TEMPLATE[4],
        14,
        BITWISE_TEMPLATE[5],
        num1,
        BITWISE_TEMPLATE[6],
        num2,
        BITWISE_TEMPLATE[7],
        8,
        BITWISE_TEMPLATE[8],
        6,
        BITWISE_TEMPLATE[9],
        14,
        BITWISE_TEMPLATE[10]
    );
    let text = bitwise_source(num1, num2);
    assert_eq!(text, expected);
    assert!(text.contains("let (and_a) = bitwise_and(12, 10);  \n        assert and_a = 8; \n"));
    assert!(text.contains("assert or_b = 14;"));
}

#[test]
fn number_programs_text() {
    let p = poseidon_source(1, 2, 340282366920938463463374607431768211455);
    assert!(p.contains("poseidon_hash_single(\n            340282366920938463463374607431768211455\n        );"));
    assert!(p.contains("let (y) = poseidon_hash(1, 2);"));
    let r = range_check_source(3, 40, 5);
    assert!(r.contains("tempvar array_length = 3;"));
    assert!(r.contains("fill_array(array, 40, 5, array_length, 0);"));
    let e = ec_op_source(26);
    assert!(e.contains("let x = 0x1a;"));
    assert!(e.contains("assert r.x = 0x1a;"));
    let h = pedersen_source(11, 22);
    assert!(h.contains("let num_a = 11;\n        let num_b = 22;"));
    let s = ecdsa_source(1, 2, 3, 4);
    assert!(s.contains("verify_ecdsa_signature(\n            4,\n            1,\n            2,\n            3,\n        );"));
}

#[test]
fn program_paths_carry_the_iteration() {
    let (cairo, json) = program_paths("cairo_programs/bitwise-", 17);
    assert_eq!(cairo, "cairo_programs/bitwise-17.cairo");
    assert_eq!(json, "cairo_programs/bitwise-17.json");
}
