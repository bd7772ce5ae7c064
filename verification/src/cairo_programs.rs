//! Cairo programs written from a few numbers or a string of digits: the text of
//! each program and the paths it is written to.
use vstd::prelude::*;
use crate::bigint::{nat_decimal, nat_hex};
use crate::strings::{push_hex, push_u128};

verus! {

/// The text of the array sum program around its 2 holes.
pub const ARRAY_SUM_TEMPLATE: [&'static str; 3] = [
    "
        %builtins output

        from starkware.cairo.common.alloc import alloc
        from starkware.cairo.common.serialize import serialize_word
        
        // Computes the sum of the memory elements at addresses:
        //   arr + 0, arr + 1, ..., arr + (size - 1).
        func array_sum(arr: felt*, size) -> (sum: felt) {
            if (size == 0) {
                return (sum=0);
            }
        
            // size is not zero.
            let (sum_of_rest) = array_sum(arr=arr + 1, size=size - 1);
            return (sum=[arr] + sum_of_rest);
        }
        
        func main{output_ptr: felt*}() {
            const ARRAY_SIZE = ",
    ";
        
            // Allocate an array.
            let (ptr) = alloc();
        
            // Populate some values in the array.
            ",
    "
        
            // Call array_sum to compute the sum of the elements.
            let (sum) = array_sum(arr=ptr, size=ARRAY_SIZE);
        
            // Write the sum to the program output.
            serialize_word(sum);
        
            return ();
    }
    ",
];

/// The text of the unsafe keccak program around its 2 holes.
pub const UNSAFE_KECCAK_TEMPLATE: [&'static str; 3] = [
    "
    %builtins output

    from starkware.cairo.common.alloc import alloc
    from starkware.cairo.common.serialize import serialize_word
    from starkware.cairo.common.keccak import unsafe_keccak

    func main{output_ptr: felt*}() {
        alloc_locals;

        let (data: felt*) = alloc();

        ",
    "

        let (low: felt, high: felt) = unsafe_keccak(data, ",
    ");

        serialize_word(low);
        serialize_word(high);

        return ();
    }
    ",
];

/// The text of the bitwise program around its 10 holes.
pub const BITWISE_TEMPLATE: [&'static str; 11] = [
    "
    %builtins bitwise
    from starkware.cairo.common.bitwise import bitwise_and, bitwise_xor, bitwise_or, bitwise_operations
    from starkware.cairo.common.cairo_builtins import BitwiseBuiltin

    func main{bitwise_ptr: BitwiseBuiltin*}() {
        let (and_a) = bitwise_and(",
    ", ",
    ");  
        assert and_a = ",
    "; 
        let (xor_a) = bitwise_xor(12, 10);
        assert xor_a = ",
    ";
        let (or_a) = bitwise_or(12, 10);
        assert or_a = ",
    ";

        let (and_b, xor_b, or_b) = bitwise_operations(",
    ", ",
    ");
        assert and_b = ",
    ";
        assert xor_b = ",
    ";
        assert or_b = ",
    ";
        return ();
    }

    ",
];

/// The text of the poseidon program around its 6 holes.
pub const POSEIDON_TEMPLATE: [&'static str; 7] = [
    "
    %builtins poseidon
    from starkware.cairo.common.cairo_builtins import PoseidonBuiltin
    from starkware.cairo.common.poseidon_state import PoseidonBuiltinState
    from starkware.cairo.common.builtin_poseidon.poseidon import (
        poseidon_hash,
        poseidon_hash_single,
        poseidon_hash_many,
    )
    from starkware.cairo.common.alloc import alloc

    func main{poseidon_ptr: PoseidonBuiltin*}() {
        // Hash one
        let (x) = poseidon_hash_single(
            ",
    "
        );
        // Hash two
        let (y) = poseidon_hash(",
    ", ",
    ");
        // Hash three
        let felts: felt* = alloc();
        assert felts[0] = ",
    ";
        assert felts[1] = ",
    ";
        assert felts[2] = ",
    ";
        let (z) = poseidon_hash_many(3, felts);
        return ();
    }

    ",
];

/// The text of the range check program around its 3 holes.
pub const RANGE_CHECK_TEMPLATE: [&'static str; 4] = [
    "
    %builtins range_check

    from starkware.cairo.common.math import assert_250_bit
    from starkware.cairo.common.alloc import alloc
    
    func assert_250_bit_element_array{range_check_ptr: felt}(
        array: felt*, array_length: felt, iterator: felt
    ) {
        if (iterator == array_length) {
            return ();
        }
        assert_250_bit(array[iterator]);
        return assert_250_bit_element_array(array, array_length, iterator + 1);
    }
    
    func fill_array(array: felt*, base: felt, step: felt, array_length: felt, iterator: felt) {
        if (iterator == array_length) {
            return ();
        }
        assert array[iterator] = base + step * iterator;
        return fill_array(array, base, step, array_length, iterator + 1);
    }
    
    func main{range_check_ptr: felt}() {
        alloc_locals;
        tempvar array_length = ",
    ";
        let (array: felt*) = alloc();
        fill_array(array, ",
    ", ",
    ", array_length, 0);
        assert_250_bit_element_array(array, array_length, 0);
        return ();
    }
    
    ",
];

/// The text of the ec op program around its 2 holes.
pub const EC_OP_TEMPLATE: [&'static str; 3] = [
    "
    %builtins ec_op

    from starkware.cairo.common.cairo_builtins import EcOpBuiltin
    from starkware.cairo.common.ec_point import EcPoint
    from starkware.cairo.common.ec import recover_y

    func main{ec_op_ptr: EcOpBuiltin*}() {
        let x = ",
    ";
        let r: EcPoint = recover_y(x);
        assert r.x = ",
    ";
        return ();
    }
    
    ",
];

/// The text of the pedersen program around its 2 holes.
pub const PEDERSEN_TEMPLATE: [&'static str; 3] = [
    "
    %builtins pedersen

    from starkware.cairo.common.cairo_builtins import HashBuiltin
    from starkware.cairo.common.hash import hash2
    
    func get_hash(hash_ptr: HashBuiltin*, num_a: felt, num_b: felt) -> (
        hash_ptr: HashBuiltin*, r: felt
    ) {
        with hash_ptr {
            let (result) = hash2(num_a, num_b);
        }
        return (hash_ptr=hash_ptr, r=result);
    }
    
    func builtins_wrapper{
        pedersen_ptr: HashBuiltin*,
    }(num_a: felt, num_b: felt) {
        let (pedersen_ptr, result: felt) = get_hash(pedersen_ptr, num_a, num_b);
    
        return ();
    }
    
    func builtins_wrapper_iter{
        pedersen_ptr: HashBuiltin*,
    }(num_a: felt, num_b: felt, n_iterations: felt) {
        builtins_wrapper(num_a, num_b);
        if (n_iterations != 0) {
            builtins_wrapper_iter(num_a, num_b, n_iterations - 1);
            tempvar pedersen_ptr = pedersen_ptr;
        } else {
            tempvar pedersen_ptr = pedersen_ptr;
        }
    
        return ();
    }
    
    func main{
        pedersen_ptr: HashBuiltin*,
    }() {
        let num_a = ",
    ";
        let num_b = ",
    ";
        builtins_wrapper_iter(num_a, num_b, 50000);
    
        return ();
    }
    ",
];

/// The text of the ecdsa program around its 4 holes.
pub const ECDSA_TEMPLATE: [&'static str; 5] = [
    "
    %builtins ecdsa
    from starkware.cairo.common.serialize import serialize_word
    from starkware.cairo.common.cairo_builtins import SignatureBuiltin
    from starkware.cairo.common.signature import verify_ecdsa_signature
    
    func main{ecdsa_ptr: SignatureBuiltin*}() {
        verify_ecdsa_signature(
            ",
    ",
            ",
    ",
            ",
    ",
            ",
    ",
        );
        return ();
    }
    
    ",
];

/// What separates the lines of assertions that fill a program's array.
pub const LINE_SEPARATOR: &'static str = "            ";

/// The texts of a sequence of string slices.
pub open spec fn str_views(pieces: Seq<&str>) -> Seq<Seq<char>> {
    pieces.map_values(|p: &str| p@)
}

/// The texts of a sequence of strings.
pub open spec fn string_views(args: Seq<String>) -> Seq<Seq<char>> {
    args.map_values(|a: String| a@)
}

/// The text of `pieces` with `args[i]` written between `pieces[i]` and `pieces[i + 1]`.
pub open spec fn fill_holes(pieces: Seq<Seq<char>>, args: Seq<Seq<char>>) -> Seq<char>
    decreases args.len(),
{
    if args.len() == 0 {
        pieces[0]
    } else {
        fill_holes(pieces.drop_last(), args.drop_last()) + args.last() + pieces.last()
    }
}

/// `lines` with `sep` between each two of them.
pub open spec fn joined(lines: Seq<Seq<char>>, sep: Seq<char>) -> Seq<char>
    decreases lines.len(),
{
    if lines.len() == 0 {
        Seq::empty()
    } else if lines.len() == 1 {
        lines[0]
    } else {
        joined(lines.drop_last(), sep) + sep + lines.last()
    }
}

/// `n` copies of `s`, one after the other.
pub open spec fn repeated(s: Seq<char>, n: nat) -> Seq<char>
    decreases n,
{
    if n == 0 {
        Seq::empty()
    } else {
        repeated(s, (n - 1) as nat) + s
    }
}

/// Writes `args[i]` into the hole between `pieces[i]` and `pieces[i + 1]`.
pub fn fill_template(pieces: &[&str], args: &Vec<String>) -> (r: String)
    requires
        pieces@.len() == args@.len() + 1,
    ensures
        r@ == fill_holes(str_views(pieces@), string_views(args@)),
{
    let ghost p = str_views(pieces@);
    let ghost a = string_views(args@);
    let mut r = pieces[0].to_owned();
    proof {
        assert(p.take(1).drop_last() =~= Seq::<Seq<char>>::empty());
    }
    let mut i: usize = 0;
    while i < args.len()
        invariant
            pieces@.len() == args@.len() + 1,
            p == str_views(pieces@),
            a == string_views(args@),
            i <= args@.len(),
            r@ == fill_holes(p.take(i + 1), a.take(i as int)),
        decreases args@.len() - i,
    {
        r.append(args[i].as_str());
        r.append(pieces[i + 1]);
        proof {
            assert(p.take(i + 2).drop_last() =~= p.take(i + 1));
            assert(a.take(i + 1).drop_last() =~= a.take(i as int));
        }
        i = i + 1;
    }
    proof {
        assert(p.take(args@.len() + 1int) =~= p);
        assert(a.take(args@.len() as int) =~= a);
    }
    r
}

/// The decimal notation of `n`.
pub fn decimal(n: u128) -> (r: String)
    ensures
        r@ == nat_decimal(n as nat),
{
    let mut s = String::new();
    push_u128(&mut s, n);
    assert(s@ =~= nat_decimal(n as nat));
    s
}

/// The alternate hexadecimal notation of `n`: `0x` and its lower-case digits.
pub open spec fn alternate_hex(n: nat) -> Seq<char> {
    "0x"@ + nat_hex(n)
}

/// The alternate hexadecimal notation of `n`.
pub fn hexadecimal(n: u8) -> (r: String)
    ensures
        r@ == alternate_hex(n as nat),
{
    let mut s = String::new();
    s.append("0x");
    push_hex(&mut s, n as u128);
    assert(s@ =~= alternate_hex(n as nat));
    s
}

/// The assertion that puts the digit `c` at index `i` of the array summed.
pub open spec fn array_sum_line(i: nat, c: char) -> Seq<char> {
    "assert [ptr + "@ + nat_decimal(i) + "] = "@ + seq![c] + ";  \n"@
}

/// The assertions that fill the array summed: one line for each character of
/// `digits`, and all of them written `byte_len` times, `byte_len` being the length
/// of `digits` in bytes.
pub open spec fn array_sum_values_text(digits: Seq<char>, byte_len: nat) -> Seq<char> {
    repeated(
        joined(Seq::new(digits.len(), |i: int| array_sum_line(i as nat, digits[i])), LINE_SEPARATOR@),
        byte_len,
    )
}

/// The assertions that fill the array summed by the array sum program.
pub fn array_sum_values(array: &str) -> (r: String)
    ensures
        r@ == array_sum_values_text(array@, array.len() as nat),
{
    let ghost lines = Seq::new(array@.len(), |i: int| array_sum_line(i as nat, array@[i]));
    let count = array.unicode_len();
    let mut one = String::new();
    let mut i: usize = 0;
    while i < count
        invariant
            count == array@.len(),
            lines == Seq::new(array@.len(), |i: int| array_sum_line(i as nat, array@[i])),
            i <= count,
            one@ == joined(lines.take(i as int), LINE_SEPARATOR@),
        decreases count - i,
    {
        let ghost before = one@;
        if i > 0 {
            one.append(LINE_SEPARATOR);
        }
        let c = array.substring_char(i, i + 1);
        one.append("assert [ptr + ");
        push_u128(&mut one, i as u128);
        one.append("] = ");
        one.append(c);
        one.append(";  \n");
        proof {
            assert(c@ =~= seq![array@[i as int]]);
            let line = array_sum_line(i as nat, array@[i as int]);
            assert(lines.take(i + 1).drop_last() =~= lines.take(i as int));
            assert(lines.take(i + 1).last() == line);
            if i == 0 {
                assert(one@ =~= line);
            } else {
                assert(one@ =~= before + LINE_SEPARATOR@ + line);
            }
        }
        i = i + 1;
    }
    proof {
        assert(lines.take(count as int) =~= lines);
    }
    let times = array.len();
    let mut r = String::new();
    let mut j: usize = 0;
    while j < times
        invariant
            times == array.len() as nat,
            j <= times,
            r@ == repeated(one@, j as nat),
        decreases times - j,
    {
        r.append(one.as_str());
        j = j + 1;
    }
    r
}

/// The text of the array sum program on the digits of `array`.
pub open spec fn array_sum_text(array: Seq<char>, byte_len: nat) -> Seq<char> {
    fill_holes(
        str_views(ARRAY_SUM_TEMPLATE@),
        seq![nat_decimal(byte_len), array_sum_values_text(array, byte_len)],
    )
}

/// The array sum program: writes each character of `array` into an array,
/// as often as `array` has bytes, and prints the sum of the array's first
/// elements, as many as `array` has bytes.
pub fn array_sum_source(array: &str) -> (r: String)
    ensures
        r@ == array_sum_text(array@, array.len() as nat),
{
    let mut args: Vec<String> = Vec::new();
    args.push(decimal(array.len() as u128));
    args.push(array_sum_values(array));
    let r = fill_template(&ARRAY_SUM_TEMPLATE, &args);
    proof {
        assert(string_views(args@) =~= seq![
            nat_decimal(array.len() as nat),
            array_sum_values_text(array@, array.len() as nat),
        ]);
    }
    r
}

/// The assertion that puts `c`, written `count` times, at index `i` of the data hashed.
pub open spec fn unsafe_keccak_line(i: nat, c: char, count: nat) -> Seq<char> {
    "assert data["@ + nat_decimal(i) + "] = "@ + repeated(seq![c], count) + "; \n"@
}

/// The assertions that fill the data hashed: for the character at index `i` of
/// `digits`, the character written `byte_len - (i + 1)` times, `byte_len` being the
/// length of `digits` in bytes.
pub open spec fn unsafe_keccak_values_text(digits: Seq<char>, byte_len: nat) -> Seq<char> {
    joined(
        Seq::new(
            digits.len(),
            |i: int| unsafe_keccak_line(i as nat, digits[i], (byte_len - (i + 1)) as nat),
        ),
        LINE_SEPARATOR@,
    )
}

/// The assertions that fill the data hashed by the unsafe keccak program.
/// A string has at least as many bytes as characters, which the subtraction
/// `byte_len - (i + 1)` needs.
pub fn unsafe_keccak_values(array: &str) -> (r: String)
    requires
        array@.len() <= array.len(),
    ensures
        r@ == unsafe_keccak_values_text(array@, array.len() as nat),
{
    let ghost lines = Seq::new(
        array@.len(),
        |i: int| unsafe_keccak_line(i as nat, array@[i], (array.len() - (i + 1)) as nat),
    );
    let count = array.unicode_len();
    let len = array.len();
    let mut r = String::new();
    let mut i: usize = 0;
    while i < count
        invariant
            count == array@.len(),
            len == array.len(),
            count <= len,
            lines == Seq::new(
                array@.len(),
                |i: int| unsafe_keccak_line(i as nat, array@[i], (array.len() - (i + 1)) as nat),
            ),
            i <= count,
            r@ == joined(lines.take(i as int), LINE_SEPARATOR@),
        decreases count - i,
    {
        let ghost before = r@;
        if i > 0 {
            r.append(LINE_SEPARATOR);
        }
        let c = array.substring_char(i, i + 1);
        r.append("assert data[");
        push_u128(&mut r, i as u128);
        r.append("] = ");
        let ghost before_copies = r@;
        let copies = len - (i + 1);
        let mut k: usize = 0;
        while k < copies
            invariant
                k <= copies,
                c@ =~= seq![array@[i as int]],
                r@ == before_copies + repeated(seq![array@[i as int]], k as nat),
            decreases copies - k,
        {
            r.append(c);
            k = k + 1;
        }
        r.append("; \n");
        proof {
            let line = unsafe_keccak_line(i as nat, array@[i as int], copies as nat);
            assert(lines.take(i + 1).drop_last() =~= lines.take(i as int));
            assert(lines.take(i + 1).last() == line);
            if i == 0 {
                assert(r@ =~= line);
            } else {
                assert(r@ =~= before + LINE_SEPARATOR@ + line);
            }
        }
        i = i + 1;
    }
    proof {
        assert(lines.take(count as int) =~= lines);
    }
    r
}

/// The text of the unsafe keccak program on the digits of `array`.
pub open spec fn unsafe_keccak_text(array: Seq<char>, byte_len: nat) -> Seq<char> {
    fill_holes(
        str_views(UNSAFE_KECCAK_TEMPLATE@),
        seq![unsafe_keccak_values_text(array, byte_len), nat_decimal(byte_len)],
    )
}

/// The unsafe keccak program: fills an array from the characters of `array`
/// and prints the two halves of its unsafe keccak hash.
pub fn unsafe_keccak_source(array: &str) -> (r: String)
    requires
        array@.len() <= array.len(),
    ensures
        r@ == unsafe_keccak_text(array@, array.len() as nat),
{
    let mut args: Vec<String> = Vec::new();
    args.push(unsafe_keccak_values(array));
    args.push(decimal(array.len() as u128));
    let r = fill_template(&UNSAFE_KECCAK_TEMPLATE, &args);
    proof {
        assert(string_views(args@) =~= seq![
            unsafe_keccak_values_text(array@, array.len() as nat),
            nat_decimal(array.len() as nat),
        ]);
    }
    r
}

/// The text of the bitwise program on `num1` and `num2`.
pub open spec fn bitwise_text(num1: u8, num2: u8) -> Seq<char> {
    let and = nat_decimal((num1 & num2) as nat);
    let xor = nat_decimal((num1 ^ num2) as nat);
    let or = nat_decimal((num1 | num2) as nat);
    fill_holes(
        str_views(BITWISE_TEMPLATE@),
        seq![
            nat_decimal(num1 as nat),
            nat_decimal(num2 as nat),
            and,
            xor,
            or,
            nat_decimal(num1 as nat),
            nat_decimal(num2 as nat),
            and,
            xor,
            or,
        ],
    )
}

/// The bitwise program: checks the bitwise builtin's and, xor and or of `num1` and
/// `num2` against the values computed here.
pub fn bitwise_source(num1: u8, num2: u8) -> (r: String)
    ensures
        r@ == bitwise_text(num1, num2),
{
    let and = num1 & num2;
    let xor = num1 ^ num2;
    let or = num1 | num2;
    let mut args: Vec<String> = Vec::new();
    args.push(decimal(num1 as u128));
    args.push(decimal(num2 as u128));
    args.push(decimal(and as u128));
    args.push(decimal(xor as u128));
    args.push(decimal(or as u128));
    args.push(decimal(num1 as u128));
    args.push(decimal(num2 as u128));
    args.push(decimal(and as u128));
    args.push(decimal(xor as u128));
    args.push(decimal(or as u128));
    let r = fill_template(&BITWISE_TEMPLATE, &args);
    proof {
        assert(string_views(args@) =~= seq![
            nat_decimal(num1 as nat),
            nat_decimal(num2 as nat),
            nat_decimal((num1 & num2) as nat),
            nat_decimal((num1 ^ num2) as nat),
            nat_decimal((num1 | num2) as nat),
            nat_decimal(num1 as nat),
            nat_decimal(num2 as nat),
            nat_decimal((num1 & num2) as nat),
            nat_decimal((num1 ^ num2) as nat),
            nat_decimal((num1 | num2) as nat),
        ]);
    }
    r
}

/// The text of the poseidon program on `num1`, `num2` and `num3`.
pub open spec fn poseidon_text(num1: u8, num2: u8, num3: u128) -> Seq<char> {
    fill_holes(
        str_views(POSEIDON_TEMPLATE@),
        seq![
            nat_decimal(num3 as nat),
            nat_decimal(num1 as nat),
            nat_decimal(num2 as nat),
            nat_decimal(num1 as nat),
            nat_decimal(num2 as nat),
            nat_decimal(num3 as nat),
        ],
    )
}

/// The poseidon program: hashes `num3`, then `num1` and `num2`, then all three.
pub fn poseidon_source(num1: u8, num2: u8, num3: u128) -> (r: String)
    ensures
        r@ == poseidon_text(num1, num2, num3),
{
    let mut args: Vec<String> = Vec::new();
    args.push(decimal(num3));
    args.push(decimal(num1 as u128));
    args.push(decimal(num2 as u128));
    args.push(decimal(num1 as u128));
    args.push(decimal(num2 as u128));
    args.push(decimal(num3));
    let r = fill_template(&POSEIDON_TEMPLATE, &args);
    proof {
        assert(string_views(args@) =~= seq![
            nat_decimal(num3 as nat),
            nat_decimal(num1 as nat),
            nat_decimal(num2 as nat),
            nat_decimal(num1 as nat),
            nat_decimal(num2 as nat),
            nat_decimal(num3 as nat),
        ]);
    }
    r
}

/// The text of the range check program on `num1`, `num2` and `num3`.
pub open spec fn range_check_text(num1: u8, num2: u128, num3: u128) -> Seq<char> {
    fill_holes(
        str_views(RANGE_CHECK_TEMPLATE@),
        seq![nat_decimal(num1 as nat), nat_decimal(num2 as nat), nat_decimal(num3 as nat)],
    )
}

/// The range check program: an array of `num1` elements, the element at index `i`
/// being `num2 + num3 * i`, each checked to fit in 250 bits.
pub fn range_check_source(num1: u8, num2: u128, num3: u128) -> (r: String)
    ensures
        r@ == range_check_text(num1, num2, num3),
{
    let mut args: Vec<String> = Vec::new();
    args.push(decimal(num1 as u128));
    args.push(decimal(num2));
    args.push(decimal(num3));
    let r = fill_template(&RANGE_CHECK_TEMPLATE, &args);
    proof {
        assert(string_views(args@) =~= seq![
            nat_decimal(num1 as nat),
            nat_decimal(num2 as nat),
            nat_decimal(num3 as nat),
        ]);
    }
    r
}

/// The text of the elliptic curve program on `num1`.
pub open spec fn ec_op_text(num1: u8) -> Seq<char> {
    fill_holes(
        str_views(EC_OP_TEMPLATE@),
        seq![alternate_hex(num1 as nat), alternate_hex(num1 as nat)],
    )
}

/// The elliptic curve program: recovers the point whose x coordinate is `num1`,
/// written in hexadecimal.
pub fn ec_op_source(num1: u8) -> (r: String)
    ensures
        r@ == ec_op_text(num1),
{
    let mut args: Vec<String> = Vec::new();
    args.push(hexadecimal(num1));
    args.push(hexadecimal(num1));
    let r = fill_template(&EC_OP_TEMPLATE, &args);
    proof {
        assert(string_views(args@) =~= seq![
            alternate_hex(num1 as nat),
            alternate_hex(num1 as nat),
        ]);
    }
    r
}

/// The text of the pedersen program on `num1` and `num2`.
pub open spec fn pedersen_text(num1: u128, num2: u128) -> Seq<char> {
    fill_holes(
        str_views(PEDERSEN_TEMPLATE@),
        seq![nat_decimal(num1 as nat), nat_decimal(num2 as nat)],
    )
}

/// The pedersen program: hashes `num1` and `num2` many times over.
pub fn pedersen_source(num1: u128, num2: u128) -> (r: String)
    ensures
        r@ == pedersen_text(num1, num2),
{
    let mut args: Vec<String> = Vec::new();
    args.push(decimal(num1));
    args.push(decimal(num2));
    let r = fill_template(&PEDERSEN_TEMPLATE, &args);
    proof {
        assert(string_views(args@) =~= seq![nat_decimal(num1 as nat), nat_decimal(num2 as nat)]);
    }
    r
}

/// The text of the signature program on its four numbers.
pub open spec fn ecdsa_text(num1: u128, num2: u128, num3: u128, num4: u8) -> Seq<char> {
    fill_holes(
        str_views(ECDSA_TEMPLATE@),
        seq![
            nat_decimal(num4 as nat),
            nat_decimal(num1 as nat),
            nat_decimal(num2 as nat),
            nat_decimal(num3 as nat),
        ],
    )
}

/// The signature program: verifies the signature (`num2`, `num3`) of the message
/// `num4` under the public key `num1`.
pub fn ecdsa_source(num1: u128, num2: u128, num3: u128, num4: u8) -> (r: String)
    ensures
        r@ == ecdsa_text(num1, num2, num3, num4),
{
    let mut args: Vec<String> = Vec::new();
    args.push(decimal(num4 as u128));
    args.push(decimal(num1));
    args.push(decimal(num2));
    args.push(decimal(num3));
    let r = fill_template(&ECDSA_TEMPLATE, &args);
    proof {
        assert(string_views(args@) =~= seq![
            nat_decimal(num4 as nat),
            nat_decimal(num1 as nat),
            nat_decimal(num2 as nat),
            nat_decimal(num3 as nat),
        ]);
    }
    r
}

/// The path of a program's source and the path of its compiled form:
/// `prefix`, the iteration's number, then `.cairo` or `.json`.
pub fn program_paths(prefix: &str, iteration: usize) -> (r: (String, String))
    ensures
        r.0@ == prefix@ + nat_decimal(iteration as nat) + ".cairo"@,
        r.1@ == prefix@ + nat_decimal(iteration as nat) + ".json"@,
{
    let mut source = prefix.to_owned();
    push_u128(&mut source, iteration as u128);
    source.append(".cairo");
    let mut compiled = prefix.to_owned();
    push_u128(&mut compiled, iteration as u128);
    compiled.append(".json");
    (source, compiled)
}

} // verus!
