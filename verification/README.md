# cairo_relocatable

Pieces of a Cairo virtual machine, written in Verus and proved against their
contracts:

- `relocatable`: addresses (segment and offset) and values that are either an
  address or an integer, with their arithmetic, modular arithmetic and
  relocation;
- `bigint`: the integers of the machine, held as two's-complement bytes and
  computed with `num-bigint`;
- `memory` and `vm`: a map from values to values, and the segmented,
  write-once memory of the machine with its validation rules;
- `range_check`: the range-check builtin runner;
- `hint_processor_definition`, `hint_utils`, `set`, `secp_utils`,
  `skip_next_instruction`: hint references and the hints that use them;
- `keccak_instance_def`, `air_public_input`: the keccak builtin's parameters and
  the public input given to the prover;
- `cairo_programs`, `bench`: the text of the Cairo programs run by the fuzz
  and benchmark harnesses.

`app/` holds what is left to ordinary Rust: writing the public input as JSON
with serde, and writing the Cairo programs to disk and compiling them.
