//! Relocatable values, memory and builtin bookkeeping of a Cairo virtual machine.
pub mod bigint;
pub mod errors;
pub mod memory;
pub mod relocatable;
pub mod vm;
pub mod hint_processor_definition;
pub mod hint_utils;
pub mod set;
pub mod skip_next_instruction;
pub mod keccak_instance_def;
pub mod range_check;
pub mod secp_utils;
pub mod air_public_input;
pub mod bench;
pub mod strings;
pub mod cairo_programs;
