//! A hint that makes the machine skip the instruction that follows it.
use vstd::prelude::*;
use crate::errors::VirtualMachineError;
use crate::vm::VirtualMachine;

verus! {

/// Marks the next instruction to be skipped; never fails.
pub fn skip_next_instruction(vm: &mut VirtualMachine) -> (r: Result<(), VirtualMachineError>)
    ensures
        r is Ok,
        final(vm).skip_instruction_execution,
        final(vm).run_context == old(vm).run_context,
        final(vm).memory == old(vm).memory,
        final(vm).segments == old(vm).segments,
        final(vm).current_step == old(vm).current_step,
        final(vm).prime == old(vm).prime,
{
    vm.skip_next_instruction_execution();
    Ok(())
}

} // verus!
