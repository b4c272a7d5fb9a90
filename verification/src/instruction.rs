//! Instructions as plain values: the program to run, the accounts it
//! touches and the bytes it is handed.

use crate::address::Address;
use vstd::prelude::*;

verus! {

/// One account that an instruction names, and how it may be used.
#[derive(Clone, Copy, Debug, PartialEq, Eq)]
pub struct AccountMeta {
    pub pubkey: Address,
    pub is_signer: bool,
    pub is_writable: bool,
}

/// A directive for one on-chain program.
#[derive(Debug, PartialEq, Eq)]
pub struct Instruction {
    pub program_id: Address,
    pub accounts: Vec<AccountMeta>,
    pub data: Vec<u8>,
}

/// What an instruction holds, as mathematical sequences.
pub struct InstructionView {
    pub program_id: Address,
    pub accounts: Seq<AccountMeta>,
    pub data: Seq<u8>,
}

impl View for Instruction {
    type V = InstructionView;

    open spec fn view(&self) -> InstructionView {
        InstructionView { program_id: self.program_id, accounts: self.accounts@, data: self.data@ }
    }
}

/// The instructions of a list, each as its view.
pub open spec fn instruction_views(list: Seq<Instruction>) -> Seq<InstructionView> {
    list.map_values(|i: Instruction| i@)
}

impl Clone for Instruction {
    fn clone(&self) -> (copy: Self)
        ensures
            copy@ == self@,
    {
        let copy = Instruction {
            program_id: self.program_id,
            accounts: self.accounts.clone(),
            data: self.data.clone(),
        };
        proof {
            assert(copy.accounts@ =~= self.accounts@);
            assert(copy.data@ =~= self.data@);
        }
        copy
    }
}

/// Copies a list of instructions.
pub fn clone_instructions(list: &Vec<Instruction>) -> (copy: Vec<Instruction>)
    ensures
        instruction_views(copy@) == instruction_views(list@),
{
    let mut copy: Vec<Instruction> = Vec::new();
    let mut i: usize = 0;
    while i < list.len()
        invariant
            i <= list.len(),
            copy@.len() == i,
            forall|k: int| 0 <= k < i ==> (#[trigger] copy@[k])@ == list@[k]@,
        decreases list.len() - i,
    {
        copy.push(list[i].clone());
        i = i + 1;
    }
    proof {
        assert(instruction_views(copy@) =~= instruction_views(list@));
    }
    copy
}

} // verus!
