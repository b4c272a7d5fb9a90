//! Instructions for the compute budget program: the limit and the price of
//! the compute units that a transaction may use.

use crate::address::Address;
use crate::encoding::{le_bytes, u32_to_le_bytes, u64_to_le_bytes};
use crate::instruction::{Instruction, InstructionView};
use vstd::prelude::*;

verus! {

/// The address of the compute budget program, whose base58 text is
/// `ComputeBudget111111111111111111111111111111`.
pub open spec fn compute_budget_program() -> Address {
    Address(
        [
            3u8, 6u8, 70u8, 111u8, 229u8, 33u8, 23u8, 50u8,
            255u8, 236u8, 173u8, 186u8, 114u8, 195u8, 155u8, 231u8,
            188u8, 140u8, 229u8, 187u8, 197u8, 247u8, 18u8, 107u8,
            44u8, 67u8, 155u8, 58u8, 64u8, 0u8, 0u8, 0u8,
        ],
    )
}

/// The address of the compute budget program.
pub fn id() -> (program: Address)
    ensures
        program == compute_budget_program(),
{
    let program = Address(
        [
            3u8, 6u8, 70u8, 111u8, 229u8, 33u8, 23u8, 50u8,
            255u8, 236u8, 173u8, 186u8, 114u8, 195u8, 155u8, 231u8,
            188u8, 140u8, 229u8, 187u8, 197u8, 247u8, 18u8, 107u8,
            44u8, 67u8, 155u8, 58u8, 64u8, 0u8, 0u8, 0u8,
        ],
    );
    proof {
        assert(program.0@ =~= compute_budget_program().0@);
    }
    program
}

/// A request to the compute budget program.
#[derive(Clone, Copy, Debug, PartialEq, Eq)]
pub enum ComputeBudgetInstruction {
    /// Reserved; no longer in use.
    Unused,
    /// Asks for a heap region of this many bytes for each program of the
    /// transaction. The number must be a multiple of 1024.
    RequestHeapFrame(u32),
    /// Limits the compute units that the transaction may consume.
    SetComputeUnitLimit(u32),
    /// Prices a compute unit, in micro-lamports, for a higher priority.
    SetComputeUnitPrice(u64),
    /// Limits the bytes of account data that the transaction may load.
    SetLoadedAccountsDataSizeLimit(u32),
}

/// The byte that tells the requests apart on the wire.
pub open spec fn discriminator(request: ComputeBudgetInstruction) -> u8 {
    match request {
        ComputeBudgetInstruction::Unused => 0,
        ComputeBudgetInstruction::RequestHeapFrame(_) => 1,
        ComputeBudgetInstruction::SetComputeUnitLimit(_) => 2,
        ComputeBudgetInstruction::SetComputeUnitPrice(_) => 3,
        ComputeBudgetInstruction::SetLoadedAccountsDataSizeLimit(_) => 4,
    }
}

/// The number that a request carries, in little-endian bytes.
pub open spec fn payload(request: ComputeBudgetInstruction) -> Seq<u8> {
    match request {
        ComputeBudgetInstruction::Unused => Seq::empty(),
        ComputeBudgetInstruction::RequestHeapFrame(bytes) => le_bytes(bytes as nat, 4),
        ComputeBudgetInstruction::SetComputeUnitLimit(units) => le_bytes(units as nat, 4),
        ComputeBudgetInstruction::SetComputeUnitPrice(price) => le_bytes(price as nat, 8),
        ComputeBudgetInstruction::SetLoadedAccountsDataSizeLimit(bytes) => le_bytes(bytes as nat, 4),
    }
}

/// A request on the wire: its discriminator, then its number.
pub open spec fn encoding(request: ComputeBudgetInstruction) -> Seq<u8> {
    seq![discriminator(request)].add(payload(request))
}

/// The instruction that hands a request to the compute budget program. It
/// names no account.
pub open spec fn budget_instruction(request: ComputeBudgetInstruction) -> InstructionView {
    InstructionView {
        program_id: compute_budget_program(),
        accounts: Seq::empty(),
        data: encoding(request),
    }
}

fn tagged_u32(tag: u8, number: u32) -> (data: Vec<u8>)
    ensures
        data@ == seq![tag].add(le_bytes(number as nat, 4)),
{
    let bytes = u32_to_le_bytes(number);
    let mut data: Vec<u8> = Vec::new();
    data.push(tag);
    let mut i: usize = 0;
    while i < 4
        invariant
            i <= 4,
            bytes@ == le_bytes(number as nat, 4),
            data@ == seq![tag].add(bytes@.subrange(0, i as int)),
        decreases 4 - i,
    {
        data.push(bytes[i]);
        proof {
            assert(data@ =~= seq![tag].add(bytes@.subrange(0, i as int + 1)));
        }
        i = i + 1;
    }
    proof {
        assert(bytes@.subrange(0, 4) =~= bytes@);
    }
    data
}

fn tagged_u64(tag: u8, number: u64) -> (data: Vec<u8>)
    ensures
        data@ == seq![tag].add(le_bytes(number as nat, 8)),
{
    let bytes = u64_to_le_bytes(number);
    let mut data: Vec<u8> = Vec::new();
    data.push(tag);
    let mut i: usize = 0;
    while i < 8
        invariant
            i <= 8,
            bytes@ == le_bytes(number as nat, 8),
            data@ == seq![tag].add(bytes@.subrange(0, i as int)),
        decreases 8 - i,
    {
        data.push(bytes[i]);
        proof {
            assert(data@ =~= seq![tag].add(bytes@.subrange(0, i as int + 1)));
        }
        i = i + 1;
    }
    proof {
        assert(bytes@.subrange(0, 8) =~= bytes@);
    }
    data
}

impl ComputeBudgetInstruction {
    /// Serialises the request: one byte for the variant, then its number in
    /// little-endian bytes.
    pub fn pack(self) -> (bytes: Vec<u8>)
        ensures
            bytes@ == encoding(self),
    {
        match self {
            ComputeBudgetInstruction::Unused => {
                let mut bytes: Vec<u8> = Vec::new();
                bytes.push(0u8);
                proof {
                    assert(bytes@ =~= encoding(self));
                }
                bytes
            },
            ComputeBudgetInstruction::RequestHeapFrame(n) => tagged_u32(1u8, n),
            ComputeBudgetInstruction::SetComputeUnitLimit(n) => tagged_u32(2u8, n),
            ComputeBudgetInstruction::SetComputeUnitPrice(n) => tagged_u64(3u8, n),
            ComputeBudgetInstruction::SetLoadedAccountsDataSizeLimit(n) => tagged_u32(4u8, n),
        }
    }

    /// The instruction that hands this request to the compute budget program.
    pub fn to_instruction(self) -> (instruction: Instruction)
        ensures
            instruction@ == budget_instruction(self),
    {
        let instruction = Instruction { program_id: id(), accounts: Vec::new(), data: self.pack() };
        proof {
            assert(instruction.accounts@ =~= Seq::<crate::instruction::AccountMeta>::empty());
        }
        instruction
    }

    /// An instruction that asks for a heap region of `bytes` bytes.
    pub fn request_heap_frame(bytes: u32) -> (instruction: Instruction)
        ensures
            instruction@ == budget_instruction(ComputeBudgetInstruction::RequestHeapFrame(bytes)),
    {
        ComputeBudgetInstruction::RequestHeapFrame(bytes).to_instruction()
    }

    /// An instruction that limits the transaction to `units` compute units.
    pub fn set_compute_unit_limit(units: u32) -> (instruction: Instruction)
        ensures
            instruction@ == budget_instruction(ComputeBudgetInstruction::SetComputeUnitLimit(units)),
    {
        ComputeBudgetInstruction::SetComputeUnitLimit(units).to_instruction()
    }

    /// An instruction that prices a compute unit at `micro_lamports`.
    pub fn set_compute_unit_price(micro_lamports: u64) -> (instruction: Instruction)
        ensures
            instruction@ == budget_instruction(
                ComputeBudgetInstruction::SetComputeUnitPrice(micro_lamports),
            ),
    {
        ComputeBudgetInstruction::SetComputeUnitPrice(micro_lamports).to_instruction()
    }

    /// An instruction that limits the account data loaded to `bytes` bytes.
    pub fn set_loaded_accounts_data_size_limit(bytes: u32) -> (instruction: Instruction)
        ensures
            instruction@ == budget_instruction(
                ComputeBudgetInstruction::SetLoadedAccountsDataSizeLimit(bytes),
            ),
    {
        ComputeBudgetInstruction::SetLoadedAccountsDataSizeLimit(bytes).to_instruction()
    }
}

} // verus!
