//! The instruction envelope: a tagged union, binary-serialized with the
//! discriminant first.
//!
//! Wire layout: 1 tag byte, then the payload. Tag 0 is `Initialize` with
//! no payload; tags 1 and 2 are `Deposit` and `Withdraw`, each followed by
//! an 8-byte little-endian amount. Nothing may trail the payload.

use vstd::prelude::*;

use vstd::bytes::lemma_auto_spec_u64_to_from_le_bytes;
use vstd::bytes::spec_u64_from_le_bytes;
use vstd::bytes::spec_u64_to_le_bytes;
use vstd::bytes::u64_from_le_bytes;
use vstd::bytes::u64_to_le_bytes;
use vstd::assert_seqs_equal;
use vstd::slice::slice_subrange;

use crate::error::VaultError;

verus! {

/// The three operations a call can request. For `Withdraw`, an amount of
/// zero asks for 10% of the current balance.
#[derive(Clone, Copy, Debug, PartialEq, Eq, Structural)]
pub enum VaultInstruction {
    /// Create the vault record.
    Initialize,
    /// Move `amount` from the owner into the vault.
    Deposit { amount: u64 },
    /// Move `amount` (or, for zero, 10% of the balance) back to the owner.
    Withdraw { amount: u64 },
}

/// What a well-formed instruction payload decodes to, if anything.
pub open spec fn spec_parse_instruction(d: Seq<u8>) -> Option<VaultInstruction> {
    if d.len() == 1 && d[0] == 0 {
        Some(VaultInstruction::Initialize)
    } else if d.len() == 9 && d[0] == 1 {
        Some(VaultInstruction::Deposit { amount: spec_u64_from_le_bytes(d.subrange(1, 9)) })
    } else if d.len() == 9 && d[0] == 2 {
        Some(VaultInstruction::Withdraw { amount: spec_u64_from_le_bytes(d.subrange(1, 9)) })
    } else {
        None
    }
}

/// The wire encoding of an instruction.
pub open spec fn spec_encode_instruction(inst: VaultInstruction) -> Seq<u8> {
    match inst {
        VaultInstruction::Initialize => seq![0u8],
        VaultInstruction::Deposit { amount } => seq![1u8] + spec_u64_to_le_bytes(amount),
        VaultInstruction::Withdraw { amount } => seq![2u8] + spec_u64_to_le_bytes(amount),
    }
}

/// Round trip: every instruction's encoding parses back to itself.
pub proof fn lemma_instruction_round_trip(inst: VaultInstruction)
    ensures
        spec_parse_instruction(spec_encode_instruction(inst)) == Some(inst),
{
    lemma_auto_spec_u64_to_from_le_bytes();
    let d = spec_encode_instruction(inst);
    match inst {
        VaultInstruction::Initialize => {},
        VaultInstruction::Deposit { amount } => {
            assert_seqs_equal!(d.subrange(1, 9) == spec_u64_to_le_bytes(amount));
        },
        VaultInstruction::Withdraw { amount } => {
            assert_seqs_equal!(d.subrange(1, 9) == spec_u64_to_le_bytes(amount));
        },
    }
}

/// Decodes an instruction payload. Fails with `InvalidInstruction` on an
/// unknown tag, a wrong payload length, or trailing bytes.
pub fn parse_instruction(data: &[u8]) -> (r: Result<VaultInstruction, VaultError>)
    ensures
        match r {
            Ok(inst) => spec_parse_instruction(data@) == Some(inst),
            Err(e) => spec_parse_instruction(data@) == None::<VaultInstruction> && e
                == VaultError::InvalidInstruction,
        },
{
    if data.len() == 1 && data[0] == 0 {
        Ok(VaultInstruction::Initialize)
    } else if data.len() == 9 && data[0] == 1 {
        let amount = u64_from_le_bytes(slice_subrange(data, 1, 9));
        Ok(VaultInstruction::Deposit { amount })
    } else if data.len() == 9 && data[0] == 2 {
        let amount = u64_from_le_bytes(slice_subrange(data, 1, 9));
        Ok(VaultInstruction::Withdraw { amount })
    } else {
        Err(VaultError::InvalidInstruction)
    }
}

/// Encodes an instruction for the wire.
pub fn encode_instruction(inst: &VaultInstruction) -> (out: Vec<u8>)
    ensures
        out@ == spec_encode_instruction(*inst),
{
    let mut out: Vec<u8> = Vec::new();
    match inst {
        VaultInstruction::Initialize => {
            out.push(0);
        },
        VaultInstruction::Deposit { amount } => {
            out.push(1);
            let mut amount_bytes = u64_to_le_bytes(*amount);
            out.append(&mut amount_bytes);
        },
        VaultInstruction::Withdraw { amount } => {
            out.push(2);
            let mut amount_bytes = u64_to_le_bytes(*amount);
            out.append(&mut amount_bytes);
        },
    }
    proof {
        assert_seqs_equal!(out@ == spec_encode_instruction(*inst));
    }
    out
}

} // verus!
