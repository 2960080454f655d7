//! The fixed 49-byte binary layout of the vault record.
//!
//! Layout, in field order: 1 byte for `is_initialized` (0 or 1), 32 bytes
//! for the owner identity, 8 bytes little-endian for `total_deposits`,
//! 8 bytes little-endian two's complement for `last_withdrawal_time`.
//! This exact layout is a compatibility contract: any persisted record
//! must remain readable.

use vstd::prelude::*;

use vstd::assert_seqs_equal;
use vstd::bytes::lemma_auto_spec_u64_to_from_le_bytes;
use vstd::bytes::spec_u64_from_le_bytes;
use vstd::bytes::spec_u64_to_le_bytes;
use vstd::bytes::u64_from_le_bytes;
use vstd::bytes::u64_to_le_bytes;
use vstd::slice::slice_subrange;

use crate::error::VaultError;
use crate::state::VaultState;

verus! {

broadcast use vstd::array::group_array_axioms;

/// The unsigned 64-bit pattern whose two's complement reading is `x`.
pub open spec fn i64_to_bits(x: i64) -> u64 {
    if x >= 0 {
        x as u64
    } else {
        (x + 0x1_0000_0000_0000_0000) as u64
    }
}

/// The two's complement reading of the unsigned 64-bit pattern `b`.
pub open spec fn i64_from_bits(b: u64) -> i64 {
    if b < 0x8000_0000_0000_0000 {
        b as i64
    } else {
        (b - 0x1_0000_0000_0000_0000) as i64
    }
}

/// Reading back the bit pattern of a signed value returns that value.
pub proof fn lemma_i64_bits_round_trip(x: i64)
    ensures
        i64_from_bits(i64_to_bits(x)) == x,
{
}

/// The bit pattern of the reading of `b` is `b` again.
pub proof fn lemma_i64_bits_complete(b: u64)
    ensures
        i64_to_bits(i64_from_bits(b)) == b,
{
}

/// Computes [`i64_to_bits`].
pub fn i64_bits_of(x: i64) -> (b: u64)
    ensures
        b == i64_to_bits(x),
{
    if x >= 0 {
        x as u64
    } else {
        let d: i64 = x - i64::MIN;
        (d as u64) + 0x8000_0000_0000_0000u64
    }
}

/// Computes [`i64_from_bits`].
pub fn i64_of_bits(b: u64) -> (x: i64)
    ensures
        x == i64_from_bits(b),
{
    if b < 0x8000_0000_0000_0000 {
        b as i64
    } else {
        ((b - 0x8000_0000_0000_0000) as i64) + i64::MIN
    }
}

/// The 49-byte encoding of a record.
pub open spec fn spec_serialize(s: VaultState) -> Seq<u8> {
    seq![
        if s.is_initialized {
            1u8
        } else {
            0u8
        },
    ] + s.owner@ + spec_u64_to_le_bytes(s.total_deposits) + spec_u64_to_le_bytes(
        i64_to_bits(s.last_withdrawal_time),
    )
}

/// Whether `bytes` is a well-formed record encoding: exactly 49 bytes, the
/// leading flag byte 0 or 1. Every well-formed byte string encodes exactly
/// one record.
pub open spec fn record_bytes_wf(bytes: Seq<u8>) -> bool {
    bytes.len() == VaultState::LEN && (bytes[0] == 0 || bytes[0] == 1)
}

/// The initialized flag held in a well-formed encoding.
pub open spec fn decoded_initialized(bytes: Seq<u8>) -> bool {
    bytes[0] == 1
}

/// The owner identity held in a well-formed encoding.
pub open spec fn decoded_owner(bytes: Seq<u8>) -> Seq<u8> {
    bytes.subrange(1, 33)
}

/// The balance held in a well-formed encoding.
pub open spec fn decoded_total_deposits(bytes: Seq<u8>) -> u64 {
    spec_u64_from_le_bytes(bytes.subrange(33, 41))
}

/// The last withdrawal timestamp held in a well-formed encoding.
pub open spec fn decoded_last_withdrawal_time(bytes: Seq<u8>) -> i64 {
    i64_from_bits(spec_u64_from_le_bytes(bytes.subrange(41, 49)))
}

/// Round trip: the encoding of any record is well formed, and decoding it
/// field by field returns exactly the record that was encoded.
pub proof fn lemma_record_round_trip(s: VaultState)
    ensures
        spec_serialize(s).len() == VaultState::LEN,
        record_bytes_wf(spec_serialize(s)),
        decoded_initialized(spec_serialize(s)) == s.is_initialized,
        decoded_owner(spec_serialize(s)) == s.owner@,
        decoded_total_deposits(spec_serialize(s)) == s.total_deposits,
        decoded_last_withdrawal_time(spec_serialize(s)) == s.last_withdrawal_time,
{
    lemma_auto_spec_u64_to_from_le_bytes();
    let bytes = spec_serialize(s);
    assert_seqs_equal!(decoded_owner(bytes) == s.owner@);
    assert_seqs_equal!(bytes.subrange(33, 41) == spec_u64_to_le_bytes(s.total_deposits));
    assert_seqs_equal!(
        bytes.subrange(41, 49) == spec_u64_to_le_bytes(i64_to_bits(s.last_withdrawal_time))
    );
    lemma_i64_bits_round_trip(s.last_withdrawal_time);
}

/// Completeness: a record whose fields read back from a well-formed byte
/// string encodes to exactly that byte string. Together with
/// [`lemma_record_round_trip`] this makes the encoding a bijection
/// between records and well-formed 49-byte strings.
pub proof fn lemma_decode_encode_complete(s: VaultState, bytes: Seq<u8>)
    requires
        record_bytes_wf(bytes),
        s.is_initialized == decoded_initialized(bytes),
        s.owner@ == decoded_owner(bytes),
        s.total_deposits == decoded_total_deposits(bytes),
        s.last_withdrawal_time == decoded_last_withdrawal_time(bytes),
    ensures
        spec_serialize(s) == bytes,
{
    lemma_auto_spec_u64_to_from_le_bytes();
    lemma_i64_bits_complete(spec_u64_from_le_bytes(bytes.subrange(41, 49)));
    assert(bytes.subrange(33, 41).len() == 8);
    assert(bytes.subrange(41, 49).len() == 8);
    assert_seqs_equal!(spec_serialize(s) == bytes);
}

/// Two records with the same encoding are the same record: the layout
/// loses nothing.
pub proof fn lemma_serialize_injective(s1: VaultState, s2: VaultState)
    requires
        spec_serialize(s1) == spec_serialize(s2),
    ensures
        s1 == s2,
{
    lemma_record_round_trip(s1);
    lemma_record_round_trip(s2);
    assert(s1.owner@ == s2.owner@);
    assert(s1.owner =~= s2.owner);
}

/// Serializes a record into its 49-byte layout.
pub fn serialize_record(s: &VaultState) -> (out: Vec<u8>)
    ensures
        out@ == spec_serialize(*s),
        out@.len() == VaultState::LEN,
{
    let mut out: Vec<u8> = Vec::new();
    out.push(if s.is_initialized {
        1
    } else {
        0
    });
    let mut i: usize = 0;
    while i < 32
        invariant
            i <= 32,
            out@ == seq![
                if s.is_initialized {
                    1u8
                } else {
                    0u8
                },
            ] + s.owner@.subrange(0, i as int),
        decreases 32 - i,
    {
        out.push(s.owner[i]);
        proof {
            assert_seqs_equal!(
                s.owner@.subrange(0, i + 1 as int)
                    == s.owner@.subrange(0, i as int).push(s.owner@[i as int])
            );
        }
        i = i + 1;
    }
    proof {
        assert_seqs_equal!(s.owner@.subrange(0, 32) == s.owner@);
    }
    let mut total_bytes = u64_to_le_bytes(s.total_deposits);
    out.append(&mut total_bytes);
    let mut time_bytes = u64_to_le_bytes(i64_bits_of(s.last_withdrawal_time));
    out.append(&mut time_bytes);
    proof {
        lemma_auto_spec_u64_to_from_le_bytes();
    }
    out
}

/// Decodes a 49-byte record. Fails with `UninitializedAccount` on anything
/// but a well-formed encoding: a wrong length, or a flag byte that is
/// neither 0 nor 1.
pub fn deserialize_record(bytes: &[u8]) -> (r: Result<VaultState, VaultError>)
    ensures
        match r {
            Ok(s) => record_bytes_wf(bytes@) && s.is_initialized == decoded_initialized(bytes@)
                && s.owner@ == decoded_owner(bytes@) && s.total_deposits == decoded_total_deposits(
                bytes@,
            ) && s.last_withdrawal_time == decoded_last_withdrawal_time(bytes@),
            Err(e) => !record_bytes_wf(bytes@) && e == VaultError::UninitializedAccount,
        },
{
    if bytes.len() != VaultState::LEN {
        return Err(VaultError::UninitializedAccount);
    }
    let tag = bytes[0];
    if tag > 1 {
        return Err(VaultError::UninitializedAccount);
    }
    let mut owner = [0u8; 32];
    let mut i: usize = 0;
    while i < 32
        invariant
            i <= 32,
            bytes@.len() == 49,
            forall|j: int| 0 <= j < i ==> owner@[j] == bytes@[1 + j],
        decreases 32 - i,
    {
        owner[i] = bytes[1 + i];
        i = i + 1;
    }
    proof {
        assert_seqs_equal!(owner@ == decoded_owner(bytes@));
    }
    let total_deposits = u64_from_le_bytes(slice_subrange(bytes, 33, 41));
    let last_withdrawal_time = i64_of_bits(u64_from_le_bytes(slice_subrange(bytes, 41, 49)));
    Ok(
        VaultState {
            is_initialized: tag == 1,
            owner,
            total_deposits,
            last_withdrawal_time,
        },
    )
}

} // verus!
