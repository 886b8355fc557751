//! The vote receipt: the record that a voter has voted on a proposal, with
//! its persisted layout.

use vstd::prelude::*;
use vstd::bytes::*;
use vstd::slice::*;
use crate::address::Address;
use crate::codec::{
    flag_byte, flag_from_byte, flag_to_byte, i64_from_le, i64_from_le_bytes, i64_le_bytes,
    i64_to_le_bytes, put, zeros,
};
use crate::error::SquadError;

verus! {

/// The proof that a vote was cast. One exists for a proposal and a voter at
/// most; its existence bars a second vote.
#[derive(Clone, Debug, PartialEq, Eq)]
pub struct VoteReceipt {
    /// Whether the record has been set up.
    pub is_initialized: bool,
    pub proposal_address: Address,
    /// The option voted for.
    pub vote_cast: u8,
    pub voter: Address,
    pub cast_timestamp: i64,
    /// The weight that the vote carried.
    pub weight: u64,
    pub reserved: [u64; 4],
}

/// A vote receipt as a mathematical value.
pub ghost struct VoteReceiptView {
    pub is_initialized: bool,
    pub proposal_address: Seq<u8>,
    pub vote_cast: u8,
    pub voter: Seq<u8>,
    pub cast_timestamp: i64,
    pub weight: u64,
    pub reserved: Seq<u64>,
}

impl View for VoteReceipt {
    type V = VoteReceiptView;

    open spec fn view(&self) -> VoteReceiptView {
        VoteReceiptView {
            is_initialized: self.is_initialized,
            proposal_address: self.proposal_address@,
            vote_cast: self.vote_cast,
            voter: self.voter@,
            cast_timestamp: self.cast_timestamp,
            weight: self.weight,
            reserved: self.reserved@,
        }
    }
}

/// The receipt that stands in a fresh, zeroed account.
pub open spec fn blank_receipt() -> VoteReceiptView {
    VoteReceiptView {
        is_initialized: false,
        proposal_address: zeros(32),
        vote_cast: 0,
        voter: zeros(32),
        cast_timestamp: 0,
        weight: 0,
        reserved: Seq::new(4, |i: int| 0u64),
    }
}

/// The receipt of a vote.
pub open spec fn receipt_of(
    proposal_address: Seq<u8>,
    vote: u8,
    voter: Seq<u8>,
    cast_timestamp: i64,
    weight: u64,
) -> VoteReceiptView {
    VoteReceiptView {
        is_initialized: true,
        proposal_address,
        vote_cast: vote,
        voter,
        cast_timestamp,
        weight,
        ..blank_receipt()
    }
}

impl VoteReceipt {
    /// The record that stands in a fresh, zeroed account.
    pub fn blank() -> (v: VoteReceipt)
        ensures
            v@ == blank_receipt(),
    {
        let v = VoteReceipt {
            is_initialized: false,
            proposal_address: Address::zero(),
            vote_cast: 0,
            voter: Address::zero(),
            cast_timestamp: 0,
            weight: 0,
            reserved: [0u64; 4],
        };
        assert(v@.reserved =~= blank_receipt().reserved);
        v
    }

    /// Records a vote in the receipt.
    pub fn save_vote(
        &mut self,
        proposal_account: &Address,
        vote: u8,
        voter: &Address,
        cast_timestamp: i64,
        weight: u64,
    )
        ensures
            final(self)@ == (VoteReceiptView {
                is_initialized: true,
                proposal_address: proposal_account@,
                vote_cast: vote,
                voter: voter@,
                cast_timestamp,
                weight,
                ..old(self)@
            }),
    {
        self.is_initialized = true;
        self.proposal_address = *proposal_account;
        self.vote_cast = vote;
        self.voter = *voter;
        self.cast_timestamp = cast_timestamp;
        self.weight = weight;
    }
}

/// The width of a persisted vote receipt.
pub const VOTE_RECEIPT_TOTAL_BYTES: usize = 114;

/// A receipt as persisted over the bytes `prev` that its account held
/// before: each field at its place and the reserved place left as it was.
pub open spec fn packed_receipt(v: VoteReceiptView, prev: Seq<u8>) -> Seq<u8> {
    seq![flag_byte(v.is_initialized)] + v.proposal_address + seq![v.vote_cast] + v.voter
        + i64_le_bytes(v.cast_timestamp) + spec_u64_to_le_bytes(v.weight) + prev.subrange(82, 114)
}

/// Whether bytes hold a receipt: enough of them, and a flag that is 0 or 1.
pub open spec fn receipt_decodable(bytes: Seq<u8>) -> bool {
    bytes.len() >= VOTE_RECEIPT_TOTAL_BYTES && bytes[0] <= 1
}

/// The receipt that decodable bytes hold.
pub open spec fn decoded_receipt(bytes: Seq<u8>) -> VoteReceiptView {
    VoteReceiptView {
        is_initialized: bytes[0] == 1,
        proposal_address: bytes.subrange(1, 33),
        vote_cast: bytes[33],
        voter: bytes.subrange(34, 66),
        cast_timestamp: i64_from_le(bytes.subrange(66, 74)),
        weight: spec_u64_from_le_bytes(bytes.subrange(74, 82)),
        reserved: Seq::new(4, |i: int| 0u64),
    }
}

impl VoteReceipt {
    /// Writes the receipt over the bytes of its account. It is refused, and
    /// the bytes stay, where they are not of a receipt's width.
    pub fn pack_into_slice(&self, dst: &mut Vec<u8>) -> (r: Result<(), SquadError>)
        ensures
            r is Ok <==> old(dst)@.len() == VOTE_RECEIPT_TOTAL_BYTES,
            r is Ok ==> final(dst)@ == packed_receipt(self@, old(dst)@),
            r is Ok ==> final(dst)@.len() == VOTE_RECEIPT_TOTAL_BYTES,
            r is Err ==> final(dst)@ == old(dst)@,
            r is Err ==> r == Err::<(), SquadError>(SquadError::MalformedRecord),
    {
        if dst.len() != VOTE_RECEIPT_TOTAL_BYTES {
            return Err(SquadError::MalformedRecord);
        }
        proof {
            lemma_auto_spec_u64_to_from_le_bytes();
        }
        let prev = dst.as_slice();
        let mut out: Vec<u8> = Vec::new();
        out.push(flag_to_byte(self.is_initialized));
        assert(out@ =~= seq![flag_byte(self.is_initialized)]);
        put(&mut out, self.proposal_address.to_vec().as_slice());
        let mut cast: Vec<u8> = Vec::new();
        cast.push(self.vote_cast);
        assert(cast@ =~= seq![self.vote_cast]);
        put(&mut out, cast.as_slice());
        put(&mut out, self.voter.to_vec().as_slice());
        put(&mut out, i64_to_le_bytes(self.cast_timestamp).as_slice());
        put(&mut out, u64_to_le_bytes(self.weight).as_slice());
        put(&mut out, slice_subrange(prev, 82, 114));
        *dst = out;
        Ok(())
    }

    /// Reads a receipt from the first bytes of `src`.
    pub fn unpack_from_slice(src: &[u8]) -> (r: Result<VoteReceipt, SquadError>)
        ensures
            r is Ok <==> receipt_decodable(src@),
            r is Ok ==> r.unwrap()@ == decoded_receipt(src@),
            r is Err ==> r == Err::<VoteReceipt, SquadError>(SquadError::MalformedRecord),
    {
        if src.len() < VOTE_RECEIPT_TOTAL_BYTES {
            return Err(SquadError::MalformedRecord);
        }
        let is_initialized = match flag_from_byte(src[0]) {
            Some(b) => b,
            None => {
                return Err(SquadError::MalformedRecord);
            },
        };
        let receipt = VoteReceipt {
            is_initialized,
            proposal_address: Address::from_slice(slice_subrange(src, 1, 33)),
            vote_cast: src[33],
            voter: Address::from_slice(slice_subrange(src, 34, 66)),
            cast_timestamp: i64_from_le_bytes(slice_subrange(src, 66, 74)),
            weight: u64_from_le_bytes(slice_subrange(src, 74, 82)),
            reserved: [0u64; 4],
        };
        assert(receipt.reserved@ =~= Seq::new(4, |i: int| 0u64));
        Ok(receipt)
    }

    /// Reads a receipt from bytes of exactly a receipt's width.
    pub fn unpack_unchecked(src: &[u8]) -> (r: Result<VoteReceipt, SquadError>)
        ensures
            r is Ok <==> src@.len() == VOTE_RECEIPT_TOTAL_BYTES && receipt_decodable(src@),
            r is Ok ==> r.unwrap()@ == decoded_receipt(src@),
            r is Err ==> r == Err::<VoteReceipt, SquadError>(SquadError::MalformedRecord),
    {
        if src.len() != VOTE_RECEIPT_TOTAL_BYTES {
            return Err(SquadError::MalformedRecord);
        }
        VoteReceipt::unpack_from_slice(src)
    }
}

} // verus!
