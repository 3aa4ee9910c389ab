//! The record that binds the two legs of one trade.

use crate::address::Address;
use vstd::bytes::{
    lemma_auto_spec_u64_to_from_le_bytes, spec_u64_from_le_bytes, spec_u64_to_le_bytes,
    u64_from_le_bytes, u64_to_le_bytes,
};
use vstd::prelude::*;
use vstd::slice::slice_subrange;

verus! {

/// The terms of one open trade. A record is written once, when the trade is opened, and never
/// changed until it is removed.
#[derive(Clone, Copy, Debug, PartialEq, Eq)]
pub struct EscrowState {
    /// The amount of mint B that the maker asks for.
    pub receive_amount: u64,
    /// The party that opened the trade.
    pub maker: Address,
    /// The mint that is locked in the vault.
    pub mint_a: Address,
    /// The mint that the maker is paid in.
    pub mint_b: Address,
    /// The bump with which the record's address is derived.
    pub bump: u8,
    /// The nonce under which the maker opened this trade.
    pub seed: u64,
}

/// The account of an escrow record: its address, and the record once it has been written.
#[derive(Clone, Copy, Debug, PartialEq, Eq)]
pub struct EscrowAccount {
    pub key: Address,
    pub state: Option<EscrowState>,
}

impl EscrowState {
    /// The number of bytes in which a record is kept.
    pub const INIT_SPACE: usize = 113;
}

/// Reads the address that stands at `bytes[at..at + 32]`.
fn read_address(bytes: &[u8], at: usize) -> (a: Address)
    requires
        at + 32 <= bytes@.len(),
    ensures
        a@ == bytes@.subrange(at as int, at + 32),
{
    let n: usize = bytes.len();
    let mut out: [u8; 32] = [0u8; 32];
    let mut i: usize = 0;
    while i < 32
        invariant
            i <= 32,
            at + 32 <= n,
            n == bytes@.len(),
            forall|j: int| 0 <= j < i ==> out[j] == bytes@[at + j],
        decreases 32 - i,
    {
        out[i] = bytes[at + i];
        i = i + 1;
    }
    let a = Address { bytes: out };
    assert(a@ =~= bytes@.subrange(at as int, at + 32));
    a
}

/// Appends the bytes of `a` to `out`.
fn write_address(out: &mut Vec<u8>, a: &Address)
    ensures
        final(out)@ == old(out)@ + a@,
{
    let mut i: usize = 0;
    while i < 32
        invariant
            i <= 32,
            out@ == old(out)@ + a@.subrange(0, i as int),
        decreases 32 - i,
    {
        out.push(a.bytes[i]);
        i = i + 1;
        assert(a@.subrange(0, i as int) =~= a@.subrange(0, i - 1).push(a@[i - 1]));
    }
    assert(a@.subrange(0, 32) =~= a@);
}

impl EscrowState {
    /// The two mints of a trade differ.
    pub open spec fn wf(&self) -> bool {
        self.mint_a != self.mint_b
    }

    /// The bytes in which a record is kept: every field at a fixed place, the two amounts with
    /// the low byte first.
    pub open spec fn layout(self) -> Seq<u8> {
        spec_u64_to_le_bytes(self.receive_amount) + self.maker@ + self.mint_a@ + self.mint_b@
            + seq![self.bump] + spec_u64_to_le_bytes(self.seed)
    }

    /// The bytes of a record have its length, and no two records are kept in the same bytes.
    pub proof fn lemma_layout(one: EscrowState, other: EscrowState)
        ensures
            one.layout().len() == EscrowState::INIT_SPACE,
            one.layout() == other.layout() ==> one == other,
    {
        lemma_auto_spec_u64_to_from_le_bytes();
        one.lemma_fields();
        other.lemma_fields();
        if one.layout() == other.layout() {
            Address::lemma_view_injective(one.maker, other.maker);
            Address::lemma_view_injective(one.mint_a, other.mint_a);
            Address::lemma_view_injective(one.mint_b, other.mint_b);
            assert(spec_u64_from_le_bytes(spec_u64_to_le_bytes(one.receive_amount))
                == spec_u64_from_le_bytes(spec_u64_to_le_bytes(other.receive_amount)));
            assert(spec_u64_from_le_bytes(spec_u64_to_le_bytes(one.seed)) == spec_u64_from_le_bytes(
                spec_u64_to_le_bytes(other.seed),
            ));
        }
    }

    /// Where each field stands in the bytes of a record.
    pub proof fn lemma_fields(self)
        ensures
            self.layout().len() == EscrowState::INIT_SPACE,
            self.layout().subrange(0, 8) == spec_u64_to_le_bytes(self.receive_amount),
            self.layout().subrange(8, 40) == self.maker@,
            self.layout().subrange(40, 72) == self.mint_a@,
            self.layout().subrange(72, 104) == self.mint_b@,
            self.layout()[104] == self.bump,
            self.layout().subrange(105, 113) == spec_u64_to_le_bytes(self.seed),
    {
        lemma_auto_spec_u64_to_from_le_bytes();
        let l = self.layout();
        assert(l.subrange(0, 8) =~= spec_u64_to_le_bytes(self.receive_amount));
        assert(l.subrange(8, 40) =~= self.maker@);
        assert(l.subrange(40, 72) =~= self.mint_a@);
        assert(l.subrange(72, 104) =~= self.mint_b@);
        assert(l.subrange(105, 113) =~= spec_u64_to_le_bytes(self.seed));
    }

    /// The bytes in which this record is kept.
    pub fn to_bytes(&self) -> (v: Vec<u8>)
        ensures
            v@ == self.layout(),
            v@.len() == EscrowState::INIT_SPACE,
    {
        let mut v = u64_to_le_bytes(self.receive_amount);
        write_address(&mut v, &self.maker);
        write_address(&mut v, &self.mint_a);
        write_address(&mut v, &self.mint_b);
        v.push(self.bump);
        let mut tail = u64_to_le_bytes(self.seed);
        v.append(&mut tail);
        assert(v@ =~= self.layout());
        v
    }

    /// The record kept in `bytes`. There is one where the length is that of a record and the
    /// bytes of the two mints differ; it is the record whose layout the bytes are.
    pub fn from_bytes(bytes: &[u8]) -> (r: Option<EscrowState>)
        ensures
            match r {
                Some(record) => record.wf() && record.layout() == bytes@,
                None => {
                    ||| bytes@.len() != EscrowState::INIT_SPACE
                    ||| bytes@.subrange(40, 72) == bytes@.subrange(72, 104)
                },
            },
    {
        if bytes.len() != EscrowState::INIT_SPACE {
            return None;
        }
        let record = EscrowState {
            receive_amount: u64_from_le_bytes(slice_subrange(bytes, 0, 8)),
            maker: read_address(bytes, 8),
            mint_a: read_address(bytes, 40),
            mint_b: read_address(bytes, 72),
            bump: bytes[104],
            seed: u64_from_le_bytes(slice_subrange(bytes, 105, 113)),
        };
        proof {
            lemma_auto_spec_u64_to_from_le_bytes();
            assert(record.layout() =~= bytes@);
        }
        if record.mint_a == record.mint_b {
            return None;
        }
        Some(record)
    }
}

} // verus!
