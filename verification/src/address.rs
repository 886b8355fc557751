//! Ledger addresses, their order, and the derivation of program-owned addresses.

use vstd::prelude::*;
use solana_program::pubkey::Pubkey;

verus! {

/// A 32-byte ledger address.
#[derive(Clone, Copy, Debug)]
pub struct Address {
    pub bytes: [u8; 32],
}

impl View for Address {
    type V = Seq<u8>;

    open spec fn view(&self) -> Seq<u8> {
        self.bytes@
    }
}

/// The number that a byte string spells when read with its first byte most
/// significant. On strings of one length its order is the lexicographic one.
pub open spec fn be_value(s: Seq<u8>) -> nat
    decreases s.len(),
{
    if s.len() == 0 {
        0
    } else {
        be_value(s.drop_last()) * 256 + s.last() as nat
    }
}

/// A longer common prefix followed by a smaller byte gives a smaller number.
pub proof fn lemma_be_value_order(a: Seq<u8>, b: Seq<u8>, k: int, n: int)
    requires
        a.len() == b.len(),
        0 <= k < n <= a.len(),
        a.take(k) == b.take(k),
        a[k] < b[k],
    ensures
        be_value(a.take(n)) < be_value(b.take(n)),
    decreases n,
{
    assert(a.take(n).drop_last() == a.take(n - 1));
    assert(b.take(n).drop_last() == b.take(n - 1));
    if n == k + 1 {
    } else {
        lemma_be_value_order(a, b, k, n - 1);
    }
}

/// Byte strings of one length that spell the same number are the same string.
pub proof fn lemma_be_value_injective(a: Seq<u8>, b: Seq<u8>)
    requires
        a.len() == b.len(),
        be_value(a) == be_value(b),
    ensures
        a == b,
    decreases a.len(),
{
    if a.len() > 0 {
        lemma_be_value_injective(a.drop_last(), b.drop_last());
        assert(a == a.drop_last().push(a.last()));
        assert(b == b.drop_last().push(b.last()));
    } else {
        assert(a =~= b);
    }
}

impl Address {
    /// The address as a number: addresses are ordered as their ranks are,
    /// which is the order of their bytes read from the first.
    pub open spec fn rank(&self) -> nat {
        be_value(self@)
    }

    /// Addresses with the same bytes are the same address.
    pub proof fn lemma_view_injective(a: Address, b: Address)
        requires
            a@ == b@,
        ensures
            a == b,
    {
        assert(a.bytes =~= b.bytes);
    }

    /// Addresses of one rank are the same address.
    pub proof fn lemma_rank_injective(a: Address, b: Address)
        requires
            a.rank() == b.rank(),
        ensures
            a == b,
    {
        lemma_be_value_injective(a@, b@);
        Address::lemma_view_injective(a, b);
    }

    /// The address with these bytes.
    pub fn new(bytes: [u8; 32]) -> (a: Address)
        ensures
            a.bytes == bytes,
    {
        Address { bytes }
    }

    /// The address whose bytes are all zero, which stands in unset fields.
    pub fn zero() -> (a: Address)
        ensures
            a@ == Seq::new(32, |i: int| 0u8),
    {
        let a = Address { bytes: [0u8; 32] };
        assert(a@ =~= Seq::new(32, |i: int| 0u8));
        a
    }

    /// The address spelled by a slice of exactly 32 bytes.
    pub fn from_slice(src: &[u8]) -> (a: Address)
        requires
            src@.len() == 32,
        ensures
            a@ == src@,
    {
        let mut bytes = [0u8; 32];
        let mut i: usize = 0;
        while i < 32
            invariant
                i <= 32,
                src@.len() == 32,
                forall|j: int| 0 <= j < i ==> bytes@[j] == src@[j],
            decreases 32 - i,
        {
            bytes[i] = src[i];
            i += 1;
        }
        let a = Address { bytes };
        assert(a@ =~= src@);
        a
    }

    /// The bytes of the address, in order.
    pub fn to_vec(&self) -> (v: Vec<u8>)
        ensures
            v@ == self@,
    {
        let mut v: Vec<u8> = Vec::new();
        let mut i: usize = 0;
        while i < 32
            invariant
                i <= 32,
                v@ == self@.take(i as int),
            decreases 32 - i,
        {
            v.push(self.bytes[i]);
            assert(self@.take(i as int).push(self@[i as int]) == self@.take(i as int + 1));
            i += 1;
        }
        assert(self@.take(32) == self@);
        v
    }

    /// Whether the two addresses have the same bytes.
    pub fn same_as(&self, other: &Address) -> (r: bool)
        ensures
            r == (self@ == other@),
            r == (*self == *other),
    {
        proof {
            if self@ == other@ {
                Address::lemma_view_injective(*self, *other);
            }
        }
        *self == *other
    }

    /// Whether this address comes before the other in the order of addresses.
    pub fn precedes(&self, other: &Address) -> (r: bool)
        ensures
            r == (self.rank() < other.rank()),
    {
        let mut i: usize = 0;
        while i < 32
            invariant
                i <= 32,
                self@.take(i as int) == other@.take(i as int),
            decreases 32 - i,
        {
            if self.bytes[i] != other.bytes[i] {
                proof {
                    assert(self@.take(32) == self@);
                    assert(other@.take(32) == other@);
                    if self.bytes[i as int] < other.bytes[i as int] {
                        lemma_be_value_order(self@, other@, i as int, 32);
                    } else {
                        lemma_be_value_order(other@, self@, i as int, 32);
                    }
                }
                return self.bytes[i] < other.bytes[i];
            }
            assert(self@.take(i as int + 1) == self@.take(i as int).push(self@[i as int]));
            assert(other@.take(i as int + 1) == other@.take(i as int).push(other@[i as int]));
            i += 1;
        }
        assert(self@.take(32) == self@);
        assert(other@.take(32) == other@);
        false
    }
}

impl PartialEq for Address {
    fn eq(&self, other: &Address) -> (r: bool) {
        let mut i: usize = 0;
        while i < 32
            invariant
                i <= 32,
                forall|j: int| 0 <= j < i ==> self.bytes@[j] == other.bytes@[j],
            decreases 32 - i,
        {
            if self.bytes[i] != other.bytes[i] {
                return false;
            }
            i += 1;
        }
        assert(self.bytes =~= other.bytes);
        true
    }
}

impl Eq for Address {

}

impl vstd::std_specs::cmp::PartialEqSpecImpl for Address {
    open spec fn obeys_eq_spec() -> bool {
        true
    }

    open spec fn eq_spec(&self, other: &Address) -> bool {
        *self == *other
    }
}

/// The views of a list of seeds.
pub open spec fn seeds_view(seeds: Seq<Vec<u8>>) -> Seq<Seq<u8>> {
    Seq::new(seeds.len(), |i: int| seeds[i]@)
}

/// The program-derived address and bump seed that the ledger assigns to a list
/// of seeds under a program, or `None` where it assigns none.
pub uninterp spec fn program_address(seeds: Seq<Seq<u8>>, program_id: Seq<u8>) -> Option<(Seq<u8>, u8)>;

/// `Pubkey::try_find_program_address` of solana_program. The contract claims
/// only that the outcome is the ledger's derivation for these seeds and this
/// program, which depends on nothing else; it never panics.
#[verifier::external_body]
pub(crate) fn try_find_program_address(seeds: &Vec<Vec<u8>>, program_id: &Address) -> (r: Option<(Address, u8)>)
    ensures
        (match r {
            Some((a, bump)) => program_address(seeds_view(seeds@), program_id@) == Some((a@, bump)),
            None => program_address(seeds_view(seeds@), program_id@) is None,
        }),
{
    let parts: Vec<&[u8]> = seeds.iter().map(|s| s.as_slice()).collect();
    let found = Pubkey::try_find_program_address(&parts, &Pubkey::new_from_array(program_id.bytes));
    found.map(|(key, bump)| (Address { bytes: key.to_bytes() }, bump))
}

/// The bytes of the token program's address.
pub open spec fn token_program_bytes() -> Seq<u8> {
    seq![
        6u8, 221, 246, 225, 215, 101, 161, 147, 217, 203, 225, 70, 206, 235, 121, 172,
        28, 180, 133, 237, 95, 91, 55, 145, 58, 140, 245, 133, 126, 255, 0, 169,
    ]
}

/// The bytes of the mint of wrapped native currency.
pub open spec fn native_mint_bytes() -> Seq<u8> {
    seq![
        6u8, 155, 136, 87, 254, 171, 129, 132, 251, 104, 127, 99, 70, 24, 192, 53,
        218, 196, 57, 220, 26, 235, 59, 85, 152, 160, 240, 0, 0, 0, 0, 1,
    ]
}

/// The bytes of the associated-token-account program's address.
pub open spec fn associated_token_program_bytes() -> Seq<u8> {
    seq![
        140u8, 151, 37, 143, 78, 36, 137, 241, 187, 61, 16, 41, 20, 142, 13, 131,
        11, 90, 19, 153, 218, 255, 16, 132, 4, 142, 123, 216, 219, 233, 248, 89,
    ]
}

/// `spl_token::id`: the address that spl_token declares for the token
/// program, which is the one spelled out above.
#[verifier::external_body]
pub(crate) fn spl_token_id() -> (a: Address)
    ensures
        a@ == token_program_bytes(),
{
    Address { bytes: spl_token::id().to_bytes() }
}

/// `spl_token::native_mint::id`: the address that spl_token declares for the
/// mint of wrapped native currency, which is the one spelled out above.
#[verifier::external_body]
pub(crate) fn spl_native_mint_id() -> (a: Address)
    ensures
        a@ == native_mint_bytes(),
{
    Address { bytes: spl_token::native_mint::id().to_bytes() }
}

/// `spl_associated_token_account::id`: the address that the crate declares
/// for the associated-token-account program, which is the one spelled out
/// above.
#[verifier::external_body]
pub(crate) fn spl_associated_token_id() -> (a: Address)
    ensures
        a@ == associated_token_program_bytes(),
{
    Address { bytes: spl_associated_token_account::id().to_bytes() }
}

/// The token program's address.
pub fn token_program_id() -> (a: Address)
    ensures
        a@ == token_program_bytes(),
{
    spl_token_id()
}

/// The address of the mint of wrapped native currency.
pub fn native_mint_id() -> (a: Address)
    ensures
        a@ == native_mint_bytes(),
{
    spl_native_mint_id()
}

/// The associated-token-account program's address.
pub fn associated_token_program_id() -> (a: Address)
    ensures
        a@ == associated_token_program_bytes(),
{
    spl_associated_token_id()
}

/// The seeds of a wallet's associated token account for a mint.
pub open spec fn associated_token_seeds(wallet: Address, mint: Address) -> Seq<Seq<u8>> {
    seq![wallet@, token_program_bytes(), mint@]
}

/// The associated token account of a wallet for a mint: the address derived
/// under the associated-token-account program from the wallet, the token
/// program and the mint; `None` where the ledger derives none.
pub fn get_associated_token_address(wallet: &Address, mint: &Address) -> (r: Option<Address>)
    ensures
        r is Some <==> program_address(
            associated_token_seeds(*wallet, *mint),
            associated_token_program_bytes(),
        ) is Some,
        r is Some ==> r.unwrap()@ == program_address(
            associated_token_seeds(*wallet, *mint),
            associated_token_program_bytes(),
        ).unwrap().0,
{
    let mut seeds: Vec<Vec<u8>> = Vec::new();
    seeds.push(wallet.to_vec());
    seeds.push(token_program_id().to_vec());
    seeds.push(mint.to_vec());
    assert(seeds_view(seeds@) =~= associated_token_seeds(*wallet, *mint));
    match try_find_program_address(&seeds, &associated_token_program_id()) {
        Some((a, _)) => Some(a),
        None => None,
    }
}

} // verus!
