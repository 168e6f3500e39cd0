use vstd::prelude::*;

verus! {

/// A 32-byte account address, held as plain bytes.
#[derive(Clone, Copy, Debug)]
pub struct AccountKey {
    pub bytes: [u8; 32],
}

impl View for AccountKey {
    type V = Seq<u8>;

    open spec fn view(&self) -> Seq<u8> {
        self.bytes@
    }
}

/// Compares two 32-byte arrays element by element.
pub fn bytes32_equal(a: &[u8; 32], b: &[u8; 32]) -> (r: bool)
    ensures
        r == (a@ == b@),
{
    let mut i: usize = 0;
    while i < 32
        invariant
            i <= 32,
            forall|j: int| 0 <= j < i ==> a@[j] == b@[j],
        decreases 32 - i,
    {
        if a[i] != b[i] {
            return false;
        }
        i = i + 1;
    }
    assert(a@ =~= b@);
    true
}

/// True when every byte of a 32-byte hash is zero (an absent attestation).
pub open spec fn is_zero_hash(h: Seq<u8>) -> bool {
    forall|j: int| 0 <= j < h.len() ==> h[j] == 0
}

/// Tests whether every byte of `h` is zero.
pub fn hash_is_zero(h: &[u8; 32]) -> (r: bool)
    ensures
        r == is_zero_hash(h@),
{
    let mut i: usize = 0;
    while i < 32
        invariant
            i <= 32,
            h@.len() == 32,
            forall|j: int| 0 <= j < i ==> h@[j] == 0,
        decreases 32 - i,
    {
        if h[i] != 0 {
            return false;
        }
        i = i + 1;
    }
    true
}

/// The all-zero 32-byte value.
pub fn zero_bytes32() -> (r: [u8; 32])
    ensures
        is_zero_hash(r@),
        r@.len() == 32,
{
    [0u8; 32]
}

impl AccountKey {
    /// The all-zero address.
    pub fn zeroed() -> (k: AccountKey)
        ensures
            is_zero_hash(k@),
            k@.len() == 32,
    {
        AccountKey { bytes: zero_bytes32() }
    }
}

impl PartialEq for AccountKey {
    fn eq(&self, other: &Self) -> (r: bool) {
        bytes32_equal(&self.bytes, &other.bytes)
    }
}

impl vstd::std_specs::cmp::PartialEqSpecImpl for AccountKey {
    open spec fn obeys_eq_spec() -> bool {
        true
    }

    open spec fn eq_spec(&self, other: &Self) -> bool {
        self@ == other@
    }
}

impl Eq for AccountKey {}

impl Default for AccountKey {
    fn default() -> (k: AccountKey)
        ensures
            is_zero_hash(k@),
            k@.len() == 32,
    {
        AccountKey::zeroed()
    }
}

/// What the logic reads of an SPL token account: its own address, its mint and its owner.
#[derive(Clone, Copy, Debug)]
pub struct TokenAccountInfo {
    pub key: AccountKey,
    pub mint: AccountKey,
    pub owner: AccountKey,
}

/// A token movement that an instruction asks the token program to perform.
#[derive(Clone, Copy, Debug)]
pub struct TokenTransfer {
    pub from: AccountKey,
    pub to: AccountKey,
    pub authority: AccountKey,
    pub amount: u64,
}

} // verus!
