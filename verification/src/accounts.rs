//! Development accounts: the seed the account generator is fed and the
//! serialized form the accounts are handed out in.
//!
//! Generating the accounts themselves is the chain node's own work; this
//! module computes the generator's seed from its textual form and
//! serializes what the generator returned, one plain field at a time.

use vstd::prelude::*;

verus! {

use vstd::string::StringSliceAdditionalSpecFns;

/// A generated development account, each field already in its printable
/// form: the hexadecimal text of the underlying field elements.
#[derive(Debug)]
pub struct Account {
    pub public_key: String,
    pub private_key: String,
    pub address: String,
    pub class_hash: String,
}

/// An account as the public surface serializes it.
#[derive(Debug)]
pub struct SerializedAccount {
    pub public_key: String,
    pub private_key: String,
    pub address: String,
    pub class_hash: String,
}

impl SerializedAccount {
    /// Serialize one account: every field is carried over unchanged.
    pub fn from(value: &Account) -> (r: SerializedAccount)
        ensures
            r.public_key@ == value.public_key@,
            r.private_key@ == value.private_key@,
            r.address@ == value.address@,
            r.class_hash@ == value.class_hash@,
    {
        SerializedAccount {
            public_key: value.public_key.clone(),
            private_key: value.private_key.clone(),
            address: value.address.clone(),
            class_hash: value.class_hash.clone(),
        }
    }
}

/// Byte `i` of the generator seed derived from `bytes`: the byte itself
/// inside the text, zero beyond it.
pub open spec fn spec_seed_byte(bytes: Seq<u8>, i: int) -> u8 {
    if 0 <= i < bytes.len() {
        bytes[i]
    } else {
        0
    }
}

/// The 32-byte generator seed of a textual seed: its bytes, truncated
/// to 32 or padded with zeroes.
pub fn parse_seed(seed: &str) -> (r: [u8; 32])
    ensures
        forall|i: int| 0 <= i < 32 ==> r@[i] == spec_seed_byte(seed.spec_bytes(), i),
{
    let bytes = seed.as_bytes();
    let mut out: [u8; 32] = [0u8; 32];
    let mut i: usize = 0;
    while i < 32 && i < bytes.len()
        invariant
            0 <= i <= 32,
            bytes@ == seed.spec_bytes(),
            forall|j: int| 0 <= j < i ==> out@[j] == spec_seed_byte(seed.spec_bytes(), j),
            forall|j: int| i <= j < 32 ==> out@[j] == 0,
        decreases 32 - i,
    {
        out[i] = bytes[i];
        i += 1;
    }
    out
}

/// Serialize the generated accounts, in order.
pub fn get_serialized_accounts(accounts: &Vec<Account>) -> (r: Vec<SerializedAccount>)
    ensures
        r@.len() == accounts@.len(),
        forall|i: int|
            0 <= i < accounts@.len() ==> {
                &&& #[trigger] r@[i].public_key@ == accounts@[i].public_key@
                &&& r@[i].private_key@ == accounts@[i].private_key@
                &&& r@[i].address@ == accounts@[i].address@
                &&& r@[i].class_hash@ == accounts@[i].class_hash@
            },
{
    let mut r: Vec<SerializedAccount> = Vec::new();
    let mut i: usize = 0;
    while i < accounts.len()
        invariant
            0 <= i <= accounts@.len(),
            r@.len() == i,
            forall|j: int|
                0 <= j < i ==> {
                    &&& #[trigger] r@[j].public_key@ == accounts@[j].public_key@
                    &&& r@[j].private_key@ == accounts@[j].private_key@
                    &&& r@[j].address@ == accounts@[j].address@
                    &&& r@[j].class_hash@ == accounts@[j].class_hash@
                },
        decreases accounts@.len() - i,
    {
        r.push(SerializedAccount::from(&accounts[i]));
        i += 1;
    }
    r
}

} // verus!
