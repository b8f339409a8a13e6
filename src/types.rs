use vstd::prelude::*;
use crate::codec::{keccak, keccak_of};

verus! {

/// A 20-byte account address, held as its first sixteen bytes (big-endian)
/// and its last four.
#[derive(Clone, Copy, Debug, PartialEq, Eq, Structural)]
pub struct Address {
    pub hi: u128,
    pub lo: u32,
}

/// A 256-bit machine word (storage slot or value), as two 128-bit halves.
#[derive(Clone, Copy, Debug, PartialEq, Eq, Structural)]
pub struct Word {
    pub hi: u128,
    pub lo: u128,
}

/// A transaction of a bundle for submission: signer, target, value, call data
/// and gas limit.
#[derive(Debug)]
pub struct BundleTx {
    pub signer: Address,
    pub to: Address,
    pub value: u128,
    pub data: Vec<u8>,
    pub gas_limit: u64,
}

/// A bundle for submission: the block it targets, its transactions in order,
/// and when it was made.
#[derive(Debug)]
pub struct MevBundle {
    pub block_number: u64,
    pub txs: Vec<BundleTx>,
    pub timestamp: u64,
}

/// What the library knows of one account.
#[derive(Debug)]
pub struct AccountInfo {
    pub balance: u128,
    pub nonce: u64,
    pub code: Option<Vec<u8>>,
}

/// The mathematical value of an account.
pub struct AccountView {
    pub balance: u128,
    pub nonce: u64,
    pub code: Option<Seq<u8>>,
}

impl View for AccountInfo {
    type V = AccountView;

    open spec fn view(&self) -> AccountView {
        AccountView {
            balance: self.balance,
            nonce: self.nonce,
            code: match self.code {
                Some(c) => Some(c@),
                None => None,
            },
        }
    }
}

/// A copy of a byte vector.
pub fn copy_bytes(v: &Vec<u8>) -> (r: Vec<u8>)
    ensures
        r@ == v@,
{
    let mut r: Vec<u8> = Vec::with_capacity(v.len());
    let mut i: usize = 0;
    while i < v.len()
        invariant
            i <= v.len(),
            r@ == v@.subrange(0, i as int),
        decreases v.len() - i,
    {
        r.push(v[i]);
        i = i + 1;
        proof {
            assert(r@ =~= v@.subrange(0, i as int));
        }
    }
    assert(r@ =~= v@);
    r
}

impl AccountInfo {
    /// The account as the remote source reports it: code that is empty means
    /// that the account holds no code.
    pub fn from_remote(balance: u128, nonce: u64, code: Vec<u8>) -> (r: AccountInfo)
        ensures
            r@ == (AccountView {
                balance,
                nonce,
                code: if code@.len() == 0 { None } else { Some(code@) },
            }),
    {
        if code.len() == 0 {
            AccountInfo { balance, nonce, code: None }
        } else {
            AccountInfo { balance, nonce, code: Some(code) }
        }
    }

    /// The hash of the account's code: the Keccak-256 digest of its code, or
    /// of empty code when it holds none.
    pub fn code_hash(&self) -> (r: Vec<u8>)
        ensures
            r@ == keccak_of(match self.code {
                Some(c) => c@,
                None => Seq::<u8>::empty(),
            }),
    {
        match &self.code {
            Some(c) => keccak(c.as_slice()),
            None => {
                let e: Vec<u8> = Vec::new();
                keccak(e.as_slice())
            },
        }
    }

    /// An independent copy of the account.
    pub fn duplicate(&self) -> (r: AccountInfo)
        ensures
            r@ == self@,
    {
        let code = match &self.code {
            Some(c) => Some(copy_bytes(c)),
            None => None,
        };
        AccountInfo { balance: self.balance, nonce: self.nonce, code }
    }
}

} // verus!
