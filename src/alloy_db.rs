use vstd::prelude::*;
use vstd::string::StringExecFns;
use crate::types::Word;

verus! {

/// A failed read of the remote state source (a network error or a malformed
/// response). It fails the current attempt, not the process.
#[derive(Debug, PartialEq, Eq)]
pub struct AlloyDBError(pub String);

impl AlloyDBError {
    /// The error as text.
    pub fn describe(&self) -> (r: String)
        ensures
            r@ == "AlloyDB Error: "@ + self.0@,
    {
        let mut s = String::from_str("AlloyDB Error: ");
        s.append(self.0.as_str());
        s
    }
}

/// Code by hash is not served by the remote source: code always comes with
/// the account, so the answer is empty code.
pub fn code_by_hash(hash: Word) -> (r: Vec<u8>)
    ensures
        r@.len() == 0,
{
    Vec::new()
}

/// Historical block hashes are not served by the remote source: the answer is
/// the zero word.
pub fn block_hash(number: u64) -> (r: Word)
    ensures
        r == (Word { hi: 0, lo: 0 }),
{
    Word { hi: 0, lo: 0 }
}

} // verus!
