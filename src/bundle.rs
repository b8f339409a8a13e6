use vstd::prelude::*;
use vstd::string::StringExecFns;
use crate::types::Address;
use crate::alloy_db::AlloyDBError;
use crate::overlay::{Overlay, OverlayView, StateChanges, view_entries, find_account, find_slot};
use crate::codec::{to_hex, hex_of};

verus! {

/// Where a transaction goes: a call to an address, or a contract creation.
#[derive(Clone, Copy, Debug, PartialEq, Eq, Structural)]
pub enum TxTarget {
    Call(Address),
    Create,
}

/// A transaction as the state-transition engine receives it.
#[derive(Debug)]
pub struct TxIntent {
    pub caller: Address,
    pub target: TxTarget,
    pub value: u128,
    pub data: Vec<u8>,
    pub gas_limit: u64,
    pub gas_price: u128,
    pub nonce: u64,
}

/// What the engine reports for one transaction that it could execute.
pub enum ExecutionOutcome {
    Success { gas_used: u64, output: Vec<u8>, created: Option<Address>, changes: StateChanges },
    Revert { output: Vec<u8> },
    Halt { reason: String },
}

/// Why a bundle attempt produced no result.
#[derive(Debug, PartialEq, Eq)]
pub enum BundleError {
    /// The bundle holds no transaction.
    EmptyBundle,
    /// The engine could not process the transaction at `index` at all.
    Execution { index: usize, message: String },
    /// A read of the remote state source failed.
    DataSource(AlloyDBError),
    /// The account whose balance the bundle measures is not held by the overlay.
    MissingAccount,
}

/// What a whole bundle came to.
#[derive(Debug)]
pub struct BundleResult {
    pub total_gas: u128,
    pub critical_failed: bool,
    pub revert_reason: Option<String>,
    pub attacker_delta: i128,
    pub created_address: Option<Address>,
    pub created_code: Option<Vec<u8>>,
}

/// What one transaction came to: its gas and the caller's balance change.
#[derive(Debug, PartialEq, Eq)]
pub struct SimOutput {
    pub gas_used: u128,
    pub eth_balance_change: i128,
}

/// Why one transaction produced no output.
#[derive(Debug, PartialEq, Eq)]
pub enum TxError {
    /// It reverted or halted, for the reason given.
    Failed(String),
    /// It could not be run at all.
    Bundle(BundleError),
}

/// The text of an optional reason, empty when there is none.
pub open spec fn reason_text(reason: Option<String>) -> Seq<char> {
    match reason {
        Some(s) => s@,
        None => Seq::empty(),
    }
}

/// The output of a single transaction, read from the result of the bundle of
/// that transaction alone with itself as the critical position: a revert or
/// halt is an error, a success gives its gas and the caller's balance change.
pub fn single_tx_output(result: Result<BundleResult, BundleError>) -> (r: Result<SimOutput, TxError>)
    ensures
        match result {
            Err(e) => r == Err::<SimOutput, TxError>(TxError::Bundle(e)),
            Ok(res) => if res.critical_failed {
                (r matches Err(TxError::Failed(reason)) && reason@ == reason_text(res.revert_reason))
            } else {
                r == Ok::<SimOutput, TxError>(SimOutput { gas_used: res.total_gas, eth_balance_change: res.attacker_delta })
            },
        },
{
    match result {
        Err(e) => Err(TxError::Bundle(e)),
        Ok(res) => {
            if res.critical_failed {
                match res.revert_reason {
                    Some(s) => Err(TxError::Failed(s)),
                    None => Err(TxError::Failed(String::new())),
                }
            } else {
                Ok(SimOutput { gas_used: res.total_gas, eth_balance_change: res.attacker_delta })
            }
        },
    }
}

/// `x`, held to the range of `i128`.
pub open spec fn clamp_i128(x: int) -> i128 {
    if x > i128::MAX {
        i128::MAX
    } else if x < i128::MIN {
        i128::MIN
    } else {
        x as i128
    }
}

/// `post - pre`, held to the range of `i128`.
pub fn signed_delta(post: u128, pre: u128) -> (r: i128)
    ensures
        r == clamp_i128(post - pre),
{
    if post >= pre {
        let d: u128 = post - pre;
        if d > i128::MAX as u128 {
            i128::MAX
        } else {
            d as i128
        }
    } else {
        let d: u128 = pre - post;
        if d >= 0x8000_0000_0000_0000_0000_0000_0000_0000u128 {
            i128::MIN
        } else {
            -(d as i128)
        }
    }
}

/// The reason recorded for a critical transaction that reverted with `output`.
pub open spec fn revert_text(output: Seq<u8>) -> Seq<char> {
    "Reverted hex: "@ + hex_of(output)
}

/// The reason recorded for a critical transaction that halted for `reason`.
pub open spec fn halt_text(reason: Seq<char>) -> Seq<char> {
    "Halted: "@ + reason
}

/// A bundle under way: the transactions of one bundle are executed in order
/// against one overlay, and each outcome is folded in by `step`.
pub struct BundleRun {
    /// How many transactions the bundle holds.
    pub len: usize,
    /// The position whose revert or halt fails the bundle.
    pub critical: Option<usize>,
    /// How many outcomes were folded in so far.
    pub next: usize,
    /// The account whose balance change the bundle reports.
    pub attacker: Address,
    /// Its balance when the run began.
    pub pre_balance: u128,
    pub total_gas: u128,
    pub critical_failed: bool,
    pub revert_reason: Option<String>,
    pub created_address: Option<Address>,
    pub created_code: Option<Vec<u8>>,
}

impl BundleRun {
    /// The bounds that the run keeps.
    pub open spec fn wf(&self) -> bool {
        &&& self.next <= self.len
        &&& self.total_gas <= self.next * u64::MAX
        &&& (self.created_address is Some <==> self.created_code is Some)
    }

    /// Begins a bundle of `len` transactions whose balance change is measured
    /// on `attacker`. An empty bundle is refused, and so is an attacker that the
    /// overlay does not hold (the caller loads it first).
    pub fn start(overlay: &Overlay, len: usize, critical: Option<usize>, attacker: Address) -> (r: Result<BundleRun, BundleError>)
        ensures
            len == 0 ==> r == Err::<BundleRun, BundleError>(BundleError::EmptyBundle),
            len > 0 && overlay@.account(attacker) is None ==> r == Err::<BundleRun, BundleError>(BundleError::MissingAccount),
            len > 0 && overlay@.account(attacker) is Some <==> r is Ok,
            r matches Ok(run) ==> {
                &&& run.wf()
                &&& run.len == len
                &&& run.critical == critical
                &&& run.next == 0
                &&& run.attacker == attacker
                &&& run.pre_balance == overlay@.account(attacker)->0.balance
                &&& run.total_gas == 0
                &&& !run.critical_failed
                &&& run.revert_reason is None
                &&& run.created_address is None
                &&& run.created_code is None
            },
    {
        if len == 0 {
            return Err(BundleError::EmptyBundle);
        }
        match overlay.balance_of(attacker) {
            None => Err(BundleError::MissingAccount),
            Some(pre_balance) => Ok(BundleRun {
                len,
                critical,
                next: 0,
                attacker,
                pre_balance,
                total_gas: 0,
                critical_failed: false,
                revert_reason: None,
                created_address: None,
                created_code: None,
            }),
        }
    }

    /// Whether every transaction of the bundle has been folded in.
    pub fn is_complete(&self) -> (r: bool)
        ensures
            r == (self.next >= self.len),
    {
        self.next >= self.len
    }

    /// Folds in the outcome of the next transaction. A success commits its
    /// changes to `overlay`, adds its gas and records any contract it created;
    /// a revert or halt leaves `overlay` as it was and, at the critical
    /// position, fails the bundle with a reason.
    pub fn step(&mut self, overlay: &mut Overlay, outcome: ExecutionOutcome)
        requires
            old(self).wf(),
            old(self).next < old(self).len,
        ensures
            final(self).wf(),
            final(self).next == old(self).next + 1,
            final(self).len == old(self).len,
            final(self).critical == old(self).critical,
            final(self).attacker == old(self).attacker,
            final(self).pre_balance == old(self).pre_balance,
            match outcome {
                ExecutionOutcome::Success { gas_used, output, created, changes } => {
                    &&& final(self).total_gas == old(self).total_gas + gas_used
                    &&& final(overlay)@.accounts == old(overlay)@.accounts + view_entries(changes.accounts@)
                    &&& final(overlay)@.storage == old(overlay)@.storage + changes.storage@
                    &&& final(self).critical_failed == old(self).critical_failed
                    &&& final(self).revert_reason == old(self).revert_reason
                    &&& (created matches Some(a) ==> final(self).created_address == Some(a)
                        && (final(self).created_code matches Some(c) && c@ == output@))
                    &&& (created is None ==> final(self).created_address == old(self).created_address
                        && final(self).created_code == old(self).created_code)
                },
                ExecutionOutcome::Revert { output } => {
                    &&& final(self).total_gas == old(self).total_gas
                    &&& final(overlay)@ == old(overlay)@
                    &&& final(self).created_address == old(self).created_address
                    &&& final(self).created_code == old(self).created_code
                    &&& (old(self).critical == Some(old(self).next) ==> final(self).critical_failed
                        && (final(self).revert_reason matches Some(s) && s@ == revert_text(output@)))
                    &&& (old(self).critical != Some(old(self).next) ==> final(self).critical_failed
                        == old(self).critical_failed && final(self).revert_reason == old(self).revert_reason)
                },
                ExecutionOutcome::Halt { reason } => {
                    &&& final(self).total_gas == old(self).total_gas
                    &&& final(overlay)@ == old(overlay)@
                    &&& final(self).created_address == old(self).created_address
                    &&& final(self).created_code == old(self).created_code
                    &&& (old(self).critical == Some(old(self).next) ==> final(self).critical_failed
                        && (final(self).revert_reason matches Some(s) && s@ == halt_text(reason@)))
                    &&& (old(self).critical != Some(old(self).next) ==> final(self).critical_failed
                        == old(self).critical_failed && final(self).revert_reason == old(self).revert_reason)
                },
            },
    {
        let at_critical = match self.critical {
            Some(c) => c == self.next,
            None => false,
        };
        match outcome {
            ExecutionOutcome::Success { gas_used, output, created, changes } => {
                proof {
                    assert(self.total_gas + gas_used <= (self.next + 1) * u64::MAX) by (nonlinear_arith)
                        requires
                            self.total_gas <= self.next * u64::MAX,
                            gas_used <= u64::MAX,
                    ;
                }
                self.total_gas = self.total_gas + gas_used as u128;
                overlay.commit(&changes);
                if let Some(a) = created {
                    self.created_address = Some(a);
                    self.created_code = Some(output);
                }
            },
            ExecutionOutcome::Revert { output } => {
                if at_critical {
                    let mut s = String::from_str("Reverted hex: ");
                    let h = to_hex(&output);
                    s.append(h.as_str());
                    self.critical_failed = true;
                    self.revert_reason = Some(s);
                }
            },
            ExecutionOutcome::Halt { reason } => {
                if at_critical {
                    let mut s = String::from_str("Halted: ");
                    s.append(reason.as_str());
                    self.critical_failed = true;
                    self.revert_reason = Some(s);
                }
            },
        }
        self.next = self.next + 1;
    }

    /// The result of a bundle whose every transaction has been folded in: the
    /// attacker's balance change is read from `overlay`.
    pub fn finish(self, overlay: &Overlay) -> (r: Result<BundleResult, BundleError>)
        requires
            self.wf(),
            self.next == self.len,
        ensures
            overlay@.account(self.attacker) is None <==> r == Err::<BundleResult, BundleError>(BundleError::MissingAccount),
            overlay@.account(self.attacker) is Some ==> r is Ok,
            r matches Ok(res) ==> {
                &&& res.total_gas == self.total_gas
                &&& res.critical_failed == self.critical_failed
                &&& res.revert_reason == self.revert_reason
                &&& res.created_address == self.created_address
                &&& res.created_code == self.created_code
                &&& res.attacker_delta == clamp_i128(overlay@.account(self.attacker)->0.balance - self.pre_balance)
            },
    {
        match overlay.balance_of(self.attacker) {
            None => Err(BundleError::MissingAccount),
            Some(post) => Ok(BundleResult {
                total_gas: self.total_gas,
                critical_failed: self.critical_failed,
                revert_reason: self.revert_reason,
                attacker_delta: signed_delta(post, self.pre_balance),
                created_address: self.created_address,
                created_code: self.created_code,
            }),
        }
    }
}

} // verus!
