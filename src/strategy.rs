use vstd::prelude::*;
use vstd::string::StringSliceAdditionalSpecFns;
use crate::types::Address;
use crate::overlay::{Overlay, OverlayView};
use crate::bundle::{TxIntent, TxTarget, BundleResult, BundleError, clamp_i128, signed_delta};
use crate::optimizer::{ProbeOutcome, SearchState};
use crate::codec::{
    address_word, amount_word, selector_of, swap_path_of, decode_swap_path, push_address_word,
    push_amount_word, push_selector,
};

verus! {

/// One ether in wei.
pub const ONE_ETHER: u128 = 1_000_000_000_000_000_000;

/// The balance that the deployer account is given before the helper contract
/// is created (ten ether).
pub const DEPLOYER_FUNDING: u128 = 10_000_000_000_000_000_000;

/// The balance that the helper contract is given in each trial overlay (one
/// million ether).
pub const TRIAL_FUNDING: u128 = 1_000_000_000_000_000_000_000_000;

/// The lower end of the search bracket (0.01 ether).
pub const SEARCH_LOW: u128 = 10_000_000_000_000_000;

/// The upper end of the search bracket (ten ether).
pub const SEARCH_HIGH: u128 = 10_000_000_000_000_000_000;

/// How many probes one search makes.
pub const PROBE_BUDGET: u32 = 8;

/// The estimated gas cost charged against every gross revenue (0.005 ether).
pub const GAS_COST_ESTIMATE: i128 = 5_000_000_000_000_000;

/// The net profit that a search must exceed for its result to be submitted
/// (0.005 ether).
pub const MIN_PROFIT: i128 = 5_000_000_000_000_000;

/// Gas limit and price of the creation of the helper contract.
pub const DEPLOY_GAS_LIMIT: u64 = 10_000_000;
pub const DEPLOY_GAS_PRICE: u128 = 20_000_000_000;

/// Gas limit of each transaction of a trial bundle, and the gas prices of its
/// buy, victim and sell transactions.
pub const TRIAL_GAS_LIMIT: u64 = 500_000;
pub const BUY_GAS_PRICE: u128 = 30_000_000_000;
pub const VICTIM_GAS_PRICE: u128 = 25_000_000_000;
pub const SELL_GAS_PRICE: u128 = 20_000_000_000;

/// Gas limit, priority fee and first nonce of the submitted transactions.
pub const ORDER_GAS_LIMIT: u64 = 350_000;
pub const ORDER_PRIORITY_FEE: u128 = 2_000_000_000;
pub const ORDER_NONCE: u64 = 10;

/// The chain that orders are signed for, and the block that they target.
pub const CHAIN_ID: u64 = 1;
pub const TARGET_BLOCK: u64 = 20_000_000;

/// The position of the victim's transaction in a trial bundle.
pub const VICTIM_POSITION: usize = 1;

/// The encoded call `buy(token, amount)` of the helper contract.
pub open spec fn buy_call(token: Address, amount: u128) -> Seq<u8> {
    selector_of("buy(address,uint256)".spec_bytes()) + address_word(token) + amount_word(amount)
}

/// The encoded call `sell(token)` of the helper contract.
pub open spec fn sell_call(token: Address) -> Seq<u8> {
    selector_of("sell(address)".spec_bytes()) + address_word(token)
}

/// The selector of the router's `swapExactETHForTokens`.
pub open spec fn swap_selector() -> Seq<u8> {
    selector_of("swapExactETHForTokens(uint256,address[],address,uint256)".spec_bytes())
}

/// The token path of a router call, when `input` is a `swapExactETHForTokens`
/// call whose parameters decode.
pub open spec fn swap_call_path(input: Seq<u8>) -> Option<Seq<Address>> {
    if input.len() >= 4 && input.subrange(0, 4) == swap_selector() {
        swap_path_of(input.subrange(4, input.len() as int))
    } else {
        None
    }
}

/// Encodes `buy(token, amount)`.
pub fn encode_buy(token: Address, amount: u128) -> (r: Vec<u8>)
    ensures
        r@ == buy_call(token, amount),
{
    let mut out: Vec<u8> = Vec::new();
    push_selector(&mut out, "buy(address,uint256)".as_bytes());
    push_address_word(&mut out, token);
    push_amount_word(&mut out, amount);
    proof {
        assert(out@ =~= buy_call(token, amount));
    }
    out
}

/// Encodes `sell(token)`.
pub fn encode_sell(token: Address) -> (r: Vec<u8>)
    ensures
        r@ == sell_call(token),
{
    let mut out: Vec<u8> = Vec::new();
    push_selector(&mut out, "sell(address)".as_bytes());
    push_address_word(&mut out, token);
    proof {
        assert(out@ =~= sell_call(token));
    }
    out
}

/// The token path of a router call, when `input` is a `swapExactETHForTokens`
/// call whose parameters decode.
pub fn decode_swap_call(input: &Vec<u8>) -> (r: Option<Vec<Address>>)
    ensures
        r matches Some(p) ==> swap_call_path(input@) == Some(p@),
        r is None ==> swap_call_path(input@) is None,
{
    if input.len() < 4 {
        return None;
    }
    let mut sel: Vec<u8> = Vec::new();
    push_selector(&mut sel, "swapExactETHForTokens(uint256,address[],address,uint256)".as_bytes());
    let mut i: usize = 0;
    while i < 4
        invariant
            i <= 4,
            4 <= input@.len(),
            sel@ == swap_selector(),
            sel@.len() == 4,
            forall|j: int| 0 <= j < i ==> input@[j] == sel@[j],
        decreases 4 - i,
    {
        if input[i] != sel[i] {
            proof {
                assert(input@.subrange(0, 4)[i as int] != swap_selector()[i as int]);
            }
            return None;
        }
        i = i + 1;
    }
    proof {
        assert(input@.subrange(0, 4) =~= swap_selector());
    }
    let params = slice_from(input, 4);
    decode_swap_path(params.as_slice())
}

/// The bytes of `v` from position `start` on.
fn slice_from(v: &Vec<u8>, start: usize) -> (r: Vec<u8>)
    requires
        start <= v@.len(),
    ensures
        r@ == v@.subrange(start as int, v@.len() as int),
{
    let mut r: Vec<u8> = Vec::new();
    let mut i: usize = start;
    while i < v.len()
        invariant
            start <= i <= v@.len(),
            r@ == v@.subrange(start as int, i as int),
        decreases v.len() - i,
    {
        r.push(v[i]);
        i = i + 1;
        proof {
            assert(r@ =~= v@.subrange(start as int, i as int));
        }
    }
    r
}

/// What the orchestrator is set up with.
pub struct StrategyConfig {
    pub router: Address,
    pub weth: Address,
    pub deployer: Address,
    pub helper_bytecode: Vec<u8>,
}

/// A pending transaction that swaps ether for tokens through the router.
pub struct VictimTx {
    pub sender: Address,
    pub value: u128,
    pub input: Vec<u8>,
}

/// A transaction to sign and submit: to the helper contract, with its call
/// data, value, gas limit, nonce and priority fee.
#[derive(Debug)]
pub struct OrderRequest {
    pub to: Address,
    pub data: Vec<u8>,
    pub value: u128,
    pub gas_limit: u64,
    pub nonce: u64,
    pub priority_fee: u128,
}

/// Why arming failed.
#[derive(Debug, PartialEq, Eq)]
pub enum DeploymentError {
    /// The creation bundle produced no result.
    Bundle(BundleError),
    /// The creation went through but reported no contract.
    NoContract,
}

/// The sandwich orchestrator: a base overlay that lives as long as the
/// process, and the helper contract once it is deployed.
pub struct UniswapStrategy {
    pub config: StrategyConfig,
    pub base: Overlay,
    pub contract_address: Option<Address>,
}

/// The creation input of the helper contract: its bytecode followed by the
/// router and the wrapped-ether addresses as constructor arguments.
pub open spec fn deployment_data(c: StrategyConfig) -> Seq<u8> {
    c.helper_bytecode@ + address_word(c.router) + address_word(c.weth)
}

/// The overlay of a trial: the base with the helper contract funded.
pub open spec fn trial_view(base: OverlayView, contract: Address) -> OverlayView {
    base.with_account(contract, base.balance_override(contract, TRIAL_FUNDING))
}

/// The nonce that an account has in an overlay, zero when it is not held.
pub open spec fn nonce_in(o: OverlayView, a: Address) -> u64 {
    match o.account(a) {
        Some(v) => v.nonce,
        None => 0,
    }
}

/// The balance that an account has, zero when it is not known.
pub open spec fn balance_or_zero(b: Option<u128>) -> u128 {
    match b {
        Some(x) => x,
        None => 0,
    }
}

/// How a trial bundle's result is read: a result with a failed critical
/// transaction is a critical failure; any other result earned the helper
/// contract's balance change; no result earned nothing.
pub open spec fn probe_outcome_of(completed: Option<bool>, before: Option<u128>, after: Option<u128>) -> ProbeOutcome {
    match completed {
        None => ProbeOutcome::Aborted,
        Some(true) => ProbeOutcome::CriticalFailure,
        Some(false) => ProbeOutcome::Completed {
            gross_revenue: clamp_i128(balance_or_zero(after) - balance_or_zero(before)),
        },
    }
}

/// Reads the result of a trial bundle as a probe outcome; `before` and `after`
/// are the helper contract's balance around the bundle.
pub fn classify_probe(result: &Result<BundleResult, BundleError>, before: Option<u128>, after: Option<u128>) -> (r: ProbeOutcome)
    ensures
        r == probe_outcome_of(
            match result {
                Ok(res) => Some(res.critical_failed),
                Err(_) => None,
            },
            before,
            after,
        ),
{
    match result {
        Err(_) => ProbeOutcome::Aborted,
        Ok(res) => {
            if res.critical_failed {
                ProbeOutcome::CriticalFailure
            } else {
                let b = match before {
                    Some(x) => x,
                    None => 0,
                };
                let a = match after {
                    Some(x) => x,
                    None => 0,
                };
                ProbeOutcome::Completed { gross_revenue: signed_delta(a, b) }
            }
        },
    }
}

/// The search that every candidate starts with.
pub fn search_start() -> (r: SearchState)
    ensures
        r.wf(),
        r == (SearchState {
            low: SEARCH_LOW,
            high: SEARCH_HIGH,
            best_amount: 0,
            best_profit: 0,
            probes_left: PROBE_BUDGET,
            gas_cost: GAS_COST_ESTIMATE,
        }),
{
    SearchState::new(SEARCH_LOW, SEARCH_HIGH, PROBE_BUDGET, GAS_COST_ESTIMATE)
}

impl UniswapStrategy {
    /// An orchestrator that is not armed yet.
    pub fn new(config: StrategyConfig, base: Overlay) -> (r: UniswapStrategy)
        ensures
            r.config == config,
            r.base@ == base@,
            r.contract_address is None,
    {
        UniswapStrategy { config, base, contract_address: None }
    }

    /// Whether the helper contract is deployed and injected.
    pub fn is_armed(&self) -> (r: bool)
        ensures
            r == self.contract_address is Some,
    {
        self.contract_address.is_some()
    }

    /// The creation input of the helper contract.
    pub fn deployment_input(&self) -> (r: Vec<u8>)
        ensures
            r@ == deployment_data(self.config),
    {
        let mut out = crate::types::copy_bytes(&self.config.helper_bytecode);
        push_address_word(&mut out, self.config.router);
        push_address_word(&mut out, self.config.weth);
        proof {
            assert(out@ =~= deployment_data(self.config));
        }
        out
    }

    /// Funds the deployer in the base overlay and returns the creation
    /// transaction of the helper contract, at the deployer's nonce. The caller
    /// runs it as a bundle of one against `self.base` and hands the result to
    /// `initialize`.
    pub fn prepare_deployment(&mut self) -> (r: TxIntent)
        ensures
            final(self).config == old(self).config,
            final(self).contract_address == old(self).contract_address,
            final(self).base@ == old(self).base@.with_account(
                old(self).config.deployer,
                old(self).base@.balance_override(old(self).config.deployer, DEPLOYER_FUNDING),
            ),
            r.caller == old(self).config.deployer,
            r.target == TxTarget::Create,
            r.value == 0,
            r.data@ == deployment_data(old(self).config),
            r.gas_limit == DEPLOY_GAS_LIMIT,
            r.gas_price == DEPLOY_GAS_PRICE,
            r.nonce == old(self).base@.balance_override(old(self).config.deployer, DEPLOYER_FUNDING).nonce,
    {
        let deployer = self.config.deployer;
        self.base.override_balance(deployer, DEPLOYER_FUNDING);
        let nonce = match self.base.nonce_of(deployer) {
            Some(n) => n,
            None => 0,
        };
        TxIntent {
            caller: deployer,
            target: TxTarget::Create,
            value: 0,
            data: self.deployment_input(),
            gas_limit: DEPLOY_GAS_LIMIT,
            gas_price: DEPLOY_GAS_PRICE,
            nonce,
        }
    }

    /// Arms the orchestrator with the result of the creation bundle: the code
    /// of the created contract is injected into the base overlay at its
    /// address, so that every later trial overlay sees it deployed. A result
    /// without a contract leaves the orchestrator as it was.
    pub fn initialize(&mut self, result: Result<BundleResult, BundleError>) -> (r: Result<Address, DeploymentError>)
        ensures
            final(self).config == old(self).config,
            match result {
                Ok(res) => match (res.created_address, res.created_code) {
                    (Some(a), Some(code)) => {
                        &&& r == Ok::<Address, DeploymentError>(a)
                        &&& final(self).contract_address == Some(a)
                        &&& final(self).base@ == old(self).base@.with_account(a, old(self).base@.code_override(a, code@))
                    },
                    _ => {
                        &&& r == Err::<Address, DeploymentError>(DeploymentError::NoContract)
                        &&& final(self).contract_address == old(self).contract_address
                        &&& final(self).base@ == old(self).base@
                    },
                },
                Err(e) => {
                    &&& r == Err::<Address, DeploymentError>(DeploymentError::Bundle(e))
                    &&& final(self).contract_address == old(self).contract_address
                    &&& final(self).base@ == old(self).base@
                },
            },
    {
        match result {
            Err(e) => Err(DeploymentError::Bundle(e)),
            Ok(res) => match (res.created_address, res.created_code) {
                (Some(a), Some(code)) => {
                    self.base.override_code(a, code);
                    self.contract_address = Some(a);
                    Ok(a)
                },
                _ => Err(DeploymentError::NoContract),
            },
        }
    }

    /// Whether a pending transaction is a candidate: the orchestrator is armed,
    /// the transaction goes to the router, and its input is a
    /// `swapExactETHForTokens` call. The decoded token path is returned.
    pub fn process_tx(&self, to: Option<Address>, input: &Vec<u8>) -> (r: Option<Vec<Address>>)
        ensures
            self.contract_address is None ==> r is None,
            to != Some(self.config.router) ==> r is None,
            self.contract_address is Some && to == Some(self.config.router) ==> (match r {
                Some(p) => swap_call_path(input@) == Some(p@),
                None => swap_call_path(input@) is None,
            }),
    {
        if self.contract_address.is_none() {
            return None;
        }
        match to {
            Some(t) => {
                if t != self.config.router {
                    return None;
                }
            },
            None => {
                return None;
            },
        }
        decode_swap_call(input)
    }

    /// The overlay and the three transactions of one probe at `amount`: a
    /// copy of the base overlay with the helper contract funded, then the
    /// helper's buy of `token` with `amount`, the victim's transaction as it
    /// is, and the helper's sell of `token`. The victim is the critical
    /// position (`VICTIM_POSITION`); the buy and sell come from the deployer at
    /// consecutive nonces. The base overlay is left as it is.
    pub fn probe(&self, amount: u128, victim: &VictimTx, token: Address) -> (r: (Overlay, Vec<TxIntent>))
        requires
            self.contract_address is Some,
        ensures
            r.0@ == trial_view(self.base@, self.contract_address->0),
            r.1@.len() == 3,
            r.1@[0].caller == self.config.deployer,
            r.1@[0].target == TxTarget::Call(self.contract_address->0),
            r.1@[0].value == 0,
            r.1@[0].data@ == buy_call(token, amount),
            r.1@[0].gas_limit == TRIAL_GAS_LIMIT,
            r.1@[0].gas_price == BUY_GAS_PRICE,
            r.1@[0].nonce == nonce_in(r.0@, self.config.deployer),
            r.1@[1].caller == victim.sender,
            r.1@[1].target == TxTarget::Call(self.config.router),
            r.1@[1].value == victim.value,
            r.1@[1].data@ == victim.input@,
            r.1@[1].gas_limit == TRIAL_GAS_LIMIT,
            r.1@[1].gas_price == VICTIM_GAS_PRICE,
            r.1@[1].nonce == nonce_in(r.0@, victim.sender),
            r.1@[2].caller == self.config.deployer,
            r.1@[2].target == TxTarget::Call(self.contract_address->0),
            r.1@[2].value == 0,
            r.1@[2].data@ == sell_call(token),
            r.1@[2].gas_limit == TRIAL_GAS_LIMIT,
            r.1@[2].gas_price == SELL_GAS_PRICE,
            r.1@[2].nonce == (if nonce_in(r.0@, self.config.deployer) < u64::MAX {
                (nonce_in(r.0@, self.config.deployer) + 1) as u64
            } else {
                u64::MAX
            }),
    {
        let contract = match self.contract_address {
            Some(c) => c,
            None => self.config.deployer,
        };
        let mut sandbox = self.base.duplicate();
        sandbox.override_balance(contract, TRIAL_FUNDING);
        let deployer = self.config.deployer;
        let buy_nonce = match sandbox.nonce_of(deployer) {
            Some(n) => n,
            None => 0,
        };
        let victim_nonce = match sandbox.nonce_of(victim.sender) {
            Some(n) => n,
            None => 0,
        };
        let sell_nonce = if buy_nonce < u64::MAX { buy_nonce + 1 } else { buy_nonce };
        let buy = TxIntent {
            caller: deployer,
            target: TxTarget::Call(contract),
            value: 0,
            data: encode_buy(token, amount),
            gas_limit: TRIAL_GAS_LIMIT,
            gas_price: BUY_GAS_PRICE,
            nonce: buy_nonce,
        };
        let middle = TxIntent {
            caller: victim.sender,
            target: TxTarget::Call(self.config.router),
            value: victim.value,
            data: crate::types::copy_bytes(&victim.input),
            gas_limit: TRIAL_GAS_LIMIT,
            gas_price: VICTIM_GAS_PRICE,
            nonce: victim_nonce,
        };
        let sell = TxIntent {
            caller: deployer,
            target: TxTarget::Call(contract),
            value: 0,
            data: encode_sell(token),
            gas_limit: TRIAL_GAS_LIMIT,
            gas_price: SELL_GAS_PRICE,
            nonce: sell_nonce,
        };
        let mut txs: Vec<TxIntent> = Vec::new();
        txs.push(buy);
        txs.push(middle);
        txs.push(sell);
        (sandbox, txs)
    }

    /// The orders to submit once a search has ended: `None` unless the
    /// orchestrator is armed, the path names a token, and the best profit
    /// exceeds `MIN_PROFIT`; otherwise a buy of the token with the best amount
    /// and a sell of it, both to the helper contract, at consecutive nonces.
    pub fn submission(&self, search: &SearchState, path: &Vec<Address>) -> (r: Option<Vec<OrderRequest>>)
        ensures
            r is Some <==> (self.contract_address is Some && path@.len() >= 2 && search.best_profit > MIN_PROFIT),
            r matches Some(orders) ==> {
                &&& orders@.len() == 2
                &&& orders@[0].to == self.contract_address->0
                &&& orders@[0].data@ == buy_call(path@[1], search.best_amount)
                &&& orders@[0].value == search.best_amount
                &&& orders@[0].gas_limit == ORDER_GAS_LIMIT
                &&& orders@[0].nonce == ORDER_NONCE
                &&& orders@[0].priority_fee == ORDER_PRIORITY_FEE
                &&& orders@[1].to == self.contract_address->0
                &&& orders@[1].data@ == sell_call(path@[1])
                &&& orders@[1].value == 0
                &&& orders@[1].gas_limit == ORDER_GAS_LIMIT
                &&& orders@[1].nonce == ORDER_NONCE + 1
                &&& orders@[1].priority_fee == ORDER_PRIORITY_FEE
            },
    {
        let contract = match self.contract_address {
            Some(c) => c,
            None => {
                return None;
            },
        };
        if path.len() < 2 || !crate::optimizer::should_submit(search.best_profit, MIN_PROFIT) {
            return None;
        }
        let token = path[1];
        let mut orders: Vec<OrderRequest> = Vec::new();
        orders.push(OrderRequest {
            to: contract,
            data: encode_buy(token, search.best_amount),
            value: search.best_amount,
            gas_limit: ORDER_GAS_LIMIT,
            nonce: ORDER_NONCE,
            priority_fee: ORDER_PRIORITY_FEE,
        });
        orders.push(OrderRequest {
            to: contract,
            data: encode_sell(token),
            value: 0,
            gas_limit: ORDER_GAS_LIMIT,
            nonce: ORDER_NONCE + 1,
            priority_fee: ORDER_PRIORITY_FEE,
        });
        Some(orders)
    }
}

} // verus!
