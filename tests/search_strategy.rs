use alloy_sol_types::SolValue;
use mev_searcher::bundle::{BundleError, BundleResult, TxTarget};
use mev_searcher::optimizer::{net_profit, should_submit, ProbeOutcome, SearchState};
use mev_searcher::overlay::Overlay;
use mev_searcher::strategy::{
    classify_probe, decode_swap_call, encode_buy, encode_sell, search_start, DeploymentError, StrategyConfig,
    UniswapStrategy, VictimTx, DEPLOYER_FUNDING, MIN_PROFIT, ONE_ETHER, TRIAL_FUNDING,
};
use mev_searcher::types::{AccountInfo, Address};

fn addr(n: u32) -> Address {
    Address { hi: 0, lo: n }
}

fn to_alloy(a: Address) -> alloy_primitives::Address {
    let mut b = a.hi.to_be_bytes().to_vec();
    b.extend(a.lo.to_be_bytes());
    alloy_primitives::Address::from_slice(&b)
}

fn word(a: Address) -> Vec<u8> {
    let mut w = vec![0u8; 12];
    w.extend(to_alloy(a).as_slice());
    w
}

fn selector(sig: &str) -> Vec<u8> {
    alloy_primitives::keccak256(sig.as_bytes())[..4].to_vec()
}

fn swap_input(path: &[Address]) -> Vec<u8> {
    let params = (
        alloy_primitives::U256::from(1u64),
        path.iter().map(|a| to_alloy(*a)).collect::<Vec<_>>(),
        to_alloy(addr(9)),
        alloy_primitives::U256::from(2u64),
    );
    let mut input = selector("swapExactETHForTokens(uint256,address[],address,uint256)");
    input.extend(params.abi_encode_params());
    input
}

fn config() -> StrategyConfig {
    StrategyConfig { router: addr(100), weth: addr(101), deployer: addr(102), helper_bytecode: vec![0x60, 0x80] }
}

fn created(a: Address, code: Vec<u8>) -> Result<BundleResult, BundleError> {
    Ok(BundleResult {
        total_gas: 100,
        critical_failed: false,
        revert_reason: None,
        attacker_delta: 0,
        created_address: Some(a),
        created_code: Some(code),
    })
}

fn armed() -> UniswapStrategy {
    let mut s = UniswapStrategy::new(config(), Overlay::new());
    s.prepare_deployment();
    s.initialize(created(addr(200), vec![0xca, 0xfe])).unwrap();
    s
}

#[test]
fn end_to_end_bracket_converges_below_threshold() {
    let threshold = 2 * ONE_ETHER;
    let mut s = search_start();
    assert_eq!((s.low, s.high, s.probes_left), (ONE_ETHER / 100, 10 * ONE_ETHER, 8));
    let mut probes = 0;
    while !s.is_finished() {
        let mid = s.midpoint();
        let outcome = if mid > threshold {
            ProbeOutcome::CriticalFailure
        } else {
            ProbeOutcome::Completed { gross_revenue: (mid / 50) as i128 }
        };
        s.record(outcome);
        probes += 1;
    }
    assert_eq!(probes, 8);
    assert!(s.best_amount <= threshold);
    assert!(s.best_amount > 0);
    assert!(s.high >= threshold);
    assert!(s.high - threshold < ONE_ETHER / 10);
    assert_eq!(s.best_profit, (s.best_amount / 50) as i128 - 5_000_000_000_000_000);
}

#[test]
fn critical_failure_lowers_high_strictly() {
    let mut s = SearchState::new(10, 20, 3, 0);
    s.record(ProbeOutcome::CriticalFailure);
    assert_eq!((s.low, s.high), (10, 15));
    s.record(ProbeOutcome::CriticalFailure);
    assert_eq!((s.low, s.high), (10, 12));
    assert_eq!(s.best_amount, 0);
    assert_eq!(s.probes_left, 1);
}

#[test]
fn best_profit_never_falls() {
    let mut s = SearchState::new(0, 1000, 4, 10);
    s.record(ProbeOutcome::Completed { gross_revenue: 60 });
    assert_eq!((s.best_amount, s.best_profit, s.low), (500, 50, 500));
    s.record(ProbeOutcome::Completed { gross_revenue: 30 });
    assert_eq!((s.best_amount, s.best_profit, s.low), (500, 50, 750));
    s.record(ProbeOutcome::Completed { gross_revenue: 60 });
    assert_eq!((s.best_amount, s.best_profit), (500, 50));
    s.record(ProbeOutcome::Aborted);
    assert_eq!((s.best_amount, s.best_profit), (500, 50));
    assert!(s.is_finished());
}

#[test]
fn net_profit_values() {
    assert_eq!(net_profit(100, 30), 70);
    assert_eq!(net_profit(-5, 10), -15);
    assert_eq!(net_profit(i128::MIN, 1), i128::MIN);
    assert_eq!(net_profit(i128::MAX, -1), i128::MAX);
}

#[test]
fn small_profit_is_not_submitted() {
    assert!(!should_submit(1_000_000_000_000_000, 5_000_000_000_000_000));
    assert!(!should_submit(MIN_PROFIT, MIN_PROFIT));
    assert!(should_submit(MIN_PROFIT + 1, MIN_PROFIT));
    let s = armed();
    let mut search = search_start();
    search.best_profit = 1_000_000_000_000_000;
    search.best_amount = ONE_ETHER;
    assert!(s.submission(&search, &vec![addr(101), addr(300)]).is_none());
}

#[test]
fn profitable_search_yields_buy_and_sell_orders() {
    let s = armed();
    let mut search = search_start();
    search.best_profit = 6_000_000_000_000_000;
    search.best_amount = ONE_ETHER;
    let orders = s.submission(&search, &vec![addr(101), addr(300)]).unwrap();
    assert_eq!(orders.len(), 2);
    assert_eq!(orders[0].to, addr(200));
    assert_eq!(orders[0].value, ONE_ETHER);
    assert_eq!(orders[0].data, encode_buy(addr(300), ONE_ETHER));
    assert_eq!((orders[0].nonce, orders[1].nonce), (10, 11));
    assert_eq!(orders[1].value, 0);
    assert_eq!(orders[1].data, encode_sell(addr(300)));
    assert!(s.submission(&search, &vec![addr(101)]).is_none());
    let unarmed = UniswapStrategy::new(config(), Overlay::new());
    assert!(unarmed.submission(&search, &vec![addr(101), addr(300)]).is_none());
}

#[test]
fn helper_calls_are_encoded() {
    let buy = encode_buy(addr(300), 258);
    let mut expected = selector("buy(address,uint256)");
    expected.extend(word(addr(300)));
    let mut amount = vec![0u8; 30];
    amount.extend([1u8, 2u8]);
    expected.extend(amount);
    assert_eq!(buy, expected);
    let mut sell = selector("sell(address)");
    sell.extend(word(addr(300)));
    assert_eq!(encode_sell(addr(300)), sell);
}

#[test]
fn swap_call_is_decoded() {
    let path = vec![addr(101), addr(300)];
    assert_eq!(decode_swap_call(&swap_input(&path)), Some(path));
    let mut other = swap_input(&[addr(1), addr(2)]);
    other[0] ^= 0xff;
    assert_eq!(decode_swap_call(&other), None);
    assert_eq!(decode_swap_call(&vec![0x7f, 0xf3]), None);
}

#[test]
fn only_router_swaps_are_candidates_once_armed() {
    let input = swap_input(&[addr(101), addr(300)]);
    let unarmed = UniswapStrategy::new(config(), Overlay::new());
    assert!(unarmed.process_tx(Some(addr(100)), &input).is_none());
    let s = armed();
    assert_eq!(s.process_tx(Some(addr(100)), &input), Some(vec![addr(101), addr(300)]));
    assert!(s.process_tx(Some(addr(55)), &input).is_none());
    assert!(s.process_tx(None, &input).is_none());
    assert!(s.process_tx(Some(addr(100)), &vec![1, 2, 3, 4, 5]).is_none());
}

#[test]
fn deployment_funds_deployer_and_builds_creation() {
    let mut s = UniswapStrategy::new(config(), Overlay::new());
    let mut expected = vec![0x60, 0x80];
    expected.extend(word(addr(100)));
    expected.extend(word(addr(101)));
    assert_eq!(s.deployment_input(), expected);
    let tx = s.prepare_deployment();
    assert_eq!(tx.caller, addr(102));
    assert_eq!(tx.target, TxTarget::Create);
    assert_eq!(tx.data, expected);
    assert_eq!(tx.nonce, 0);
    assert_eq!(s.base.balance_of(addr(102)), Some(DEPLOYER_FUNDING));
}

#[test]
fn deployment_failure_keeps_strategy_disarmed() {
    let mut s = UniswapStrategy::new(config(), Overlay::new());
    assert_eq!(s.initialize(Err(BundleError::EmptyBundle)), Err(DeploymentError::Bundle(BundleError::EmptyBundle)));
    assert!(!s.is_armed());
    let none = Ok(BundleResult {
        total_gas: 0,
        critical_failed: false,
        revert_reason: None,
        attacker_delta: 0,
        created_address: None,
        created_code: None,
    });
    assert_eq!(s.initialize(none), Err(DeploymentError::NoContract));
    assert!(!s.is_armed());
}

#[test]
fn arming_injects_code_into_base() {
    let s = armed();
    assert!(s.is_armed());
    assert_eq!(s.contract_address, Some(addr(200)));
    assert_eq!(s.base.account(addr(200)).unwrap().code, Some(vec![0xca, 0xfe]));
}

#[test]
fn probe_builds_three_transactions_on_a_copy() {
    let mut s = armed();
    s.base.memoize_account(addr(77), AccountInfo::from_remote(5 * ONE_ETHER, 3, vec![]));
    let victim = VictimTx { sender: addr(77), value: ONE_ETHER, input: vec![1, 2] };
    let (trial, txs) = s.probe(ONE_ETHER, &victim, addr(300));
    assert_eq!(trial.balance_of(addr(200)), Some(TRIAL_FUNDING));
    assert_eq!(trial.account(addr(200)).unwrap().code, Some(vec![0xca, 0xfe]));
    assert_eq!(s.base.balance_of(addr(200)), Some(0));
    assert_eq!(txs.len(), 3);
    assert_eq!(txs[0].caller, addr(102));
    assert_eq!(txs[0].target, TxTarget::Call(addr(200)));
    assert_eq!(txs[0].data, encode_buy(addr(300), ONE_ETHER));
    assert_eq!(txs[0].nonce, 0);
    assert_eq!(txs[1].caller, addr(77));
    assert_eq!(txs[1].target, TxTarget::Call(addr(100)));
    assert_eq!(txs[1].value, ONE_ETHER);
    assert_eq!(txs[1].data, vec![1, 2]);
    assert_eq!(txs[1].nonce, 3);
    assert_eq!(txs[2].data, encode_sell(addr(300)));
    assert_eq!(txs[2].nonce, 1);
}

#[test]
fn probe_results_are_classified() {
    let ok = |critical: bool| {
        Ok(BundleResult {
            total_gas: 1,
            critical_failed: critical,
            revert_reason: None,
            attacker_delta: 0,
            created_address: None,
            created_code: None,
        })
    };
    assert_eq!(classify_probe(&ok(true), Some(10), Some(50)), ProbeOutcome::CriticalFailure);
    assert_eq!(classify_probe(&ok(false), Some(10), Some(50)), ProbeOutcome::Completed { gross_revenue: 40 });
    assert_eq!(classify_probe(&ok(false), Some(50), Some(10)), ProbeOutcome::Completed { gross_revenue: -40 });
    assert_eq!(classify_probe(&ok(false), None, Some(7)), ProbeOutcome::Completed { gross_revenue: 7 });
    assert_eq!(classify_probe(&Err(BundleError::EmptyBundle), Some(1), Some(2)), ProbeOutcome::Aborted);
}
