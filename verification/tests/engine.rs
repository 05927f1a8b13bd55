use cw_abc::abc::{
    ClosedConfig, CommonsPhase, CommonsPhaseConfig, CurveType, HatchConfig, MinMax, OpenConfig,
    ReserveToken, StdDecimal, SupplyToken,
};
use cw_abc::commands;
use cw_abc::contract::{instantiate, reply};
use cw_abc::error::{ContractError, OwnershipError, PaymentError};
use cw_abc::msg::{AbcMsg, Coin, DonationPool, ExecuteMsg, InstantiateMsg, MessageInfo};
use cw_abc::queries;
use cw_abc::state::{AbcState, Ledger};

const TEST_RESERVE_DENOM: &str = "uosmo";
const TEST_CREATOR: &str = "creator";
const TEST_DONOR: &str = "donor";
const TEST_BUYER: &str = "buyer";
const ISSUER: &str = "issuer_contract";
const SELF_ADDR: &str = "abc_contract";

fn info(sender: &str, funds: &[(u128, &str)]) -> MessageInfo {
    MessageInfo {
        sender: sender.to_string(),
        funds: funds
            .iter()
            .map(|(amount, denom)| Coin { denom: denom.to_string(), amount: *amount })
            .collect(),
    }
}

fn default_instantiate_msg(
    supply_decimals: u8,
    reserve_decimals: u8,
    curve_type: CurveType,
) -> InstantiateMsg {
    InstantiateMsg {
        token_issuer_code_id: 1,
        funding_pool_forwarding: None,
        supply: SupplyToken {
            subdenom: "abc".to_string(),
            metadata: None,
            decimals: supply_decimals,
            max_supply: None,
        },
        reserve: ReserveToken { denom: TEST_RESERVE_DENOM.to_string(), decimals: reserve_decimals },
        curve_type,
        phase_config: CommonsPhaseConfig {
            hatch: HatchConfig {
                contribution_limits: MinMax { min: 100, max: 1_000_000 },
                initial_raise: MinMax { min: 1000, max: 10_000 },
                entry_fee: StdDecimal::percent(10),
                exit_fee: StdDecimal::percent(10),
            },
            open: OpenConfig {
                entry_fee: StdDecimal::percent(5),
                exit_fee: StdDecimal::percent(5),
            },
            closed: ClosedConfig {},
        },
        hatcher_allowlist: None,
    }
}

fn mock_init(msg: InstantiateMsg) -> AbcState {
    let mut state = instantiate(&info(TEST_CREATOR, &[]), msg).unwrap();
    reply(&mut state, &SELF_ADDR.to_string(), 0, ISSUER.to_string()).unwrap();
    state
}

fn exec_donate(state: &mut AbcState, donation_amount: u128) -> Result<Vec<AbcMsg>, ContractError> {
    commands::donate(
        state,
        &info(TEST_DONOR, &[(donation_amount, TEST_RESERVE_DENOM)]),
        DonationPool::Funding {},
    )
}

#[test]
fn should_fail_with_no_funds() {
    let curve_type = CurveType::Linear { slope: 1, scale: 1 };
    let mut state = mock_init(default_instantiate_msg(2, 8, curve_type));

    let res = exec_donate(&mut state, 0);
    assert_eq!(res.unwrap_err(), ContractError::Payment(PaymentError::NoFunds));
}

#[test]
fn should_fail_with_incorrect_denom() {
    let curve_type = CurveType::Linear { slope: 1, scale: 1 };
    let mut state = mock_init(default_instantiate_msg(2, 8, curve_type));

    let res = commands::donate(
        &mut state,
        &info(TEST_DONOR, &[(1, "fake")]),
        DonationPool::Funding {},
    );
    assert_eq!(
        res.unwrap_err(),
        ContractError::Payment(PaymentError::MissingDenom {
            denom: TEST_RESERVE_DENOM.to_string()
        })
    );
}

#[test]
fn test_donation() {
    // this matches the square-root curve case from the curve tests
    let curve_type = CurveType::SquareRoot { slope: 1, scale: 1 };
    let mut state = mock_init(default_instantiate_msg(2, 8, curve_type));

    let donation_amount = 5;
    exec_donate(&mut state, donation_amount).unwrap();

    // check that the curve's funding has been increased while supply and reserve have not
    assert_eq!(state.curve_state.funding, donation_amount);
    assert_eq!(state.curve_state.supply, 0);
    assert_eq!(state.curve_state.reserve, 0);

    // check that the donor is in the donations map
    assert_eq!(
        queries::do_query(
            &state,
            queries::QueryMsg::Donations { start_after: None, limit: None }
        )
        .unwrap(),
        queries::QueryResponse::Donations(cw_abc::msg::DonationsResponse {
            donations: vec![cw_abc::state::LedgerEntry {
                addr: TEST_DONOR.to_string(),
                amount: donation_amount
            }]
        })
    );

    // check that the owner can withdraw
    commands::withdraw(&mut state, &info(TEST_CREATOR, &[]), None).unwrap();
    assert_eq!(state.curve_state.funding, 0);

    // check that a random can't withdraw
    let res = commands::withdraw(&mut state, &info("random", &[]), None);
    assert_eq!(res.unwrap_err(), ContractError::Ownership(OwnershipError::NotOwner));

    // execute donation to the reserve pool
    commands::donate(
        &mut state,
        &info(TEST_DONOR, &[(donation_amount, TEST_RESERVE_DENOM)]),
        DonationPool::Reserve {},
    )
    .unwrap();

    // check that the curve's reserve has been increased while supply has not
    assert_eq!(state.curve_state.reserve, donation_amount);
    assert_eq!(state.curve_state.supply, 0);

    // check that the donor's lifetime total accumulated
    assert_eq!(state.donations.get(&TEST_DONOR.to_string()), Some(donation_amount * 2));
}

#[test]
fn should_send_to_funding_pool_forwarding() {
    let curve_type = CurveType::SquareRoot { slope: 1, scale: 1 };
    let mut msg = default_instantiate_msg(2, 8, curve_type);
    msg.funding_pool_forwarding = Some(TEST_CREATOR.to_string());
    let mut state = mock_init(msg);

    let donation_amount = 5;
    let msgs = exec_donate(&mut state, donation_amount).unwrap();

    // the funding pool did not increase: the donation was forwarded instead
    assert_eq!(state.curve_state.funding, 0);
    assert_eq!(
        msgs,
        vec![AbcMsg::Send {
            to: TEST_CREATOR.to_string(),
            denom: TEST_RESERVE_DENOM.to_string(),
            amount: donation_amount
        }]
    );

    // check that the donor is in the donations map
    assert_eq!(state.donations.get(&TEST_DONOR.to_string()), Some(donation_amount));
}

#[test]
fn commands_test_pause() {
    let curve_type = CurveType::SquareRoot { slope: 1, scale: 1 };
    let mut state = mock_init(default_instantiate_msg(2, 8, curve_type));
    let block = cw_abc::msg::BlockInfo { height: 1, time: 1 };
    let no_weights = Ledger::new();

    // Ensure not paused on instantiate
    assert!(!state.is_paused);

    // Ensure random cannot pause
    let res = commands::toggle_pause(&mut state, &info("random", &[]));
    assert_eq!(res.unwrap_err(), ContractError::Ownership(OwnershipError::NotOwner));

    // Ensure paused after toggling
    commands::toggle_pause(&mut state, &info(TEST_CREATOR, &[])).unwrap();
    assert!(state.is_paused);

    // Ensure random cannot do anything
    let res = commands::execute(
        &mut state,
        &block,
        &info("random", &[]),
        ExecuteMsg::TogglePause {},
        &no_weights,
    );
    assert_eq!(res.unwrap_err(), ContractError::Paused);

    // Ensure unpaused after toggling
    commands::toggle_pause(&mut state, &info(TEST_CREATOR, &[])).unwrap();
    assert!(!state.is_paused);
}

#[test]
fn test_buy_in_hatch_phase() {
    let curve_type = CurveType::Linear { slope: 1, scale: 1 };
    let mut msg = default_instantiate_msg(6, 6, curve_type);
    msg.phase_config.hatch.initial_raise = MinMax { min: 1000, max: 1_000_000 };
    let mut state = mock_init(msg);

    let buy_amount = 1000u128;
    commands::buy(
        &mut state,
        &info(TEST_BUYER, &[(buy_amount, TEST_RESERVE_DENOM)]),
        &Ledger::new(),
    )
    .unwrap();

    assert!(state.curve_state.supply > 0);
    // Buy amount minus the 10% entry fee
    assert_eq!(state.curve_state.reserve, buy_amount - 100);
    assert_eq!(state.phase, CommonsPhase::Hatch);
}

#[test]
fn test_transition_to_open_phase() {
    let curve_type = CurveType::Linear { slope: 1, scale: 1 };
    let mut msg = default_instantiate_msg(6, 6, curve_type);
    msg.phase_config.hatch.contribution_limits = MinMax { min: 100, max: 10_000_000 };
    msg.phase_config.hatch.initial_raise = MinMax { min: 1000, max: 1_000_000 };
    // the hatch ends when the post-fee reserve reaches the raise target,
    // so a fee-free hatch lets the full payment count toward it
    msg.phase_config.hatch.entry_fee = StdDecimal::zero();
    let mut state = mock_init(msg);

    // Buy the whole raise in one purchase
    let buy_amount = 1_000_000u128;
    commands::buy(
        &mut state,
        &info(TEST_BUYER, &[(buy_amount, TEST_RESERVE_DENOM)]),
        &Ledger::new(),
    )
    .unwrap();

    assert_eq!(state.phase, CommonsPhase::Open);
    // the hatcher ledger and the allowlist were cleared with the transition
    assert!(state.hatchers.is_empty());
    assert!(state.hatcher_allowlist.is_empty());

    // Now try to sell
    let supply_denom = queries::get_denom(&state).unwrap().denom;
    commands::sell(&mut state, &info(TEST_BUYER, &[(1000, &supply_denom)])).unwrap();
}

#[test]
fn test_update_curve_parameters() {
    let curve_type = CurveType::Linear { slope: 1, scale: 1 };
    let mut state = mock_init(default_instantiate_msg(6, 6, curve_type));

    let new_curve_type = CurveType::SquareRoot { slope: 2, scale: 1 };
    commands::update_curve(&mut state, &info(TEST_CREATOR, &[]), new_curve_type).unwrap();

    assert_eq!(state.curve_type, new_curve_type);
}

#[test]
fn test_query_functions() {
    let curve_type = CurveType::Linear { slope: 1, scale: 1 };
    let state = mock_init(default_instantiate_msg(6, 6, curve_type));

    let curve_info = queries::query_curve_info(&state).unwrap();
    assert_eq!(curve_info.reserve, 0);
    assert_eq!(curve_info.supply, 0);

    assert_eq!(state.phase, CommonsPhase::Hatch);
    assert_eq!(state.curve_type, CurveType::Linear { slope: 1, scale: 1 });
}

#[test]
fn test_contribution_limits() {
    let curve_type = CurveType::Linear { slope: 1, scale: 1 };
    let mut msg = default_instantiate_msg(6, 6, curve_type);
    msg.phase_config.hatch.contribution_limits = MinMax { min: 100, max: 1000 };
    let mut state = mock_init(msg);

    // Test minimum contribution limit
    let res = commands::buy(
        &mut state,
        &info(TEST_BUYER, &[(99, TEST_RESERVE_DENOM)]),
        &Ledger::new(),
    );
    assert_eq!(res.unwrap_err(), ContractError::ContributionLimit { min: 100, max: 1000 });

    // Test maximum contribution limit
    let res = commands::buy(
        &mut state,
        &info(TEST_BUYER, &[(1001, TEST_RESERVE_DENOM)]),
        &Ledger::new(),
    );
    assert_eq!(res.unwrap_err(), ContractError::ContributionLimit { min: 100, max: 1000 });

    // Test valid contribution
    let res = commands::buy(
        &mut state,
        &info(TEST_BUYER, &[(500, TEST_RESERVE_DENOM)]),
        &Ledger::new(),
    );
    assert!(res.is_ok());
}

#[test]
fn test_max_supply() {
    let curve_type = CurveType::Constant { value: 1, scale: 0 };
    let mut msg = default_instantiate_msg(6, 6, curve_type);
    msg.supply.max_supply = Some(10_000);
    msg.phase_config.hatch.entry_fee = StdDecimal::zero();
    msg.phase_config.hatch.contribution_limits = MinMax { min: 1, max: 1_000_000 };
    msg.phase_config.hatch.initial_raise = MinMax { min: 1000, max: 1_000_000 };
    let mut state = mock_init(msg);

    // Buy tokens up to max supply
    commands::buy(
        &mut state,
        &info(TEST_BUYER, &[(10_000, TEST_RESERVE_DENOM)]),
        &Ledger::new(),
    )
    .unwrap();

    // Attempt to buy more tokens
    let res = commands::buy(
        &mut state,
        &info(TEST_BUYER, &[(100, TEST_RESERVE_DENOM)]),
        &Ledger::new(),
    );
    assert_eq!(res.unwrap_err(), ContractError::CannotExceedMaxSupply { max: 10_000 });

    // Verify max supply
    assert_eq!(state.curve_state.supply, 10_000);
}

#[test]
fn test_closing_curve() {
    let curve_type = CurveType::Linear { slope: 1, scale: 1 };
    let mut msg = default_instantiate_msg(6, 6, curve_type);
    msg.phase_config.hatch.contribution_limits = MinMax { min: 100, max: 10_000_000 };
    msg.phase_config.hatch.initial_raise = MinMax { min: 1000, max: 1_000_000 };
    msg.phase_config.hatch.entry_fee = StdDecimal::zero();
    let mut state = mock_init(msg);

    // Buy tokens to transition to open phase
    commands::buy(
        &mut state,
        &info(TEST_BUYER, &[(1_000_000, TEST_RESERVE_DENOM)]),
        &Ledger::new(),
    )
    .unwrap();

    // Close the curve
    commands::close(&mut state, &info(TEST_CREATOR, &[])).unwrap();

    // Verify curve is closed
    assert_eq!(state.phase, CommonsPhase::Closed);

    // Attempt to buy tokens (should fail)
    let res = commands::buy(
        &mut state,
        &info(TEST_BUYER, &[(500, TEST_RESERVE_DENOM)]),
        &Ledger::new(),
    );
    assert_eq!(res.unwrap_err(), ContractError::CommonsClosed);

    // Sell tokens (should succeed with no exit fee)
    let supply_denom = queries::get_denom(&state).unwrap().denom;
    let funding_before = state.curve_state.funding;
    let res = commands::sell(&mut state, &info(TEST_BUYER, &[(1000, &supply_denom)]));
    assert!(res.is_ok());
    // zero exit fee in the Closed phase: nothing accrued to the funding pool
    assert_eq!(state.curve_state.funding, funding_before);
}
