use cw_abc::abc::{
    ClosedConfig, CommonsPhase, CommonsPhaseConfig, CurveType, HatchConfig, MinMax, OpenConfig,
    ReserveToken, StdDecimal, SupplyToken,
};
use cw_abc::allowlist::{
    HatcherAllowlistConfig, HatcherAllowlistConfigType, HatcherAllowlistEntry,
};
use cw_abc::commands;
use cw_abc::contract::{instantiate, reply};
use cw_abc::error::{ContractError, OwnershipError, PaymentError};
use cw_abc::curve::{DecimalPlaces, Linear};
use cw_abc::msg::{
    AbcMsg, Action, BlockInfo, Coin, DonationPool, ExecuteMsg, Expiration, InstantiateMsg,
    MessageInfo,
};
use cw_abc::state::{AbcState, Ledger, LedgerEntry};

const TEST_RESERVE_DENOM: &str = "uosmo";
const CREATOR: &str = "creator";
const BUYER: &str = "buyer";
const DONOR: &str = "donor";
const ISSUER: &str = "issuer_contract";
const SELF_ADDR: &str = "abc_contract";

fn info2(sender: &str, funds: &[(u128, &str)]) -> MessageInfo {
    MessageInfo {
        sender: sender.to_string(),
        funds: funds
            .iter()
            .map(|(amount, denom)| Coin { denom: denom.to_string(), amount: *amount })
            .collect(),
    }
}

fn default_instantiate(curve_type: CurveType, funding_pool_forwarding: Option<String>) -> InstantiateMsg {
    InstantiateMsg {
        token_issuer_code_id: 1,
        funding_pool_forwarding,
        supply: SupplyToken {
            subdenom: "abc".to_string(),
            metadata: None,
            decimals: 6,
            max_supply: None,
        },
        reserve: ReserveToken { denom: TEST_RESERVE_DENOM.to_string(), decimals: 6 },
        curve_type,
        phase_config: CommonsPhaseConfig {
            hatch: HatchConfig {
                contribution_limits: MinMax { min: 100, max: 1_000_000 },
                initial_raise: MinMax { min: 1000, max: 10_000 },
                entry_fee: StdDecimal::percent(10),
                exit_fee: StdDecimal::percent(10),
            },
            open: OpenConfig {
                entry_fee: StdDecimal::percent(5),
                exit_fee: StdDecimal::percent(5),
            },
            closed: ClosedConfig {},
        },
        hatcher_allowlist: None,
    }
}

fn init(msg: InstantiateMsg) -> AbcState {
    let mut state = instantiate(&info2(CREATOR, &[]), msg).unwrap();
    reply(&mut state, &SELF_ADDR.to_string(), 0, ISSUER.to_string()).unwrap();
    state
}

#[test]
fn donate_should_fail_with_no_funds() {
    let curve_type = CurveType::Linear { slope: 1, scale: 1 };
    let mut state = init(default_instantiate(curve_type, None));

    let result = commands::donate(&mut state, &info2(DONOR, &[]), DonationPool::Funding {});
    assert_eq!(result.unwrap_err(), ContractError::Payment(PaymentError::NoFunds));
}

#[test]
fn donate_should_fail_with_incorrect_denom() {
    let curve_type = CurveType::Linear { slope: 1, scale: 1 };
    let mut state = init(default_instantiate(curve_type, None));

    let result = commands::donate(
        &mut state,
        &info2(DONOR, &[(1, "fake")]),
        DonationPool::Funding {},
    );
    assert_eq!(
        result.unwrap_err(),
        ContractError::Payment(PaymentError::MissingDenom {
            denom: TEST_RESERVE_DENOM.to_string()
        })
    );
}

#[test]
fn donate_should_forward_to_funding_pool() {
    let curve_type = CurveType::SquareRoot { slope: 1, scale: 1 };
    let mut state = init(default_instantiate(curve_type, Some(CREATOR.to_string())));

    let donation_amount = 5u128;
    commands::donate(
        &mut state,
        &info2(DONOR, &[(donation_amount, TEST_RESERVE_DENOM)]),
        DonationPool::Funding {},
    )
    .unwrap();

    assert_eq!(state.curve_state.funding, 0);

    let donations = cw_abc::queries::query_donations(&state, None, None).donations;
    assert!(donations.len() == 1);
}

#[test]
fn test_donate_and_withdraw() {
    let curve_type = CurveType::SquareRoot { slope: 1, scale: 1 };
    let mut state = init(default_instantiate(curve_type, None));

    let donation_amount = 5u128;
    commands::donate(
        &mut state,
        &info2(DONOR, &[(donation_amount, TEST_RESERVE_DENOM)]),
        DonationPool::Funding {},
    )
    .unwrap();

    assert_eq!(state.curve_state.funding, donation_amount);

    // Random user can't withdraw
    let result = commands::withdraw(&mut state, &info2("random", &[]), None);
    assert_eq!(result.unwrap_err(), ContractError::Ownership(OwnershipError::NotOwner));

    // Creator can withdraw
    commands::withdraw(&mut state, &info2(CREATOR, &[]), None).unwrap();
    assert_eq!(state.curve_state.funding, 0);
}

#[test]
fn tests_test_pause() {
    let curve_type = CurveType::SquareRoot { slope: 1, scale: 1 };
    let mut state = init(default_instantiate(curve_type, None));
    let block = BlockInfo { height: 1, time: 1 };
    let no_weights = Ledger::new();

    assert!(!state.is_paused);

    // Random user can't pause
    let result = commands::toggle_pause(&mut state, &info2("random", &[]));
    assert_eq!(result.unwrap_err(), ContractError::Ownership(OwnershipError::NotOwner));

    // Creator can pause
    commands::toggle_pause(&mut state, &info2(CREATOR, &[])).unwrap();
    assert!(state.is_paused);

    // Can't execute when paused
    let result = commands::execute(
        &mut state,
        &block,
        &info2(BUYER, &[(100, TEST_RESERVE_DENOM)]),
        ExecuteMsg::Buy {},
        &no_weights,
    );
    assert_eq!(result.unwrap_err(), ContractError::Paused);

    // Creator can unpause
    commands::toggle_pause(&mut state, &info2(CREATOR, &[])).unwrap();
    assert!(!state.is_paused);
}

#[test]
fn buy_at_initial_raise_max_transitions_and_clears() {
    // A purchase whose post-purchase reserve total reaches the
    // initial-raise maximum ends the hatch: the phase moves to Open and
    // the hatcher ledger and allowlist are cleared.
    let curve_type = CurveType::Constant { value: 1, scale: 0 };
    let mut msg = default_instantiate(curve_type, None);
    msg.phase_config.hatch.contribution_limits = MinMax { min: 1, max: 1_000_000 };
    msg.phase_config.hatch.initial_raise = MinMax { min: 1000, max: 10_000 };
    msg.phase_config.hatch.entry_fee = StdDecimal::zero();
    msg.hatcher_allowlist = Some(vec![HatcherAllowlistEntry {
        addr: BUYER.to_string(),
        config: HatcherAllowlistConfig {
            config_type: HatcherAllowlistConfigType::Address {},
            contribution_limits_override: None,
        },
    }]);
    let mut state = init(msg);
    assert!(!state.hatcher_allowlist.is_empty());

    // below the maximum: still hatching, contribution recorded
    commands::buy(&mut state, &info2(BUYER, &[(4_000, TEST_RESERVE_DENOM)]), &Ledger::new())
        .unwrap();
    assert_eq!(state.phase, CommonsPhase::Hatch);
    assert_eq!(state.hatchers.get(&BUYER.to_string()), Some(4_000));

    // exactly at the maximum: reserve 4000 + reserved 6000 == 10_000
    commands::buy(&mut state, &info2(BUYER, &[(6_000, TEST_RESERVE_DENOM)]), &Ledger::new())
        .unwrap();
    assert_eq!(state.phase, CommonsPhase::Open);
    assert!(state.hatchers.is_empty());
    assert!(state.hatcher_allowlist.is_empty());
}

#[test]
fn buy_below_contribution_min_fails_with_limit_error() {
    let curve_type = CurveType::Constant { value: 1, scale: 0 };
    let mut msg = default_instantiate(curve_type, None);
    msg.phase_config.hatch.contribution_limits = MinMax { min: 100, max: 1000 };
    let mut state = init(msg);

    let before = state.clone();
    let res = commands::buy(&mut state, &info2(BUYER, &[(99, TEST_RESERVE_DENOM)]), &Ledger::new());
    assert_eq!(res.unwrap_err(), ContractError::ContributionLimit { min: 100, max: 1000 });
    // a failed buy leaves the state untouched
    assert_eq!(state, before);
}

#[test]
fn sell_in_closed_phase_charges_no_exit_fee() {
    // Even with nonzero configured exit fees, a sale in the Closed phase
    // pays the seller the whole released reserve.
    let curve_type = CurveType::Constant { value: 1, scale: 0 };
    let mut msg = default_instantiate(curve_type, None);
    msg.phase_config.hatch.contribution_limits = MinMax { min: 1, max: 1_000_000 };
    msg.phase_config.hatch.entry_fee = StdDecimal::zero();
    msg.phase_config.hatch.exit_fee = StdDecimal::percent(50);
    msg.phase_config.open.exit_fee = StdDecimal::percent(50);
    let mut state = init(msg);

    commands::buy(&mut state, &info2(BUYER, &[(5_000, TEST_RESERVE_DENOM)]), &Ledger::new())
        .unwrap();
    commands::close(&mut state, &info2(CREATOR, &[])).unwrap();

    let supply_denom = cw_abc::queries::get_denom(&state).unwrap().denom;
    let reserve_before = state.curve_state.reserve;
    let funding_before = state.curve_state.funding;
    let msgs = commands::sell(&mut state, &info2(BUYER, &[(1_000, &supply_denom)])).unwrap();
    let released = reserve_before - state.curve_state.reserve;
    assert!(released > 0);
    // the seller receives the whole released reserve, the funding pool nothing
    assert_eq!(state.curve_state.funding, funding_before);
    assert!(msgs.contains(&AbcMsg::Send {
        to: BUYER.to_string(),
        denom: TEST_RESERVE_DENOM.to_string(),
        amount: released,
    }));
}

#[test]
fn donate_never_changes_supply() {
    let curve_type = CurveType::Constant { value: 1, scale: 0 };
    let mut msg = default_instantiate(curve_type, None);
    msg.phase_config.hatch.contribution_limits = MinMax { min: 1, max: 1_000_000 };
    let mut state = init(msg);
    commands::buy(&mut state, &info2(BUYER, &[(2_000, TEST_RESERVE_DENOM)]), &Ledger::new())
        .unwrap();
    let supply_before = state.curve_state.supply;
    let reserve_before = state.curve_state.reserve;
    let funding_before = state.curve_state.funding;

    // a funding donation moves only the funding pool
    commands::donate(&mut state, &info2(DONOR, &[(7, TEST_RESERVE_DENOM)]), DonationPool::Funding {})
        .unwrap();
    assert_eq!(state.curve_state.supply, supply_before);
    assert_eq!(state.curve_state.reserve, reserve_before);
    assert_eq!(state.curve_state.funding, funding_before + 7);

    // a reserve donation moves only the reserve
    commands::donate(&mut state, &info2(DONOR, &[(9, TEST_RESERVE_DENOM)]), DonationPool::Reserve {})
        .unwrap();
    assert_eq!(state.curve_state.supply, supply_before);
    assert_eq!(state.curve_state.reserve, reserve_before + 9);
    assert_eq!(state.curve_state.funding, funding_before + 7);
}

#[test]
fn withdraw_beyond_funding_fails_and_changes_nothing() {
    let curve_type = CurveType::Linear { slope: 1, scale: 1 };
    let mut state = init(default_instantiate(curve_type, None));
    commands::donate(&mut state, &info2(DONOR, &[(50, TEST_RESERVE_DENOM)]), DonationPool::Funding {})
        .unwrap();
    assert_eq!(state.curve_state.funding, 50);

    let before = state.clone();
    let res = commands::withdraw(&mut state, &info2(CREATOR, &[]), Some(51));
    assert_eq!(res.unwrap_err(), ContractError::Underflow);
    assert_eq!(state, before);

    // withdrawing exactly the pool drains it
    commands::withdraw(&mut state, &info2(CREATOR, &[]), Some(50)).unwrap();
    assert_eq!(state.curve_state.funding, 0);
}

#[test]
fn owner_actions_remain_permitted_while_paused() {
    let curve_type = CurveType::Linear { slope: 1, scale: 1 };
    let mut state = init(default_instantiate(curve_type, None));
    let block = BlockInfo { height: 1, time: 1 };
    let no_weights = Ledger::new();

    commands::toggle_pause(&mut state, &info2(CREATOR, &[])).unwrap();
    assert!(state.is_paused);

    // the owner can still administrate while paused
    commands::execute(
        &mut state,
        &block,
        &info2(CREATOR, &[]),
        ExecuteMsg::UpdateMaxSupply { max_supply: Some(123) },
        &no_weights,
    )
    .unwrap();
    assert_eq!(state.max_supply, Some(123));

    // and can unpause through the same gate
    commands::execute(
        &mut state,
        &block,
        &info2(CREATOR, &[]),
        ExecuteMsg::TogglePause {},
        &no_weights,
    )
    .unwrap();
    assert!(!state.is_paused);
}

#[test]
fn allowlist_resolution_prefers_explicit_and_higher_priority() {
    // Entries with an explicit priority beat entries without one; among
    // explicit priorities the higher value wins; ties keep the entry
    // stored first; the winner's override replaces the default bounds.
    let defaults = MinMax { min: 1, max: 100 };
    let entry = |addr: &str, priority: Option<u64>, max: u128| HatcherAllowlistEntry {
        addr: addr.to_string(),
        config: HatcherAllowlistConfig {
            config_type: HatcherAllowlistConfigType::DAO { priority },
            contribution_limits_override: Some(MinMax { min: 1, max }),
        },
    };
    let mut list = cw_abc::allowlist::HatcherAllowlist::new();
    list.save(entry("dao_a", None, 10));
    list.save(entry("dao_b", Some(5), 20));
    list.save(entry("dao_c", Some(7), 30));
    list.save(entry("dao_d", Some(7), 40));

    // the sender belongs to every group
    let mut weights = Ledger::new();
    for dao in ["dao_a", "dao_b", "dao_c", "dao_d"] {
        weights.add(&dao.to_string(), 1).unwrap();
    }

    // dao_c and dao_d share the best priority; dao_c was stored first
    let limits = list
        .resolve_contribution_limit(defaults, &"member".to_string(), &weights)
        .unwrap();
    assert_eq!(limits, MinMax { min: 1, max: 30 });

    // a member of only the priority-less group falls back to its override
    let mut weights_a = Ledger::new();
    weights_a.add(&"dao_a".to_string(), 1).unwrap();
    let limits = list
        .resolve_contribution_limit(defaults, &"member".to_string(), &weights_a)
        .unwrap();
    assert_eq!(limits, MinMax { min: 1, max: 10 });

    // an unlisted non-member is refused
    let res = list.resolve_contribution_limit(defaults, &"stranger".to_string(), &Ledger::new());
    assert_eq!(
        res.unwrap_err(),
        ContractError::SenderNotAllowlisted { sender: "stranger".to_string() }
    );

    // a direct entry without an override uses the defaults
    list.save(HatcherAllowlistEntry {
        addr: "alice".to_string(),
        config: HatcherAllowlistConfig {
            config_type: HatcherAllowlistConfigType::Address {},
            contribution_limits_override: None,
        },
    });
    let limits = list
        .resolve_contribution_limit(defaults, &"alice".to_string(), &Ledger::new())
        .unwrap();
    assert_eq!(limits, defaults);
}

#[test]
fn buy_requires_allowlisted_sender_when_list_is_nonempty() {
    let curve_type = CurveType::Constant { value: 1, scale: 0 };
    let mut msg = default_instantiate(curve_type, None);
    msg.phase_config.hatch.contribution_limits = MinMax { min: 1, max: 1_000_000 };
    msg.hatcher_allowlist = Some(vec![HatcherAllowlistEntry {
        addr: "alice".to_string(),
        config: HatcherAllowlistConfig {
            config_type: HatcherAllowlistConfigType::Address {},
            contribution_limits_override: None,
        },
    }]);
    let mut state = init(msg);

    // an unlisted buyer is refused
    let res = commands::buy(&mut state, &info2(BUYER, &[(500, TEST_RESERVE_DENOM)]), &Ledger::new());
    assert_eq!(
        res.unwrap_err(),
        ContractError::SenderNotAllowlisted { sender: BUYER.to_string() }
    );

    // a member of an allowlisted group qualifies
    let mut state2 = {
        let mut msg = default_instantiate(CurveType::Constant { value: 1, scale: 0 }, None);
        msg.phase_config.hatch.contribution_limits = MinMax { min: 1, max: 1_000_000 };
        msg.hatcher_allowlist = Some(vec![HatcherAllowlistEntry {
            addr: "dao".to_string(),
            config: HatcherAllowlistConfig {
                config_type: HatcherAllowlistConfigType::DAO { priority: None },
                contribution_limits_override: Some(MinMax { min: 1, max: 600 }),
            },
        }]);
        init(msg)
    };
    let mut weights = Ledger::new();
    weights.add(&"dao".to_string(), 3).unwrap();
    commands::buy(&mut state2, &info2(BUYER, &[(500, TEST_RESERVE_DENOM)]), &weights).unwrap();
    // and the group's override caps the contribution
    let res = commands::buy(&mut state2, &info2(BUYER, &[(200, TEST_RESERVE_DENOM)]), &weights);
    assert_eq!(res.unwrap_err(), ContractError::ContributionLimit { min: 1, max: 600 });
}

#[test]
fn update_phase_config_validates_and_applies() {
    let curve_type = CurveType::Linear { slope: 1, scale: 1 };
    let mut state = init(default_instantiate(curve_type, None));

    // an inverted raise range is refused
    let res = commands::update_phase_config(
        &mut state,
        &info2(CREATOR, &[]),
        cw_abc::msg::UpdatePhaseConfigMsg::Hatch {
            contribution_limits: None,
            initial_raise: Some(MinMax { min: 10, max: 10 }),
            entry_fee: None,
            exit_fee: None,
        },
    );
    assert!(matches!(res.unwrap_err(), ContractError::HatchPhaseConfigError { .. }));

    // a valid update is applied
    commands::update_phase_config(
        &mut state,
        &info2(CREATOR, &[]),
        cw_abc::msg::UpdatePhaseConfigMsg::Hatch {
            contribution_limits: Some(MinMax { min: 7, max: 70 }),
            initial_raise: None,
            entry_fee: None,
            exit_fee: None,
        },
    )
    .unwrap();
    assert_eq!(state.phase_config.hatch.contribution_limits, MinMax { min: 7, max: 70 });

    // the open config cannot be updated while hatching
    let res = commands::update_phase_config(
        &mut state,
        &info2(CREATOR, &[]),
        cw_abc::msg::UpdatePhaseConfigMsg::Open { entry_fee: None, exit_fee: None },
    );
    assert!(matches!(res.unwrap_err(), ContractError::InvalidPhase { .. }));
}

#[test]
fn reply_rejects_unknown_ids_and_sets_denom() {
    let curve_type = CurveType::Linear { slope: 1, scale: 1 };
    let mut state = instantiate(&info2(CREATOR, &[]), default_instantiate(curve_type, None))
        .unwrap();

    // trading waits for the collaborator's address
    let res = commands::sell(&mut state, &info2(BUYER, &[(1, "x")]));
    assert_eq!(res.unwrap_err(), ContractError::Uninitialized);

    // an unexpected id is refused
    let res = reply(&mut state, &SELF_ADDR.to_string(), 7, ISSUER.to_string());
    assert_eq!(res.unwrap_err(), ContractError::UnknownReplyId { id: 7 });

    // the expected id records the address and the created denom
    let msgs = reply(&mut state, &SELF_ADDR.to_string(), 0, ISSUER.to_string()).unwrap();
    assert_eq!(state.token_issuer_contract, Some(ISSUER.to_string()));
    assert_eq!(state.supply_denom, Some(format!("factory/{ISSUER}/abc")));
    assert_eq!(
        msgs[0],
        AbcMsg::SetMinterAllowance { address: SELF_ADDR.to_string(), allowance: u128::MAX }
    );
    assert_eq!(
        msgs[1],
        AbcMsg::SetBurnerAllowance { address: SELF_ADDR.to_string(), allowance: u128::MAX }
    );
}

#[test]
fn pagination_walks_the_ledger_backwards() {
    let mut ledger = Ledger::new();
    for (addr, amount) in [("a", 1u128), ("b", 2), ("c", 3), ("d", 4)] {
        ledger.add(&addr.to_string(), amount).unwrap();
    }
    let page = ledger.page_desc(None, Some(2));
    assert_eq!(
        page,
        vec![
            LedgerEntry { addr: "d".to_string(), amount: 4 },
            LedgerEntry { addr: "c".to_string(), amount: 3 },
        ]
    );
    let page = ledger.page_desc(Some(&"c".to_string()), None);
    assert_eq!(
        page,
        vec![
            LedgerEntry { addr: "b".to_string(), amount: 2 },
            LedgerEntry { addr: "a".to_string(), amount: 1 },
        ]
    );
}

#[test]
fn payment_with_multiple_denoms_is_refused() {
    let curve_type = CurveType::Linear { slope: 1, scale: 1 };
    let mut state = init(default_instantiate(curve_type, None));
    let res = commands::donate(
        &mut state,
        &info2(DONOR, &[(1, TEST_RESERVE_DENOM), (1, "other")]),
        DonationPool::Funding {},
    );
    assert_eq!(res.unwrap_err(), ContractError::Payment(PaymentError::MultipleDenoms));
}

#[test]
fn instantiate_refuses_bad_configs() {
    // an empty subdenom is refused
    let mut msg = default_instantiate(CurveType::Linear { slope: 1, scale: 1 }, None);
    msg.supply.subdenom = String::new();
    let res = instantiate(&info2(CREATOR, &[]), msg);
    assert!(matches!(res.unwrap_err(), ContractError::SupplyTokenError { .. }));

    // an inverted initial raise range is refused
    let mut msg = default_instantiate(CurveType::Linear { slope: 1, scale: 1 }, None);
    msg.phase_config.hatch.initial_raise = MinMax { min: 10, max: 10 };
    let res = instantiate(&info2(CREATOR, &[]), msg);
    assert!(matches!(res.unwrap_err(), ContractError::HatchPhaseConfigError { .. }));

    // an entry fee above one is refused
    let mut msg = default_instantiate(CurveType::Linear { slope: 1, scale: 1 }, None);
    msg.phase_config.open.entry_fee = StdDecimal { atomics: 2_000_000_000_000_000_000 };
    let res = instantiate(&info2(CREATOR, &[]), msg);
    assert!(matches!(res.unwrap_err(), ContractError::OpenPhaseConfigError { .. }));
}

#[test]
fn zero_slope_fails_with_division_error() {
    let curve = Linear::new(cw_abc::decimal::decimal(0, 0).unwrap(), DecimalPlaces::new(6, 6));
    let res = curve.supply(1_000);
    assert_eq!(res.unwrap_err(), ContractError::DivideByZero);
}

#[test]
fn funding_pool_overflow_is_reported() {
    let curve_type = CurveType::Linear { slope: 1, scale: 1 };
    let mut state = init(default_instantiate(curve_type, None));
    commands::donate(
        &mut state,
        &info2(DONOR, &[(u128::MAX, TEST_RESERVE_DENOM)]),
        DonationPool::Funding {},
    )
    .unwrap();
    let res = commands::donate(
        &mut state,
        &info2(DONOR, &[(1, TEST_RESERVE_DENOM)]),
        DonationPool::Funding {},
    );
    assert_eq!(res.unwrap_err(), ContractError::Overflow);
}

#[test]
fn ownership_can_be_transferred_and_renounced() {
    let curve_type = CurveType::Linear { slope: 1, scale: 1 };
    let mut state = init(default_instantiate(curve_type, None));
    let block = BlockInfo { height: 5, time: 5 };

    // only the pending owner may accept, and only before the expiry
    commands::update_ownership(
        &mut state,
        &block,
        &info2(CREATOR, &[]),
        Action::TransferOwnership {
            new_owner: "heir".to_string(),
            expiry: Some(Expiration::AtHeight(10)),
        },
    )
    .unwrap();
    let res = commands::update_ownership(
        &mut state,
        &block,
        &info2("stranger", &[]),
        Action::AcceptOwnership,
    );
    assert_eq!(res.unwrap_err(), ContractError::Ownership(OwnershipError::NotPendingOwner));
    let late = BlockInfo { height: 10, time: 10 };
    let res = commands::update_ownership(&mut state, &late, &info2("heir", &[]), Action::AcceptOwnership);
    assert_eq!(res.unwrap_err(), ContractError::Ownership(OwnershipError::TransferExpired));
    commands::update_ownership(&mut state, &block, &info2("heir", &[]), Action::AcceptOwnership)
        .unwrap();
    assert_eq!(state.ownership.owner, Some("heir".to_string()));

    // the new owner can renounce, leaving the contract ownerless
    commands::update_ownership(&mut state, &block, &info2("heir", &[]), Action::RenounceOwnership)
        .unwrap();
    assert_eq!(state.ownership.owner, None);
    let res = commands::withdraw(&mut state, &info2("heir", &[]), None);
    assert_eq!(res.unwrap_err(), ContractError::Ownership(OwnershipError::NoOwner));
}

#[test]
fn test_dao_hatcher_functionality() {
    // Six delegated groups with explicit priorities, one without, and one
    // direct address entry; the buyer holds weight in the six groups, the
    // donor only in the priority-less one. An entry with an explicit
    // priority is preferred over one without, the higher value wins, and
    // a tie keeps the entry stored first.
    let curve_type = CurveType::Linear { slope: 1, scale: 1 };
    let mut msg = default_instantiate(curve_type, None);
    msg.phase_config.hatch.contribution_limits = MinMax { min: 1, max: 1_000_000 };
    msg.phase_config.hatch.initial_raise = MinMax { min: 1000, max: 10_000_000 };
    let mut state = init(msg);

    let dao_entry = |addr: &str, priority: Option<u64>, max: u128| HatcherAllowlistEntry {
        addr: addr.to_string(),
        config: HatcherAllowlistConfig {
            config_type: HatcherAllowlistConfigType::DAO { priority },
            contribution_limits_override: Some(MinMax { min: 1, max }),
        },
    };
    // groups 0..=4 at priorities MAX, MAX-1, ..., MAX-4 with rising caps
    for i in 0..5u64 {
        commands::update_hatch_allowlist(
            &mut state,
            &info2(CREATOR, &[]),
            vec![dao_entry(&format!("dao{i}"), Some(u64::MAX - i), 10 * (i as u128 + 1))],
            vec![],
        )
        .unwrap();
    }
    // a sixth group tied with the lowest of those priorities
    commands::update_hatch_allowlist(
        &mut state,
        &info2(CREATOR, &[]),
        vec![dao_entry("dao5", Some(u64::MAX - 4), 1000)],
        vec![],
    )
    .unwrap();
    // and a group without a priority
    commands::update_hatch_allowlist(
        &mut state,
        &info2(CREATOR, &[]),
        vec![dao_entry("dao_no_priority", None, 100)],
        vec![],
    )
    .unwrap();

    let mut buyer_weights = Ledger::new();
    for i in 0..6u64 {
        buyer_weights.add(&format!("dao{i}"), 1).unwrap();
    }

    // the highest priority value wins: dao0's cap of 10 governs
    let err = commands::buy(
        &mut state,
        &info2(BUYER, &[(11, TEST_RESERVE_DENOM)]),
        &buyer_weights,
    )
    .unwrap_err();
    assert_eq!(err, ContractError::ContributionLimit { min: 1, max: 10 });

    // with dao0..dao3 removed, dao4 and dao5 tie and the one stored
    // first wins: dao4's cap of 50 governs
    commands::update_hatch_allowlist(
        &mut state,
        &info2(CREATOR, &[]),
        vec![],
        vec!["dao0".to_string(), "dao1".to_string(), "dao2".to_string(), "dao3".to_string()],
    )
    .unwrap();
    commands::buy(&mut state, &info2(BUYER, &[(50, TEST_RESERVE_DENOM)]), &buyer_weights)
        .unwrap();
    let err = commands::buy(
        &mut state,
        &info2(BUYER, &[(1, TEST_RESERVE_DENOM)]),
        &buyer_weights,
    )
    .unwrap_err();
    assert_eq!(err, ContractError::ContributionLimit { min: 1, max: 50 });

    // a direct address entry admits an individual who belongs to no group
    commands::update_hatch_allowlist(
        &mut state,
        &info2(CREATOR, &[]),
        vec![HatcherAllowlistEntry {
            addr: "individual".to_string(),
            config: HatcherAllowlistConfig {
                config_type: HatcherAllowlistConfigType::Address {},
                contribution_limits_override: Some(MinMax { min: 1, max: 2000 }),
            },
        }],
        vec![],
    )
    .unwrap();
    commands::buy(&mut state, &info2("individual", &[(2000, TEST_RESERVE_DENOM)]), &Ledger::new())
        .unwrap();

    // someone neither listed nor holding weight anywhere is refused
    let err = commands::buy(
        &mut state,
        &info2(CREATOR, &[(50, TEST_RESERVE_DENOM)]),
        &Ledger::new(),
    )
    .unwrap_err();
    assert_eq!(err, ContractError::SenderNotAllowlisted { sender: CREATOR.to_string() });

    // a member of only the priority-less group buys under its cap
    let mut donor_weights = Ledger::new();
    donor_weights.add(&"dao_no_priority".to_string(), 1).unwrap();
    commands::buy(&mut state, &info2(DONOR, &[(100, TEST_RESERVE_DENOM)]), &donor_weights)
        .unwrap();
}

#[test]
fn quotes_match_executed_trades() {
    let curve_type = CurveType::Constant { value: 1, scale: 0 };
    let mut msg = default_instantiate(curve_type, None);
    msg.phase_config.hatch.contribution_limits = MinMax { min: 1, max: 1_000_000 };
    let mut state = init(msg);

    // a buy quote predicts exactly what the buy then mints
    let quoted = cw_abc::queries::query_buy_quote(&state, 2_000).unwrap();
    let msgs = commands::buy(
        &mut state,
        &info2(BUYER, &[(2_000, TEST_RESERVE_DENOM)]),
        &Ledger::new(),
    )
    .unwrap();
    assert!(quoted > 0);
    assert_eq!(
        msgs[0],
        AbcMsg::Mint { to: BUYER.to_string(), amount: quoted }
    );

    // a sell quote predicts exactly what the sale then pays out
    let quoted = cw_abc::queries::query_sell_quote(&state, 500).unwrap();
    let supply_denom = cw_abc::queries::get_denom(&state).unwrap().denom;
    let reserve_before = state.curve_state.reserve;
    let funding_before = state.curve_state.funding;
    commands::sell(&mut state, &info2(BUYER, &[(500, &supply_denom)])).unwrap();
    let released = reserve_before - state.curve_state.reserve;
    let taxed = state.curve_state.funding - funding_before;
    assert_eq!(quoted, released - taxed);

    // quoting a sale beyond the supply is an underflow
    let res = cw_abc::queries::query_sell_quote(&state, u128::MAX);
    assert_eq!(res.unwrap_err(), ContractError::Underflow);

    // buying cannot be quoted once the commons closes
    commands::close(&mut state, &info2(CREATOR, &[])).unwrap();
    let res = cw_abc::queries::query_buy_quote(&state, 100);
    assert_eq!(res.unwrap_err(), ContractError::CommonsClosed);
}

#[test]
fn dump_state_reports_everything() {
    let curve_type = CurveType::Linear { slope: 1, scale: 1 };
    let state = init(default_instantiate(curve_type, None));
    let dump = cw_abc::queries::query_dump_state(&state);
    assert_eq!(dump.phase, CommonsPhase::Hatch);
    assert_eq!(dump.curve_type, CurveType::Linear { slope: 1, scale: 1 });
    assert_eq!(dump.reserve, 0);
    assert_eq!(dump.supply, 0);
    assert_eq!(dump.funding, 0);
    assert_eq!(dump.reserve_denom, TEST_RESERVE_DENOM.to_string());
    assert_eq!(dump.owner, Some(CREATOR.to_string()));
    assert_eq!(dump.token_issuer_contract, Some(ISSUER.to_string()));
    assert!(!dump.is_paused);
}

#[test]
fn allowlist_query_filters_and_paginates() {
    let curve_type = CurveType::Linear { slope: 1, scale: 1 };
    let mut msg = default_instantiate(curve_type, None);
    let entry = |addr: &str, dao: bool| HatcherAllowlistEntry {
        addr: addr.to_string(),
        config: HatcherAllowlistConfig {
            config_type: if dao {
                HatcherAllowlistConfigType::DAO { priority: None }
            } else {
                HatcherAllowlistConfigType::Address {}
            },
            contribution_limits_override: None,
        },
    };
    msg.hatcher_allowlist = Some(vec![
        entry("a", false),
        entry("b", true),
        entry("c", false),
        entry("d", true),
    ]);
    let state = init(msg);

    // only the group entries, in stored order
    let page = cw_abc::queries::query_hatcher_allowlist(
        &state,
        Some(HatcherAllowlistConfigType::DAO { priority: None }),
        None,
        None,
    );
    let entries = page.allowlist.unwrap();
    assert_eq!(entries.len(), 2);
    assert_eq!(entries[0].addr, "b");
    assert_eq!(entries[1].addr, "d");

    // everything after "b", cut to one entry
    let page = cw_abc::queries::query_hatcher_allowlist(
        &state,
        None,
        Some(&"b".to_string()),
        Some(1),
    );
    let entries = page.allowlist.unwrap();
    assert_eq!(entries.len(), 1);
    assert_eq!(entries[0].addr, "c");
}
