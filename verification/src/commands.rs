use vstd::prelude::*;
use vstd::arithmetic::div_mod::{lemma_div_is_ordered, lemma_div_multiples_vanish};

use crate::abc::{CommonsPhase, CurveType, StdDecimal, FEE_ONE};
use crate::error::ContractError;
use crate::msg::{AbcMsg, Action, BlockInfo, DonationPool, MessageInfo, UpdatePhaseConfigMsg};
use crate::state::AbcState;

verus! {

/// Relies on cosmwasm_std's Uint128::checked_multiply_ratio: the product
/// `x * num` computed in full width, divided by `den` rounding down, and
/// None exactly when the quotient leaves the 128-bit range.
#[verifier::external_body]
fn mul_ratio_floor(x: u128, num: u128, den: u128) -> (r: Option<u128>)
    requires
        den != 0,
    ensures
        (x * num) / (den as int) <= u128::MAX ==> r == Some(((x * num) / (den as int)) as u128),
        (x * num) / (den as int) > u128::MAX ==> r is None,
{
    cosmwasm_std::Uint128::new(x).checked_multiply_ratio(num, den).ok().map(|v| v.u128())
}

/// A ratio of at most one takes at most the whole amount.
proof fn lemma_fee_le_amount(payment: u128, fee: u128)
    requires
        fee <= FEE_ONE,
    ensures
        (payment * fee) / (FEE_ONE as int) <= payment,
{
    assert(payment * fee <= payment * FEE_ONE) by (nonlinear_arith)
        requires
            fee <= FEE_ONE,
    ;
    lemma_div_is_ordered(payment * fee, payment * FEE_ONE, FEE_ONE as int);
    lemma_div_multiples_vanish(payment as int, FEE_ONE as int);
    assert(FEE_ONE as int * payment as int == payment * FEE_ONE) by (nonlinear_arith);
}

/// Split a payment into the part that enters the curve's reserve and the
/// part that goes to the funding pool: the fee ratio of it, rounded down,
/// is funded, and the rest is reserved.
pub fn calculate_reserved_and_funded(payment: u128, allocation_ratio: StdDecimal) -> (r: (
    u128,
    u128,
))
    requires
        allocation_ratio.atomics <= FEE_ONE,
    ensures
        r.1 == (payment * allocation_ratio.atomics) / (FEE_ONE as int),
        r.1 <= payment,
        r.0 == payment - r.1,
{
    proof {
        lemma_fee_le_amount(payment, allocation_ratio.atomics);
    }
    let funded = match mul_ratio_floor(payment, allocation_ratio.atomics, FEE_ONE) {
        Some(v) => v,
        None => 0,
    };
    let reserved = payment - funded;
    (reserved, funded)
}

/// What the exit fee charges on a sale: the phase's exit-fee share of the
/// released reserve, rounded down, and nothing at all once the commons is
/// closed. A configured ratio above one is rejected.
pub open spec fn exit_fee_of(state: AbcState, sell_amount: u128) -> Result<u128, ()> {
    match state.phase {
        CommonsPhase::Hatch => if state.phase_config.hatch.exit_fee.atomics <= FEE_ONE {
            Ok(((sell_amount * state.phase_config.hatch.exit_fee.atomics) / (FEE_ONE as int)) as u128)
        } else {
            Err(())
        },
        CommonsPhase::Open => if state.phase_config.open.exit_fee.atomics <= FEE_ONE {
            Ok(((sell_amount * state.phase_config.open.exit_fee.atomics) / (FEE_ONE as int)) as u128)
        } else {
            Err(())
        },
        CommonsPhase::Closed => Ok(0u128),
    }
}

/// The exit fee charged on releasing `sell_amount` from the reserve: the
/// phase's exit-fee share rounded down, zero in the Closed phase whatever
/// the configured ratios say.
pub fn calculate_exit_fee(state: &AbcState, sell_amount: u128) -> (r: Result<u128, ContractError>)
    ensures
        match exit_fee_of(*state, sell_amount) {
            Ok(v) => r == Ok::<u128, ContractError>(v) && v <= sell_amount,
            Err(()) => r == Err::<u128, ContractError>(ContractError::InvalidExitFee),
        },
        state.phase is Closed ==> r == Ok::<u128, ContractError>(0u128),
{
    let exit_fee = match &state.phase {
        CommonsPhase::Hatch => state.phase_config.hatch.exit_fee,
        CommonsPhase::Open => state.phase_config.open.exit_fee,
        CommonsPhase::Closed => {
            return Ok(0);
        },
    };
    if !(exit_fee.atomics <= FEE_ONE) {
        return Err(ContractError::InvalidExitFee);
    }
    proof {
        lemma_fee_le_amount(sell_amount, exit_fee.atomics);
    }
    let taxed = match mul_ratio_floor(sell_amount, exit_fee.atomics, FEE_ONE) {
        Some(v) => v,
        None => 0,
    };
    Ok(taxed)
}

/// Close the commons for good: only the owner may, and afterwards the
/// phase is Closed and nothing else has changed.
pub fn close(state: &mut AbcState, info: &MessageInfo) -> (r: Result<Vec<AbcMsg>, ContractError>)
    ensures
        r is Ok <==> old(state).ownership.spec_is_owner(info.sender@),
        r matches Ok(msgs) ==> msgs@.len() == 0 && *final(state) == (AbcState {
            phase: CommonsPhase::Closed,
            ..*old(state)
        }),
        r is Err ==> *final(state) == *old(state) && (r matches Err(e)
            && e matches ContractError::Ownership(_)),
{
    state.ownership.assert_owner(&info.sender)?;
    state.phase = CommonsPhase::Closed;
    Ok(Vec::new())
}

/// Flip the pause flag: only the owner may, and afterwards only the flag
/// has changed.
pub fn toggle_pause(state: &mut AbcState, info: &MessageInfo) -> (r: Result<
    Vec<AbcMsg>,
    ContractError,
>)
    ensures
        r is Ok <==> old(state).ownership.spec_is_owner(info.sender@),
        r matches Ok(msgs) ==> msgs@.len() == 0 && *final(state) == (AbcState {
            is_paused: !old(state).is_paused,
            ..*old(state)
        }),
        r is Err ==> *final(state) == *old(state) && (r matches Err(e)
            && e matches ContractError::Ownership(_)),
{
    state.ownership.assert_owner(&info.sender)?;
    state.is_paused = !state.is_paused;
    Ok(Vec::new())
}

/// Set or clear the maximum supply: only the owner may.
pub fn update_max_supply(state: &mut AbcState, info: &MessageInfo, max_supply: Option<u128>) -> (r:
    Result<Vec<AbcMsg>, ContractError>)
    ensures
        r is Ok <==> old(state).ownership.spec_is_owner(info.sender@),
        r matches Ok(msgs) ==> msgs@.len() == 0 && *final(state) == (AbcState {
            max_supply,
            ..*old(state)
        }),
        r is Err ==> *final(state) == *old(state) && (r matches Err(e)
            && e matches ContractError::Ownership(_)),
{
    state.ownership.assert_owner(&info.sender)?;
    state.max_supply = max_supply;
    Ok(Vec::new())
}

/// Swap the declared curve shape: only the owner may. This changes the
/// pricing of every later trade.
pub fn update_curve(state: &mut AbcState, info: &MessageInfo, curve_type: CurveType) -> (r: Result<
    Vec<AbcMsg>,
    ContractError,
>)
    ensures
        r is Ok <==> old(state).ownership.spec_is_owner(info.sender@),
        r matches Ok(msgs) ==> msgs@.len() == 0 && *final(state) == (AbcState {
            curve_type,
            ..*old(state)
        }),
        r is Err ==> *final(state) == *old(state) && (r matches Err(e)
            && e matches ContractError::Ownership(_)),
{
    state.ownership.assert_owner(&info.sender)?;
    state.curve_type = curve_type;
    Ok(Vec::new())
}

/// Set or clear the funding-pool forwarding address: only the owner may.
pub fn update_funding_pool_forwarding(
    state: &mut AbcState,
    info: &MessageInfo,
    address: Option<String>,
) -> (r: Result<Vec<AbcMsg>, ContractError>)
    ensures
        r is Ok <==> old(state).ownership.spec_is_owner(info.sender@),
        r matches Ok(msgs) ==> msgs@.len() == 0 && final(state).funding_pool_forwarding == address
            && *final(state) == (AbcState {
            funding_pool_forwarding: final(state).funding_pool_forwarding,
            ..*old(state)
        }),
        r is Err ==> *final(state) == *old(state) && (r matches Err(e)
            && e matches ContractError::Ownership(_)),
{
    state.ownership.assert_owner(&info.sender)?;
    state.funding_pool_forwarding = address;
    Ok(Vec::new())
}

/// Withdraw from the funding pool to the owner: only the owner may, the
/// default amount is the whole pool, and asking for more than the pool
/// holds fails with an underflow and changes nothing.
pub fn withdraw(state: &mut AbcState, info: &MessageInfo, amount: Option<u128>) -> (r: Result<
    Vec<AbcMsg>,
    ContractError,
>)
    ensures
        ({
            let asked = match amount {
                Some(a) => a,
                None => old(state).curve_state.funding,
            };
            &&& (r is Ok <==> old(state).ownership.spec_is_owner(info.sender@) && asked <= old(state).curve_state.funding)
            &&& r matches Ok(msgs) ==> {
                &&& final(state).curve_state.funding == old(state).curve_state.funding - asked
                &&& *final(state) == (AbcState {
                    curve_state: crate::state::CurveState {
                        funding: final(state).curve_state.funding,
                        ..old(state).curve_state
                    },
                    ..*old(state)
                })
                &&& msgs@ =~= seq![
                    AbcMsg::Send {
                        to: info.sender,
                        denom: old(state).curve_state.reserve_denom,
                        amount: asked,
                    },
                ]
            }
            &&& r is Err ==> *final(state) == *old(state)
            &&& (r matches Err(e) ==> (e matches ContractError::Ownership(_) || e is Underflow))
            &&& (!old(state).ownership.spec_is_owner(info.sender@) ==> (r matches Err(e) && e
                matches ContractError::Ownership(oe) && match old(state).ownership.owner {
                Some(_) => oe is NotOwner,
                None => oe is NoOwner,
            }))
            &&& (old(state).ownership.spec_is_owner(info.sender@) && asked > old(state).curve_state.funding ==> r == Err::<Vec<AbcMsg>, ContractError>(
                ContractError::Underflow,
            ))
        }),
{
    state.ownership.assert_owner(&info.sender)?;
    let asked = match amount {
        Some(a) => a,
        None => state.curve_state.funding,
    };
    let new_funding = match state.curve_state.funding.checked_sub(asked) {
        Some(v) => v,
        None => {
            return Err(ContractError::Underflow);
        },
    };
    let mut msgs: Vec<AbcMsg> = Vec::new();
    msgs.push(AbcMsg::Send {
        to: info.sender.clone(),
        denom: state.curve_state.reserve_denom.clone(),
        amount: asked,
    });
    state.curve_state.funding = new_funding;
    Ok(msgs)
}

} // verus!
verus! {

/// Whether a donation must succeed: the payment is right and the
/// receiving total fits (a forwarded funding donation accrues nothing).
pub open spec fn donate_succeeds(state: AbcState, info: MessageInfo, pool: DonationPool) -> bool {
    match crate::msg::must_pay_of(info, state.curve_state.reserve_denom) {
        Err(_) => false,
        Ok(payment) => {
            &&& state.donations.spec_total(info.sender@) + payment <= u128::MAX
            &&& match pool {
                DonationPool::Funding {} => state.funding_pool_forwarding is Some
                    || state.curve_state.funding + payment <= u128::MAX,
                DonationPool::Reserve {} => state.curve_state.reserve + payment <= u128::MAX,
            }
        },
    }
}

/// Donate reserve tokens to the funding pool or straight into the curve's
/// reserve. The supply never changes; exactly one of `funding` or
/// `reserve` grows by the payment, unless a funding donation is forwarded
/// out instead. The donor's lifetime total is accumulated.
pub fn donate(state: &mut AbcState, info: &MessageInfo, pool: DonationPool) -> (r: Result<
    Vec<AbcMsg>,
    ContractError,
>)
    requires
        old(state).wf(),
    ensures
        final(state).wf(),
        final(state).curve_state.supply == old(state).curve_state.supply,
        r is Err ==> *final(state) == *old(state),
        r matches Err(e) ==> (e matches ContractError::Payment(_) || e is Overflow),
        r matches Err(e) ==> !(e is Paused),
        r is Ok <==> donate_succeeds(*old(state), *info, pool),
        ({
            match crate::msg::must_pay_of(*info, old(state).curve_state.reserve_denom) {
                Err(pe) => r == Err::<Vec<AbcMsg>, ContractError>(ContractError::Payment(pe)),
                Ok(payment) => r matches Ok(msgs) ==> {
                    &&& final(state).donations.spec_amount(info.sender@) == Some(
                        (old(state).donations.spec_total(info.sender@) + payment) as u128,
                    )
                    &&& match pool {
                        DonationPool::Funding {} => match old(state).funding_pool_forwarding {
                            Some(fwd) => {
                                &&& final(state).curve_state.funding == old(state).curve_state.funding
                                &&& final(state).curve_state.reserve == old(state).curve_state.reserve
                                &&& msgs@ =~= seq![
                                    AbcMsg::Send {
                                        to: fwd,
                                        denom: old(state).curve_state.reserve_denom,
                                        amount: payment,
                                    },
                                ]
                            },
                            None => {
                                &&& final(state).curve_state.funding == old(state).curve_state.funding + payment
                                &&& final(state).curve_state.reserve == old(state).curve_state.reserve
                                &&& msgs@.len() == 0
                            },
                        },
                        DonationPool::Reserve {} => {
                            &&& final(state).curve_state.reserve == old(state).curve_state.reserve + payment
                            &&& final(state).curve_state.funding == old(state).curve_state.funding
                            &&& msgs@.len() == 0
                        },
                    }
                },
            }
        }),
{
    let payment = match crate::msg::must_pay(info, &state.curve_state.reserve_denom) {
        Ok(p) => p,
        Err(e) => {
            return Err(ContractError::Payment(e));
        },
    };
    let mut msgs: Vec<AbcMsg> = Vec::new();
    let mut new_funding = state.curve_state.funding;
    let mut new_reserve = state.curve_state.reserve;
    match pool {
        DonationPool::Funding {} => {
            match &state.funding_pool_forwarding {
                Some(forwarding) => {
                    msgs.push(AbcMsg::Send {
                        to: forwarding.clone(),
                        denom: state.curve_state.reserve_denom.clone(),
                        amount: payment,
                    });
                },
                None => {
                    new_funding = match state.curve_state.funding.checked_add(payment) {
                        Some(v) => v,
                        None => {
                            return Err(ContractError::Overflow);
                        },
                    };
                },
            }
        },
        DonationPool::Reserve {} => {
            new_reserve = match state.curve_state.reserve.checked_add(payment) {
                Some(v) => v,
                None => {
                    return Err(ContractError::Overflow);
                },
            };
        },
    }
    match state.donations.add(&info.sender, payment) {
        Ok(_) => {},
        Err(e) => {
            return Err(e);
        },
    }
    state.curve_state.funding = new_funding;
    state.curve_state.reserve = new_reserve;
    Ok(msgs)
}

} // verus!
verus! {

/// What the hatch gate decides for a buyer: the contribution bounds that
/// govern them (the resolved allowlist entry's override, or the phase-wide
/// default), or the refusal of an unlisted sender.
pub open spec fn hatch_limits_of(state: AbcState, sender: Seq<char>, weights: crate::state::Ledger) -> Result<
    crate::abc::MinMax,
    (),
> {
    if state.hatcher_allowlist.entries@.len() == 0 {
        Ok(state.phase_config.hatch.contribution_limits)
    } else {
        match crate::allowlist::spec_best(state.hatcher_allowlist.entries@, sender, weights) {
            None => Err(()),
            Some(e) => Ok(
                match e.config.contribution_limits_override {
                    Some(l) => l,
                    None => state.phase_config.hatch.contribution_limits,
                },
            ),
        }
    }
}

/// The entry fee the current phase charges on purchases, in 18-place
/// atomics.
pub open spec fn spec_entry_fee(state: AbcState) -> u128 {
    if state.phase is Hatch {
        state.phase_config.hatch.entry_fee.atomics
    } else {
        state.phase_config.open.entry_fee.atomics
    }
}

/// The funding share of a payment: the fee ratio of it, rounded down.
pub open spec fn funded_of(payment: u128, fee: u128) -> u128 {
    ((payment * fee) / (FEE_ONE as int)) as u128
}

/// The reserved share of a payment: what is left after the funding share.
pub open spec fn reserved_of(payment: u128, fee: u128) -> u128 {
    (payment - funded_of(payment, fee)) as u128
}

/// The supply the curve stands at after a purchase: the reserved share of
/// the payment joins the reserve and the curve reprices the total.
/// Failure means the reserve total leaves the 128-bit range or the curve
/// arithmetic fails.
pub open spec fn buy_supply_of(state: AbcState, payment: u128) -> Result<u128, ()> {
    let reserved = reserved_of(payment, spec_entry_fee(state));
    if state.curve_state.reserve + reserved > u128::MAX {
        Err(())
    } else {
        match crate::curve::curve_of_type(state.curve_type, state.curve_state.decimals) {
            Err(()) => Err(()),
            Ok(c) => crate::curve::curve_supply_of(
                c,
                (state.curve_state.reserve + reserved) as u128,
            ),
        }
    }
}

/// Whether the gates in front of a purchase let it through: the payment
/// is right, the commons is not closed, and in the Hatch phase the sender
/// passes the allowlist with their cumulative contribution inside the
/// governing bounds.
pub open spec fn buy_gate_ok(state: AbcState, info: MessageInfo, weights: crate::state::Ledger) -> bool {
    match crate::msg::must_pay_of(info, state.curve_state.reserve_denom) {
        Err(_) => false,
        Ok(payment) => {
            &&& !(state.phase is Closed)
            &&& (state.phase is Hatch ==> match hatch_limits_of(state, info.sender@, weights) {
                Err(()) => false,
                Ok(l) => {
                    let contribution = state.hatchers.spec_total(info.sender@) + payment;
                    &&& contribution <= u128::MAX
                    &&& l.min <= contribution
                    &&& contribution <= l.max
                },
            })
        },
    }
}

/// Whether a purchase must succeed: the gates pass, the repriced supply
/// is computable, does not shrink, stays within any cap, the issuer is
/// known, and the funding accrual fits.
pub open spec fn buy_succeeds(state: AbcState, info: MessageInfo, weights: crate::state::Ledger) -> bool {
    &&& buy_gate_ok(state, info, weights)
    &&& match crate::msg::must_pay_of(info, state.curve_state.reserve_denom) {
        Err(_) => false,
        Ok(payment) => match buy_supply_of(state, payment) {
            Err(()) => false,
            Ok(ns) => {
                let funded = funded_of(payment, spec_entry_fee(state));
                &&& ns >= state.curve_state.supply
                &&& match state.max_supply {
                    Some(m) => ns <= m,
                    None => true,
                }
                &&& state.token_issuer_contract is Some
                &&& (funded > 0 && state.funding_pool_forwarding is None
                    ==> state.curve_state.funding + funded <= u128::MAX)
            },
        },
    }
}

/// Buy from the curve: the attached reserve-token payment is split into
/// the entry fee and the reserved part, the reserved part enters the
/// reserve, and the curve mints the supply difference to the buyer.
///
/// In the Hatch phase the buyer must pass the allowlist gate
/// (`dao_weights` carries their voting weight per allowlisted group, as
/// the host queried it), their cumulative contribution must stay within
/// the governing bounds, and a purchase whose post-purchase reserve total
/// reaches the configured initial-raise maximum ends the hatch: the phase
/// moves to Open and the hatcher ledger and the allowlist are cleared,
/// atomically with the purchase. Buying in the Closed phase fails.
pub fn buy(
    state: &mut AbcState,
    info: &MessageInfo,
    dao_weights: &crate::state::Ledger,
) -> (r: Result<Vec<AbcMsg>, ContractError>)
    requires
        old(state).wf(),
    ensures
        final(state).wf(),
        r is Err ==> *final(state) == *old(state),
        r matches Err(e) ==> !(e is Paused),
        buy_succeeds(*old(state), *info, *dao_weights) ==> r is Ok,
        old(state).phase is Closed && crate::msg::must_pay_of(
            *info,
            old(state).curve_state.reserve_denom,
        ) is Ok ==> r == Err::<Vec<AbcMsg>, ContractError>(ContractError::CommonsClosed),
        ({
            match crate::msg::must_pay_of(*info, old(state).curve_state.reserve_denom) {
                Err(pe) => r == Err::<Vec<AbcMsg>, ContractError>(ContractError::Payment(pe)),
                Ok(payment) => {
                    &&& (old(state).phase is Hatch && hatch_limits_of(
                        *old(state),
                        info.sender@,
                        *dao_weights,
                    ) is Err ==> r == Err::<Vec<AbcMsg>, ContractError>(
                        ContractError::SenderNotAllowlisted { sender: info.sender },
                    ))
                    &&& (old(state).phase is Hatch && (match hatch_limits_of(
                        *old(state),
                        info.sender@,
                        *dao_weights,
                    ) {
                        Ok(limits) => {
                            let contribution = old(state).hatchers.spec_total(info.sender@)
                                + payment;
                            contribution <= u128::MAX && (contribution < limits.min
                                || contribution > limits.max)
                        },
                        Err(()) => false,
                    }) ==> (match hatch_limits_of(*old(state), info.sender@, *dao_weights) {
                        Ok(limits) => r == Err::<Vec<AbcMsg>, ContractError>(
                            ContractError::ContributionLimit { min: limits.min, max: limits.max },
                        ),
                        Err(()) => false,
                    }))
                    &&& (buy_gate_ok(*old(state), *info, *dao_weights) ==> match buy_supply_of(
                        *old(state),
                        payment,
                    ) {
                        Err(()) => true,
                        Ok(ns) => {
                            &&& (ns < old(state).curve_state.supply ==> r == Err::<
                                Vec<AbcMsg>,
                                ContractError,
                            >(ContractError::Underflow))
                            &&& (ns >= old(state).curve_state.supply ==> match old(state).max_supply {
                                Some(m) => ns > m ==> r == Err::<Vec<AbcMsg>, ContractError>(
                                    ContractError::CannotExceedMaxSupply { max: m },
                                ),
                                None => true,
                            })
                            &&& (ns >= old(state).curve_state.supply && (match old(state).max_supply {
                                Some(m) => ns <= m,
                                None => true,
                            }) && old(state).token_issuer_contract is None ==> r == Err::<
                                Vec<AbcMsg>,
                                ContractError,
                            >(ContractError::Uninitialized))
                        },
                    })
                    &&& (r matches Ok(msgs) ==> {
                        let entry_fee = spec_entry_fee(*old(state));
                        let funded = funded_of(payment, entry_fee);
                        let reserved = reserved_of(payment, entry_fee);
                        let new_reserve = (old(state).curve_state.reserve + reserved) as u128;
                        &&& old(state).curve_state.reserve + reserved <= u128::MAX
                        &&& final(state).curve_state.reserve == new_reserve
                        &&& match buy_supply_of(*old(state), payment) {
                            Ok(new_supply) => {
                                &&& final(state).curve_state.supply == new_supply
                                &&& new_supply >= old(state).curve_state.supply
                                &&& (match old(state).max_supply {
                                    Some(max) => new_supply <= max,
                                    None => true,
                                })
                                &&& msgs@.len() >= 1
                                &&& msgs@[0] == (AbcMsg::Mint {
                                    to: info.sender,
                                    amount: (new_supply - old(state).curve_state.supply) as u128,
                                })
                                &&& (funded > 0 ==> match old(state).funding_pool_forwarding {
                                    None => final(state).curve_state.funding == old(
                                        state,
                                    ).curve_state.funding + funded && msgs@.len() == 1,
                                    Some(fwd) => final(state).curve_state.funding == old(
                                        state,
                                    ).curve_state.funding && msgs@.len() == 2 && msgs@[1] == (
                                    AbcMsg::Send {
                                        to: fwd,
                                        denom: old(state).curve_state.reserve_denom,
                                        amount: funded,
                                    }),
                                })
                                &&& (funded == 0 ==> final(state).curve_state.funding == old(state).curve_state.funding && msgs@.len() == 1)
                            },
                            Err(()) => false,
                        }
                        &&& (old(state).phase is Hatch ==> {
                            let transitioned = old(state).curve_state.reserve + reserved >= old(state).phase_config.hatch.initial_raise.max;
                            if transitioned {
                                &&& final(state).phase is Open
                                &&& final(state).hatchers.entries@.len() == 0
                                &&& final(state).hatcher_allowlist.entries@.len() == 0
                            } else {
                                &&& final(state).phase is Hatch
                                &&& final(state).hatchers.spec_amount(info.sender@) == Some(
                                    (old(state).hatchers.spec_total(info.sender@)
                                        + payment) as u128,
                                )
                                &&& final(state).hatcher_allowlist == old(state).hatcher_allowlist
                            }
                        })
                        &&& (old(state).phase is Open ==> final(state).phase is Open && final(state).hatchers == old(state).hatchers && final(state).hatcher_allowlist == old(state).hatcher_allowlist)
                        &&& final(state).curve_type == old(state).curve_type
                        &&& final(state).phase_config == old(state).phase_config
                        &&& final(state).max_supply == old(state).max_supply
                        &&& final(state).ownership == old(state).ownership
                        &&& final(state).donations == old(state).donations
                        &&& final(state).is_paused == old(state).is_paused
                        &&& final(state).curve_state.reserve_denom == old(state).curve_state.reserve_denom
                        &&& final(state).curve_state.decimals == old(state).curve_state.decimals
                    })
                },
            }
        }),
{
    let payment = match crate::msg::must_pay(info, &state.curve_state.reserve_denom) {
        Ok(p) => p,
        Err(e) => {
            return Err(ContractError::Payment(e));
        },
    };
    let mut record_contribution: bool = false;
    let entry_fee = match &state.phase {
        CommonsPhase::Hatch => {
            let defaults = state.phase_config.hatch.contribution_limits;
            let limits = match state.hatcher_allowlist.resolve_contribution_limit(
                defaults,
                &info.sender,
                dao_weights,
            ) {
                Ok(l) => l,
                Err(e) => {
                    return Err(e);
                },
            };
            let current = match state.hatchers.get(&info.sender) {
                Some(c) => c,
                None => 0,
            };
            let contribution = match current.checked_add(payment) {
                Some(c) => c,
                None => {
                    return Err(ContractError::Overflow);
                },
            };
            if contribution < limits.min || contribution > limits.max {
                return Err(ContractError::ContributionLimit { min: limits.min, max: limits.max });
            }
            state.phase_config.hatch.entry_fee
        },
        CommonsPhase::Open => state.phase_config.open.entry_fee,
        CommonsPhase::Closed => {
            return Err(ContractError::CommonsClosed);
        },
    };
    let (reserved, funded) = calculate_reserved_and_funded(payment, entry_fee);
    let new_reserve = match state.curve_state.reserve.checked_add(reserved) {
        Some(v) => v,
        None => {
            return Err(ContractError::Overflow);
        },
    };
    // the hatch ends exactly when the post-purchase reserve total reaches
    // the configured initial-raise maximum
    let mut transitioned: bool = false;
    match &state.phase {
        CommonsPhase::Hatch => {
            if new_reserve >= state.phase_config.hatch.initial_raise.max {
                transitioned = true;
            } else {
                record_contribution = true;
            }
        },
        _ => {},
    }
    let curve = match state.curve_type.to_curve_fn(state.curve_state.decimals) {
        Ok(c) => c,
        Err(e) => {
            return Err(e);
        },
    };
    let new_supply = match curve.supply(new_reserve) {
        Ok(s) => s,
        Err(e) => {
            return Err(e);
        },
    };
    let minted = match new_supply.checked_sub(state.curve_state.supply) {
        Some(m) => m,
        None => {
            return Err(ContractError::Underflow);
        },
    };
    match &state.max_supply {
        Some(max) => {
            if new_supply > *max {
                return Err(ContractError::CannotExceedMaxSupply { max: *max });
            }
        },
        None => {},
    }
    if state.token_issuer_contract.is_none() {
        return Err(ContractError::Uninitialized);
    }
    let mut msgs: Vec<AbcMsg> = Vec::new();
    msgs.push(AbcMsg::Mint { to: info.sender.clone(), amount: minted });
    let mut new_funding = state.curve_state.funding;
    if funded > 0 {
        match &state.funding_pool_forwarding {
            Some(forwarding) => {
                msgs.push(AbcMsg::Send {
                    to: forwarding.clone(),
                    denom: state.curve_state.reserve_denom.clone(),
                    amount: funded,
                });
            },
            None => {
                new_funding = match state.curve_state.funding.checked_add(funded) {
                    Some(v) => v,
                    None => {
                        return Err(ContractError::Overflow);
                    },
                };
            },
        }
    }
    if transitioned {
        state.phase = CommonsPhase::Open;
        state.hatchers.clear();
        state.hatcher_allowlist.clear();
    } else if record_contribution {
        match state.hatchers.add(&info.sender, payment) {
            Ok(_) => {},
            Err(e) => {
                return Err(e);
            },
        }
    }
    state.curve_state.reserve = new_reserve;
    state.curve_state.supply = new_supply;
    state.curve_state.funding = new_funding;
    Ok(msgs)
}

} // verus!
verus! {

/// The reserve the curve stands at after a sale: the burned amount
/// leaves the supply and the curve reprices the rest. Failure means the
/// burn exceeds the supply or the curve arithmetic fails.
pub open spec fn sell_reserve_of(state: AbcState, burn_amount: u128) -> Result<u128, ()> {
    if burn_amount > state.curve_state.supply {
        Err(())
    } else {
        match crate::curve::curve_of_type(state.curve_type, state.curve_state.decimals) {
            Err(()) => Err(()),
            Ok(c) => crate::curve::curve_reserve_of(
                c,
                (state.curve_state.supply - burn_amount) as u128,
            ),
        }
    }
}

/// Whether a sale must succeed: the supply denom and the issuer are
/// known, the payment is right, the burn fits in the supply, the
/// repriced reserve is computable and does not grow, the exit fee is
/// valid, and the funding accrual fits.
pub open spec fn sell_succeeds(state: AbcState, info: MessageInfo) -> bool {
    match state.supply_denom {
        None => false,
        Some(supply_denom) => match crate::msg::must_pay_of(info, supply_denom) {
            Err(_) => false,
            Ok(burn_amount) => {
                &&& state.token_issuer_contract is Some
                &&& burn_amount <= state.curve_state.supply
                &&& match sell_reserve_of(state, burn_amount) {
                    Err(()) => false,
                    Ok(nr) => {
                        &&& nr <= state.curve_state.reserve
                        &&& match exit_fee_of(
                            state,
                            (state.curve_state.reserve - nr) as u128,
                        ) {
                            Err(()) => false,
                            Ok(taxed) => taxed > 0 && state.funding_pool_forwarding is None
                                ==> state.curve_state.funding + taxed <= u128::MAX,
                        }
                    },
                }
            },
        },
    }
}

/// Sell supply tokens back to the curve: the attached supply-token payment
/// is burned, the reserve falls to what the curve requires for the reduced
/// supply, and the released difference, less the phase's exit fee, is sent
/// to the seller. No phase blocks selling; in the Closed phase the exit
/// fee is zero whatever the configuration says.
pub fn sell(state: &mut AbcState, info: &MessageInfo) -> (r: Result<Vec<AbcMsg>, ContractError>)
    requires
        old(state).wf(),
    ensures
        final(state).wf(),
        r is Err ==> *final(state) == *old(state),
        r matches Err(e) ==> !(e is Paused),
        sell_succeeds(*old(state), *info) ==> r is Ok,
        ({
            match old(state).supply_denom {
                None => r == Err::<Vec<AbcMsg>, ContractError>(ContractError::Uninitialized),
                Some(supply_denom) => match crate::msg::must_pay_of(*info, supply_denom) {
                    Err(pe) => r == Err::<Vec<AbcMsg>, ContractError>(ContractError::Payment(pe)),
                    Ok(burn_amount) => {
                    &&& (old(state).token_issuer_contract is None ==> r == Err::<
                        Vec<AbcMsg>,
                        ContractError,
                    >(ContractError::Uninitialized))
                    &&& (old(state).token_issuer_contract is Some && burn_amount > old(
                        state,
                    ).curve_state.supply ==> r == Err::<Vec<AbcMsg>, ContractError>(
                        ContractError::Underflow,
                    ))
                    &&& (old(state).token_issuer_contract is Some && burn_amount <= old(
                        state,
                    ).curve_state.supply ==> match sell_reserve_of(*old(state), burn_amount) {
                        Err(()) => true,
                        Ok(nr) => {
                            &&& (nr > old(state).curve_state.reserve ==> r == Err::<
                                Vec<AbcMsg>,
                                ContractError,
                            >(ContractError::Underflow))
                            &&& (nr <= old(state).curve_state.reserve && exit_fee_of(
                                *old(state),
                                (old(state).curve_state.reserve - nr) as u128,
                            ) is Err ==> r == Err::<Vec<AbcMsg>, ContractError>(
                                ContractError::InvalidExitFee,
                            ))
                        },
                    })
                    &&& (r matches Ok(msgs) ==> {
                        &&& burn_amount <= old(state).curve_state.supply
                        &&& final(state).curve_state.supply == old(state).curve_state.supply
                            - burn_amount
                        &&& match crate::curve::curve_of_type(
                            old(state).curve_type,
                            old(state).curve_state.decimals,
                        ) {
                            Ok(c) => match crate::curve::curve_reserve_of(
                                c,
                                (old(state).curve_state.supply - burn_amount) as u128,
                            ) {
                                Ok(new_reserve) => {
                                    let released_reserve = (old(state).curve_state.reserve
                                        - new_reserve) as u128;
                                    &&& new_reserve <= old(state).curve_state.reserve
                                    &&& final(state).curve_state.reserve == new_reserve
                                    &&& match exit_fee_of(*old(state), released_reserve) {
                                        Ok(taxed) => {
                                            &&& msgs@.len() >= 3
                                            &&& msgs@[0] == (AbcMsg::Send {
                                                to: old(state).token_issuer_contract.unwrap(),
                                                denom: supply_denom,
                                                amount: burn_amount,
                                            })
                                            &&& msgs@[1] == (AbcMsg::Burn {
                                                from: old(state).token_issuer_contract.unwrap(),
                                                amount: burn_amount,
                                            })
                                            &&& msgs@[2] == (AbcMsg::Send {
                                                to: info.sender,
                                                denom: old(state).curve_state.reserve_denom,
                                                amount: (released_reserve - taxed) as u128,
                                            })
                                            &&& (taxed > 0 && old(state).funding_pool_forwarding is None ==> final(state).curve_state.funding == old(state).curve_state.funding + taxed && msgs@.len() == 3)
                                            &&& (taxed > 0 && old(state).funding_pool_forwarding is Some ==> final(state).curve_state.funding == old(state).curve_state.funding && msgs@.len() == 4)
                                            &&& (taxed == 0 ==> final(state).curve_state.funding
                                                == old(state).curve_state.funding && msgs@.len()
                                                == 3)
                                            &&& (old(state).phase is Closed ==> final(state).curve_state.funding == old(state).curve_state.funding && msgs@[2] == (AbcMsg::Send {
                                                to: info.sender,
                                                denom: old(state).curve_state.reserve_denom,
                                                amount: released_reserve,
                                            }))
                                        },
                                        Err(()) => false,
                                    }
                                },
                                Err(()) => false,
                            },
                            Err(()) => false,
                        }
                        &&& final(state).phase == old(state).phase
                        &&& final(state).hatchers == old(state).hatchers
                        &&& final(state).donations == old(state).donations
                        &&& final(state).hatcher_allowlist == old(state).hatcher_allowlist
                        &&& final(state).ownership == old(state).ownership
                        &&& final(state).curve_type == old(state).curve_type
                        &&& final(state).phase_config == old(state).phase_config
                        &&& final(state).curve_state.reserve_denom == old(state).curve_state.reserve_denom
                        &&& final(state).curve_state.decimals == old(state).curve_state.decimals
                    })
                    },
                },
            }
        }),
{
    let supply_denom = match &state.supply_denom {
        Some(d) => d.clone(),
        None => {
            return Err(ContractError::Uninitialized);
        },
    };
    let burn_amount = match crate::msg::must_pay(info, &supply_denom) {
        Ok(p) => p,
        Err(e) => {
            return Err(ContractError::Payment(e));
        },
    };
    let issuer = match &state.token_issuer_contract {
        Some(a) => a.clone(),
        None => {
            return Err(ContractError::Uninitialized);
        },
    };
    let mut msgs: Vec<AbcMsg> = Vec::new();
    msgs.push(AbcMsg::Send { to: issuer.clone(), denom: supply_denom, amount: burn_amount });
    msgs.push(AbcMsg::Burn { from: issuer, amount: burn_amount });
    let new_supply = match state.curve_state.supply.checked_sub(burn_amount) {
        Some(s) => s,
        None => {
            return Err(ContractError::Underflow);
        },
    };
    let curve = match state.curve_type.to_curve_fn(state.curve_state.decimals) {
        Ok(c) => c,
        Err(e) => {
            return Err(e);
        },
    };
    let new_reserve = match curve.reserve(new_supply) {
        Ok(v) => v,
        Err(e) => {
            return Err(e);
        },
    };
    let released_reserve = match state.curve_state.reserve.checked_sub(new_reserve) {
        Some(v) => v,
        None => {
            return Err(ContractError::Underflow);
        },
    };
    let taxed = match calculate_exit_fee(state, released_reserve) {
        Ok(v) => v,
        Err(e) => {
            return Err(e);
        },
    };
    let released = released_reserve - taxed;
    msgs.push(AbcMsg::Send {
        to: info.sender.clone(),
        denom: state.curve_state.reserve_denom.clone(),
        amount: released,
    });
    let mut new_funding = state.curve_state.funding;
    if taxed > 0 {
        match &state.funding_pool_forwarding {
            Some(forwarding) => {
                msgs.push(AbcMsg::Send {
                    to: forwarding.clone(),
                    denom: state.curve_state.reserve_denom.clone(),
                    amount: taxed,
                });
            },
            None => {
                new_funding = match state.curve_state.funding.checked_add(taxed) {
                    Some(v) => v,
                    None => {
                        return Err(ContractError::Overflow);
                    },
                };
            },
        }
    }
    state.curve_state.supply = new_supply;
    state.curve_state.reserve = new_reserve;
    state.curve_state.funding = new_funding;
    Ok(msgs)
}

} // verus!
verus! {

/// Add entries to and drop addresses from the hatcher allowlist: only the
/// owner may. Additions come first, an already-listed address keeping its
/// first configuration; then the removals, first to last.
pub fn update_hatch_allowlist(
    state: &mut AbcState,
    info: &MessageInfo,
    to_add: Vec<crate::allowlist::HatcherAllowlistEntry>,
    to_remove: Vec<String>,
) -> (r: Result<Vec<AbcMsg>, ContractError>)
    requires
        old(state).wf(),
    ensures
        final(state).wf(),
        r is Ok <==> old(state).ownership.spec_is_owner(info.sender@),
        r is Err ==> *final(state) == *old(state) && (r matches Err(e)
            && e matches ContractError::Ownership(_)),
        r is Ok ==> {
            &&& final(state).hatcher_allowlist.entries@ == crate::allowlist::spec_remove_all(
                crate::allowlist::spec_save_all(old(state).hatcher_allowlist.entries@, to_add@),
                to_remove@.map_values(|x: String| x@),
            )
            &&& *final(state) == (AbcState {
                hatcher_allowlist: final(state).hatcher_allowlist,
                ..*old(state)
            })
        },
{
    state.ownership.assert_owner(&info.sender)?;
    let ghost s0 = state.hatcher_allowlist.entries@;
    let n = to_add.len();
    let mut i: usize = 0;
    while i < n
        invariant
            old(state).wf(),
            n == to_add@.len(),
            i <= n,
            state.hatcher_allowlist.wf(),
            state.hatcher_allowlist.entries@ == crate::allowlist::spec_save_all(
                s0,
                to_add@.take(i as int),
            ),
            s0 == old(state).hatcher_allowlist.entries@,
            *state == (AbcState { hatcher_allowlist: state.hatcher_allowlist, ..*old(state) }),
        decreases n - i,
    {
        let entry = crate::allowlist::HatcherAllowlistEntry {
            addr: to_add[i].addr.clone(),
            config: to_add[i].config,
        };
        proof {
            assert(entry == to_add@[i as int]);
            assert(to_add@.take(i + 1).drop_last() =~= to_add@.take(i as int));
            assert(to_add@.take(i + 1).last() == to_add@[i as int]);
        }
        state.hatcher_allowlist.save(entry);
        i = i + 1;
    }
    proof {
        assert(to_add@.take(n as int) =~= to_add@);
    }
    let ghost s1 = state.hatcher_allowlist.entries@;
    let ghost rv = to_remove@.map_values(|x: String| x@);
    let m = to_remove.len();
    let mut j: usize = 0;
    while j < m
        invariant
            old(state).wf(),
            m == to_remove@.len(),
            j <= m,
            rv == to_remove@.map_values(|x: String| x@),
            state.hatcher_allowlist.wf(),
            state.hatcher_allowlist.entries@ == crate::allowlist::spec_remove_all(
                s1,
                rv.take(j as int),
            ),
            *state == (AbcState { hatcher_allowlist: state.hatcher_allowlist, ..*old(state) }),
        decreases m - j,
    {
        proof {
            assert(rv.take(j + 1).drop_last() =~= rv.take(j as int));
            assert(rv.take(j + 1).last() == rv[j as int]);
            assert(rv[j as int] == to_remove@[j as int]@);
        }
        state.hatcher_allowlist.remove(&to_remove[j]);
        j = j + 1;
    }
    proof {
        assert(rv.take(m as int) =~= rv);
    }
    Ok(Vec::new())
}

/// Update the configuration of the phase the commons is in: only the
/// owner may, only the current phase's configuration can change, each
/// field left `None` keeps its value, and the changed configuration must
/// validate.
pub fn update_phase_config(
    state: &mut AbcState,
    info: &MessageInfo,
    update: UpdatePhaseConfigMsg,
) -> (r: Result<Vec<AbcMsg>, ContractError>)
    requires
        old(state).wf(),
    ensures
        final(state).wf(),
        r is Err ==> *final(state) == *old(state),
        r matches Err(e) ==> !(e is Paused),
        !old(state).ownership.spec_is_owner(info.sender@) ==> (r matches Err(e) && e
            matches ContractError::Ownership(_)),
        old(state).ownership.spec_is_owner(info.sender@) ==> match update {
            UpdatePhaseConfigMsg::Hatch { contribution_limits, initial_raise, entry_fee, exit_fee } => {
                let new_hatch = crate::abc::HatchConfig {
                    contribution_limits: match contribution_limits {
                        Some(v) => v,
                        None => old(state).phase_config.hatch.contribution_limits,
                    },
                    initial_raise: match initial_raise {
                        Some(v) => v,
                        None => old(state).phase_config.hatch.initial_raise,
                    },
                    entry_fee: match entry_fee {
                        Some(v) => v,
                        None => old(state).phase_config.hatch.entry_fee,
                    },
                    exit_fee: match exit_fee {
                        Some(v) => v,
                        None => old(state).phase_config.hatch.exit_fee,
                    },
                };
                if !(old(state).phase is Hatch) {
                    r matches Err(e) && e matches ContractError::InvalidPhase { .. }
                } else if !new_hatch.spec_valid() {
                    r matches Err(e) && e matches ContractError::HatchPhaseConfigError { .. }
                } else {
                    r is Ok && *final(state) == (AbcState {
                        phase_config: crate::abc::CommonsPhaseConfig {
                            hatch: new_hatch,
                            ..old(state).phase_config
                        },
                        ..*old(state)
                    })
                }
            },
            UpdatePhaseConfigMsg::Open { entry_fee, exit_fee } => {
                let new_open = crate::abc::OpenConfig {
                    entry_fee: match entry_fee {
                        Some(v) => v,
                        None => old(state).phase_config.open.entry_fee,
                    },
                    exit_fee: match exit_fee {
                        Some(v) => v,
                        None => old(state).phase_config.open.exit_fee,
                    },
                };
                if !(old(state).phase is Open) {
                    r matches Err(e) && e matches ContractError::InvalidPhase { .. }
                } else if !new_open.spec_valid() {
                    r matches Err(e) && e matches ContractError::OpenPhaseConfigError { .. }
                } else {
                    r is Ok && *final(state) == (AbcState {
                        phase_config: crate::abc::CommonsPhaseConfig {
                            open: new_open,
                            ..old(state).phase_config
                        },
                        ..*old(state)
                    })
                }
            },
        },
{
    state.ownership.assert_owner(&info.sender)?;
    match update {
        UpdatePhaseConfigMsg::Hatch { contribution_limits, initial_raise, entry_fee, exit_fee } => {
            state.phase.expect_hatch()?;
            let mut new_hatch = state.phase_config.hatch;
            match contribution_limits {
                Some(v) => {
                    new_hatch.contribution_limits = v;
                },
                None => {},
            }
            match initial_raise {
                Some(v) => {
                    new_hatch.initial_raise = v;
                },
                None => {},
            }
            match entry_fee {
                Some(v) => {
                    new_hatch.entry_fee = v;
                },
                None => {},
            }
            match exit_fee {
                Some(v) => {
                    new_hatch.exit_fee = v;
                },
                None => {},
            }
            new_hatch.validate()?;
            state.phase_config.hatch = new_hatch;
            Ok(Vec::new())
        },
        UpdatePhaseConfigMsg::Open { entry_fee, exit_fee } => {
            state.phase.expect_open()?;
            let mut new_open = state.phase_config.open;
            match entry_fee {
                Some(v) => {
                    new_open.entry_fee = v;
                },
                None => {},
            }
            match exit_fee {
                Some(v) => {
                    new_open.exit_fee = v;
                },
                None => {},
            }
            new_open.validate()?;
            state.phase_config.open = new_open;
            Ok(Vec::new())
        },
    }
}

/// Transfer, accept or renounce ownership. A transfer is offered by the
/// owner and must be accepted by the named address before its expiry;
/// renouncing leaves the contract ownerless for good.
pub fn update_ownership(
    state: &mut AbcState,
    block: &BlockInfo,
    info: &MessageInfo,
    action: Action,
) -> (r: Result<Vec<AbcMsg>, ContractError>)
    ensures
        r is Err ==> *final(state) == *old(state) && (r matches Err(e)
            && e matches ContractError::Ownership(_)),
        match action {
            Action::TransferOwnership { new_owner, expiry } => {
                &&& (r is Ok <==> old(state).ownership.spec_is_owner(info.sender@))
                &&& r is Ok ==> *final(state) == (AbcState {
                    ownership: crate::state::Ownership {
                        owner: old(state).ownership.owner,
                        pending_owner: Some(new_owner),
                        pending_expiry: expiry,
                    },
                    ..*old(state)
                })
            },
            Action::AcceptOwnership => {
                &&& (r is Ok <==> match old(state).ownership.pending_owner {
                    Some(p) => p@ == info.sender@ && match old(state).ownership.pending_expiry {
                        Some(exp) => !exp.spec_is_expired(*block),
                        None => true,
                    },
                    None => false,
                })
                &&& r is Ok ==> *final(state) == (AbcState {
                    ownership: crate::state::Ownership {
                        owner: Some(info.sender),
                        pending_owner: None,
                        pending_expiry: None,
                    },
                    ..*old(state)
                })
            },
            Action::RenounceOwnership => {
                &&& (r is Ok <==> old(state).ownership.spec_is_owner(info.sender@))
                &&& r is Ok ==> *final(state) == (AbcState {
                    ownership: crate::state::Ownership {
                        owner: None,
                        pending_owner: None,
                        pending_expiry: None,
                    },
                    ..*old(state)
                })
            },
        },
{
    match action {
        Action::TransferOwnership { new_owner, expiry } => {
            state.ownership.assert_owner(&info.sender)?;
            state.ownership.pending_owner = Some(new_owner);
            state.ownership.pending_expiry = expiry;
            Ok(Vec::new())
        },
        Action::AcceptOwnership => {
            let pending = match &state.ownership.pending_owner {
                Some(p) => p.clone(),
                None => {
                    return Err(
                        ContractError::Ownership(crate::error::OwnershipError::TransferNotFound),
                    );
                },
            };
            if !(pending == info.sender) {
                return Err(ContractError::Ownership(crate::error::OwnershipError::NotPendingOwner));
            }
            match &state.ownership.pending_expiry {
                Some(exp) => {
                    if exp.is_expired(block) {
                        return Err(
                            ContractError::Ownership(crate::error::OwnershipError::TransferExpired),
                        );
                    }
                },
                None => {},
            }
            state.ownership.owner = Some(info.sender.clone());
            state.ownership.pending_owner = None;
            state.ownership.pending_expiry = None;
            Ok(Vec::new())
        },
        Action::RenounceOwnership => {
            state.ownership.assert_owner(&info.sender)?;
            state.ownership.owner = None;
            state.ownership.pending_owner = None;
            state.ownership.pending_expiry = None;
            Ok(Vec::new())
        },
    }
}

/// Whether a phase-configuration update must succeed for the owner: the
/// named phase is the current one and the patched configuration
/// validates.
pub open spec fn update_phase_config_succeeds(state: AbcState, update: UpdatePhaseConfigMsg) -> bool {
    match update {
        UpdatePhaseConfigMsg::Hatch { contribution_limits, initial_raise, entry_fee, exit_fee } => {
            let new_hatch = crate::abc::HatchConfig {
                contribution_limits: match contribution_limits {
                    Some(v) => v,
                    None => state.phase_config.hatch.contribution_limits,
                },
                initial_raise: match initial_raise {
                    Some(v) => v,
                    None => state.phase_config.hatch.initial_raise,
                },
                entry_fee: match entry_fee {
                    Some(v) => v,
                    None => state.phase_config.hatch.entry_fee,
                },
                exit_fee: match exit_fee {
                    Some(v) => v,
                    None => state.phase_config.hatch.exit_fee,
                },
            };
            state.phase is Hatch && new_hatch.spec_valid()
        },
        UpdatePhaseConfigMsg::Open { entry_fee, exit_fee } => {
            let new_open = crate::abc::OpenConfig {
                entry_fee: match entry_fee {
                    Some(v) => v,
                    None => state.phase_config.open.entry_fee,
                },
                exit_fee: match exit_fee {
                    Some(v) => v,
                    None => state.phase_config.open.exit_fee,
                },
            };
            state.phase is Open && new_open.spec_valid()
        },
    }
}

/// Whether an ownership action must succeed: transfers and renouncing
/// take the owner, accepting takes the pending owner before the expiry.
pub open spec fn update_ownership_succeeds(
    state: AbcState,
    block: BlockInfo,
    info: MessageInfo,
    action: Action,
) -> bool {
    match action {
        Action::TransferOwnership { .. } => state.ownership.spec_is_owner(info.sender@),
        Action::AcceptOwnership => match state.ownership.pending_owner {
            Some(p) => p@ == info.sender@ && match state.ownership.pending_expiry {
                Some(exp) => !exp.spec_is_expired(block),
                None => true,
            },
            None => false,
        },
        Action::RenounceOwnership => state.ownership.spec_is_owner(info.sender@),
    }
}

/// Carry out one request: when the engine is paused every caller but the
/// owner is turned away before anything else is looked at; otherwise the
/// request is dispatched to its operation.
pub fn execute(
    state: &mut AbcState,
    block: &BlockInfo,
    info: &MessageInfo,
    msg: crate::msg::ExecuteMsg,
    dao_weights: &crate::state::Ledger,
) -> (r: Result<Vec<AbcMsg>, ContractError>)
    requires
        old(state).wf(),
    ensures
        final(state).wf(),
        r is Err ==> *final(state) == *old(state),
        r == Err::<Vec<AbcMsg>, ContractError>(ContractError::Paused) <==> old(state).is_paused
            && !old(state).ownership.spec_is_owner(info.sender@),
        old(state).is_paused && old(state).ownership.spec_is_owner(info.sender@) && msg == (
        crate::msg::ExecuteMsg::TogglePause {}) ==> r is Ok && !final(state).is_paused,
        !old(state).is_paused || old(state).ownership.spec_is_owner(info.sender@) ==> match msg {
            crate::msg::ExecuteMsg::Buy {} => buy_succeeds(*old(state), *info, *dao_weights) ==> r
                is Ok,
            crate::msg::ExecuteMsg::Sell {} => sell_succeeds(*old(state), *info) ==> r is Ok,
            crate::msg::ExecuteMsg::Donate { pool } => r is Ok <==> donate_succeeds(
                *old(state),
                *info,
                pool,
            ),
            crate::msg::ExecuteMsg::Withdraw { amount } => r is Ok <==> old(
                state,
            ).ownership.spec_is_owner(info.sender@) && (match amount {
                Some(a) => a,
                None => old(state).curve_state.funding,
            }) <= old(state).curve_state.funding,
            crate::msg::ExecuteMsg::Close {} => r is Ok <==> old(state).ownership.spec_is_owner(
                info.sender@,
            ),
            crate::msg::ExecuteMsg::TogglePause {} => r is Ok <==> old(
                state,
            ).ownership.spec_is_owner(info.sender@),
            crate::msg::ExecuteMsg::UpdateMaxSupply { .. } => r is Ok <==> old(
                state,
            ).ownership.spec_is_owner(info.sender@),
            crate::msg::ExecuteMsg::UpdateCurve { .. } => r is Ok <==> old(
                state,
            ).ownership.spec_is_owner(info.sender@),
            crate::msg::ExecuteMsg::UpdateFundingPoolForwarding { .. } => r is Ok <==> old(
                state,
            ).ownership.spec_is_owner(info.sender@),
            crate::msg::ExecuteMsg::UpdateHatchAllowlist { .. } => r is Ok <==> old(
                state,
            ).ownership.spec_is_owner(info.sender@),
            crate::msg::ExecuteMsg::UpdatePhaseConfig(update) => r is Ok <==> old(
                state,
            ).ownership.spec_is_owner(info.sender@) && update_phase_config_succeeds(
                *old(state),
                update,
            ),
            crate::msg::ExecuteMsg::UpdateOwnership(action) => r is Ok
                <==> update_ownership_succeeds(*old(state), *block, *info, action),
        },
{
    if state.is_paused {
        match state.ownership.assert_owner(&info.sender) {
            Ok(()) => {},
            Err(_) => {
                return Err(ContractError::Paused);
            },
        }
    }
    match msg {
        crate::msg::ExecuteMsg::Buy {} => buy(state, info, dao_weights),
        crate::msg::ExecuteMsg::Sell {} => sell(state, info),
        crate::msg::ExecuteMsg::Close {} => close(state, info),
        crate::msg::ExecuteMsg::Donate { pool } => donate(state, info, pool),
        crate::msg::ExecuteMsg::Withdraw { amount } => withdraw(state, info, amount),
        crate::msg::ExecuteMsg::UpdateFundingPoolForwarding { address } => {
            update_funding_pool_forwarding(state, info, address)
        },
        crate::msg::ExecuteMsg::UpdateMaxSupply { max_supply } => {
            update_max_supply(state, info, max_supply)
        },
        crate::msg::ExecuteMsg::UpdateCurve { curve_type } => {
            update_curve(state, info, curve_type)
        },
        crate::msg::ExecuteMsg::UpdateHatchAllowlist { to_add, to_remove } => {
            update_hatch_allowlist(state, info, to_add, to_remove)
        },
        crate::msg::ExecuteMsg::TogglePause {} => toggle_pause(state, info),
        crate::msg::ExecuteMsg::UpdatePhaseConfig(update) => {
            update_phase_config(state, info, update)
        },
        crate::msg::ExecuteMsg::UpdateOwnership(action) => {
            update_ownership(state, block, info, action)
        },
    }
}

} // verus!
verus! {

/// Selling after the commons closes is never taxed: in the Closed phase
/// the exit fee is zero on every amount, whatever exit fees the hatch or
/// open configuration carries.
pub proof fn lemma_closed_phase_charges_no_exit_fee(state: AbcState, sell_amount: u128)
    requires
        state.phase is Closed,
    ensures
        exit_fee_of(state, sell_amount) == Ok::<u128, ()>(0u128),
{
}

} // verus!
