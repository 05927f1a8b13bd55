use vstd::prelude::*;

use crate::abc::{CommonsPhase, DenomUnit};
use crate::allowlist::{spec_save_all, HatcherAllowlist, HatcherAllowlistEntry};
use crate::curve::DecimalPlaces;
use crate::error::ContractError;
use crate::msg::{AbcMsg, InstantiateMsg, MessageInfo};
use crate::state::{AbcState, CurveState, Ledger, Ownership};

verus! {

/// The reply id under which the host reports the token-issuance
/// collaborator's address back to the engine.
pub const INSTANTIATE_TOKEN_FACTORY_ISSUER_REPLY_ID: u64 = 0;

/// Set the engine up: validate the configuration, and return the starting
/// state, which waits for the token-issuance collaborator's address
/// before any trading can happen. The host instantiates the issuer from
/// `msg.token_issuer_code_id` and hands its address to `reply`.
pub fn instantiate(info: &MessageInfo, msg: InstantiateMsg) -> (r: Result<AbcState, ContractError>)
    ensures
        r is Ok <==> msg.phase_config.spec_valid() && msg.supply.subdenom@.len() > 0,
        !msg.phase_config.spec_valid() ==> (r matches Err(e) && (e
            matches ContractError::HatchPhaseConfigError { .. } || e
            matches ContractError::OpenPhaseConfigError { .. })),
        msg.phase_config.spec_valid() && msg.supply.subdenom@.len() == 0 ==> (r matches Err(e) && e
            matches ContractError::SupplyTokenError { .. }),
        r matches Ok(state) ==> {
            &&& state.wf()
            &&& state.curve_state.reserve == 0
            &&& state.curve_state.supply == 0
            &&& state.curve_state.funding == 0
            &&& state.curve_state.reserve_denom == msg.reserve.denom
            &&& state.curve_state.decimals == (DecimalPlaces {
                supply: msg.supply.decimals as u32,
                reserve: msg.reserve.decimals as u32,
            })
            &&& state.curve_type == msg.curve_type
            &&& state.phase is Hatch
            &&& state.phase_config == msg.phase_config
            &&& state.max_supply == msg.supply.max_supply
            &&& state.funding_pool_forwarding == msg.funding_pool_forwarding
            &&& !state.is_paused
            &&& state.ownership.owner == Some(info.sender)
            &&& state.ownership.pending_owner is None
            &&& state.hatchers.entries@.len() == 0
            &&& state.donations.entries@.len() == 0
            &&& state.hatcher_allowlist.entries@ == (match msg.hatcher_allowlist {
                Some(entries) => spec_save_all(Seq::<HatcherAllowlistEntry>::empty(), entries@),
                None => Seq::<HatcherAllowlistEntry>::empty(),
            })
            &&& state.supply_denom is None
            &&& state.token_issuer_contract is None
            &&& state.temp_supply == Some(msg.supply)
        },
{
    msg.phase_config.validate()?;
    if msg.supply.subdenom.as_str().is_empty() {
        return Err(ContractError::SupplyTokenError {
            reason: "Token subdenom must not be empty.".to_string(),
        });
    }
    let mut allowlist = HatcherAllowlist::new();
    match &msg.hatcher_allowlist {
        Some(entries) => {
            let n = entries.len();
            let mut i: usize = 0;
            while i < n
                invariant
                    n == entries@.len(),
                    i <= n,
                    allowlist.wf(),
                    allowlist.entries@ == spec_save_all(
                        Seq::<HatcherAllowlistEntry>::empty(),
                        entries@.take(i as int),
                    ),
                decreases n - i,
            {
                let entry = HatcherAllowlistEntry {
                    addr: entries[i].addr.clone(),
                    config: entries[i].config,
                };
                proof {
                    assert(entry == entries@[i as int]);
                    assert(entries@.take(i + 1).drop_last() =~= entries@.take(i as int));
                    assert(entries@.take(i + 1).last() == entries@[i as int]);
                }
                allowlist.save(entry);
                i = i + 1;
            }
            proof {
                assert(entries@.take(n as int) =~= entries@);
            }
        },
        None => {},
    }
    let decimals = DecimalPlaces::new(msg.supply.decimals, msg.reserve.decimals);
    let curve_state = CurveState::new(msg.reserve.denom, decimals);
    Ok(
        AbcState {
            curve_state,
            curve_type: msg.curve_type,
            phase: CommonsPhase::Hatch,
            phase_config: msg.phase_config,
            max_supply: msg.supply.max_supply,
            funding_pool_forwarding: msg.funding_pool_forwarding,
            is_paused: false,
            ownership: Ownership::new(info.sender.clone()),
            hatchers: Ledger::new(),
            donations: Ledger::new(),
            hatcher_allowlist: allowlist,
            supply_denom: None,
            token_issuer_contract: None,
            temp_supply: Some(msg.supply),
        },
    )
}

/// Inserting one unit into a sequence sorted by exponent: it goes behind
/// every unit of a smaller or equal exponent, so equal exponents keep
/// their order.
pub open spec fn sorted_insert(s: Seq<DenomUnit>, x: DenomUnit) -> Seq<DenomUnit>
    decreases s.len(),
{
    if s.len() == 0 {
        seq![x]
    } else if s.last().exponent <= x.exponent {
        s.push(x)
    } else {
        sorted_insert(s.drop_last(), x).push(s.last())
    }
}

/// Sorting a sequence of units by exponent, stably, by inserting each in
/// turn.
pub open spec fn sorted_units_of(s: Seq<DenomUnit>) -> Seq<DenomUnit>
    decreases s.len(),
{
    if s.len() == 0 {
        Seq::<DenomUnit>::empty()
    } else {
        sorted_insert(sorted_units_of(s.drop_last()), s.last())
    }
}

/// Inserting at the position found by scanning from the back is the same
/// as the recursive insertion.
proof fn lemma_sorted_insert_at(s: Seq<DenomUnit>, x: DenomUnit, pos: int)
    requires
        0 <= pos <= s.len(),
        forall|k: int| pos <= k < s.len() ==> s[k].exponent > x.exponent,
        pos > 0 ==> s[pos - 1].exponent <= x.exponent,
    ensures
        sorted_insert(s, x) == s.insert(pos, x),
    decreases s.len(),
{
    if pos == s.len() {
        if pos == 0 {
            assert(sorted_insert(s, x) =~= s.insert(pos, x));
        } else {
            assert(s.last().exponent <= x.exponent);
            assert(s.push(x) =~= s.insert(pos, x));
        }
    } else {
        assert(s.last().exponent > x.exponent);
        lemma_sorted_insert_at(s.drop_last(), x, pos);
        assert(sorted_insert(s.drop_last(), x).push(s.last()) =~= s.insert(pos, x));
    }
}

/// Insert `x` into a vector of units sorted by exponent, keeping it
/// sorted and putting `x` behind every unit of the same exponent.
fn insert_unit(units: &mut Vec<DenomUnit>, x: DenomUnit)
    ensures
        final(units)@ == sorted_insert(old(units)@, x),
{
    let mut pos: usize = units.len();
    while pos > 0 && units[pos - 1].exponent > x.exponent
        invariant
            pos <= units@.len(),
            forall|k: int| pos <= k < units@.len() ==> units@[k].exponent > x.exponent,
            *units == *old(units),
        decreases pos,
    {
        pos = pos - 1;
    }
    proof {
        lemma_sorted_insert_at(units@, x, pos as int);
    }
    units.insert(pos, x);
}

/// Take the token-issuance collaborator's acknowledgement: under the one
/// expected id, record its address, derive and record the created denom
/// `factory/<issuer>/<subdenom>`, and instruct the issuer to let this
/// contract (at `contract_address`) mint and burn without bound and to
/// set the denom metadata, its units sorted by exponent. Any other id is
/// refused.
pub fn reply(
    state: &mut AbcState,
    contract_address: &String,
    id: u64,
    issuer_addr: String,
) -> (r: Result<Vec<AbcMsg>, ContractError>)
    ensures
        r is Err ==> *final(state) == *old(state),
        id != INSTANTIATE_TOKEN_FACTORY_ISSUER_REPLY_ID ==> r == Err::<Vec<AbcMsg>, ContractError>(
            ContractError::UnknownReplyId { id },
        ),
        id == INSTANTIATE_TOKEN_FACTORY_ISSUER_REPLY_ID && old(state).temp_supply is None ==> r
            == Err::<Vec<AbcMsg>, ContractError>(ContractError::Uninitialized),
        id == INSTANTIATE_TOKEN_FACTORY_ISSUER_REPLY_ID && old(state).temp_supply is Some ==> r
            is Ok,
        r matches Ok(msgs) ==> {
            let supply = old(state).temp_supply.unwrap();
            let denom = "factory/"@ + issuer_addr@ + "/"@ + supply.subdenom@;
            &&& old(state).temp_supply is Some
            &&& final(state).token_issuer_contract == Some(issuer_addr)
            &&& final(state).temp_supply is None
            &&& final(state).supply_denom matches Some(d) && d@ == denom
            &&& *final(state) == (AbcState {
                token_issuer_contract: final(state).token_issuer_contract,
                temp_supply: None,
                supply_denom: final(state).supply_denom,
                ..*old(state)
            })
            &&& msgs@.len() >= 2
            &&& msgs@[0] == (AbcMsg::SetMinterAllowance {
                address: *contract_address,
                allowance: u128::MAX,
            })
            &&& msgs@[1] == (AbcMsg::SetBurnerAllowance {
                address: *contract_address,
                allowance: u128::MAX,
            })
            &&& match supply.metadata {
                None => msgs@.len() == 2,
                Some(metadata) => {
                    &&& msgs@.len() == 3
                    &&& msgs@[2] matches AbcMsg::SetDenomMetadata {
                        base,
                        description,
                        display,
                        name,
                        symbol,
                        denom_units,
                    } && base@ == denom && description == metadata.description && display
                        == metadata.display && name == metadata.name && symbol == metadata.symbol
                        && exists|u0: DenomUnit|
                        u0.denom@ == denom && u0.exponent == 0 && u0.aliases@.len() == 1
                            && u0.aliases@[0]@ == supply.subdenom@ && denom_units@ == sorted_units_of(
                            seq![u0] + (match metadata.additional_denom_units {
                                Some(units) => units@,
                                None => Seq::<DenomUnit>::empty(),
                            }),
                        )
                },
            }
        },
{
    if id != INSTANTIATE_TOKEN_FACTORY_ISSUER_REPLY_ID {
        return Err(ContractError::UnknownReplyId { id });
    }
    let mut supply_opt: Option<crate::abc::SupplyToken> = None;
    core::mem::swap(&mut state.temp_supply, &mut supply_opt);
    let supply = match supply_opt {
        Some(s) => s,
        None => {
            return Err(ContractError::Uninitialized);
        },
    };
    let mut denom = String::from_str("factory/");
    denom = denom.concat(issuer_addr.as_str());
    denom = denom.concat("/");
    denom = denom.concat(supply.subdenom.as_str());
    let mut msgs: Vec<AbcMsg> = Vec::new();
    msgs.push(AbcMsg::SetMinterAllowance { address: contract_address.clone(), allowance: u128::MAX });
    msgs.push(AbcMsg::SetBurnerAllowance { address: contract_address.clone(), allowance: u128::MAX });
    match supply.metadata {
        Some(metadata) => {
            let mut aliases: Vec<String> = Vec::new();
            aliases.push(supply.subdenom.clone());
            let first = DenomUnit { denom: denom.clone(), exponent: 0, aliases };
            let ghost u0 = first;
            let mut units: Vec<DenomUnit> = Vec::new();
            let ghost all_units = seq![first] + (match &metadata.additional_denom_units {
                Some(us) => us@,
                None => Seq::<DenomUnit>::empty(),
            });
            insert_unit(&mut units, first);
            proof {
                assert(all_units.take(1) =~= seq![u0]);
                assert(seq![u0].drop_last() =~= Seq::<DenomUnit>::empty());
                assert(sorted_insert(Seq::<DenomUnit>::empty(), u0) =~= seq![u0]);
                assert(sorted_units_of(seq![u0]) == sorted_insert(
                    sorted_units_of(seq![u0].drop_last()),
                    u0,
                ));
                assert(sorted_units_of(Seq::<DenomUnit>::empty()) =~= Seq::<DenomUnit>::empty());
                assert(units@ == sorted_units_of(all_units.take(1)));
            }
            match metadata.additional_denom_units {
                Some(additional) => {
                    let mut additional = additional;
                    let n = additional.len();
                    let mut i: usize = 0;
                    while i < n
                        invariant
                            n - i == additional@.len(),
                            all_units.len() == n + 1,
                            i <= n,
                            forall|k: int|
                                0 <= k < additional@.len() ==> all_units[i + 1 + k]
                                    == additional@[k],
                            units@ == sorted_units_of(all_units.take(i + 1)),
                        decreases n - i,
                    {
                        let unit = additional.remove(0);
                        proof {
                            assert(unit == all_units[i + 1]);
                            assert(all_units.take(i + 2).drop_last() =~= all_units.take(i + 1));
                            assert(all_units.take(i + 2).last() == all_units[i + 1]);
                        }
                        insert_unit(&mut units, unit);
                        i = i + 1;
                    }
                    proof {
                        assert(all_units.take(n + 1) =~= all_units);
                    }
                },
                None => {
                    proof {
                        assert(all_units.take(1) =~= all_units);
                    }
                },
            }
            proof {
                assert(u0.denom@ == "factory/"@ + issuer_addr@ + "/"@ + supply.subdenom@);
                assert(u0.exponent == 0);
                assert(u0.aliases@.len() == 1);
                assert(u0.aliases@[0]@ == supply.subdenom@);
                assert(units@ == sorted_units_of(all_units));
            }
            msgs.push(AbcMsg::SetDenomMetadata {
                base: denom.clone(),
                description: metadata.description,
                display: metadata.display,
                name: metadata.name,
                symbol: metadata.symbol,
                denom_units: units,
            });
        },
        None => {},
    }
    state.token_issuer_contract = Some(issuer_addr);
    state.temp_supply = None;
    state.supply_denom = Some(denom);
    Ok(msgs)
}

} // verus!
