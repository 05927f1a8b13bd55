use vstd::prelude::*;

use crate::abc::{CommonsPhase, CommonsPhaseConfig, CurveType};
use crate::allowlist::{seq_has_addr, HatcherAllowlistConfigType, HatcherAllowlistEntry};
use crate::commands::{buy_supply_of, exit_fee_of, sell_reserve_of};
use crate::curve::DecimalPlaces;
use crate::error::ContractError;
use crate::msg::{
    CommonsPhaseConfigResponse, CurveInfoResponse, DenomResponse, DonationsResponse,
    HatcherAllowlistResponse, HatchersResponse,
};
use crate::state::{page_desc_post, AbcState, LedgerEntry, Ownership};

verus! {

/// The current state of the curve, its spot price computed at the current
/// supply.
pub fn query_curve_info(state: &AbcState) -> (r: Result<CurveInfoResponse, ContractError>)
    ensures
        match crate::curve::curve_of_type(state.curve_type, state.curve_state.decimals) {
            Err(()) => r is Err,
            Ok(c) => match crate::curve::curve_spot_price_of(c, state.curve_state.supply) {
                Err(()) => r is Err,
                Ok(price) => r matches Ok(info) && info.reserve == state.curve_state.reserve
                    && info.supply == state.curve_state.supply && info.funding
                    == state.curve_state.funding && info.spot_price.atomics == price
                    && info.reserve_denom == state.curve_state.reserve_denom,
            },
        },
{
    let curve = state.curve_type.to_curve_fn(state.curve_state.decimals)?;
    let spot_price = curve.spot_price(state.curve_state.supply)?;
    Ok(
        CurveInfoResponse {
            reserve: state.curve_state.reserve,
            supply: state.curve_state.supply,
            funding: state.curve_state.funding,
            spot_price,
            reserve_denom: state.curve_state.reserve_denom.clone(),
        },
    )
}

/// The denom of the created supply token; it exists only once the issuer
/// has reported in.
pub fn get_denom(state: &AbcState) -> (r: Result<DenomResponse, ContractError>)
    ensures
        match state.supply_denom {
            Some(d) => r matches Ok(resp) && resp.denom == d,
            None => r == Err::<DenomResponse, ContractError>(ContractError::Uninitialized),
        },
{
    match &state.supply_denom {
        Some(d) => Ok(DenomResponse { denom: d.clone() }),
        None => Err(ContractError::Uninitialized),
    }
}

/// A page of the donation ledger, walked backwards over the stored order.
pub fn query_donations(
    state: &AbcState,
    start_after: Option<&String>,
    limit: Option<u32>,
) -> (r: DonationsResponse)
    requires
        state.wf(),
    ensures
        page_desc_post(
            state.donations.entries@,
            match start_after {
                Some(a) => Some(a@),
                None => None,
            },
            limit,
            r.donations@,
        ),
{
    DonationsResponse { donations: state.donations.page_desc(start_after, limit) }
}

/// A page of the hatcher ledger, walked backwards over the stored order.
pub fn query_hatchers(
    state: &AbcState,
    start_after: Option<&String>,
    limit: Option<u32>,
) -> (r: HatchersResponse)
    requires
        state.wf(),
    ensures
        page_desc_post(
            state.hatchers.entries@,
            match start_after {
                Some(a) => Some(a@),
                None => None,
            },
            limit,
            r.hatchers@,
        ),
{
    HatchersResponse { hatchers: state.hatchers.page_desc(start_after, limit) }
}

/// One hatcher's cumulative contribution; an address that never
/// contributed reads as zero.
pub fn query_hatcher(state: &AbcState, addr: &String) -> (r: u128)
    ensures
        r == state.hatchers.spec_total(addr@),
{
    match state.hatchers.get(addr) {
        Some(v) => v,
        None => 0,
    }
}

/// Whether an entry's kind matches the asked-for kind: both list an
/// address, or both delegate to a group, whatever the priorities.
pub open spec fn config_type_matches(
    e: HatcherAllowlistEntry,
    want: HatcherAllowlistConfigType,
) -> bool {
    match (e.config.config_type, want) {
        (HatcherAllowlistConfigType::DAO { .. }, HatcherAllowlistConfigType::DAO { .. }) => true,
        (
            HatcherAllowlistConfigType::Address {},
            HatcherAllowlistConfigType::Address {},
        ) => true,
        _ => false,
    }
}

/// The entries whose kind matches, in stored order.
pub open spec fn filtered_entries(
    s: Seq<HatcherAllowlistEntry>,
    want: HatcherAllowlistConfigType,
) -> Seq<HatcherAllowlistEntry>
    decreases s.len(),
{
    if s.len() == 0 {
        Seq::<HatcherAllowlistEntry>::empty()
    } else if config_type_matches(s.last(), want) {
        filtered_entries(s.drop_last(), want).push(s.last())
    } else {
        filtered_entries(s.drop_last(), want)
    }
}

/// The entries behind the first one listing `a`: everything after its
/// position, or the whole sequence when no entry lists `a`.
pub open spec fn skip_past(
    s: Seq<HatcherAllowlistEntry>,
    a: Seq<char>,
) -> Seq<HatcherAllowlistEntry>
    decreases s.len(),
{
    if s.len() == 0 {
        s
    } else if s[0].addr@ == a {
        s.skip(1)
    } else {
        skip_past(s.skip(1), a)
    }
}

/// Scanning to the first match and skipping past it is what `skip_past`
/// does.
proof fn lemma_skip_past_at(s: Seq<HatcherAllowlistEntry>, a: Seq<char>, i: int)
    requires
        0 <= i < s.len(),
        forall|k: int| 0 <= k < i ==> s[k].addr@ != a,
        s[i].addr@ == a,
    ensures
        skip_past(s, a) == s.skip(i + 1),
    decreases i,
{
    if i > 0 {
        assert(s.skip(1)[i - 1] == s[i]);
        lemma_skip_past_at(s.skip(1), a, i - 1);
        assert(s.skip(1).skip((i - 1) + 1) =~= s.skip(i + 1));
    }
}

/// The entries behind the first one listing `a`: everything after its
/// position, or the whole sequence when no entry lists `a`.
pub open spec fn entries_after(
    s: Seq<HatcherAllowlistEntry>,
    start: Option<Seq<char>>,
) -> Seq<HatcherAllowlistEntry> {
    match start {
        None => s,
        Some(a) => if seq_has_addr(s, a) {
            skip_past(s, a)
        } else {
            s
        },
    }
}

/// A page of the allowlist: the entries of the asked-for kind (or all of
/// them), in stored order, starting after `start`'s entry, cut to
/// `limit`.
pub open spec fn allowlist_page_of(
    s: Seq<HatcherAllowlistEntry>,
    want: Option<HatcherAllowlistConfigType>,
    start: Option<Seq<char>>,
    limit: Option<u32>,
) -> Seq<HatcherAllowlistEntry> {
    let f = match want {
        None => s,
        Some(w) => filtered_entries(s, w),
    };
    let tail = entries_after(f, start);
    match limit {
        None => tail,
        Some(l) => tail.take(
            if l <= tail.len() {
                l as int
            } else {
                tail.len() as int
            },
        ),
    }
}

/// The hatcher allowlist: nothing when it is empty, else a page of its
/// entries in stored order, optionally only those of one kind, starting
/// after `start_after`'s entry, cut to `limit`.
pub fn query_hatcher_allowlist(
    state: &AbcState,
    config_type: Option<HatcherAllowlistConfigType>,
    start_after: Option<&String>,
    limit: Option<u32>,
) -> (r: HatcherAllowlistResponse)
    requires
        state.wf(),
    ensures
        state.hatcher_allowlist.entries@.len() == 0 ==> r.allowlist is None,
        state.hatcher_allowlist.entries@.len() > 0 ==> (r.allowlist matches Some(entries)
            && entries@ == allowlist_page_of(
            state.hatcher_allowlist.entries@,
            config_type,
            match start_after {
                Some(a) => Some(a@),
                None => None,
            },
            limit,
        )),
{
    if state.hatcher_allowlist.is_empty() {
        return HatcherAllowlistResponse { allowlist: None };
    }
    let src = &state.hatcher_allowlist.entries;
    let n = src.len();
    let mut filtered: Vec<HatcherAllowlistEntry> = Vec::new();
    let mut i: usize = 0;
    while i < n
        invariant
            n == src@.len(),
            i <= n,
            filtered@ == (match config_type {
                None => src@.take(i as int),
                Some(want) => filtered_entries(src@.take(i as int), want),
            }),
        decreases n - i,
    {
        let keep = match (&src[i].config.config_type, &config_type) {
            (_, None) => true,
            (
                HatcherAllowlistConfigType::DAO { .. },
                Some(HatcherAllowlistConfigType::DAO { .. }),
            ) => true,
            (
                HatcherAllowlistConfigType::Address {},
                Some(HatcherAllowlistConfigType::Address {}),
            ) => true,
            _ => false,
        };
        proof {
            assert(src@.take(i + 1).drop_last() =~= src@.take(i as int));
            assert(src@.take(i + 1).last() == src@[i as int]);
        }
        if keep {
            let entry = HatcherAllowlistEntry { addr: src[i].addr.clone(), config: src[i].config };
            proof {
                assert(entry == src@[i as int]);
            }
            filtered.push(entry);
        }
        i = i + 1;
    }
    proof {
        assert(src@.take(n as int) =~= src@);
    }
    let ghost f = filtered@;
    let m = filtered.len();
    let mut from: usize = 0;
    match start_after {
        Some(a) => {
            let mut j: usize = 0;
            while j < m
                invariant
                    m == f.len(),
                    filtered@ == f,
                    j <= m,
                    from == 0 || (1 <= from <= m && f[from - 1].addr@ == a@),
                    from == 0 ==> forall|k: int| 0 <= k < j ==> f[k].addr@ != a@,
                    from >= 1 ==> forall|k: int| 0 <= k < from - 1 ==> f[k].addr@ != a@,
                decreases m - j,
            {
                if from == 0 && filtered[j].addr == *a {
                    from = j + 1;
                }
                j = j + 1;
            }
            proof {
                if from == 0 {
                    assert(!seq_has_addr(f, a@));
                    assert(entries_after(f, Some(a@)) == f);
                } else {
                    assert(seq_has_addr(f, a@));
                    lemma_skip_past_at(f, a@, from - 1);
                    assert(entries_after(f, Some(a@)) == f.skip(from as int));
                }
            }
        },
        None => {},
    }
    let ghost tail = entries_after(
        f,
        match start_after {
            Some(a) => Some(a@),
            None => None,
        },
    );
    let want: usize = match limit {
        None => m - from,
        Some(l) => {
            if (l as usize) <= m - from {
                l as usize
            } else {
                m - from
            }
        },
    };
    let mut out: Vec<HatcherAllowlistEntry> = Vec::new();
    let mut k: usize = 0;
    while k < want
        invariant
            from + want <= m,
            m == f.len(),
            filtered@ == f,
            tail == f.skip(from as int),
            k <= want,
            out@ == tail.take(k as int),
        decreases want - k,
    {
        let entry = HatcherAllowlistEntry {
            addr: filtered[from + k].addr.clone(),
            config: filtered[from + k].config,
        };
        proof {
            assert(entry == f[from + k]);
            assert(tail[k as int] == f[from + k]);
            assert(out@.push(entry) =~= tail.take(k + 1));
        }
        out.push(entry);
        k = k + 1;
    }
    proof {
        if want == m - from {
            assert(out@ =~= tail);
        } else {
            assert(out@ =~= tail.take(want as int));
        }
        assert(tail.len() == m - from);
    }
    HatcherAllowlistResponse { allowlist: Some(out) }
}

/// The maximum supply; an uncapped curve reads as the largest amount.
pub fn query_max_supply(state: &AbcState) -> (r: u128)
    ensures
        r == (match state.max_supply {
            Some(m) => m,
            None => u128::MAX,
        }),
{
    match state.max_supply {
        Some(m) => m,
        None => u128::MAX,
    }
}

/// The phase and the configuration of all phases.
pub fn query_phase_config(state: &AbcState) -> (r: CommonsPhaseConfigResponse)
    ensures
        r.phase == state.phase,
        r.phase_config == state.phase_config,
{
    CommonsPhaseConfigResponse { phase_config: state.phase_config, phase: state.phase }
}

/// What a purchase of `payment` reserve tokens would mint right now,
/// without touching the state: the phase's entry fee comes off, the rest
/// joins the reserve, and the curve's repriced supply difference is the
/// quote. Quoting is refused once the commons is closed.
pub fn query_buy_quote(state: &AbcState, payment: u128) -> (r: Result<u128, ContractError>)
    requires
        state.wf(),
    ensures
        state.phase is Closed ==> r == Err::<u128, ContractError>(ContractError::CommonsClosed),
        !(state.phase is Closed) ==> match buy_supply_of(*state, payment) {
            Err(()) => r is Err,
            Ok(ns) => if ns >= state.curve_state.supply {
                r == Ok::<u128, ContractError>((ns - state.curve_state.supply) as u128)
            } else {
                r == Err::<u128, ContractError>(ContractError::Underflow)
            },
        },
{
    let entry_fee = match &state.phase {
        CommonsPhase::Hatch => state.phase_config.hatch.entry_fee,
        CommonsPhase::Open => state.phase_config.open.entry_fee,
        CommonsPhase::Closed => {
            return Err(ContractError::CommonsClosed);
        },
    };
    let (reserved, _funded) = crate::commands::calculate_reserved_and_funded(payment, entry_fee);
    let new_reserve = match state.curve_state.reserve.checked_add(reserved) {
        Some(v) => v,
        None => {
            return Err(ContractError::Overflow);
        },
    };
    let curve = state.curve_type.to_curve_fn(state.curve_state.decimals)?;
    let new_supply = curve.supply(new_reserve)?;
    match new_supply.checked_sub(state.curve_state.supply) {
        Some(minted) => Ok(minted),
        None => Err(ContractError::Underflow),
    }
}

/// What a sale of `payment` supply tokens would pay out right now,
/// without touching the state: the curve's repriced reserve difference,
/// less the phase's exit fee.
pub fn query_sell_quote(state: &AbcState, payment: u128) -> (r: Result<u128, ContractError>)
    requires
        state.wf(),
    ensures
        payment > state.curve_state.supply ==> r == Err::<u128, ContractError>(
            ContractError::Underflow,
        ),
        payment <= state.curve_state.supply ==> match sell_reserve_of(*state, payment) {
            Err(()) => r is Err,
            Ok(nr) => if nr <= state.curve_state.reserve {
                match exit_fee_of(*state, (state.curve_state.reserve - nr) as u128) {
                    Ok(taxed) => r == Ok::<u128, ContractError>(
                        ((state.curve_state.reserve - nr) as u128 - taxed) as u128,
                    ),
                    Err(()) => r == Err::<u128, ContractError>(ContractError::InvalidExitFee),
                }
            } else {
                r == Err::<u128, ContractError>(ContractError::Underflow)
            },
        },
{
    let new_supply = match state.curve_state.supply.checked_sub(payment) {
        Some(v) => v,
        None => {
            return Err(ContractError::Underflow);
        },
    };
    let curve = state.curve_type.to_curve_fn(state.curve_state.decimals)?;
    let new_reserve = curve.reserve(new_supply)?;
    let released = match state.curve_state.reserve.checked_sub(new_reserve) {
        Some(v) => v,
        None => {
            return Err(ContractError::Underflow);
        },
    };
    let taxed = crate::commands::calculate_exit_fee(state, released)?;
    Ok(released - taxed)
}

/// Everything a maintainer would want to see at once.
#[derive(Clone, Debug, PartialEq, Eq)]
pub struct DumpStateResponse {
    pub phase: CommonsPhase,
    pub phase_config: CommonsPhaseConfig,
    pub curve_type: CurveType,
    pub max_supply: Option<u128>,
    pub is_paused: bool,
    pub reserve: u128,
    pub supply: u128,
    pub funding: u128,
    pub reserve_denom: String,
    pub decimals: DecimalPlaces,
    pub supply_denom: Option<String>,
    pub token_issuer_contract: Option<String>,
    pub funding_pool_forwarding: Option<String>,
    pub owner: Option<String>,
}

/// Copy an optional address.
fn clone_opt_string(v: &Option<String>) -> (r: Option<String>)
    ensures
        r == *v,
{
    match v {
        Some(s) => Some(s.clone()),
        None => None,
    }
}

/// Dump the whole visible state.
pub fn query_dump_state(state: &AbcState) -> (r: DumpStateResponse)
    ensures
        r.phase == state.phase,
        r.phase_config == state.phase_config,
        r.curve_type == state.curve_type,
        r.max_supply == state.max_supply,
        r.is_paused == state.is_paused,
        r.reserve == state.curve_state.reserve,
        r.supply == state.curve_state.supply,
        r.funding == state.curve_state.funding,
        r.reserve_denom == state.curve_state.reserve_denom,
        r.decimals == state.curve_state.decimals,
        r.supply_denom == state.supply_denom,
        r.token_issuer_contract == state.token_issuer_contract,
        r.funding_pool_forwarding == state.funding_pool_forwarding,
        r.owner == state.ownership.owner,
{
    DumpStateResponse {
        phase: state.phase,
        phase_config: state.phase_config,
        curve_type: state.curve_type,
        max_supply: state.max_supply,
        is_paused: state.is_paused,
        reserve: state.curve_state.reserve,
        supply: state.curve_state.supply,
        funding: state.curve_state.funding,
        reserve_denom: state.curve_state.reserve_denom.clone(),
        decimals: state.curve_state.decimals,
        supply_denom: clone_opt_string(&state.supply_denom),
        token_issuer_contract: clone_opt_string(&state.token_issuer_contract),
        funding_pool_forwarding: clone_opt_string(&state.funding_pool_forwarding),
        owner: clone_opt_string(&state.ownership.owner),
    }
}

/// One question to the engine: what a caller asks it to report.
#[derive(Clone, Debug, PartialEq, Eq)]
pub enum QueryMsg {
    /// The curve's running totals and current spot price.
    CurveInfo {},
    /// The declared curve shape.
    CurveType {},
    /// The created supply denom.
    Denom {},
    /// A page of the donation ledger.
    Donations { start_after: Option<String>, limit: Option<u32> },
    /// Where funding accruals are forwarded, if anywhere.
    FundingPoolForwarding {},
    /// A page of the hatcher ledger.
    Hatchers { start_after: Option<String>, limit: Option<u32> },
    /// One hatcher's cumulative contribution.
    Hatcher { addr: String },
    /// A page of the allowlist, optionally only entries of one kind.
    HatcherAllowlist {
        config_type: Option<HatcherAllowlistConfigType>,
        start_after: Option<String>,
        limit: Option<u32>,
    },
    /// Whether the engine is paused.
    IsPaused {},
    /// The maximum supply.
    MaxSupply {},
    /// Who owns the contract.
    Ownership {},
    /// The phase and the configuration of all phases.
    PhaseConfig {},
    /// The lifecycle phase alone.
    Phase {},
    /// The token-issuance collaborator's address.
    TokenContract {},
    /// The created supply denom, bare.
    SupplyDenom {},
    /// What a purchase of this payment would mint.
    BuyQuote { payment: u128 },
    /// What a sale of this payment would pay out.
    SellQuote { payment: u128 },
    /// Everything at once.
    DumpState {},
}

/// The answer to one question.
#[derive(Clone, Debug, PartialEq, Eq)]
pub enum QueryResponse {
    CurveInfo(CurveInfoResponse),
    CurveType(CurveType),
    Denom(DenomResponse),
    Donations(DonationsResponse),
    FundingPoolForwarding(Option<String>),
    Hatchers(HatchersResponse),
    Hatcher(u128),
    HatcherAllowlist(HatcherAllowlistResponse),
    IsPaused(bool),
    MaxSupply(u128),
    Ownership(Ownership),
    PhaseConfig(CommonsPhaseConfigResponse),
    Phase(CommonsPhase),
    TokenContract(Option<String>),
    SupplyDenom(DenomResponse),
    BuyQuote(u128),
    SellQuote(u128),
    DumpState(DumpStateResponse),
}

/// Answer one question about the state. Queries read and never write, and
/// each answer is the corresponding query function's.
pub fn do_query(state: &AbcState, msg: QueryMsg) -> (r: Result<QueryResponse, ContractError>)
    requires
        state.wf(),
    ensures
        ({
            match msg {
                QueryMsg::CurveInfo {} => match crate::curve::curve_of_type(
                    state.curve_type,
                    state.curve_state.decimals,
                ) {
                    Err(()) => r is Err,
                    Ok(c) => match crate::curve::curve_spot_price_of(
                        c,
                        state.curve_state.supply,
                    ) {
                        Err(()) => r is Err,
                        Ok(price) => r matches Ok(QueryResponse::CurveInfo(info))
                            && info.reserve == state.curve_state.reserve && info.supply
                            == state.curve_state.supply && info.funding
                            == state.curve_state.funding && info.spot_price.atomics == price
                            && info.reserve_denom == state.curve_state.reserve_denom,
                    },
                },
                QueryMsg::CurveType {} => r == Ok::<QueryResponse, ContractError>(
                    QueryResponse::CurveType(state.curve_type),
                ),
                QueryMsg::Denom {} => match state.supply_denom {
                    Some(d) => r matches Ok(QueryResponse::Denom(resp)) && resp.denom == d,
                    None => r == Err::<QueryResponse, ContractError>(ContractError::Uninitialized),
                },
                QueryMsg::Donations { start_after, limit } => r matches Ok(
                    QueryResponse::Donations(resp),
                ) && page_desc_post(
                    state.donations.entries@,
                    match start_after {
                        Some(a) => Some(a@),
                        None => None,
                    },
                    limit,
                    resp.donations@,
                ),
                QueryMsg::FundingPoolForwarding {} => r == Ok::<QueryResponse, ContractError>(
                    QueryResponse::FundingPoolForwarding(state.funding_pool_forwarding),
                ),
                QueryMsg::Hatchers { start_after, limit } => r matches Ok(
                    QueryResponse::Hatchers(resp),
                ) && page_desc_post(
                    state.hatchers.entries@,
                    match start_after {
                        Some(a) => Some(a@),
                        None => None,
                    },
                    limit,
                    resp.hatchers@,
                ),
                QueryMsg::Hatcher { addr } => r == Ok::<QueryResponse, ContractError>(
                    QueryResponse::Hatcher(state.hatchers.spec_total(addr@)),
                ),
                QueryMsg::HatcherAllowlist { config_type, start_after, limit } => r matches Ok(
                    QueryResponse::HatcherAllowlist(resp),
                ) && {
                    &&& (state.hatcher_allowlist.entries@.len() == 0 ==> resp.allowlist is None)
                    &&& (state.hatcher_allowlist.entries@.len() > 0 ==> (resp.allowlist
                        matches Some(entries) && entries@ == allowlist_page_of(
                        state.hatcher_allowlist.entries@,
                        config_type,
                        match start_after {
                            Some(a) => Some(a@),
                            None => None,
                        },
                        limit,
                    )))
                },
                QueryMsg::IsPaused {} => r == Ok::<QueryResponse, ContractError>(
                    QueryResponse::IsPaused(state.is_paused),
                ),
                QueryMsg::MaxSupply {} => r == Ok::<QueryResponse, ContractError>(
                    QueryResponse::MaxSupply(
                        match state.max_supply {
                            Some(m) => m,
                            None => u128::MAX,
                        },
                    ),
                ),
                QueryMsg::Ownership {} => r == Ok::<QueryResponse, ContractError>(
                    QueryResponse::Ownership(state.ownership),
                ),
                QueryMsg::PhaseConfig {} => r == Ok::<QueryResponse, ContractError>(
                    QueryResponse::PhaseConfig(
                        CommonsPhaseConfigResponse {
                            phase_config: state.phase_config,
                            phase: state.phase,
                        },
                    ),
                ),
                QueryMsg::Phase {} => r == Ok::<QueryResponse, ContractError>(
                    QueryResponse::Phase(state.phase),
                ),
                QueryMsg::TokenContract {} => r == Ok::<QueryResponse, ContractError>(
                    QueryResponse::TokenContract(state.token_issuer_contract),
                ),
                QueryMsg::SupplyDenom {} => match state.supply_denom {
                    Some(d) => r matches Ok(QueryResponse::SupplyDenom(resp)) && resp.denom == d,
                    None => r == Err::<QueryResponse, ContractError>(ContractError::Uninitialized),
                },
                QueryMsg::BuyQuote { payment } => {
                    &&& (state.phase is Closed ==> r == Err::<QueryResponse, ContractError>(
                        ContractError::CommonsClosed,
                    ))
                    &&& (!(state.phase is Closed) ==> match buy_supply_of(*state, payment) {
                        Err(()) => r is Err,
                        Ok(ns) => if ns >= state.curve_state.supply {
                            r == Ok::<QueryResponse, ContractError>(
                                QueryResponse::BuyQuote(
                                    (ns - state.curve_state.supply) as u128,
                                ),
                            )
                        } else {
                            r == Err::<QueryResponse, ContractError>(ContractError::Underflow)
                        },
                    })
                },
                QueryMsg::SellQuote { payment } => {
                    &&& (payment > state.curve_state.supply ==> r == Err::<
                        QueryResponse,
                        ContractError,
                    >(ContractError::Underflow))
                    &&& (payment <= state.curve_state.supply ==> match sell_reserve_of(
                        *state,
                        payment,
                    ) {
                        Err(()) => r is Err,
                        Ok(nr) => if nr <= state.curve_state.reserve {
                            match exit_fee_of(
                                *state,
                                (state.curve_state.reserve - nr) as u128,
                            ) {
                                Ok(taxed) => r == Ok::<QueryResponse, ContractError>(
                                    QueryResponse::SellQuote(
                                        ((state.curve_state.reserve - nr) as u128
                                            - taxed) as u128,
                                    ),
                                ),
                                Err(()) => r == Err::<QueryResponse, ContractError>(
                                    ContractError::InvalidExitFee,
                                ),
                            }
                        } else {
                            r == Err::<QueryResponse, ContractError>(ContractError::Underflow)
                        },
                    })
                },
                QueryMsg::DumpState {} => r matches Ok(QueryResponse::DumpState(d)) && d.phase
                    == state.phase && d.phase_config == state.phase_config && d.curve_type
                    == state.curve_type && d.max_supply == state.max_supply && d.is_paused
                    == state.is_paused && d.reserve == state.curve_state.reserve && d.supply
                    == state.curve_state.supply && d.funding == state.curve_state.funding
                    && d.reserve_denom == state.curve_state.reserve_denom && d.supply_denom
                    == state.supply_denom && d.token_issuer_contract
                    == state.token_issuer_contract && d.funding_pool_forwarding
                    == state.funding_pool_forwarding && d.owner == state.ownership.owner,
            }
        }),
{
    match msg {
        QueryMsg::CurveInfo {} => Ok(QueryResponse::CurveInfo(query_curve_info(state)?)),
        QueryMsg::CurveType {} => Ok(QueryResponse::CurveType(state.curve_type)),
        QueryMsg::Denom {} => Ok(QueryResponse::Denom(get_denom(state)?)),
        QueryMsg::Donations { start_after, limit } => Ok(
            QueryResponse::Donations(query_donations(state, start_after.as_ref(), limit)),
        ),
        QueryMsg::FundingPoolForwarding {} => Ok(
            QueryResponse::FundingPoolForwarding(clone_opt_string(&state.funding_pool_forwarding)),
        ),
        QueryMsg::Hatchers { start_after, limit } => Ok(
            QueryResponse::Hatchers(query_hatchers(state, start_after.as_ref(), limit)),
        ),
        QueryMsg::Hatcher { addr } => Ok(QueryResponse::Hatcher(query_hatcher(state, &addr))),
        QueryMsg::HatcherAllowlist { config_type, start_after, limit } => Ok(
            QueryResponse::HatcherAllowlist(
                query_hatcher_allowlist(state, config_type, start_after.as_ref(), limit),
            ),
        ),
        QueryMsg::IsPaused {} => Ok(QueryResponse::IsPaused(state.is_paused)),
        QueryMsg::MaxSupply {} => Ok(QueryResponse::MaxSupply(query_max_supply(state))),
        QueryMsg::Ownership {} => Ok(
            QueryResponse::Ownership(
                Ownership {
                    owner: clone_opt_string(&state.ownership.owner),
                    pending_owner: clone_opt_string(&state.ownership.pending_owner),
                    pending_expiry: state.ownership.pending_expiry,
                },
            ),
        ),
        QueryMsg::PhaseConfig {} => Ok(QueryResponse::PhaseConfig(query_phase_config(state))),
        QueryMsg::Phase {} => Ok(QueryResponse::Phase(state.phase)),
        QueryMsg::TokenContract {} => Ok(
            QueryResponse::TokenContract(clone_opt_string(&state.token_issuer_contract)),
        ),
        QueryMsg::SupplyDenom {} => Ok(QueryResponse::SupplyDenom(get_denom(state)?)),
        QueryMsg::BuyQuote { payment } => Ok(
            QueryResponse::BuyQuote(query_buy_quote(state, payment)?),
        ),
        QueryMsg::SellQuote { payment } => Ok(
            QueryResponse::SellQuote(query_sell_quote(state, payment)?),
        ),
        QueryMsg::DumpState {} => Ok(QueryResponse::DumpState(query_dump_state(state))),
    }
}

} // verus!
