use vstd::prelude::*;
use vstd::pervasive::VecAdditionalExecFns;

use crate::abc::{CommonsPhase, CommonsPhaseConfig, CurveType, SupplyToken};
use crate::allowlist::HatcherAllowlist;
use crate::curve::DecimalPlaces;
use crate::error::{ContractError, OwnershipError};

verus! {

/// The running totals of the curve: how much reserve it holds, how much
/// supply it has issued, and how much sits in the funding pool.
#[derive(Clone, Debug, PartialEq, Eq)]
pub struct CurveState {
    /// Reserve tokens backing the issued supply.
    pub reserve: u128,
    /// Supply tokens issued by the curve.
    pub supply: u128,
    /// Reserve tokens accrued to the funding pool.
    pub funding: u128,
    /// The denom of the reserve token.
    pub reserve_denom: String,
    /// The fixed-point scales of the two denominations.
    pub decimals: DecimalPlaces,
}

impl CurveState {
    /// A fresh curve: nothing held, nothing issued.
    pub fn new(reserve_denom: String, decimals: DecimalPlaces) -> (r: CurveState)
        ensures
            r.reserve == 0,
            r.supply == 0,
            r.funding == 0,
            r.reserve_denom == reserve_denom,
            r.decimals == decimals,
    {
        CurveState { reserve: 0, supply: 0, funding: 0, reserve_denom, decimals }
    }
}

/// One line of a ledger: an address and the amount credited to it.
#[derive(Clone, Debug, PartialEq, Eq)]
pub struct LedgerEntry {
    pub addr: String,
    pub amount: u128,
}

/// The amount the first entry of `s` with address `a` carries, if any.
pub open spec fn ledger_get(s: Seq<LedgerEntry>, a: Seq<char>) -> Option<u128>
    decreases s.len(),
{
    if s.len() == 0 {
        None::<u128>
    } else if s[0].addr@ == a {
        Some(s[0].amount)
    } else {
        ledger_get(s.skip(1), a)
    }
}

/// A cumulative ledger: a mapping from address to a running total, kept as
/// a vector of entries with distinct addresses in insertion order.
#[derive(Clone, Debug, PartialEq, Eq)]
pub struct Ledger {
    pub entries: Vec<LedgerEntry>,
}

impl Ledger {
    /// No two entries share an address.
    pub open spec fn wf(&self) -> bool {
        forall|i: int, j: int|
            0 <= i < j < self.entries@.len() ==> self.entries@[i].addr@ != self.entries@[j].addr@
    }

    /// The amount credited to `a`, if any.
    pub open spec fn spec_amount(&self, a: Seq<char>) -> Option<u128> {
        ledger_get(self.entries@, a)
    }

    /// The amount credited to `a`, counting an absent address as zero.
    pub open spec fn spec_total(&self, a: Seq<char>) -> u128 {
        match self.spec_amount(a) {
            Some(x) => x,
            None => 0u128,
        }
    }

    /// An empty ledger.
    pub fn new() -> (r: Ledger)
        ensures
            r.entries@.len() == 0,
            r.wf(),
    {
        Ledger { entries: Vec::new() }
    }

    /// Whether the ledger has no entries.
    pub fn is_empty(&self) -> (r: bool)
        ensures
            r <==> self.entries@.len() == 0,
    {
        self.entries.len() == 0
    }

    /// Look up the amount credited to `addr`.
    pub fn get(&self, addr: &String) -> (r: Option<u128>)
        ensures
            r == self.spec_amount(addr@),
    {
        let n = self.entries.len();
        let mut i: usize = 0;
        while i < n
            invariant
                n == self.entries@.len(),
                i <= n,
                forall|k: int| 0 <= k < i ==> self.entries@[k].addr@ != addr@,
            decreases n - i,
        {
            if self.entries[i].addr == *addr {
                proof {
                    lemma_ledger_get_skip(self.entries@, addr@, i as int);
                    assert(self.entries@.skip(i as int)[0] == self.entries@[i as int]);
                }
                return Some(self.entries[i].amount);
            }
            i = i + 1;
        }
        proof {
            lemma_ledger_get_skip(self.entries@, addr@, n as int);
        }
        None
    }

    /// Credit `amount` to `addr`, creating the line if it is new, and
    /// return the new running total. Fails on overflow of the total, and
    /// then changes nothing.
    pub fn add(&mut self, addr: &String, amount: u128) -> (r: Result<u128, ContractError>)
        requires
            old(self).wf(),
        ensures
            final(self).wf(),
            r matches Ok(total) ==> {
                &&& total == old(self).spec_total(addr@) + amount
                &&& final(self).spec_amount(addr@) == Some(total)
                &&& forall|a: Seq<char>|
                    a != addr@ ==> final(self).spec_amount(a) == old(self).spec_amount(a)
            },
            r is Ok <==> old(self).spec_total(addr@) + amount <= u128::MAX,
            r matches Err(e) ==> e is Overflow && *final(self) == *old(self),
    {
        let n = self.entries.len();
        let mut i: usize = 0;
        while i < n
            invariant
                old(self).wf(),
                *self == *old(self),
                n == old(self).entries@.len(),
                i <= n,
                forall|k: int| 0 <= k < i ==> old(self).entries@[k].addr@ != addr@,
            decreases n - i,
        {
            if self.entries[i].addr == *addr {
                proof {
                    lemma_ledger_get_skip(old(self).entries@, addr@, i as int);
                    assert(old(self).entries@.skip(i as int)[0] == old(self).entries@[i as int]);
                }
                let cur = self.entries[i].amount;
                proof {
                    assert(old(self).entries@[i as int].addr@ == addr@);
                }
                match cur.checked_add(amount) {
                    Some(total) => {
                        let entry = LedgerEntry { addr: addr.clone(), amount: total };
                        self.entries.set(i, entry);
                        proof {
                            assert(self.entries@[i as int].addr@ == addr@);
                            lemma_ledger_get_update(old(self).entries@, self.entries@, addr@, i as int);
                            assert forall|a: int, b: int|
                                0 <= a < b < self.entries@.len() implies self.entries@[a].addr@
                                != self.entries@[b].addr@ by {
                                lemma_ledger_distinct(*old(self), a, b);
                                if a == i {
                                    assert(self.entries@[b] == old(self).entries@[b]);
                                    assert(old(self).entries@[a].addr@ == addr@);
                                } else if b == i {
                                    assert(self.entries@[a] == old(self).entries@[a]);
                                    assert(old(self).entries@[b].addr@ == addr@);
                                } else {
                                    assert(self.entries@[a] == old(self).entries@[a]);
                                    assert(self.entries@[b] == old(self).entries@[b]);
                                }
                            }
                        }
                        return Ok(total);
                    },
                    None => {
                        return Err(ContractError::Overflow);
                    },
                }
            }
            i = i + 1;
        }
        proof {
            lemma_ledger_get_skip(old(self).entries@, addr@, n as int);
            assert(old(self).entries@.skip(n as int).len() == 0);
        }
        let entry = LedgerEntry { addr: addr.clone(), amount };
        self.entries.push(entry);
        proof {
            assert(self.entries@ == old(self).entries@.push(entry));
            lemma_ledger_get_push(old(self).entries@, addr@, amount);
            assert forall|a: Seq<char>| a != addr@ implies ledger_get(self.entries@, a)
                == ledger_get(old(self).entries@, a) by {
                lemma_ledger_get_push_other(old(self).entries@, addr@, amount, a);
            }
        }
        Ok(amount)
    }

    /// Drop every entry.
    pub fn clear(&mut self)
        ensures
            final(self).entries@.len() == 0,
            final(self).wf(),
    {
        self.entries.clear();
    }
}

/// Skipping entries that do not match leaves the lookup unchanged.
proof fn lemma_ledger_get_skip(s: Seq<LedgerEntry>, a: Seq<char>, i: int)
    requires
        0 <= i <= s.len(),
        forall|k: int| 0 <= k < i ==> s[k].addr@ != a,
    ensures
        ledger_get(s, a) == ledger_get(s.skip(i), a),
    decreases i,
{
    if i > 0 {
        assert(s.skip(1).skip(i - 1) =~= s.skip(i));
        lemma_ledger_get_skip(s.skip(1), a, i - 1);
    } else {
        assert(s.skip(0) =~= s);
    }
}

/// Updating the matching entry in place rewrites that lookup and no other.
proof fn lemma_ledger_get_update(s0: Seq<LedgerEntry>, s1: Seq<LedgerEntry>, a: Seq<char>, i: int)
    requires
        0 <= i < s0.len(),
        s1 == s0.update(i, s1[i]),
        s1.len() == s0.len(),
        s1[i].addr@ == a,
        s0[i].addr@ == a,
        forall|k: int| 0 <= k < i ==> s0[k].addr@ != a,
    ensures
        ledger_get(s1, a) == Some(s1[i].amount),
        forall|b: Seq<char>| b != a ==> ledger_get(s1, b) == ledger_get(s0, b),
    decreases i,
{
    if i == 0 {
        assert forall|b: Seq<char>| b != a implies ledger_get(s1, b) == ledger_get(s0, b) by {
            assert(s1.skip(1) =~= s0.skip(1));
        }
    } else {
        assert(s1[0] == s0[0]);
        assert(s1.skip(1) =~= s0.skip(1).update(i - 1, s1[i]));
        assert(s1.skip(1)[i - 1] == s1[i]);
        lemma_ledger_get_update(s0.skip(1), s1.skip(1), a, i - 1);
        assert(ledger_get(s1, a) == ledger_get(s1.skip(1), a));
        assert forall|b: Seq<char>| b != a implies ledger_get(s1, b) == ledger_get(s0, b) by {
            if s0[0].addr@ != b {
                assert(ledger_get(s1, b) == ledger_get(s1.skip(1), b));
                assert(ledger_get(s0, b) == ledger_get(s0.skip(1), b));
            }
        }
    }
}

/// Appending a fresh address makes its lookup the pushed amount.
proof fn lemma_ledger_get_push(s: Seq<LedgerEntry>, a: Seq<char>, amount: u128)
    requires
        ledger_get(s, a) is None,
    ensures
        forall|e: LedgerEntry|
            e.addr@ == a && e.amount == amount ==> ledger_get(s.push(e), a) == Some(amount),
    decreases s.len(),
{
    assert forall|e: LedgerEntry|
        e.addr@ == a && e.amount == amount implies ledger_get(s.push(e), a) == Some(amount) by {
        if s.len() == 0 {
            assert(s.push(e)[0] == e);
        } else {
            assert(s.push(e)[0] == s[0]);
            assert(s.push(e).skip(1) =~= s.skip(1).push(e));
            lemma_ledger_get_push(s.skip(1), a, amount);
        }
        assert(ledger_get(s.push(e), a) == Some(amount));
    }
}

/// Appending an entry for one address leaves every other lookup unchanged.
proof fn lemma_ledger_get_push_other(s: Seq<LedgerEntry>, a: Seq<char>, amount: u128, b: Seq<char>)
    requires
        b != a,
    ensures
        forall|e: LedgerEntry|
            e.addr@ == a ==> ledger_get(s.push(e), b) == ledger_get(s, b),
    decreases s.len(),
{
    assert forall|e: LedgerEntry| e.addr@ == a implies ledger_get(s.push(e), b) == ledger_get(
        s,
        b,
    ) by {
        if s.len() == 0 {
            assert(s.push(e)[0] == e);
            assert(s.push(e).skip(1) =~= s);
        } else {
            assert(s.push(e)[0] == s[0]);
            assert(s.push(e).skip(1) =~= s.skip(1).push(e));
            lemma_ledger_get_push_other(s.skip(1), a, amount, b);
        }
    }
}

} // verus!
verus! {

/// Two distinct lines of a well-formed ledger never share an address.
proof fn lemma_ledger_distinct(l: Ledger, a: int, b: int)
    requires
        l.wf(),
        0 <= a < b < l.entries@.len(),
    ensures
        l.entries@[a].addr@ != l.entries@[b].addr@,
{
}

} // verus!
verus! {

/// Who owns the contract, and any transfer in progress.
#[derive(Clone, Debug, PartialEq, Eq)]
pub struct Ownership {
    /// The current owner; `None` once ownership is renounced.
    pub owner: Option<String>,
    /// The address an ownership transfer is pending for.
    pub pending_owner: Option<String>,
    /// When the pending transfer can no longer be accepted.
    pub pending_expiry: Option<crate::msg::Expiration>,
}

impl Ownership {
    /// Ownership held by `owner` with no transfer pending.
    pub fn new(owner: String) -> (r: Ownership)
        ensures
            r.owner == Some(owner),
            r.pending_owner is None,
            r.pending_expiry is None,
    {
        Ownership { owner: Some(owner), pending_owner: None, pending_expiry: None }
    }

    /// Whether `sender` is the current owner.
    pub open spec fn spec_is_owner(&self, sender: Seq<char>) -> bool {
        match self.owner {
            Some(o) => o@ == sender,
            None => false,
        }
    }

    /// Fail unless `sender` is the current owner: with no owner at all the
    /// contract reports so, otherwise it rejects the caller.
    pub fn assert_owner(&self, sender: &String) -> (r: Result<(), ContractError>)
        ensures
            r is Ok <==> self.spec_is_owner(sender@),
            r matches Err(e) ==> e matches ContractError::Ownership(oe) && match self.owner {
                Some(_) => oe is NotOwner,
                None => oe is NoOwner,
            },
    {
        match &self.owner {
            Some(o) => {
                if *o == *sender {
                    Ok(())
                } else {
                    Err(ContractError::Ownership(OwnershipError::NotOwner))
                }
            },
            None => Err(ContractError::Ownership(OwnershipError::NoOwner)),
        }
    }
}

/// The whole persistent state of the engine, loaded once per call and
/// passed through it explicitly.
#[derive(Clone, Debug, PartialEq, Eq)]
pub struct AbcState {
    /// The running totals of the curve.
    pub curve_state: CurveState,
    /// The declared curve shape.
    pub curve_type: CurveType,
    /// The lifecycle phase.
    pub phase: CommonsPhase,
    /// The configuration of all three phases.
    pub phase_config: CommonsPhaseConfig,
    /// The largest supply the curve may issue, if capped.
    pub max_supply: Option<u128>,
    /// Where funding accruals are forwarded, if anywhere.
    pub funding_pool_forwarding: Option<String>,
    /// Whether the engine is paused for everyone but the owner.
    pub is_paused: bool,
    /// Who owns the contract.
    pub ownership: Ownership,
    /// Cumulative hatch contributions per hatcher; cleared when the hatch
    /// ends.
    pub hatchers: Ledger,
    /// Cumulative lifetime donations per donor; never cleared.
    pub donations: Ledger,
    /// Who may contribute during the hatch, and at what bounds.
    pub hatcher_allowlist: crate::allowlist::HatcherAllowlist,
    /// The denom of the created supply token, once the issuer reported in.
    pub supply_denom: Option<String>,
    /// The token-issuance collaborator's address, once it reported in.
    pub token_issuer_contract: Option<String>,
    /// The supply description held until the issuer reports in.
    pub temp_supply: Option<SupplyToken>,
}

impl AbcState {
    /// The state invariant: the ledgers and the allowlist keep one line
    /// per address, and the phase configuration is validated.
    pub open spec fn wf(&self) -> bool {
        &&& self.hatchers.wf()
        &&& self.donations.wf()
        &&& self.hatcher_allowlist.wf()
        &&& self.phase_config.spec_valid()
    }
}

} // verus!
verus! {

/// What a backwards page of a ledger is: the lines strictly before
/// `start`'s line (or all of them when `start` is absent or unknown),
/// newest stored first, cut to `limit` lines.
pub open spec fn page_desc_post(
    entries: Seq<LedgerEntry>,
    start: Option<Seq<char>>,
    limit: Option<u32>,
    page: Seq<LedgerEntry>,
) -> bool {
    exists|upto: int|
        {
            &&& 0 <= upto <= entries.len()
            &&& match start {
                None => upto == entries.len(),
                Some(a) => (upto == entries.len() && !exists|k: int|
                    0 <= k < entries.len() && entries[k].addr@ == a) || (upto < entries.len()
                    && entries[upto].addr@ == a),
            }
            &&& page == (match limit {
                None => entries.take(upto).reverse(),
                Some(l) => entries.take(upto).reverse().take(
                    if l <= upto {
                        l as int
                    } else {
                        upto
                    },
                ),
            })
        }
}

impl Ledger {
    /// Copy one line.
    fn entry_at(&self, i: usize) -> (r: LedgerEntry)
        requires
            i < self.entries@.len(),
        ensures
            r == self.entries@[i as int],
    {
        LedgerEntry { addr: self.entries[i].addr.clone(), amount: self.entries[i].amount }
    }

    /// A page of the ledger, walked backwards over the stored order:
    /// everything strictly before `start_after`'s line (or the whole
    /// ledger), newest stored first, cut to `limit` lines.
    pub fn page_desc(&self, start_after: Option<&String>, limit: Option<u32>) -> (r: Vec<
        LedgerEntry,
    >)
        requires
            self.wf(),
        ensures
            page_desc_post(
                self.entries@,
                match start_after {
                    Some(a) => Some(a@),
                    None => None,
                },
                limit,
                r@,
            ),
    {
        let mut upto = self.entries.len();
        match start_after {
            Some(a) => {
                let n = self.entries.len();
                let mut i: usize = 0;
                while i < n
                    invariant
                        n == self.entries@.len(),
                        i <= n,
                        upto == n || (upto < n && self.entries@[upto as int].addr@ == a@),
                        upto == n ==> forall|k: int| 0 <= k < i ==> self.entries@[k].addr@ != a@,
                    decreases n - i,
                {
                    if upto == n && self.entries[i].addr == *a {
                        upto = i;
                    }
                    i = i + 1;
                }
            },
            None => {},
        }
        let ghost total = self.entries@.take(upto as int).reverse();
        let want: usize = match limit {
            None => upto,
            Some(l) => {
                if (l as usize) <= upto {
                    l as usize
                } else {
                    upto
                }
            },
        };
        let mut out: Vec<LedgerEntry> = Vec::new();
        let mut j: usize = 0;
        while j < want
            invariant
                want <= upto <= self.entries@.len(),
                total == self.entries@.take(upto as int).reverse(),
                total.len() == upto,
                j <= want,
                out@ == total.take(j as int),
            decreases want - j,
        {
            let e = self.entry_at(upto - 1 - j);
            proof {
                assert(total[j as int] == self.entries@.take(upto as int)[upto - 1 - j]);
                assert(total.take(j + 1).drop_last() =~= total.take(j as int));
                assert(out@.push(e) =~= total.take(j + 1));
            }
            out.push(e);
            j = j + 1;
        }
        proof {
            if want == upto {
                assert(out@ =~= total);
            } else {
                assert(out@ =~= total.take(want as int));
            }
        }
        out
    }
}

} // verus!
