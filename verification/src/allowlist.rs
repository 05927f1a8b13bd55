use vstd::prelude::*;

use crate::abc::MinMax;
use crate::error::ContractError;
use crate::state::Ledger;

verus! {

/// What kind of participant an allowlist entry admits.
#[derive(Clone, Copy, Debug, PartialEq, Eq, Structural)]
pub enum HatcherAllowlistConfigType {
    /// A delegated group: any address with positive voting weight in the
    /// group at that address qualifies. Entries with an explicit priority
    /// are preferred over entries without one, and a higher priority value
    /// wins.
    DAO { priority: Option<u64> },
    /// A single directly listed address.
    Address {},
}

/// How one allowlist entry admits participants and which contribution
/// bounds it grants them.
#[derive(Clone, Copy, Debug, PartialEq, Eq, Structural)]
pub struct HatcherAllowlistConfig {
    /// Whether the entry lists an address or delegates to a group.
    pub config_type: HatcherAllowlistConfigType,
    /// Contribution bounds granted by this entry in place of the phase-wide
    /// default.
    pub contribution_limits_override: Option<MinMax>,
}

impl HatcherAllowlistConfig {
    /// The priority of the entry; a direct address entry carries none.
    pub open spec fn spec_priority(&self) -> Option<u64> {
        match self.config_type {
            HatcherAllowlistConfigType::DAO { priority } => priority,
            HatcherAllowlistConfigType::Address {} => None::<u64>,
        }
    }

    /// The priority of the entry; a direct address entry carries none.
    pub fn priority(&self) -> (r: Option<u64>)
        ensures
            r == self.spec_priority(),
    {
        match self.config_type {
            HatcherAllowlistConfigType::DAO { priority } => priority,
            HatcherAllowlistConfigType::Address {} => None,
        }
    }
}

/// One allowlist entry: the listed address and its configuration.
#[derive(Clone, Debug, PartialEq, Eq)]
pub struct HatcherAllowlistEntry {
    pub addr: String,
    pub config: HatcherAllowlistConfig,
}

/// Whether priority `a` beats priority `b`: an explicit priority beats
/// none, and among explicit priorities the higher value wins.
pub open spec fn better_priority(a: Option<u64>, b: Option<u64>) -> bool {
    match (a, b) {
        (Some(x), Some(y)) => x > y,
        (Some(x), None) => true,
        _ => false,
    }
}

/// Whether priority `a` beats priority `b`.
pub fn exec_better_priority(a: Option<u64>, b: Option<u64>) -> (r: bool)
    ensures
        r == better_priority(a, b),
{
    match (a, b) {
        (Some(x), Some(y)) => x > y,
        (Some(x), None) => true,
        _ => false,
    }
}

/// Whether `sender` qualifies under entry `e`: a direct entry for the
/// sender's own address, or a group the sender holds positive voting
/// weight in.
pub open spec fn spec_qualifies(
    e: HatcherAllowlistEntry,
    sender: Seq<char>,
    weights: Ledger,
) -> bool {
    match e.config.config_type {
        HatcherAllowlistConfigType::Address {} => e.addr@ == sender,
        HatcherAllowlistConfigType::DAO { .. } => weights.spec_total(e.addr@) > 0,
    }
}

/// The entry that governs `sender`, out of a stored entry sequence: among
/// the qualifying entries, the one with the best priority; priority ties
/// keep the entry stored first.
pub open spec fn spec_best(
    s: Seq<HatcherAllowlistEntry>,
    sender: Seq<char>,
    weights: Ledger,
) -> Option<HatcherAllowlistEntry>
    decreases s.len(),
{
    if s.len() == 0 {
        None::<HatcherAllowlistEntry>
    } else {
        let prev = spec_best(s.drop_last(), sender, weights);
        let e = s.last();
        if !spec_qualifies(e, sender, weights) {
            prev
        } else {
            match prev {
                None => Some(e),
                Some(p) => if better_priority(
                    e.config.spec_priority(),
                    p.config.spec_priority(),
                ) {
                    Some(e)
                } else {
                    Some(p)
                },
            }
        }
    }
}

/// Two distinct entries of a well-formed allowlist never share an address.
proof fn lemma_allowlist_distinct(l: HatcherAllowlist, a: int, b: int)
    requires
        l.wf(),
        0 <= a < b < l.entries@.len(),
    ensures
        l.entries@[a].addr@ != l.entries@[b].addr@,
{
}

/// The hatch-phase allowlist: entries with distinct addresses, kept in the
/// order they were first stored.
#[derive(Clone, Debug, PartialEq, Eq)]
pub struct HatcherAllowlist {
    pub entries: Vec<HatcherAllowlistEntry>,
}

impl HatcherAllowlist {
    /// No two entries list the same address.
    pub open spec fn wf(&self) -> bool {
        forall|i: int, j: int|
            0 <= i < j < self.entries@.len() ==> self.entries@[i].addr@ != self.entries@[j].addr@
    }

    /// Whether some entry lists `a`.
    pub open spec fn spec_has(&self, a: Seq<char>) -> bool {
        exists|i: int| 0 <= i < self.entries@.len() && self.entries@[i].addr@ == a
    }

    /// An empty allowlist.
    pub fn new() -> (r: HatcherAllowlist)
        ensures
            r.entries@.len() == 0,
            r.wf(),
    {
        HatcherAllowlist { entries: Vec::new() }
    }

    /// Whether the allowlist has no entries.
    pub fn is_empty(&self) -> (r: bool)
        ensures
            r <==> self.entries@.len() == 0,
    {
        self.entries.len() == 0
    }

    /// Whether some entry lists `addr`.
    pub fn has(&self, addr: &String) -> (r: bool)
        ensures
            r == self.spec_has(addr@),
    {
        let n = self.entries.len();
        let mut i: usize = 0;
        while i < n
            invariant
                n == self.entries@.len(),
                i <= n,
                forall|k: int| 0 <= k < i ==> self.entries@[k].addr@ != addr@,
            decreases n - i,
        {
            if self.entries[i].addr == *addr {
                return true;
            }
            i = i + 1;
        }
        false
    }

    /// Store `entry` unless its address is already listed; an address
    /// already listed keeps its first configuration.
    pub fn save(&mut self, entry: HatcherAllowlistEntry)
        requires
            old(self).wf(),
        ensures
            final(self).wf(),
            old(self).spec_has(entry.addr@) ==> *final(self) == *old(self),
            !old(self).spec_has(entry.addr@) ==> final(self).entries@ == old(
                self,
            ).entries@.push(entry),
            final(self).entries@ == spec_save_one(old(self).entries@, entry),
    {
        if !self.has(&entry.addr) {
            let ghost s0 = self.entries@;
            self.entries.push(entry);
            proof {
                assert forall|i: int, j: int|
                    0 <= i < j < self.entries@.len() implies self.entries@[i].addr@
                    != self.entries@[j].addr@ by {
                    if j < s0.len() {
                        assert(self.entries@[i] == s0[i]);
                        assert(self.entries@[j] == s0[j]);
                    } else {
                        assert(self.entries@[i] == s0[i]);
                        assert(self.entries@[j] == entry);
                    }
                }
            }
        }
    }

    /// Drop the entry listing `addr`, if there is one.
    pub fn remove(&mut self, addr: &String)
        requires
            old(self).wf(),
        ensures
            final(self).wf(),
            !final(self).spec_has(addr@),
            !old(self).spec_has(addr@) ==> *final(self) == *old(self),
            old(self).spec_has(addr@) ==> exists|i: int|
                0 <= i < old(self).entries@.len() && old(self).entries@[i].addr@ == addr@
                    && final(self).entries@ == old(self).entries@.remove(i),
            final(self).entries@ == spec_remove_one(old(self).entries@, addr@),
    {
                let n = self.entries.len();
        let mut i: usize = 0;
        while i < n
            invariant
                old(self).wf(),
                *self == *old(self),
                n == old(self).entries@.len(),
                i <= n,
                forall|k: int| 0 <= k < i ==> old(self).entries@[k].addr@ != addr@,
            decreases n - i,
        {
            if self.entries[i].addr == *addr {
                proof {
                    assert(old(self).entries@[i as int].addr@ == addr@);
                    assert(old(self).spec_has(addr@));
                }
                self.entries.remove(i);
                proof {
                    old(self).entries@.remove_ensures(i as int);
                    assert(self.entries@ == old(self).entries@.remove(i as int));
                    assert forall|j: int|
                        0 <= j < self.entries@.len() implies self.entries@[j].addr@ != addr@ by {
                        if j < i {
                            assert(self.entries@[j] == old(self).entries@[j]);
                        } else {
                            lemma_allowlist_distinct(*old(self), i as int, j + 1);
                            assert(self.entries@[j] == old(self).entries@[j + 1]);
                        }
                    }
                    assert forall|a: int, b: int|
                        0 <= a < b < self.entries@.len() implies self.entries@[a].addr@
                        != self.entries@[b].addr@ by {
                        let a0: int = if a < i { a } else { a + 1 };
                        let b0: int = if b < i { b } else { b + 1 };
                        lemma_allowlist_distinct(*old(self), a0, b0);
                        assert(self.entries@[a] == old(self).entries@[a0]);
                        assert(self.entries@[b] == old(self).entries@[b0]);
                    }
                    assert(seq_has_addr(old(self).entries@, addr@));
                    let j = choose|k: int|
                        0 <= k < old(self).entries@.len() && old(self).entries@[k].addr@ == addr@;
                    if j != i {
                        if j < i {
                            lemma_allowlist_distinct(*old(self), j, i as int);
                        } else {
                            lemma_allowlist_distinct(*old(self), i as int, j);
                        }
                    }
                    assert(j == i);
                }
                return ;
            }
            i = i + 1;
        }
        proof {
            assert(!seq_has_addr(self.entries@, addr@));
        }
    }

    /// Drop every entry.
    pub fn clear(&mut self)
        ensures
            final(self).entries@.len() == 0,
            final(self).wf(),
    {
        self.entries.clear();
    }

    /// Resolve the contribution bounds that govern `sender` during the
    /// hatch.
    ///
    /// An empty allowlist admits everyone at the phase-wide default bounds.
    /// A non-empty allowlist admits only senders listed directly or holding
    /// positive voting weight in a listed group (`weights` carries the
    /// sender's weight per group address, as the host queried it); the
    /// governing entry is the qualifying one with the best priority, ties
    /// going to the entry stored first, and its override, if any, replaces
    /// the default bounds.
    pub fn resolve_contribution_limit(
        &self,
        defaults: MinMax,
        sender: &String,
        weights: &Ledger,
    ) -> (r: Result<MinMax, ContractError>)
        ensures
            self.entries@.len() == 0 ==> r == Ok::<MinMax, ContractError>(defaults),
            self.entries@.len() > 0 ==> match spec_best(self.entries@, sender@, *weights) {
                None => r == Err::<MinMax, ContractError>(
                    ContractError::SenderNotAllowlisted { sender: *sender },
                ),
                Some(e) => r == Ok::<MinMax, ContractError>(
                    match e.config.contribution_limits_override {
                        Some(l) => l,
                        None => defaults,
                    },
                ),
            },
    {
        if self.entries.len() == 0 {
            return Ok(defaults);
        }
        let n = self.entries.len();
        let mut best: Option<usize> = None;
        let mut i: usize = 0;
        while i < n
            invariant
                n == self.entries@.len(),
                i <= n,
                match best {
                    None => spec_best(self.entries@.take(i as int), sender@, *weights) is None,
                    Some(j) => j < i && spec_best(self.entries@.take(i as int), sender@, *weights)
                        == Some(self.entries@[j as int]),
                },
            decreases n - i,
        {
            let e = &self.entries[i];
            let qualifies = match e.config.config_type {
                HatcherAllowlistConfigType::Address {} => e.addr == *sender,
                HatcherAllowlistConfigType::DAO { .. } => match weights.get(&e.addr) {
                    Some(w) => w > 0,
                    None => false,
                },
            };
            proof {
                let ghost pre = self.entries@.take(i as int + 1);
                assert(pre.drop_last() =~= self.entries@.take(i as int));
                assert(pre.last() == self.entries@[i as int]);
            }
            if qualifies {
                best = match best {
                    None => Some(i),
                    Some(j) => {
                        let better = exec_better_priority(
                            self.entries[i].config.priority(),
                            self.entries[j].config.priority(),
                        );
                        if better {
                            Some(i)
                        } else {
                            Some(j)
                        }
                    },
                };
            }
            i = i + 1;
        }
        proof {
            assert(self.entries@.take(n as int) =~= self.entries@);
        }
        match best {
            Some(j) => match self.entries[j].config.contribution_limits_override {
                Some(l) => Ok(l),
                None => Ok(defaults),
            },
            None => Err(ContractError::SenderNotAllowlisted { sender: sender.clone() }),
        }
    }
}

} // verus!
verus! {

/// Whether some entry of `s` lists `a`.
pub open spec fn seq_has_addr(s: Seq<HatcherAllowlistEntry>, a: Seq<char>) -> bool {
    exists|i: int| 0 <= i < s.len() && s[i].addr@ == a
}

/// Storing one entry: an address already listed keeps its first
/// configuration, a new address is appended.
pub open spec fn spec_save_one(
    s: Seq<HatcherAllowlistEntry>,
    e: HatcherAllowlistEntry,
) -> Seq<HatcherAllowlistEntry> {
    if seq_has_addr(s, e.addr@) {
        s
    } else {
        s.push(e)
    }
}

/// Storing a sequence of entries, first to last.
pub open spec fn spec_save_all(
    s: Seq<HatcherAllowlistEntry>,
    adds: Seq<HatcherAllowlistEntry>,
) -> Seq<HatcherAllowlistEntry>
    decreases adds.len(),
{
    if adds.len() == 0 {
        s
    } else {
        spec_save_one(spec_save_all(s, adds.drop_last()), adds.last())
    }
}

/// Dropping one listed address, if it is there.
pub open spec fn spec_remove_one(
    s: Seq<HatcherAllowlistEntry>,
    a: Seq<char>,
) -> Seq<HatcherAllowlistEntry> {
    if seq_has_addr(s, a) {
        s.remove(choose|i: int| 0 <= i < s.len() && s[i].addr@ == a)
    } else {
        s
    }
}

/// Dropping a sequence of addresses, first to last.
pub open spec fn spec_remove_all(
    s: Seq<HatcherAllowlistEntry>,
    removes: Seq<Seq<char>>,
) -> Seq<HatcherAllowlistEntry>
    decreases removes.len(),
{
    if removes.len() == 0 {
        s
    } else {
        spec_remove_one(spec_remove_all(s, removes.drop_last()), removes.last())
    }
}

} // verus!
