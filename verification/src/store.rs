use vstd::prelude::*;

use crate::addr::{bytes_eq, copy_bytes};
use crate::errors::ErrorCode;
use crate::state::{Message, MessageView, UserProfile, UserProfileView};

verus! {

/// One record held at a derived address.
pub(crate) struct Slot<V> {
    pub addr: Vec<u8>,
    pub val: V,
}

/// No two slots share an address.
pub(crate) open spec fn distinct_addrs<V>(s: Seq<Slot<V>>) -> bool {
    forall|i: int, j: int| 0 <= i < j < s.len() ==> s[i].addr@ != s[j].addr@
}

/// The finite map that an address-keyed list of slots denotes.
pub(crate) open spec fn slots_to_map<V: View>(s: Seq<Slot<V>>) -> Map<Seq<u8>, V::V>
    decreases s.len(),
{
    if s.len() == 0 {
        Map::<Seq<u8>, V::V>::empty()
    } else {
        slots_to_map(s.drop_last()).insert(s.last().addr@, s.last().val@)
    }
}

proof fn lemma_slots_map_contains<V: View>(s: Seq<Slot<V>>, k: Seq<u8>)
    ensures
        slots_to_map(s).contains_key(k) <==> exists|i: int| 0 <= i < s.len() && s[i].addr@ == k,
    decreases s.len(),
{
    if s.len() > 0 {
        lemma_slots_map_contains(s.drop_last(), k);
        if slots_to_map(s).contains_key(k) {
            if s.last().addr@ == k {
                assert(s[s.len() - 1].addr@ == k);
            } else {
                let i = choose|i: int| 0 <= i < s.drop_last().len() && s.drop_last()[i].addr@ == k;
                assert(s[i].addr@ == k);
            }
        }
        if exists|i: int| 0 <= i < s.len() && s[i].addr@ == k {
            let i = choose|i: int| 0 <= i < s.len() && s[i].addr@ == k;
            if i < s.len() - 1 {
                assert(s.drop_last()[i].addr@ == k);
            }
        }
    }
}

proof fn lemma_distinct_drop_last<V>(s: Seq<Slot<V>>)
    requires
        distinct_addrs(s),
        s.len() > 0,
    ensures
        distinct_addrs(s.drop_last()),
{
    assert forall|i: int, j: int|
        0 <= i < j < s.drop_last().len() implies s.drop_last()[i].addr@
        != s.drop_last()[j].addr@ by {
        assert(s[i].addr@ != s[j].addr@);
    }
}

proof fn lemma_slots_map_index<V: View>(s: Seq<Slot<V>>, i: int)
    requires
        distinct_addrs(s),
        0 <= i < s.len(),
    ensures
        slots_to_map(s).contains_key(s[i].addr@),
        slots_to_map(s)[s[i].addr@] == s[i].val@,
    decreases s.len(),
{
    if i == s.len() - 1 {
    } else {
        lemma_distinct_drop_last(s);
        lemma_slots_map_index(s.drop_last(), i);
        assert(s.drop_last()[i] == s[i]);
        assert(s[i].addr@ != s.last().addr@);
    }
}

proof fn lemma_slots_map_remove<V: View>(s: Seq<Slot<V>>, i: int)
    requires
        distinct_addrs(s),
        0 <= i < s.len(),
    ensures
        distinct_addrs(s.remove(i)),
        slots_to_map(s.remove(i)) == slots_to_map(s).remove(s[i].addr@),
    decreases s.len(),
{
    assert forall|p: int, q: int|
        0 <= p < q < s.remove(i).len() implies s.remove(i)[p].addr@ != s.remove(i)[q].addr@ by {
        let p0 = if p < i {
            p
        } else {
            p + 1
        };
        let q0 = if q < i {
            q
        } else {
            q + 1
        };
        assert(s.remove(i)[p] == s[p0]);
        assert(s.remove(i)[q] == s[q0]);
        assert(s[p0].addr@ != s[q0].addr@);
    }
    lemma_distinct_drop_last(s);
    if i == s.len() - 1 {
        assert(s.remove(i) =~= s.drop_last());
        lemma_slots_map_contains(s.drop_last(), s[i].addr@);
        assert(!slots_to_map(s.drop_last()).contains_key(s[i].addr@)) by {
            if slots_to_map(s.drop_last()).contains_key(s[i].addr@) {
                let j = choose|j: int|
                    0 <= j < s.drop_last().len() && s.drop_last()[j].addr@ == s[i].addr@;
                assert(s[j].addr@ == s[i].addr@);
            }
        }
        assert(slots_to_map(s.remove(i)) =~= slots_to_map(s).remove(s[i].addr@));
    } else {
        lemma_slots_map_remove(s.drop_last(), i);
        assert(s.remove(i).drop_last() =~= s.drop_last().remove(i));
        assert(s.remove(i).last() == s.last());
        assert(s.remove(i).len() == s.len() - 1);
        assert(slots_to_map(s.remove(i)) == slots_to_map(s.drop_last().remove(i)).insert(
            s.last().addr@,
            s.last().val@,
        ));
        assert(s[i].addr@ != s.last().addr@);
        assert(slots_to_map(s.drop_last()).remove(s[i].addr@).insert(s.last().addr@, s.last().val@)
            =~= slots_to_map(s.drop_last()).insert(s.last().addr@, s.last().val@).remove(
            s[i].addr@,
        ));
    }
}

/// Finds the slot that holds `addr`, if any.
fn slot_find<V: View>(s: &Vec<Slot<V>>, addr: &Vec<u8>) -> (r: Option<usize>)
    ensures
        (match r {
            Some(i) => i < s@.len() && s@[i as int].addr@ == addr@,
            None => forall|j: int| 0 <= j < s@.len() ==> s@[j].addr@ != addr@,
        }),
{
    let mut i: usize = 0;
    while i < s.len()
        invariant
            i <= s@.len(),
            forall|j: int| 0 <= j < i ==> s@[j].addr@ != addr@,
        decreases s@.len() - i,
    {
        if bytes_eq(&s[i].addr, addr) {
            return Some(i);
        }
        i = i + 1;
    }
    None
}

/// Inserts or overwrites the record at `addr`.
fn slot_upsert<V: View>(s: &mut Vec<Slot<V>>, addr: &Vec<u8>, val: V)
    requires
        distinct_addrs(old(s)@),
    ensures
        distinct_addrs(final(s)@),
        slots_to_map(final(s)@) == slots_to_map(old(s)@).insert(addr@, val@),
{
    let ghost m0 = slots_to_map(old(s)@);
    match slot_find(s, addr) {
        Some(i) => {
            proof {
                lemma_slots_map_remove(s@, i as int);
            }
            let ghost s1 = s@.remove(i as int);
            s.remove(i);
            s.push(Slot { addr: copy_bytes(addr), val });
            proof {
                assert(s@.drop_last() =~= s1);
                assert(s@.last().addr@ == addr@);
                assert(slots_to_map(s@) == slots_to_map(s1).insert(addr@, val@));
                assert(slots_to_map(s@) =~= m0.insert(addr@, val@));
                assert forall|p: int, q: int|
                    0 <= p < q < s@.len() implies s@[p].addr@ != s@[q].addr@ by {
                    if q == s@.len() - 1 {
                        let p0 = if p < i {
                            p as int
                        } else {
                            p + 1
                        };
                        assert(s1[p] == old(s)@[p0]);
                        assert(old(s)@[p0].addr@ != old(s)@[i as int].addr@);
                    }
                }
            }
        },
        None => {
            let ghost s0 = s@;
            s.push(Slot { addr: copy_bytes(addr), val });
            proof {
                assert(s@.drop_last() =~= s0);
                assert(slots_to_map(s@) == m0.insert(addr@, val@));
                assert forall|p: int, q: int|
                    0 <= p < q < s@.len() implies s@[p].addr@ != s@[q].addr@ by {
                    if q == s@.len() - 1 {
                        assert(s0[p].addr@ != addr@);
                    }
                }
            }
        },
    }
}

/// Removes the record at `addr`; reports whether one was there.
fn slot_remove<V: View>(s: &mut Vec<Slot<V>>, addr: &Vec<u8>) -> (r: bool)
    requires
        distinct_addrs(old(s)@),
    ensures
        distinct_addrs(final(s)@),
        r == slots_to_map(old(s)@).contains_key(addr@),
        slots_to_map(final(s)@) == slots_to_map(old(s)@).remove(addr@),
{
    proof {
        lemma_slots_map_contains(s@, addr@);
    }
    match slot_find(s, addr) {
        Some(i) => {
            proof {
                lemma_slots_map_remove(s@, i as int);
            }
            s.remove(i);
            true
        },
        None => {
            proof {
                assert(slots_to_map(s@).remove(addr@) =~= slots_to_map(s@));
            }
            false
        },
    }
}

/// Mathematical value of the whole ledger: the program id the addresses
/// are derived under, the live records of each kind keyed by address, and
/// the lamport balances.
#[verifier::ext_equal]
pub ghost struct LedgerView {
    pub program_id: Seq<u8>,
    pub profiles: Map<Seq<u8>, UserProfileView>,
    pub messages: Map<Seq<u8>, MessageView>,
    pub balances: Map<Seq<u8>, u64>,
}

impl LedgerView {
    /// The lamport balance held at `addr`; an address without an entry
    /// holds zero.
    pub open spec fn bal(self, addr: Seq<u8>) -> u64 {
        if self.balances.contains_key(addr) {
            self.balances[addr]
        } else {
            0u64
        }
    }
}

/// The record store: every profile, escrow message and balance, each at
/// its own address. Each operation touches only the addresses it names,
/// and either fully succeeds or leaves the store untouched.
pub struct Ledger {
    program_id: Vec<u8>,
    profiles: Vec<Slot<UserProfile>>,
    messages: Vec<Slot<Message>>,
    balances: Vec<Slot<u64>>,
}

impl View for Ledger {
    type V = LedgerView;

    closed spec fn view(&self) -> LedgerView {
        LedgerView {
            program_id: self.program_id@,
            profiles: slots_to_map(self.profiles@),
            messages: slots_to_map(self.messages@),
            balances: slots_to_map(self.balances@),
        }
    }
}

impl Ledger {
    /// The store keeps at most one record per address.
    pub closed spec fn wf(&self) -> bool {
        &&& distinct_addrs(self.profiles@)
        &&& distinct_addrs(self.messages@)
        &&& distinct_addrs(self.balances@)
        &&& self.program_id@.len() == 32
    }

    /// An empty store for the program identified by `program_id`.
    pub fn new(program_id: Vec<u8>) -> (r: Ledger)
        requires
            program_id@.len() == 32,
        ensures
            r.wf(),
            r@.program_id == program_id@,
            r@.profiles == Map::<Seq<u8>, UserProfileView>::empty(),
            r@.messages == Map::<Seq<u8>, MessageView>::empty(),
            r@.balances == Map::<Seq<u8>, u64>::empty(),
    {
        Ledger { program_id, profiles: Vec::new(), messages: Vec::new(), balances: Vec::new() }
    }

    /// The program id the store's addresses are derived under.
    pub fn program_id_bytes(&self) -> (r: Vec<u8>)
        requires
            self.wf(),
        ensures
            r@ == self@.program_id,
            r@.len() == 32,
    {
        copy_bytes(&self.program_id)
    }

    /// Loads the profile record at `addr`.
    pub fn load_profile(&self, addr: &Vec<u8>) -> (r: Result<&UserProfile, ErrorCode>)
        requires
            self.wf(),
        ensures
            (match r {
                Ok(p) => self@.profiles.contains_key(addr@) && p@ == self@.profiles[addr@],
                Err(e) => e == ErrorCode::NotFound && !self@.profiles.contains_key(addr@),
            }),
    {
        proof {
            lemma_slots_map_contains(self.profiles@, addr@);
        }
        match slot_find(&self.profiles, addr) {
            Some(i) => {
                proof {
                    lemma_slots_map_index(self.profiles@, i as int);
                }
                Ok(&self.profiles[i].val)
            },
            None => Err(ErrorCode::NotFound),
        }
    }

    /// Loads the escrow message record at `addr`.
    pub fn load_message(&self, addr: &Vec<u8>) -> (r: Result<&Message, ErrorCode>)
        requires
            self.wf(),
        ensures
            (match r {
                Ok(m) => self@.messages.contains_key(addr@) && m@ == self@.messages[addr@],
                Err(e) => e == ErrorCode::NotFound && !self@.messages.contains_key(addr@),
            }),
    {
        proof {
            lemma_slots_map_contains(self.messages@, addr@);
        }
        match slot_find(&self.messages, addr) {
            Some(i) => {
                proof {
                    lemma_slots_map_index(self.messages@, i as int);
                }
                Ok(&self.messages[i].val)
            },
            None => Err(ErrorCode::NotFound),
        }
    }

    /// The lamport balance held at `addr`.
    pub fn balance_of(&self, addr: &Vec<u8>) -> (r: u64)
        requires
            self.wf(),
        ensures
            r == self@.bal(addr@),
    {
        proof {
            lemma_slots_map_contains(self.balances@, addr@);
        }
        match slot_find(&self.balances, addr) {
            Some(i) => {
                proof {
                    lemma_slots_map_index(self.balances@, i as int);
                }
                self.balances[i].val
            },
            None => 0,
        }
    }

    /// Sets the balance held at `addr`.
    pub(crate) fn set_balance(&mut self, addr: &Vec<u8>, amount: u64)
        requires
            old(self).wf(),
        ensures
            final(self).wf(),
            final(self)@ == (LedgerView { balances: old(self)@.balances.insert(addr@, amount), ..old(
                self,
            )@ }),
    {
        slot_upsert(&mut self.balances, addr, amount);
        proof {
            assert(self@ =~= (LedgerView {
                balances: old(self)@.balances.insert(addr@, amount),
                ..old(self)@
            }));
        }
    }

    /// Inserts or overwrites the profile record at `addr`.
    pub(crate) fn put_profile(&mut self, addr: &Vec<u8>, p: UserProfile)
        requires
            old(self).wf(),
        ensures
            final(self).wf(),
            final(self)@ == (LedgerView { profiles: old(self)@.profiles.insert(addr@, p@), ..old(
                self,
            )@ }),
    {
        let ghost pv = p@;
        slot_upsert(&mut self.profiles, addr, p);
        proof {
            assert(self@ =~= (LedgerView {
                profiles: old(self)@.profiles.insert(addr@, pv),
                ..old(self)@
            }));
        }
    }

    /// Inserts or overwrites the escrow message record at `addr`.
    pub(crate) fn put_message(&mut self, addr: &Vec<u8>, m: Message)
        requires
            old(self).wf(),
        ensures
            final(self).wf(),
            final(self)@ == (LedgerView { messages: old(self)@.messages.insert(addr@, m@), ..old(
                self,
            )@ }),
    {
        let ghost mv = m@;
        slot_upsert(&mut self.messages, addr, m);
        proof {
            assert(self@ =~= (LedgerView {
                messages: old(self)@.messages.insert(addr@, mv),
                ..old(self)@
            }));
        }
    }

    /// Releases the escrow message record at `addr` back to the store.
    pub(crate) fn remove_message(&mut self, addr: &Vec<u8>)
        requires
            old(self).wf(),
        ensures
            final(self).wf(),
            final(self)@ == (LedgerView { messages: old(self)@.messages.remove(addr@), ..old(self)@ }),
    {
        slot_remove(&mut self.messages, addr);
        proof {
            assert(self@ =~= (LedgerView {
                messages: old(self)@.messages.remove(addr@),
                ..old(self)@
            }));
        }
    }

    /// Adds `amount` to the balance held at `addr`, failing without any
    /// change when the balance would overflow.
    pub fn credit(&mut self, addr: &Vec<u8>, amount: u64) -> (r: Result<(), ErrorCode>)
        requires
            old(self).wf(),
        ensures
            final(self).wf(),
            (match r {
                Ok(()) => old(self)@.bal(addr@) + amount <= u64::MAX && final(self)@ == (LedgerView {
                    balances: old(self)@.balances.insert(
                        addr@,
                        (old(self)@.bal(addr@) + amount) as u64,
                    ),
                    ..old(self)@
                }),
                Err(e) => e == ErrorCode::CounterOverflow && old(self)@.bal(addr@) + amount
                    > u64::MAX && final(self)@ == old(self)@,
            }),
    {
        let current = self.balance_of(addr);
        if amount > u64::MAX - current {
            return Err(ErrorCode::CounterOverflow);
        }
        self.set_balance(addr, current + amount);
        Ok(())
    }
}

} // verus!
