//! The members that can serve a request, under their addresses: which are
//! enabled, which one the round-robin picks, and which were disabled.

use std::sync::atomic::AtomicUsize;
use std::sync::atomic::Ordering;
use std::sync::Arc;
use vstd::prelude::*;
use vstd::arithmetic::div_mod::lemma_add_mod_noop_right;
use vstd::arithmetic::div_mod::lemma_mod_add_multiples_vanish;
use vstd::arithmetic::div_mod::lemma_mod_pos_bound;
use crate::messaging::Address;
use crate::messaging::AddressView;

verus! {

/// `Arc::clone` hands back another pointer to the same value.
#[verifier::external_body]
fn share<V>(value: &Arc<V>) -> (shared: Arc<V>)
    ensures
        shared == *value,
{
    Arc::clone(value)
}

/// What a `Registry` holds: the enabled members under their addresses, in
/// the order in which they came, and the addresses that are disabled.
pub struct RegistryView<V> {
    pub enabled: Seq<(AddressView, Arc<V>)>,
    pub disabled: Set<AddressView>,
}

/// The place of the first of `entries` that stands under `key`.
pub open spec fn position<V>(entries: Seq<(AddressView, Arc<V>)>, key: AddressView) -> Option<int>
    decreases entries.len(),
{
    if entries.len() == 0 {
        None
    } else {
        match position(entries.drop_last(), key) {
            Some(at) => Some(at),
            None => if entries.last().0 == key {
                Some(entries.len() - 1)
            } else {
                None
            },
        }
    }
}

/// The entries that a registry is made of: those of `entries`, in order,
/// without any that stands under the address of an earlier one.
pub open spec fn distinct<V>(entries: Seq<(AddressView, Arc<V>)>) -> Seq<(AddressView, Arc<V>)>
    decreases entries.len(),
{
    if entries.len() == 0 {
        Seq::empty()
    } else {
        let front = distinct(entries.drop_last());
        if position(front, entries.last().0) is Some {
            front
        } else {
            front.push(entries.last())
        }
    }
}

impl<V> RegistryView<V> {
    /// No address stands for two enabled members, and none is both enabled
    /// and disabled.
    pub open spec fn well_formed(self) -> bool {
        &&& forall|i: int, j: int|
            0 <= i < j < self.enabled.len() ==> (#[trigger] self.enabled[i]).0 != (
            #[trigger] self.enabled[j]).0
        &&& forall|i: int|
            0 <= i < self.enabled.len() ==> !self.disabled.contains((#[trigger] self.enabled[i]).0)
    }

    /// The member that the round-robin picks at `sequence`: the enabled
    /// member at that place, counted round and round.
    pub open spec fn pick(self, sequence: int) -> Option<(AddressView, Arc<V>)> {
        if self.enabled.len() == 0 {
            None
        } else {
            Some(self.enabled[sequence % (self.enabled.len() as int)])
        }
    }

    /// The enabled member under `key`.
    pub open spec fn get_by(self, key: AddressView) -> Option<Arc<V>> {
        match position(self.enabled, key) {
            Some(at) => Some(self.enabled[at].1),
            None => None,
        }
    }

    /// The registry with `key` disabled: the member under it is enabled no
    /// longer, and the address is remembered as disabled.
    pub open spec fn disable(self, key: AddressView) -> RegistryView<V> {
        RegistryView {
            enabled: match position(self.enabled, key) {
                Some(at) => self.enabled.remove(at),
                None => self.enabled,
            },
            disabled: self.disabled.insert(key),
        }
    }

    /// The address that a request goes to when `preferred` was used last:
    /// that address while it is enabled, else the address of the member
    /// that the round-robin picks at `sequence`.
    pub open spec fn resolve(self, preferred: Option<AddressView>, sequence: int) -> Option<
        AddressView,
    > {
        if preferred is Some && position(self.enabled, preferred->0) is Some {
            preferred
        } else {
            match self.pick(sequence) {
                Some(entry) => Some(entry.0),
                None => None,
            }
        }
    }
}

/// Where `key` has a place among `entries`, it is a place of `entries`, the
/// entry there stands under `key`, and no earlier one does; where it has
/// none, no entry stands under `key`.
pub proof fn lemma_position<V>(entries: Seq<(AddressView, Arc<V>)>, key: AddressView)
    ensures
        match position(entries, key) {
            Some(at) => 0 <= at < entries.len() && entries[at].0 == key && forall|i: int|
                0 <= i < at ==> (#[trigger] entries[i]).0 != key,
            None => forall|i: int| 0 <= i < entries.len() ==> (#[trigger] entries[i]).0 != key,
        },
    decreases entries.len(),
{
    if entries.len() > 0 {
        let front = entries.drop_last();
        lemma_position(front, key);
        match position(front, key) {
            Some(at) => {
                assert(front[at] == entries[at]);
                assert forall|i: int| 0 <= i < at implies (#[trigger] entries[i]).0 != key by {
                    assert(front[i] == entries[i]);
                }
            },
            None => {
                assert forall|i: int| 0 <= i < entries.len() - 1 implies (#[trigger] entries[i]).0
                    != key by {
                    assert(front[i] == entries[i]);
                }
            },
        }
    }
}

/// A place found among the first entries is the place among all of them.
pub proof fn lemma_position_found<V>(entries: Seq<(AddressView, Arc<V>)>, key: AddressView, n: int)
    requires
        0 <= n <= entries.len(),
        position(entries.take(n), key) is Some,
    ensures
        position(entries, key) == position(entries.take(n), key),
    decreases entries.len() - n,
{
    if n < entries.len() {
        assert(entries.take(n + 1).drop_last() =~= entries.take(n));
        lemma_position_found(entries, key, n + 1);
    } else {
        assert(entries.take(n) =~= entries);
    }
}

/// The entries that a registry is made of stand under addresses that are
/// all different, and an address stands among them exactly if it stands
/// among the entries they were taken from.
pub proof fn lemma_distinct<V>(entries: Seq<(AddressView, Arc<V>)>)
    ensures
        forall|i: int, j: int|
            0 <= i < j < distinct(entries).len() ==> (#[trigger] distinct(entries)[i]).0 != (
            #[trigger] distinct(entries)[j]).0,
        forall|key: AddressView|
            (#[trigger] position(distinct(entries), key)) is Some <==> position(
                entries,
                key,
            ) is Some,
    decreases entries.len(),
{
    if entries.len() > 0 {
        let front = distinct(entries.drop_last());
        let last = entries.last();
        lemma_distinct(entries.drop_last());
        lemma_position(front, last.0);
        if position(front, last.0) is None {
            let all = front.push(last);
            assert(all.drop_last() =~= front);
            assert forall|i: int, j: int| 0 <= i < j < all.len() implies (#[trigger] all[i]).0 != (
            #[trigger] all[j]).0 by {
                if j < front.len() {
                    assert(front[i] == all[i] && front[j] == all[j]);
                } else {
                    assert(front[i] == all[i]);
                }
            }
        }
        assert forall|key: AddressView|
            (#[trigger] position(distinct(entries), key)) is Some <==> position(
                entries,
                key,
            ) is Some by {
            let whole = distinct(entries);
            if position(front, last.0) is None {
                assert(whole.drop_last() =~= front);
            }
            assert(position(front, key) is Some <==> position(entries.drop_last(), key) is Some);
        }
    }
}

/// The enabled members under their addresses, with the addresses of the
/// disabled ones. The order of the enabled members is the order in which
/// they came; the round-robin goes by it.
pub struct Registry<V> {
    enabled: Vec<(Address, Arc<V>)>,
    disabled: Vec<Address>,
    sequencer: AtomicUsize,
}

impl<V> View for Registry<V> {
    type V = RegistryView<V>;

    closed spec fn view(&self) -> RegistryView<V> {
        RegistryView { enabled: entries(self.enabled@), disabled: views(self.disabled@) }
    }
}

/// The entries as a registry sees them: each member under the view of its
/// address.
pub open spec fn entries<V>(members: Seq<(Address, Arc<V>)>) -> Seq<(AddressView, Arc<V>)> {
    Seq::new(members.len(), |i: int| (members[i].0.deep_view(), members[i].1))
}

/// The members as a registry takes them in: each behind a shared pointer.
pub open spec fn shared<V>(members: Seq<(Address, V)>) -> Seq<(Address, Arc<V>)> {
    Seq::new(members.len(), |i: int| (members[i].0, Arc::new(members[i].1)))
}

/// The views of `addresses`.
pub open spec fn views(addresses: Seq<Address>) -> Set<AddressView> {
    Set::new(
        |key: AddressView|
            exists|i: int| 0 <= i < addresses.len() && (#[trigger] addresses[i]).deep_view() == key,
    )
}

/// The views of `addresses` that do not stand among `enabled`.
pub open spec fn others<V>(addresses: Seq<Address>, enabled: Seq<(AddressView, Arc<V>)>) -> Set<
    AddressView,
> {
    views(addresses).filter(|key: AddressView| position(enabled, key) is None)
}

/// One more address is one more view.
pub proof fn lemma_views_push(addresses: Seq<Address>, address: Address)
    ensures
        views(addresses.push(address)) == views(addresses).insert(address.deep_view()),
{
    let more = addresses.push(address);
    assert forall|key: AddressView| views(more).contains(key) <==> views(addresses).insert(
        address.deep_view(),
    ).contains(key) by {
        if views(more).contains(key) {
            let at = choose|at: int|
                0 <= at < more.len() && (#[trigger] more[at]).deep_view() == key;
            if at < addresses.len() {
                assert(addresses[at] == more[at]);
            }
        }
        if views(addresses).contains(key) {
            let at = choose|at: int|
                0 <= at < addresses.len() && (#[trigger] addresses[at]).deep_view() == key;
            assert(more[at] == addresses[at]);
        }
        if key == address.deep_view() {
            assert(more[addresses.len() as int] == address);
        }
    }
    assert(views(more) =~= views(addresses).insert(address.deep_view()));
}

impl<V> Registry<V> {
    /// The registry of the members in `enabled`, in their order, and of the
    /// addresses in `disabled`. Of two members under one address the first
    /// stays; an address that is enabled is not disabled.
    pub fn new(enabled: Vec<(Address, V)>, disabled: Vec<Address>) -> (registry: Registry<V>)
        ensures
            registry@.enabled == distinct(entries(shared(enabled@))),
            registry@.disabled == others(disabled@, registry@.enabled),
            registry@.well_formed(),
    {
        let ghost given = entries(shared(enabled@));
        let mut registry = Registry {
            enabled: Vec::new(),
            disabled: Vec::new(),
            sequencer: AtomicUsize::new(0),
        };
        let mut waiting = enabled;
        let ghost mut done: int = 0;
        assert(registry@.enabled =~= distinct(given.take(0)));
        while waiting.len() > 0
            invariant
                0 <= done <= given.len(),
                waiting@.len() == given.len() - done,
                entries(shared(waiting@)) == given.skip(done),
                registry.disabled@.len() == 0,
                registry@.enabled == distinct(given.take(done)),
            decreases waiting.len(),
        {
            let ghost before = registry@.enabled;
            let ghost left = waiting@;
            let (address, member) = waiting.remove(0);
            let member = Arc::new(member);
            proof {
                assert(entries(shared(left))[0] == given.skip(done)[0]);
                assert((address.deep_view(), member) == given[done]);
                assert(given.take(done + 1).drop_last() =~= given.take(done));
                assert(entries(shared(waiting@)) =~= given.skip(done + 1)) by {
                    assert forall|i: int| 0 <= i < waiting@.len() implies entries(
                        shared(waiting@),
                    )[i] == given.skip(done + 1)[i] by {
                        assert(waiting@[i] == left[i + 1]);
                        assert(entries(shared(left))[i + 1] == given.skip(done)[i + 1]);
                    }
                }
            }
            if registry.position(&address).is_none() {
                registry.enabled.push((address, member));
                assert(registry@.enabled =~= before.push(given[done]));
            }
            proof {
                done = done + 1;
            }
        }
        proof {
            assert(given.take(done) =~= given);
            lemma_distinct(given);
        }
        let ghost members = registry@.enabled;
        let mut i: usize = 0;
        assert(registry@.disabled =~= others(disabled@.take(0), members));
        while i < disabled.len()
            invariant
                i <= disabled.len(),
                registry@.enabled == members,
                registry@.disabled == others(disabled@.take(i as int), members),
            decreases disabled.len() - i,
        {
            proof {
                let taken = disabled@.take(i as int);
                assert(disabled@.take(i + 1) =~= taken.push(disabled@[i as int]));
                lemma_views_push(taken, disabled@[i as int]);
            }
            if registry.position(&disabled[i]).is_none() {
                let address = disabled[i].clone();
                proof {
                    lemma_views_push(registry.disabled@, address);
                }
                registry.disabled.push(address);
            }
            assert(registry@.disabled =~= others(disabled@.take(i + 1), members));
            i = i + 1;
        }
        proof {
            assert(disabled@.take(i as int) =~= disabled@);
            assert forall|at: int| 0 <= at < members.len() implies !registry@.disabled.contains(
                (#[trigger] members[at]).0,
            ) by {
                lemma_position(members, members[at].0);
            }
        }
        registry
    }

    /// The place of the enabled member under `key`.
    fn position(&self, key: &Address) -> (at: Option<usize>)
        ensures
            match position(self@.enabled, key.deep_view()) {
                Some(place) => at is Some && at->0 == place && 0 <= place < self.enabled@.len(),
                None => at is None,
            },
            self@.enabled.len() == self.enabled@.len(),
    {
        let ghost entries = self@.enabled;
        let ghost key_view = key.deep_view();
        let mut i: usize = 0;
        while i < self.enabled.len()
            invariant
                i <= self.enabled@.len(),
                entries == self@.enabled,
                entries.len() == self.enabled@.len(),
                key_view == key.deep_view(),
                position(entries.take(i as int), key_view) is None,
            decreases self.enabled.len() - i,
        {
            proof {
                assert(entries.take(i + 1).drop_last() =~= entries.take(i as int));
                assert(entries.take(i + 1).last() == entries[i as int]);
            }
            if self.enabled[i].0.same(key) {
                proof {
                    lemma_position_found(entries, key_view, i + 1);
                    lemma_position(entries, key_view);
                }
                return Some(i);
            }
            i = i + 1;
        }
        proof {
            assert(entries.take(i as int) =~= entries);
        }
        None
    }

    /// Whether a member is enabled under `key`.
    pub fn contains(&self, key: &Address) -> (enabled: bool)
        ensures
            enabled == position(self@.enabled, key.deep_view()) is Some,
    {
        self.position(key).is_some()
    }

    /// Whether no member is enabled.
    pub fn is_empty(&self) -> (empty: bool)
        ensures
            empty == (self@.enabled.len() == 0),
    {
        self.enabled.len() == 0
    }

    /// The member that the round-robin picks at `sequence`.
    pub fn pick(&self, sequence: usize) -> (member: Option<Arc<V>>)
        ensures
            member == match self@.pick(sequence as int) {
                Some(entry) => Some(entry.1),
                None => None,
            },
    {
        let len = self.enabled.len();
        if len == 0 {
            None
        } else {
            Some(share(&self.enabled[sequence % len].1))
        }
    }

    /// The address of the member that the round-robin picks at `sequence`.
    pub fn pick_address(&self, sequence: usize) -> (address: Option<Address>)
        ensures
            address.deep_view() == match self@.pick(sequence as int) {
                Some(entry) => Some(entry.0),
                None => None,
            },
    {
        let len = self.enabled.len();
        if len == 0 {
            None
        } else {
            Some(self.enabled[sequence % len].0.clone())
        }
    }

    /// The next number of the round-robin. The numbers of one registry are
    /// drawn from a counter that its users share.
    pub(crate) fn sequence(&self) -> usize {
        self.sequencer.fetch_add(1, Ordering::SeqCst)
    }

    /// The member that is next in the round-robin, or none where none is
    /// enabled: the pick at the next number of the shared counter, whatever
    /// that number is.
    pub fn get(&self) -> (member: Option<Arc<V>>)
        ensures
            exists|sequence: int|
                0 <= sequence && member == match #[trigger] self@.pick(sequence) {
                    Some(entry) => Some(entry.1),
                    None => None,
                },
    {
        if self.is_empty() {
            assert(self@.pick(0) is None);
            return None;
        }
        let sequence = self.sequence();
        let member = self.pick(sequence);
        assert(self@.pick(sequence as int) is Some);
        member
    }

    /// The enabled member under `key`.
    pub fn get_by(&self, key: &Address) -> (member: Option<Arc<V>>)
        ensures
            member == self@.get_by(key.deep_view()),
    {
        match self.position(key) {
            Some(at) => Some(share(&self.enabled[at].1)),
            None => None,
        }
    }

    /// The enabled members, in the order of the round-robin.
    pub fn get_all(&self) -> (members: Vec<Arc<V>>)
        ensures
            members@ == Seq::new(self@.enabled.len(), |i: int| self@.enabled[i].1),
    {
        let mut members: Vec<Arc<V>> = Vec::new();
        let mut i: usize = 0;
        while i < self.enabled.len()
            invariant
                i <= self.enabled@.len(),
                self@.enabled.len() == self.enabled@.len(),
                members@ == Seq::new(i as nat, |j: int| self@.enabled[j].1),
            decreases self.enabled.len() - i,
        {
            members.push(share(&self.enabled[i].1));
            assert(members@ =~= Seq::new((i + 1) as nat, |j: int| self@.enabled[j].1));
            i = i + 1;
        }
        members
    }

    /// Whether `key` is remembered as disabled.
    pub fn is_disabled(&self, key: &Address) -> (disabled: bool)
        ensures
            disabled == self@.disabled.contains(key.deep_view()),
    {
        let mut i: usize = 0;
        while i < self.disabled.len()
            invariant
                i <= self.disabled@.len(),
                forall|j: int|
                    0 <= j < i ==> (#[trigger] self.disabled@[j]).deep_view() != key.deep_view(),
            decreases self.disabled.len() - i,
        {
            if self.disabled[i].same(key) {
                return true;
            }
            i = i + 1;
        }
        false
    }

    /// Disables `key`: the member under it, if there is one, is no longer
    /// picked or found, and the address is remembered. Disabling an address
    /// twice is disabling it once.
    pub fn disable(&mut self, key: &Address)
        ensures
            final(self)@ == old(self)@.disable(key.deep_view()),
            old(self)@.well_formed() ==> final(self)@.well_formed(),
    {
        let ghost before = self@;
        let ghost key_view = key.deep_view();
        match self.position(key) {
            Some(at) => {
                self.enabled.remove(at);
                assert(self@.enabled =~= before.enabled.remove(at as int));
            },
            None => {},
        }
        let address = key.clone();
        proof {
            lemma_views_push(self.disabled@, address);
        }
        self.disabled.push(address);
        proof {
            assert(self@.disabled =~= before.disabled.insert(key_view));
            if before.well_formed() {
                lemma_disable(before, key_view);
            }
        }
    }
}

/// Disabling keeps a registry well formed, and the address that was
/// disabled stands for no enabled member afterwards.
pub proof fn lemma_disable<V>(registry: RegistryView<V>, key: AddressView)
    requires
        registry.well_formed(),
    ensures
        registry.disable(key).well_formed(),
        position(registry.disable(key).enabled, key) is None,
        forall|i: int|
            0 <= i < registry.disable(key).enabled.len() ==> (
            #[trigger] registry.disable(key).enabled[i]).0 != key,
{
    let after = registry.disable(key);
    lemma_position(registry.enabled, key);
    match position(registry.enabled, key) {
        Some(at) => {
            assert forall|i: int| 0 <= i < after.enabled.len() implies (
            #[trigger] after.enabled[i]).0 != key by {
                if i < at {
                    assert(after.enabled[i] == registry.enabled[i]);
                } else {
                    assert(after.enabled[i] == registry.enabled[i + 1]);
                }
            }
            assert forall|i: int, j: int| 0 <= i < j < after.enabled.len() implies (
            #[trigger] after.enabled[i]).0 != (#[trigger] after.enabled[j]).0 by {
                let from_i = if i < at {
                    i
                } else {
                    i + 1
                };
                let from_j = if j < at {
                    j
                } else {
                    j + 1
                };
                assert(after.enabled[i] == registry.enabled[from_i]);
                assert(after.enabled[j] == registry.enabled[from_j]);
            }
            assert forall|i: int| 0 <= i < after.enabled.len() implies !after.disabled.contains(
                (#[trigger] after.enabled[i]).0,
            ) by {
                let from = if i < at {
                    i
                } else {
                    i + 1
                };
                assert(after.enabled[i] == registry.enabled[from]);
            }
        },
        None => {},
    }
    lemma_position(after.enabled, key);
}

/// Disabling an address twice is disabling it once.
pub proof fn lemma_disable_idempotent<V>(registry: RegistryView<V>, key: AddressView)
    requires
        registry.well_formed(),
    ensures
        registry.disable(key).disable(key) == registry.disable(key),
{
    let once = registry.disable(key);
    lemma_disable(registry, key);
    assert(once.disabled.insert(key) =~= once.disabled);
}

/// The round-robin goes round the enabled members: with `k` of them, the
/// picks at `k` numbers in a row are the `k` members, each once, in their
/// order from where the first pick stands; the pick at a number is the
/// pick `k` numbers later; and a pick is always an enabled member.
pub proof fn lemma_round_robin<V>(registry: RegistryView<V>, sequence: int, step: int)
    requires
        0 <= sequence,
        0 <= step,
        registry.enabled.len() > 0,
    ensures
        ({
            let k = registry.enabled.len() as int;
            let first = sequence % k;
            &&& registry.pick(sequence) == Some(registry.enabled[first])
            &&& registry.pick(sequence + step) == Some(registry.enabled[(first + step) % k])
            &&& registry.pick(sequence + k) == registry.pick(sequence)
            &&& 0 <= (first + step) % k < k
        }),
{
    let k = registry.enabled.len() as int;
    lemma_add_mod_noop_right(step, sequence, k);
    assert(step + sequence % k == sequence % k + step);
    assert(step + sequence == sequence + step);
    lemma_mod_add_multiples_vanish(sequence, k);
    assert(k + sequence == sequence + k);
    lemma_mod_pos_bound(sequence % k + step, k);
    lemma_mod_pos_bound(sequence, k);
}

/// A member that was disabled is never picked and never found, whatever
/// the number of the round-robin.
pub proof fn lemma_disabled_never_appears<V>(
    registry: RegistryView<V>,
    key: AddressView,
    sequence: int,
)
    requires
        registry.well_formed(),
        0 <= sequence,
    ensures
        registry.disable(key).get_by(key) is None,
        registry.disable(key).pick(sequence) matches Some(entry) ==> entry.0 != key,
        registry.disable(key).resolve(Some(key), sequence) != Some(key),
{
    let after = registry.disable(key);
    lemma_disable(registry, key);
    if after.enabled.len() > 0 {
        let k = after.enabled.len() as int;
        lemma_mod_pos_bound(sequence, k);
    }
}

} // verus!
