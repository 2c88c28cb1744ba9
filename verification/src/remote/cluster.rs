//! The members of a cluster that the client reached: who serves the next
//! request, and what becomes of a member that stops answering.

use std::sync::Arc;
use vstd::prelude::*;
use crate::error::answers;
use crate::error::ErrorView;
use crate::error::HazelcastClientError;
use crate::message::envelope;
use crate::message::reply;
use crate::message::Message;
use crate::messaging::ping::PingRequest;
use crate::messaging::ping::PingResponse;
use crate::messaging::ping::PING_REQUEST;
use crate::messaging::Address;
use crate::messaging::AddressView;
use crate::remote::registry::distinct;
use crate::remote::registry::entries;
use crate::remote::registry::others;
use crate::remote::registry::shared;
use crate::remote::registry::Registry;
use crate::remote::registry::RegistryView;

verus! {

/// The seconds between two rounds of pings.
pub const PING_INTERVAL: u64 = 300;

/// The members of a cluster that the client reached, and those it lost.
pub struct Cluster<V> {
    members: Registry<V>,
}

impl<V> View for Cluster<V> {
    type V = RegistryView<V>;

    closed spec fn view(&self) -> RegistryView<V> {
        self.members@
    }
}

/// The address that is owed to one who asks where to send a request:
/// `found` where there is one, else the word that no member is enabled.
pub open spec fn resolved(found: Option<AddressView>) -> Result<AddressView, ErrorView> {
    match found {
        Some(address) => Ok(address),
        None => Err(ErrorView::ClusterNonOperational),
    }
}

/// Whether a ping was answered: by a message that reads as the answer to a
/// ping.
pub open spec fn answered(outcome: Result<Message, HazelcastClientError>) -> bool {
    outcome is Ok && reply::<PingResponse>(outcome->Ok_0@) is Ok
}

impl<V> Cluster<V> {
    /// The cluster of the members that authenticated, in `connected`, and
    /// of the addresses that did not, in `failed`. Without a member there
    /// is no cluster.
    pub fn init(connected: Vec<(Address, V)>, failed: Vec<Address>) -> (result: Result<
        Cluster<V>,
        HazelcastClientError,
    >)
        ensures
            ({
                let enabled = distinct(entries(shared(connected@)));
                if enabled.len() == 0 {
                    result is Err && result->Err_0 is ClusterNonOperational
                } else {
                    &&& result is Ok
                    &&& result->Ok_0@.enabled == enabled
                    &&& result->Ok_0@.disabled == others(failed@, enabled)
                    &&& result->Ok_0@.well_formed()
                }
            }),
    {
        let members = Registry::new(connected, failed);
        if members.is_empty() {
            Err(HazelcastClientError::ClusterNonOperational)
        } else {
            Ok(Cluster { members })
        }
    }

    /// The member that serves the next request: the one that is next in the
    /// round-robin. Without an enabled member the cluster is not
    /// operational. Which member it is depends on how often the cluster was
    /// asked before: it is what `dispatch_at` gives at the next number of
    /// the shared counter, whatever that number is.
    pub fn dispatch(&self) -> (result: Result<Arc<V>, HazelcastClientError>)
        ensures
            exists|sequence: int|
                0 <= sequence && match #[trigger] self@.pick(sequence) {
                    Some(entry) => result is Ok && result->Ok_0 == entry.1,
                    None => result is Err && result->Err_0 is ClusterNonOperational,
                },
    {
        let member = self.members.get();
        proof {
            let sequence = choose|sequence: int|
                0 <= sequence && member == match #[trigger] self@.pick(sequence) {
                    Some(entry) => Some(entry.1),
                    None => None,
                };
            assert(self@.pick(sequence) is Some <==> member is Some);
        }
        match member {
            Some(member) => Ok(member),
            None => Err(HazelcastClientError::ClusterNonOperational),
        }
    }

    /// The member that serves the request at `sequence` of the round-robin.
    pub fn dispatch_at(&self, sequence: usize) -> (result: Result<Arc<V>, HazelcastClientError>)
        ensures
            match self@.pick(sequence as int) {
                Some(entry) => result is Ok && result->Ok_0 == entry.1,
                None => result is Err && result->Err_0 is ClusterNonOperational,
            },
    {
        match self.members.pick(sequence) {
            Some(member) => Ok(member),
            None => Err(HazelcastClientError::ClusterNonOperational),
        }
    }

    /// The member under `address`, which serves a request that is meant for
    /// it alone.
    pub fn forward(&self, address: &Address) -> (result: Result<Arc<V>, HazelcastClientError>)
        ensures
            match self@.get_by(address.deep_view()) {
                Some(member) => result is Ok && result->Ok_0 == member,
                None => result is Err && result->Err_0 is NodeNonOperational,
            },
    {
        match self.members.get_by(address) {
            Some(member) => Ok(member),
            None => Err(HazelcastClientError::NodeNonOperational),
        }
    }

    /// Where to send a request of one who used `preferred` last, at
    /// `sequence` of the round-robin.
    pub fn resolve(&self, preferred: Option<Address>, sequence: usize) -> (result: Result<
        Address,
        HazelcastClientError,
    >)
        ensures
            answers(
                resolved(self@.resolve(preferred.deep_view(), sequence as int)),
                result,
            ),
    {
        match preferred {
            Some(address) => {
                if self.members.contains(&address) {
                    return Ok(address);
                }
            },
            None => {},
        }
        match self.members.pick_address(sequence) {
            Some(address) => Ok(address),
            None => Err(HazelcastClientError::ClusterNonOperational),
        }
    }

    /// Where to send a request of one who used `preferred` last: there
    /// again while that member is enabled, else to the member that is next
    /// in the round-robin. It is what `resolve` gives at the next number of
    /// the shared counter, whatever that number is; a number is drawn only
    /// where the round-robin is asked.
    pub fn address(&self, preferred: Option<Address>) -> (result: Result<
        Address,
        HazelcastClientError,
    >)
        ensures
            exists|sequence: int|
                0 <= sequence && answers(
                    resolved(#[trigger] self@.resolve(preferred.deep_view(), sequence)),
                    result,
                ),
    {
        match preferred {
            Some(address) => {
                if self.members.contains(&address) {
                    assert(self@.resolve(Some(address.deep_view()), 0) == Some(
                        address.deep_view(),
                    ));
                    return Ok(address);
                }
            },
            None => {},
        }
        let sequence = self.members.sequence();
        let result = self.resolve(None, sequence);
        assert(self@.resolve(preferred.deep_view(), sequence as int) == self@.resolve(
            None,
            sequence as int,
        ));
        result
    }

    /// The enabled members, in the order of the round-robin: those that a
    /// round of pings goes to.
    pub fn members(&self) -> (members: Vec<Arc<V>>)
        ensures
            members@ == Seq::new(self@.enabled.len(), |i: int| self@.enabled[i].1),
    {
        self.members.get_all()
    }

    /// Whether `address` is remembered as disabled.
    pub fn is_disabled(&self, address: &Address) -> (disabled: bool)
        ensures
            disabled == self@.disabled.contains(address.deep_view()),
    {
        self.members.is_disabled(address)
    }

    /// Disables the member under `address`.
    pub fn disable(&mut self, address: &Address)
        ensures
            final(self)@ == old(self)@.disable(address.deep_view()),
            old(self)@.well_formed() ==> final(self)@.well_formed(),
    {
        self.members.disable(address);
    }

    /// The message that pings a member.
    pub fn ping_request() -> (message: Message)
        ensures
            message@ == envelope::<PingRequest>(()),
    {
        let message = Message::new(PING_REQUEST, -1, Vec::new());
        assert(message@.payload =~= Seq::<u8>::empty());
        message
    }

    /// Takes the outcome of the ping that went to the member under
    /// `address`. A member whose ping was not answered is disabled; the
    /// failure goes no further.
    pub fn ping(
        &mut self,
        address: &Address,
        outcome: &Result<Message, HazelcastClientError>,
    ) -> (alive: bool)
        ensures
            alive == answered(*outcome),
            alive ==> final(self)@ == old(self)@,
            !alive ==> final(self)@ == old(self)@.disable(address.deep_view()),
            old(self)@.well_formed() ==> final(self)@.well_formed(),
    {
        let alive = match outcome {
            Ok(message) => message.try_from::<PingResponse>().is_ok(),
            Err(_) => false,
        };
        if !alive {
            self.members.disable(address);
        }
        alive
    }
}

} // verus!
