//! The handle of a replicated counter. It remembers the vector clock that
//! the server sent last, and the member it was served by.

use vstd::prelude::*;
use vstd::string::StringExecFns;
use crate::error::answers;
use crate::error::ErrorView;
use crate::error::HazelcastClientError;
use crate::message::enveloped;
use crate::message::made;
use crate::message::reply;
use crate::message::Message;
use crate::messaging::pn_counter::PnCounterAddRequest;
use crate::messaging::pn_counter::PnCounterAddRequestView;
use crate::messaging::pn_counter::PnCounterAddResponse;
use crate::messaging::pn_counter::PnCounterGetReplicaCountRequest;
use crate::messaging::pn_counter::PnCounterGetReplicaCountRequestView;
use crate::messaging::pn_counter::PnCounterGetReplicaCountResponse;
use crate::messaging::pn_counter::PnCounterGetRequest;
use crate::messaging::pn_counter::PnCounterGetRequestView;
use crate::messaging::pn_counter::PnCounterGetResponse;
use crate::messaging::Address;
use crate::messaging::AddressView;
use crate::messaging::ReplicaTimestampEntry;
use crate::messaging::ReplicaTimestampEntryView;
use crate::remote::cluster::resolved;
use crate::remote::cluster::Cluster;
use crate::remote::registry::lemma_disabled_never_appears;
use crate::remote::registry::position;
use crate::remote::registry::RegistryView;

verus! {

/// What a `PnCounter` holds.
pub struct PnCounterView {
    pub name: Seq<char>,
    pub address: Option<AddressView>,
    pub replica_timestamps: Seq<ReplicaTimestampEntryView>,
}

/// A counter on the cluster, as one caller sees it. The handle is sticky:
/// once a member has served it, it goes back to that member for as long as
/// the member is enabled. A handle is for one caller at a time.
#[derive(Debug)]
pub struct PnCounter {
    name: String,
    address: Option<Address>,
    replica_timestamps: Vec<ReplicaTimestampEntry>,
}

impl DeepView for PnCounter {
    type V = PnCounterView;

    closed spec fn deep_view(&self) -> PnCounterView {
        PnCounterView {
            name: self.name@,
            address: self.address.deep_view(),
            replica_timestamps: self.replica_timestamps.deep_view(),
        }
    }
}

impl PnCounterView {
    /// The handle without the address it was pinned to.
    pub open spec fn unpinned(self) -> PnCounterView {
        PnCounterView { address: None, ..self }
    }

    /// The handle after the member under `address` has served it and sent
    /// `replica_timestamps`.
    pub open spec fn served(
        self,
        address: AddressView,
        replica_timestamps: Seq<ReplicaTimestampEntryView>,
    ) -> PnCounterView {
        PnCounterView { name: self.name, address: Some(address), replica_timestamps }
    }

    /// The request for the value, as it goes to the member under `address`.
    pub open spec fn get_request(self, address: AddressView) -> PnCounterGetRequestView {
        PnCounterGetRequestView {
            name: self.name,
            replica_timestamps: self.replica_timestamps,
            address,
        }
    }

    /// The request to add `delta`, as it goes to the member under
    /// `address`.
    pub open spec fn add_request(
        self,
        delta: i64,
        get_before_update: bool,
        address: AddressView,
    ) -> PnCounterAddRequestView {
        PnCounterAddRequestView {
            name: self.name,
            delta,
            get_before_update,
            replica_timestamps: self.replica_timestamps,
            address,
        }
    }
}

/// How a handle and the value handed out answer to what the member under
/// `address` sent: a value and a vector clock pin the handle to that member,
/// replace its vector clock and hand out the value; anything else is the
/// caller's failure and leaves the handle as it was.
pub open spec fn served(
    before: PnCounterView,
    address: AddressView,
    sent: Result<(i64, Seq<ReplicaTimestampEntryView>), ErrorView>,
    after: PnCounterView,
    result: Result<i64, HazelcastClientError>,
) -> bool {
    match sent {
        Ok((value, replica_timestamps)) => {
            &&& result == Ok::<i64, HazelcastClientError>(value)
            &&& after == before.served(address, replica_timestamps)
        },
        Err(error) => {
            &&& result is Err
            &&& result->Err_0.deep_view() == error
            &&& after == before
        },
    }
}

impl PnCounter {
    /// The handle of the counter `name`. Making it asks nothing of the
    /// cluster.
    pub fn new(name: &str) -> (counter: PnCounter)
        ensures
            counter.deep_view() == (PnCounterView {
                name: name@,
                address: None,
                replica_timestamps: Seq::empty(),
            }),
    {
        let counter = PnCounter {
            name: String::from_str(name),
            address: None,
            replica_timestamps: Vec::new(),
        };
        assert(counter.replica_timestamps.deep_view() =~= Seq::empty());
        counter
    }

    pub fn name(&self) -> (name: &str)
        ensures
            name@ == self.deep_view().name,
    {
        self.name.as_str()
    }

    /// The address of the member that served the handle last, while it is
    /// pinned.
    pub fn address(&self) -> (address: &Option<Address>)
        ensures
            address.deep_view() == self.deep_view().address,
    {
        &self.address
    }

    /// The vector clock that the server sent last.
    pub fn replica_timestamps(&self) -> (replica_timestamps: &[ReplicaTimestampEntry])
        ensures
            replica_timestamps.deep_view() == self.deep_view().replica_timestamps,
    {
        let replica_timestamps = self.replica_timestamps.as_slice();
        assert(replica_timestamps.deep_view() =~= self.replica_timestamps.deep_view());
        replica_timestamps
    }

    /// Begins an operation that reads or changes the value: finds the
    /// member to ask, at `sequence` of the round-robin. The pin is taken
    /// off; it is put back when the member has answered.
    pub fn target_at<V>(&mut self, cluster: &Cluster<V>, sequence: usize) -> (result: Result<
        Address,
        HazelcastClientError,
    >)
        ensures
            final(self).deep_view() == old(self).deep_view().unpinned(),
            answers(
                resolved(cluster@.resolve(old(self).deep_view().address, sequence as int)),
                result,
            ),
    {
        let preferred = self.address.take();
        cluster.resolve(preferred, sequence)
    }

    /// Begins an operation that reads or changes the value: finds the
    /// member to ask. That is the member the handle is pinned to, while it
    /// is enabled; else the one that is next in the round-robin: what
    /// `target_at` gives at the next number of the shared counter, whatever
    /// that number is. The pin is taken off; it is put back when the member
    /// has answered.
    pub fn target<V>(&mut self, cluster: &Cluster<V>) -> (result: Result<
        Address,
        HazelcastClientError,
    >)
        ensures
            final(self).deep_view() == old(self).deep_view().unpinned(),
            exists|sequence: int|
                0 <= sequence && answers(
                    resolved(
                        #[trigger] cluster@.resolve(old(self).deep_view().address, sequence),
                    ),
                    result,
                ),
    {
        let preferred = self.address.take();
        cluster.address(preferred)
    }

    /// The message that asks the member under `address` for the value. It
    /// carries the vector clock that the server sent last.
    pub fn get_request(&self, address: &Address) -> (result: Result<Message, HazelcastClientError>)
        ensures
            made(
                enveloped::<PnCounterGetRequest>(
                    self.deep_view().get_request(address.deep_view()),
                ),
                result,
            ),
    {
        let replica_timestamps = self.replica_timestamps.as_slice();
        assert(replica_timestamps.deep_view() =~= self.replica_timestamps.deep_view());
        let request = PnCounterGetRequest::new(self.name.as_str(), replica_timestamps, address);
        Message::from(&request)
    }

    /// The message that asks the member under `address` to add `delta` and
    /// to send the value as it was before.
    pub fn get_and_add(&self, delta: i64, address: &Address) -> (result: Result<
        Message,
        HazelcastClientError,
    >)
        ensures
            made(
                enveloped::<PnCounterAddRequest>(
                    self.deep_view().add_request(delta, true, address.deep_view()),
                ),
                result,
            ),
    {
        self.add_request(delta, true, address)
    }

    /// The message that asks the member under `address` to add `delta` and
    /// to send the value as it is afterwards.
    pub fn add_and_get(&self, delta: i64, address: &Address) -> (result: Result<
        Message,
        HazelcastClientError,
    >)
        ensures
            made(
                enveloped::<PnCounterAddRequest>(
                    self.deep_view().add_request(delta, false, address.deep_view()),
                ),
                result,
            ),
    {
        self.add_request(delta, false, address)
    }

    /// The message that asks the member under `address` to add `delta`. It
    /// carries the vector clock that the server sent last.
    pub fn add_request(&self, delta: i64, get_before_update: bool, address: &Address) -> (result:
        Result<Message, HazelcastClientError>)
        ensures
            made(
                enveloped::<PnCounterAddRequest>(
                    self.deep_view().add_request(delta, get_before_update, address.deep_view()),
                ),
                result,
            ),
    {
        let replica_timestamps = self.replica_timestamps.as_slice();
        assert(replica_timestamps.deep_view() =~= self.replica_timestamps.deep_view());
        let request = PnCounterAddRequest::new(
            self.name.as_str(),
            delta,
            get_before_update,
            replica_timestamps,
            address,
        );
        Message::from(&request)
    }

    /// The message that asks for the number of replicas. It goes to any
    /// member and carries neither an address nor the vector clock.
    pub fn replica_count_request(&self) -> (result: Result<Message, HazelcastClientError>)
        ensures
            made(
                enveloped::<PnCounterGetReplicaCountRequest>(
                    PnCounterGetReplicaCountRequestView { name: self.deep_view().name },
                ),
                result,
            ),
    {
        let request = PnCounterGetReplicaCountRequest::new(self.name.as_str());
        Message::from(&request)
    }

    /// Takes the answer of the member under `address` to a request for the
    /// value. A response pins the handle to that member and replaces the
    /// vector clock by the one it brings; its value is handed out.
    /// Anything else is the caller's failure, and leaves the handle as it
    /// was.
    pub fn get(&mut self, address: Address, response: &Message) -> (result: Result<
        i64,
        HazelcastClientError,
    >)
        ensures
            served(
                old(self).deep_view(),
                address.deep_view(),
                match reply::<PnCounterGetResponse>(response@) {
                    Ok(found) => Ok((found.value, found.replica_timestamps)),
                    Err(error) => Err(error),
                },
                final(self).deep_view(),
                result,
            ),
    {
        let response = response.try_from::<PnCounterGetResponse>()?;
        let value = response.value();
        self.address = Some(address);
        self.replica_timestamps = response.into_replica_timestamps();
        Ok(value)
    }

    /// Takes the answer of the member under `address` to a request to add.
    /// A response pins the handle to that member and replaces the vector
    /// clock by the one it brings; its value, from before or after the
    /// addition as the request asked, is handed out. Anything else is the
    /// caller's failure, and leaves the handle as it was.
    pub fn add(&mut self, address: Address, response: &Message) -> (result: Result<
        i64,
        HazelcastClientError,
    >)
        ensures
            served(
                old(self).deep_view(),
                address.deep_view(),
                match reply::<PnCounterAddResponse>(response@) {
                    Ok(found) => Ok((found.value, found.replica_timestamps)),
                    Err(error) => Err(error),
                },
                final(self).deep_view(),
                result,
            ),
    {
        let response = response.try_from::<PnCounterAddResponse>()?;
        let value = response.value();
        self.address = Some(address);
        self.replica_timestamps = response.into_replica_timestamps();
        Ok(value)
    }

    /// Takes the answer to a request for the number of replicas. The handle
    /// stays as it is.
    pub fn replica_count(&self, response: &Message) -> (result: Result<u32, HazelcastClientError>)
        ensures
            match reply::<PnCounterGetReplicaCountResponse>(response@) {
                Ok(found) => result is Ok && result->Ok_0 == found.count,
                Err(error) => result is Err && result->Err_0.deep_view() == error,
            },
    {
        let response = response.try_from::<PnCounterGetReplicaCountResponse>()?;
        Ok(response.count())
    }
}

/// A handle stays with the member that served it. Once a response has
/// pinned the handle to an address, every later operation goes to that
/// address for as long as it is enabled, whatever the round-robin says; and
/// once that address is disabled, no operation goes there.
pub proof fn lemma_sticky_address<V>(
    counter: PnCounterView,
    address: AddressView,
    replica_timestamps: Seq<ReplicaTimestampEntryView>,
    cluster: RegistryView<V>,
    sequence: int,
)
    requires
        cluster.well_formed(),
        0 <= sequence,
    ensures
        ({
            let pinned = counter.served(address, replica_timestamps);
            &&& position(cluster.enabled, address) is Some ==> cluster.resolve(
                pinned.address,
                sequence,
            ) == Some(address)
            &&& cluster.disable(address).resolve(pinned.address, sequence) != Some(address)
        }),
{
    lemma_disabled_never_appears(cluster, address, sequence);
}

/// The server is told what the handle has seen. Every request that reads or
/// changes the value carries the vector clock of the last response that
/// served the handle, to whichever member it goes, and an empty one before
/// the first response.
pub proof fn lemma_vector_clock_is_echoed(
    counter: PnCounterView,
    served_by: AddressView,
    replica_timestamps: Seq<ReplicaTimestampEntryView>,
    next: AddressView,
    delta: i64,
    get_before_update: bool,
)
    ensures
        ({
            let after = counter.served(served_by, replica_timestamps);
            &&& after.get_request(next).replica_timestamps == replica_timestamps
            &&& after.add_request(delta, get_before_update, next).replica_timestamps
                == replica_timestamps
            &&& after.unpinned().get_request(next).replica_timestamps == replica_timestamps
            &&& after.name == counter.name
        }),
{
}

} // verus!
