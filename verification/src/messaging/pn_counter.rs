//! The records of the replicated counter.

use vstd::prelude::*;
use crate::bytes::Readable;
use crate::bytes::Writeable;
use crate::codec::Codec;
use crate::codec::Reader;
use crate::codec::Writer;
use crate::error::HazelcastClientError;
use crate::error::Violation;
use crate::messaging::Address;
use crate::messaging::AddressView;
use crate::messaging::ReplicaTimestampEntry;
use crate::messaging::ReplicaTimestampEntryView;
use crate::messaging::Request;
use crate::messaging::Response;

verus! {

/// The message type of a request for a counter's value.
pub const GET_REQUEST: u16 = 0x2001;

/// The message type of a counter's value.
pub const GET_RESPONSE: u16 = 0x7F;

/// The message type of a request to add to a counter.
pub const ADD_REQUEST: u16 = 0x2002;

/// The message type of a counter's value around an addition.
pub const ADD_RESPONSE: u16 = 0x7F;

/// The message type of a request for a counter's number of replicas.
pub const GET_REPLICA_COUNT_REQUEST: u16 = 0x2003;

/// The message type of a counter's number of replicas.
pub const GET_REPLICA_COUNT_RESPONSE: u16 = 0x66;

/// What a `PnCounterGetRequest` holds.
pub struct PnCounterGetRequestView {
    pub name: Seq<char>,
    pub replica_timestamps: Seq<ReplicaTimestampEntryView>,
    pub address: AddressView,
}

/// The fields of a `PnCounterGetRequest`, in the order in which they stand on
/// the wire.
pub type PnCounterGetRequestFields = (String, Vec<ReplicaTimestampEntry>, Address);

impl PnCounterGetRequestView {
    /// The fields in the order of the wire.
    pub open spec fn fields(self) -> <PnCounterGetRequestFields as DeepView>::V {
        (self.name, self.replica_timestamps, self.address)
    }

    /// The record that the fields make.
    pub open spec fn of(
        fields: <PnCounterGetRequestFields as DeepView>::V,
    ) -> PnCounterGetRequestView {
        PnCounterGetRequestView { name: fields.0, replica_timestamps: fields.1, address: fields.2 }
    }
}

/// The request for the value of a counter.
#[derive(Debug, PartialEq, Eq)]
pub struct PnCounterGetRequest<'a> {
    name: &'a str,
    replica_timestamps: &'a [ReplicaTimestampEntry],
    address: &'a Address,
}

impl<'a> DeepView for PnCounterGetRequest<'a> {
    type V = PnCounterGetRequestView;

    closed spec fn deep_view(&self) -> PnCounterGetRequestView {
        PnCounterGetRequestView {
            name: self.name@,
            replica_timestamps: self.replica_timestamps.deep_view(),
            address: self.address.deep_view(),
        }
    }
}

impl<'a> Writer for PnCounterGetRequest<'a> {
    open spec fn wire(value: PnCounterGetRequestView) -> Seq<u8> {
        PnCounterGetRequestFields::wire(value.fields())
    }

    open spec fn fits(value: PnCounterGetRequestView) -> bool {
        PnCounterGetRequestFields::fits(value.fields())
    }

    fn write_to(&self, writeable: &mut Writeable) -> (result: Result<(), HazelcastClientError>) {
        (self.name, self.replica_timestamps, self.address).write_to(writeable)
    }
}

impl<'a> PnCounterGetRequest<'a> {
    pub fn new(
        name: &'a str,
        replica_timestamps: &'a [ReplicaTimestampEntry],
        address: &'a Address,
    ) -> (request: PnCounterGetRequest<'a>)
        ensures
            request.deep_view() == (PnCounterGetRequestView {
                name: name@,
                replica_timestamps: replica_timestamps.deep_view(),
                address: address.deep_view(),
            }),
    {
        PnCounterGetRequest { name, replica_timestamps, address }
    }

    pub fn name(&self) -> (name: &'a str)
        ensures
            name@ == self.deep_view().name,
    {
        self.name
    }

    pub fn replica_timestamps(&self) -> (replica_timestamps: &'a [ReplicaTimestampEntry])
        ensures
            replica_timestamps.deep_view() == self.deep_view().replica_timestamps,
    {
        self.replica_timestamps
    }

    pub fn address(&self) -> (address: &'a Address)
        ensures
            address.deep_view() == self.deep_view().address,
    {
        self.address
    }
}

impl<'a> Request for PnCounterGetRequest<'a> {
    open spec fn type_id() -> u16 {
        GET_REQUEST
    }

    fn message_type() -> (message_type: u16) {
        GET_REQUEST
    }

    fn partition_id(&self) -> (partition_id: i32) {
        -1
    }
}

/// What one who reads the fields of a `PnCounterGetRequest` in their order
/// finds in `bytes`.
pub open spec fn parse_pn_counter_get_request(bytes: Seq<u8>) -> Result<
    (PnCounterGetRequestView, Seq<u8>),
    Violation,
> {
    match PnCounterGetRequestFields::parse(bytes) {
        Err(violation) => Err(violation),
        Ok((fields, rest)) => Ok((PnCounterGetRequestView::of(fields), rest)),
    }
}

/// The bytes of a `PnCounterGetRequest` that fits the wire, with whatever
/// follows them, are read back as the same request, and what follows is left.
pub proof fn lemma_pn_counter_get_request_round_trip(value: PnCounterGetRequestView, rest: Seq<u8>)
    requires
        PnCounterGetRequest::fits(value),
    ensures
        parse_pn_counter_get_request(PnCounterGetRequest::wire(value) + rest) == Ok::<
            (PnCounterGetRequestView, Seq<u8>),
            Violation,
        >((value, rest)),
{
    PnCounterGetRequestFields::round_trip(value.fields(), rest);
}

/// What a `PnCounterGetResponse` holds.
pub struct PnCounterGetResponseView {
    pub value: i64,
    pub replica_timestamps: Seq<ReplicaTimestampEntryView>,
}

/// The fields of a `PnCounterGetResponse`, in the order in which they stand on
/// the wire.
pub type PnCounterGetResponseFields = (i64, Vec<ReplicaTimestampEntry>);

impl PnCounterGetResponseView {
    /// The fields in the order of the wire.
    pub open spec fn fields(self) -> <PnCounterGetResponseFields as DeepView>::V {
        (self.value, self.replica_timestamps)
    }

    /// The record that the fields make.
    pub open spec fn of(
        fields: <PnCounterGetResponseFields as DeepView>::V,
    ) -> PnCounterGetResponseView {
        PnCounterGetResponseView { value: fields.0, replica_timestamps: fields.1 }
    }
}

/// The value of a counter, with the vector clock that the server holds.
#[derive(Debug, PartialEq, Eq)]
pub struct PnCounterGetResponse {
    value: i64,
    replica_timestamps: Vec<ReplicaTimestampEntry>,
}

impl DeepView for PnCounterGetResponse {
    type V = PnCounterGetResponseView;

    closed spec fn deep_view(&self) -> PnCounterGetResponseView {
        PnCounterGetResponseView {
            value: self.value,
            replica_timestamps: self.replica_timestamps.deep_view(),
        }
    }
}

impl Writer for PnCounterGetResponse {
    open spec fn wire(value: PnCounterGetResponseView) -> Seq<u8> {
        PnCounterGetResponseFields::wire(value.fields())
    }

    open spec fn fits(value: PnCounterGetResponseView) -> bool {
        PnCounterGetResponseFields::fits(value.fields())
    }

    fn write_to(&self, writeable: &mut Writeable) -> (result: Result<(), HazelcastClientError>) {
        (self.value, &self.replica_timestamps).write_to(writeable)
    }
}

impl Reader for PnCounterGetResponse {
    open spec fn parse(bytes: Seq<u8>) -> Result<(PnCounterGetResponseView, Seq<u8>), Violation> {
        match PnCounterGetResponseFields::parse(bytes) {
            Err(violation) => Err(violation),
            Ok((fields, rest)) => Ok((PnCounterGetResponseView::of(fields), rest)),
        }
    }

    fn read_from(readable: &mut Readable) -> (result: Result<
        PnCounterGetResponse,
        HazelcastClientError,
    >) {
        let (value, replica_timestamps) = PnCounterGetResponseFields::read_from(readable)?;
        Ok(PnCounterGetResponse { value, replica_timestamps })
    }
}

impl Codec for PnCounterGetResponse {
    proof fn round_trip(value: PnCounterGetResponseView, rest: Seq<u8>) {
        PnCounterGetResponseFields::round_trip(value.fields(), rest);
    }
}

impl PnCounterGetResponse {
    pub fn new(
        value: i64,
        replica_timestamps: Vec<ReplicaTimestampEntry>,
    ) -> (response: PnCounterGetResponse)
        ensures
            response.deep_view() == (PnCounterGetResponseView {
                value,
                replica_timestamps: replica_timestamps.deep_view(),
            }),
    {
        PnCounterGetResponse { value, replica_timestamps }
    }

    pub fn value(&self) -> (value: i64)
        ensures
            value == self.deep_view().value,
    {
        self.value
    }

    pub fn replica_timestamps(&self) -> (replica_timestamps: &[ReplicaTimestampEntry])
        ensures
            replica_timestamps.deep_view() == self.deep_view().replica_timestamps,
    {
        let replica_timestamps = self.replica_timestamps.as_slice();
        assert(replica_timestamps.deep_view() =~= self.replica_timestamps.deep_view());
        replica_timestamps
    }

    /// Gives up the response for the vector clock it holds.
    pub fn into_replica_timestamps(self) -> (replica_timestamps: Vec<ReplicaTimestampEntry>)
        ensures
            replica_timestamps.deep_view() == self.deep_view().replica_timestamps,
    {
        self.replica_timestamps
    }
}

impl Response for PnCounterGetResponse {
    open spec fn type_id() -> u16 {
        GET_RESPONSE
    }

    fn message_type() -> (message_type: u16) {
        GET_RESPONSE
    }
}

/// What a `PnCounterAddRequest` holds.
pub struct PnCounterAddRequestView {
    pub name: Seq<char>,
    pub delta: i64,
    pub get_before_update: bool,
    pub replica_timestamps: Seq<ReplicaTimestampEntryView>,
    pub address: AddressView,
}

/// The fields of a `PnCounterAddRequest`, in the order in which they stand on
/// the wire.
pub type PnCounterAddRequestFields = (String, i64, bool, Vec<ReplicaTimestampEntry>, Address);

impl PnCounterAddRequestView {
    /// The fields in the order of the wire.
    pub open spec fn fields(self) -> <PnCounterAddRequestFields as DeepView>::V {
        (self.name, self.delta, self.get_before_update, self.replica_timestamps, self.address)
    }

    /// The record that the fields make.
    pub open spec fn of(
        fields: <PnCounterAddRequestFields as DeepView>::V,
    ) -> PnCounterAddRequestView {
        PnCounterAddRequestView {
            name: fields.0,
            delta: fields.1,
            get_before_update: fields.2,
            replica_timestamps: fields.3,
            address: fields.4,
        }
    }
}

/// The request to add to a counter.
#[derive(Debug, PartialEq, Eq)]
pub struct PnCounterAddRequest<'a> {
    name: &'a str,
    delta: i64,
    get_before_update: bool,
    replica_timestamps: &'a [ReplicaTimestampEntry],
    address: &'a Address,
}

impl<'a> DeepView for PnCounterAddRequest<'a> {
    type V = PnCounterAddRequestView;

    closed spec fn deep_view(&self) -> PnCounterAddRequestView {
        PnCounterAddRequestView {
            name: self.name@,
            delta: self.delta,
            get_before_update: self.get_before_update,
            replica_timestamps: self.replica_timestamps.deep_view(),
            address: self.address.deep_view(),
        }
    }
}

impl<'a> Writer for PnCounterAddRequest<'a> {
    open spec fn wire(value: PnCounterAddRequestView) -> Seq<u8> {
        PnCounterAddRequestFields::wire(value.fields())
    }

    open spec fn fits(value: PnCounterAddRequestView) -> bool {
        PnCounterAddRequestFields::fits(value.fields())
    }

    fn write_to(&self, writeable: &mut Writeable) -> (result: Result<(), HazelcastClientError>) {
        (
                                self.name,
                                self.delta,
                                self.get_before_update,
                                self.replica_timestamps,
                                self.address,
                            ).write_to(writeable)
    }
}

impl<'a> PnCounterAddRequest<'a> {
    pub fn new(
        name: &'a str,
        delta: i64,
        get_before_update: bool,
        replica_timestamps: &'a [ReplicaTimestampEntry],
        address: &'a Address,
    ) -> (request: PnCounterAddRequest<'a>)
        ensures
            request.deep_view() == (PnCounterAddRequestView {
                name: name@,
                delta,
                get_before_update,
                replica_timestamps: replica_timestamps.deep_view(),
                address: address.deep_view(),
            }),
    {
        PnCounterAddRequest { name, delta, get_before_update, replica_timestamps, address }
    }

    pub fn name(&self) -> (name: &'a str)
        ensures
            name@ == self.deep_view().name,
    {
        self.name
    }

    pub fn delta(&self) -> (delta: i64)
        ensures
            delta == self.deep_view().delta,
    {
        self.delta
    }

    pub fn get_before_update(&self) -> (get_before_update: bool)
        ensures
            get_before_update == self.deep_view().get_before_update,
    {
        self.get_before_update
    }

    pub fn replica_timestamps(&self) -> (replica_timestamps: &'a [ReplicaTimestampEntry])
        ensures
            replica_timestamps.deep_view() == self.deep_view().replica_timestamps,
    {
        self.replica_timestamps
    }

    pub fn address(&self) -> (address: &'a Address)
        ensures
            address.deep_view() == self.deep_view().address,
    {
        self.address
    }
}

impl<'a> Request for PnCounterAddRequest<'a> {
    open spec fn type_id() -> u16 {
        ADD_REQUEST
    }

    fn message_type() -> (message_type: u16) {
        ADD_REQUEST
    }

    fn partition_id(&self) -> (partition_id: i32) {
        -1
    }
}

/// What one who reads the fields of a `PnCounterAddRequest` in their order
/// finds in `bytes`.
pub open spec fn parse_pn_counter_add_request(bytes: Seq<u8>) -> Result<
    (PnCounterAddRequestView, Seq<u8>),
    Violation,
> {
    match PnCounterAddRequestFields::parse(bytes) {
        Err(violation) => Err(violation),
        Ok((fields, rest)) => Ok((PnCounterAddRequestView::of(fields), rest)),
    }
}

/// The bytes of a `PnCounterAddRequest` that fits the wire, with whatever
/// follows them, are read back as the same request, and what follows is left.
pub proof fn lemma_pn_counter_add_request_round_trip(value: PnCounterAddRequestView, rest: Seq<u8>)
    requires
        PnCounterAddRequest::fits(value),
    ensures
        parse_pn_counter_add_request(PnCounterAddRequest::wire(value) + rest) == Ok::<
            (PnCounterAddRequestView, Seq<u8>),
            Violation,
        >((value, rest)),
{
    PnCounterAddRequestFields::round_trip(value.fields(), rest);
}

/// What a `PnCounterAddResponse` holds.
pub struct PnCounterAddResponseView {
    pub value: i64,
    pub replica_timestamps: Seq<ReplicaTimestampEntryView>,
    pub replica_count: u32,
}

/// The fields of a `PnCounterAddResponse`, in the order in which they stand on
/// the wire.
pub type PnCounterAddResponseFields = (i64, Vec<ReplicaTimestampEntry>, u32);

impl PnCounterAddResponseView {
    /// The fields in the order of the wire.
    pub open spec fn fields(self) -> <PnCounterAddResponseFields as DeepView>::V {
        (self.value, self.replica_timestamps, self.replica_count)
    }

    /// The record that the fields make.
    pub open spec fn of(
        fields: <PnCounterAddResponseFields as DeepView>::V,
    ) -> PnCounterAddResponseView {
        PnCounterAddResponseView {
            value: fields.0,
            replica_timestamps: fields.1,
            replica_count: fields.2,
        }
    }
}

/// The value of a counter before or after an addition, with the vector clock
/// that the server holds.
#[derive(Debug, PartialEq, Eq)]
pub struct PnCounterAddResponse {
    value: i64,
    replica_timestamps: Vec<ReplicaTimestampEntry>,
    replica_count: u32,
}

impl DeepView for PnCounterAddResponse {
    type V = PnCounterAddResponseView;

    closed spec fn deep_view(&self) -> PnCounterAddResponseView {
        PnCounterAddResponseView {
            value: self.value,
            replica_timestamps: self.replica_timestamps.deep_view(),
            replica_count: self.replica_count,
        }
    }
}

impl Writer for PnCounterAddResponse {
    open spec fn wire(value: PnCounterAddResponseView) -> Seq<u8> {
        PnCounterAddResponseFields::wire(value.fields())
    }

    open spec fn fits(value: PnCounterAddResponseView) -> bool {
        PnCounterAddResponseFields::fits(value.fields())
    }

    fn write_to(&self, writeable: &mut Writeable) -> (result: Result<(), HazelcastClientError>) {
        (self.value, &self.replica_timestamps, self.replica_count).write_to(writeable)
    }
}

impl Reader for PnCounterAddResponse {
    open spec fn parse(bytes: Seq<u8>) -> Result<(PnCounterAddResponseView, Seq<u8>), Violation> {
        match PnCounterAddResponseFields::parse(bytes) {
            Err(violation) => Err(violation),
            Ok((fields, rest)) => Ok((PnCounterAddResponseView::of(fields), rest)),
        }
    }

    fn read_from(readable: &mut Readable) -> (result: Result<
        PnCounterAddResponse,
        HazelcastClientError,
    >) {
        let (
            value,
            replica_timestamps,
            replica_count,
        ) = PnCounterAddResponseFields::read_from(readable)?;
        Ok(PnCounterAddResponse { value, replica_timestamps, replica_count })
    }
}

impl Codec for PnCounterAddResponse {
    proof fn round_trip(value: PnCounterAddResponseView, rest: Seq<u8>) {
        PnCounterAddResponseFields::round_trip(value.fields(), rest);
    }
}

impl PnCounterAddResponse {
    pub fn new(
        value: i64,
        replica_timestamps: Vec<ReplicaTimestampEntry>,
        replica_count: u32,
    ) -> (response: PnCounterAddResponse)
        ensures
            response.deep_view() == (PnCounterAddResponseView {
                value,
                replica_timestamps: replica_timestamps.deep_view(),
                replica_count,
            }),
    {
        PnCounterAddResponse { value, replica_timestamps, replica_count }
    }

    pub fn value(&self) -> (value: i64)
        ensures
            value == self.deep_view().value,
    {
        self.value
    }

    pub fn replica_timestamps(&self) -> (replica_timestamps: &[ReplicaTimestampEntry])
        ensures
            replica_timestamps.deep_view() == self.deep_view().replica_timestamps,
    {
        let replica_timestamps = self.replica_timestamps.as_slice();
        assert(replica_timestamps.deep_view() =~= self.replica_timestamps.deep_view());
        replica_timestamps
    }

    /// Gives up the response for the vector clock it holds.
    pub fn into_replica_timestamps(self) -> (replica_timestamps: Vec<ReplicaTimestampEntry>)
        ensures
            replica_timestamps.deep_view() == self.deep_view().replica_timestamps,
    {
        self.replica_timestamps
    }

    pub fn replica_count(&self) -> (replica_count: u32)
        ensures
            replica_count == self.deep_view().replica_count,
    {
        self.replica_count
    }
}

impl Response for PnCounterAddResponse {
    open spec fn type_id() -> u16 {
        ADD_RESPONSE
    }

    fn message_type() -> (message_type: u16) {
        ADD_RESPONSE
    }
}

/// What a `PnCounterGetReplicaCountRequest` holds.
pub struct PnCounterGetReplicaCountRequestView {
    pub name: Seq<char>,
}

/// The field of a `PnCounterGetReplicaCountRequest`, in the order in which it
/// stands on the wire.
pub type PnCounterGetReplicaCountRequestFields = String;

impl PnCounterGetReplicaCountRequestView {
    /// The field in the order of the wire.
    pub open spec fn fields(self) -> <PnCounterGetReplicaCountRequestFields as DeepView>::V {
        self.name
    }

    /// The record that the field make.
    pub open spec fn of(
        fields: <PnCounterGetReplicaCountRequestFields as DeepView>::V,
    ) -> PnCounterGetReplicaCountRequestView {
        PnCounterGetReplicaCountRequestView { name: fields }
    }
}

/// The request for the number of replicas of a counter.
#[derive(Debug, PartialEq, Eq)]
pub struct PnCounterGetReplicaCountRequest<'a> {
    name: &'a str,
}

impl<'a> DeepView for PnCounterGetReplicaCountRequest<'a> {
    type V = PnCounterGetReplicaCountRequestView;

    closed spec fn deep_view(&self) -> PnCounterGetReplicaCountRequestView {
        PnCounterGetReplicaCountRequestView { name: self.name@ }
    }
}

impl<'a> Writer for PnCounterGetReplicaCountRequest<'a> {
    open spec fn wire(value: PnCounterGetReplicaCountRequestView) -> Seq<u8> {
        PnCounterGetReplicaCountRequestFields::wire(value.fields())
    }

    open spec fn fits(value: PnCounterGetReplicaCountRequestView) -> bool {
        PnCounterGetReplicaCountRequestFields::fits(value.fields())
    }

    fn write_to(&self, writeable: &mut Writeable) -> (result: Result<(), HazelcastClientError>) {
        self.name.write_to(writeable)
    }
}

impl<'a> PnCounterGetReplicaCountRequest<'a> {
    pub fn new(name: &'a str) -> (request: PnCounterGetReplicaCountRequest<'a>)
        ensures
            request.deep_view() == (PnCounterGetReplicaCountRequestView { name: name@ }),
    {
        PnCounterGetReplicaCountRequest { name }
    }

    pub fn name(&self) -> (name: &'a str)
        ensures
            name@ == self.deep_view().name,
    {
        self.name
    }
}

impl<'a> Request for PnCounterGetReplicaCountRequest<'a> {
    open spec fn type_id() -> u16 {
        GET_REPLICA_COUNT_REQUEST
    }

    fn message_type() -> (message_type: u16) {
        GET_REPLICA_COUNT_REQUEST
    }

    fn partition_id(&self) -> (partition_id: i32) {
        -1
    }
}

/// What one who reads the fields of a `PnCounterGetReplicaCountRequest` in
/// their order finds in `bytes`.
pub open spec fn parse_pn_counter_get_replica_count_request(bytes: Seq<u8>) -> Result<
    (PnCounterGetReplicaCountRequestView, Seq<u8>),
    Violation,
> {
    match PnCounterGetReplicaCountRequestFields::parse(bytes) {
        Err(violation) => Err(violation),
        Ok((fields, rest)) => Ok((PnCounterGetReplicaCountRequestView::of(fields), rest)),
    }
}

/// The bytes of a `PnCounterGetReplicaCountRequest` that fits the wire, with
/// whatever follows them, are read back as the same request, and what follows
/// is left.
pub proof fn lemma_pn_counter_get_replica_count_request_round_trip(
    value: PnCounterGetReplicaCountRequestView,
    rest: Seq<u8>,
)
    requires
        PnCounterGetReplicaCountRequest::fits(value),
    ensures
        parse_pn_counter_get_replica_count_request(
            PnCounterGetReplicaCountRequest::wire(value) + rest,
        ) == Ok::<(PnCounterGetReplicaCountRequestView, Seq<u8>), Violation>((value, rest)),
{
    PnCounterGetReplicaCountRequestFields::round_trip(value.fields(), rest);
}

/// What a `PnCounterGetReplicaCountResponse` holds.
pub struct PnCounterGetReplicaCountResponseView {
    pub count: u32,
}

/// The field of a `PnCounterGetReplicaCountResponse`, in the order in which it
/// stands on the wire.
pub type PnCounterGetReplicaCountResponseFields = u32;

impl PnCounterGetReplicaCountResponseView {
    /// The field in the order of the wire.
    pub open spec fn fields(self) -> <PnCounterGetReplicaCountResponseFields as DeepView>::V {
        self.count
    }

    /// The record that the field make.
    pub open spec fn of(
        fields: <PnCounterGetReplicaCountResponseFields as DeepView>::V,
    ) -> PnCounterGetReplicaCountResponseView {
        PnCounterGetReplicaCountResponseView { count: fields }
    }
}

/// The number of replicas of a counter.
#[derive(Debug, PartialEq, Eq)]
pub struct PnCounterGetReplicaCountResponse {
    count: u32,
}

impl DeepView for PnCounterGetReplicaCountResponse {
    type V = PnCounterGetReplicaCountResponseView;

    closed spec fn deep_view(&self) -> PnCounterGetReplicaCountResponseView {
        PnCounterGetReplicaCountResponseView { count: self.count }
    }
}

impl Writer for PnCounterGetReplicaCountResponse {
    open spec fn wire(value: PnCounterGetReplicaCountResponseView) -> Seq<u8> {
        PnCounterGetReplicaCountResponseFields::wire(value.fields())
    }

    open spec fn fits(value: PnCounterGetReplicaCountResponseView) -> bool {
        PnCounterGetReplicaCountResponseFields::fits(value.fields())
    }

    fn write_to(&self, writeable: &mut Writeable) -> (result: Result<(), HazelcastClientError>) {
        self.count.write_to(writeable)
    }
}

impl Reader for PnCounterGetReplicaCountResponse {
    open spec fn parse(bytes: Seq<u8>) -> Result<
        (PnCounterGetReplicaCountResponseView, Seq<u8>),
        Violation,
    > {
        match PnCounterGetReplicaCountResponseFields::parse(bytes) {
            Err(violation) => Err(violation),
            Ok((fields, rest)) => Ok((PnCounterGetReplicaCountResponseView::of(fields), rest)),
        }
    }

    fn read_from(readable: &mut Readable) -> (result: Result<
        PnCounterGetReplicaCountResponse,
        HazelcastClientError,
    >) {
        let count = PnCounterGetReplicaCountResponseFields::read_from(readable)?;
        Ok(PnCounterGetReplicaCountResponse { count })
    }
}

impl Codec for PnCounterGetReplicaCountResponse {
    proof fn round_trip(value: PnCounterGetReplicaCountResponseView, rest: Seq<u8>) {
        PnCounterGetReplicaCountResponseFields::round_trip(value.fields(), rest);
    }
}

impl PnCounterGetReplicaCountResponse {
    pub fn new(count: u32) -> (response: PnCounterGetReplicaCountResponse)
        ensures
            response.deep_view() == (PnCounterGetReplicaCountResponseView { count }),
    {
        PnCounterGetReplicaCountResponse { count }
    }

    pub fn count(&self) -> (count: u32)
        ensures
            count == self.deep_view().count,
    {
        self.count
    }
}

impl Response for PnCounterGetReplicaCountResponse {
    open spec fn type_id() -> u16 {
        GET_REPLICA_COUNT_RESPONSE
    }

    fn message_type() -> (message_type: u16) {
        GET_REPLICA_COUNT_RESPONSE
    }
}

} // verus!
