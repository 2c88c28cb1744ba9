//! The records that travel as message payloads, and the parts that several
//! of them share.

use vstd::prelude::*;
use vstd::string::StringExecFns;
use crate::bytes::Readable;
use crate::bytes::Writeable;
use crate::codec::Codec;
use crate::codec::Reader;
use crate::codec::Writer;
use crate::error::HazelcastClientError;
use crate::error::Violation;

pub mod authentication;
pub mod error;
pub mod ping;
pub mod pn_counter;

verus! {

/// A record that is sent: it has a message type and names the partition it
/// is meant for.
pub trait Request: Writer {
    /// The message type that announces this record.
    spec fn type_id() -> u16;

    /// The message type that announces this record.
    fn message_type() -> (message_type: u16)
        ensures
            message_type == Self::type_id(),
    ;

    /// The partition the request is meant for; -1 stands for any.
    fn partition_id(&self) -> (partition_id: i32)
        ensures
            partition_id == -1,
    ;
}

/// A record that is received: it has a message type.
pub trait Response: Reader {
    /// The message type that announces this record.
    spec fn type_id() -> u16;

    /// The message type that announces this record.
    fn message_type() -> (message_type: u16)
        ensures
            message_type == Self::type_id(),
    ;
}

/// What an `Address` holds.
pub struct AddressView {
    pub host: Seq<char>,
    pub port: u32,
}

/// The fields of an `Address`, in the order in which they stand on the wire.
pub type AddressFields = (String, u32);

impl AddressView {
    /// The fields in the order of the wire.
    pub open spec fn fields(self) -> <AddressFields as DeepView>::V {
        (self.host, self.port)
    }

    /// The record that the fields make.
    pub open spec fn of(fields: <AddressFields as DeepView>::V) -> AddressView {
        AddressView { host: fields.0, port: fields.1 }
    }
}

/// Where a member listens. It names the member in the registry and travels
/// inside some requests.
#[derive(Debug, PartialEq, Eq)]
pub struct Address {
    host: String,
    port: u32,
}

impl DeepView for Address {
    type V = AddressView;

    closed spec fn deep_view(&self) -> AddressView {
        AddressView { host: self.host@, port: self.port }
    }
}

impl Writer for Address {
    open spec fn wire(value: AddressView) -> Seq<u8> {
        AddressFields::wire(value.fields())
    }

    open spec fn fits(value: AddressView) -> bool {
        AddressFields::fits(value.fields())
    }

    fn write_to(&self, writeable: &mut Writeable) -> (result: Result<(), HazelcastClientError>) {
        (&self.host, self.port).write_to(writeable)
    }
}

impl Reader for Address {
    open spec fn parse(bytes: Seq<u8>) -> Result<(AddressView, Seq<u8>), Violation> {
        match AddressFields::parse(bytes) {
            Err(violation) => Err(violation),
            Ok((fields, rest)) => Ok((AddressView::of(fields), rest)),
        }
    }

    fn read_from(readable: &mut Readable) -> (result: Result<Address, HazelcastClientError>) {
        let (host, port) = AddressFields::read_from(readable)?;
        Ok(Address { host, port })
    }
}

impl Codec for Address {
    proof fn round_trip(value: AddressView, rest: Seq<u8>) {
        AddressFields::round_trip(value.fields(), rest);
    }
}

impl Address {
    pub fn new(host: &str, port: u32) -> (address: Address)
        ensures
            address.deep_view() == (AddressView { host: host@, port }),
    {
        Address { host: String::from_str(host), port }
    }

    pub fn host(&self) -> (host: &str)
        ensures
            host@ == self.deep_view().host,
    {
        self.host.as_str()
    }

    pub fn port(&self) -> (port: u32)
        ensures
            port == self.deep_view().port,
    {
        self.port
    }

    /// Whether two addresses name the same host and port.
    pub fn same(&self, other: &Address) -> (same: bool)
        ensures
            same == (self.deep_view() == other.deep_view()),
    {
        self.port == other.port && self.host == other.host
    }
}

impl Clone for Address {
    fn clone(&self) -> (address: Address)
        ensures
            address.deep_view() == self.deep_view(),
    {
        Address { host: self.host.clone(), port: self.port }
    }
}

/// What an `AttributeEntry` holds.
pub struct AttributeEntryView {
    pub key: Seq<char>,
    pub value: Seq<char>,
}

/// The fields of an `AttributeEntry`, in the order in which they stand on the
/// wire.
pub type AttributeEntryFields = (String, String);

impl AttributeEntryView {
    /// The fields in the order of the wire.
    pub open spec fn fields(self) -> <AttributeEntryFields as DeepView>::V {
        (self.key, self.value)
    }

    /// The record that the fields make.
    pub open spec fn of(fields: <AttributeEntryFields as DeepView>::V) -> AttributeEntryView {
        AttributeEntryView { key: fields.0, value: fields.1 }
    }
}

/// One attribute of a cluster member: a key and its value.
#[derive(Debug, PartialEq, Eq)]
pub struct AttributeEntry {
    key: String,
    value: String,
}

impl DeepView for AttributeEntry {
    type V = AttributeEntryView;

    closed spec fn deep_view(&self) -> AttributeEntryView {
        AttributeEntryView { key: self.key@, value: self.value@ }
    }
}

impl Writer for AttributeEntry {
    open spec fn wire(value: AttributeEntryView) -> Seq<u8> {
        AttributeEntryFields::wire(value.fields())
    }

    open spec fn fits(value: AttributeEntryView) -> bool {
        AttributeEntryFields::fits(value.fields())
    }

    fn write_to(&self, writeable: &mut Writeable) -> (result: Result<(), HazelcastClientError>) {
        (&self.key, &self.value).write_to(writeable)
    }
}

impl Reader for AttributeEntry {
    open spec fn parse(bytes: Seq<u8>) -> Result<(AttributeEntryView, Seq<u8>), Violation> {
        match AttributeEntryFields::parse(bytes) {
            Err(violation) => Err(violation),
            Ok((fields, rest)) => Ok((AttributeEntryView::of(fields), rest)),
        }
    }

    fn read_from(readable: &mut Readable) -> (result: Result<
        AttributeEntry,
        HazelcastClientError,
    >) {
        let (key, value) = AttributeEntryFields::read_from(readable)?;
        Ok(AttributeEntry { key, value })
    }
}

impl Codec for AttributeEntry {
    proof fn round_trip(value: AttributeEntryView, rest: Seq<u8>) {
        AttributeEntryFields::round_trip(value.fields(), rest);
    }
}

impl AttributeEntry {
    pub fn new(key: &str, value: &str) -> (entry: AttributeEntry)
        ensures
            entry.deep_view() == (AttributeEntryView { key: key@, value: value@ }),
    {
        AttributeEntry { key: String::from_str(key), value: String::from_str(value) }
    }

    pub fn key(&self) -> (key: &str)
        ensures
            key@ == self.deep_view().key,
    {
        self.key.as_str()
    }

    pub fn value(&self) -> (value: &str)
        ensures
            value@ == self.deep_view().value,
    {
        self.value.as_str()
    }
}

/// What a `ClusterMember` holds.
pub struct ClusterMemberView {
    pub address: AddressView,
    pub id: Seq<char>,
    pub lite: bool,
    pub attributes: Seq<AttributeEntryView>,
}

/// The fields of a `ClusterMember`, in the order in which they stand on the
/// wire.
pub type ClusterMemberFields = (Address, String, bool, Vec<AttributeEntry>);

impl ClusterMemberView {
    /// The fields in the order of the wire.
    pub open spec fn fields(self) -> <ClusterMemberFields as DeepView>::V {
        (self.address, self.id, self.lite, self.attributes)
    }

    /// The record that the fields make.
    pub open spec fn of(fields: <ClusterMemberFields as DeepView>::V) -> ClusterMemberView {
        ClusterMemberView { address: fields.0, id: fields.1, lite: fields.2, attributes: fields.3 }
    }
}

/// A member of the cluster as the server lists it.
#[derive(Debug, PartialEq, Eq)]
pub struct ClusterMember {
    address: Address,
    id: String,
    lite: bool,
    attributes: Vec<AttributeEntry>,
}

impl DeepView for ClusterMember {
    type V = ClusterMemberView;

    closed spec fn deep_view(&self) -> ClusterMemberView {
        ClusterMemberView {
            address: self.address.deep_view(),
            id: self.id@,
            lite: self.lite,
            attributes: self.attributes.deep_view(),
        }
    }
}

impl Writer for ClusterMember {
    open spec fn wire(value: ClusterMemberView) -> Seq<u8> {
        ClusterMemberFields::wire(value.fields())
    }

    open spec fn fits(value: ClusterMemberView) -> bool {
        ClusterMemberFields::fits(value.fields())
    }

    fn write_to(&self, writeable: &mut Writeable) -> (result: Result<(), HazelcastClientError>) {
        (&self.address, &self.id, self.lite, &self.attributes).write_to(writeable)
    }
}

impl Reader for ClusterMember {
    open spec fn parse(bytes: Seq<u8>) -> Result<(ClusterMemberView, Seq<u8>), Violation> {
        match ClusterMemberFields::parse(bytes) {
            Err(violation) => Err(violation),
            Ok((fields, rest)) => Ok((ClusterMemberView::of(fields), rest)),
        }
    }

    fn read_from(readable: &mut Readable) -> (result: Result<ClusterMember, HazelcastClientError>) {
        let (address, id, lite, attributes) = ClusterMemberFields::read_from(readable)?;
        Ok(ClusterMember { address, id, lite, attributes })
    }
}

impl Codec for ClusterMember {
    proof fn round_trip(value: ClusterMemberView, rest: Seq<u8>) {
        ClusterMemberFields::round_trip(value.fields(), rest);
    }
}

impl ClusterMember {
    pub fn new(
        address: Address,
        id: &str,
        lite: bool,
        attributes: Vec<AttributeEntry>,
    ) -> (member: ClusterMember)
        ensures
            member.deep_view() == (ClusterMemberView {
                address: address.deep_view(),
                id: id@,
                lite,
                attributes: attributes.deep_view(),
            }),
    {
        ClusterMember { address, id: String::from_str(id), lite, attributes }
    }

    pub fn address(&self) -> (address: &Address)
        ensures
            address.deep_view() == self.deep_view().address,
    {
        &self.address
    }

    pub fn id(&self) -> (id: &str)
        ensures
            id@ == self.deep_view().id,
    {
        self.id.as_str()
    }

    pub fn lite(&self) -> (lite: bool)
        ensures
            lite == self.deep_view().lite,
    {
        self.lite
    }

    pub fn attributes(&self) -> (attributes: &Vec<AttributeEntry>)
        ensures
            attributes.deep_view() == self.deep_view().attributes,
    {
        &self.attributes
    }
}

/// What a `ReplicaTimestampEntry` holds.
pub struct ReplicaTimestampEntryView {
    pub key: Seq<char>,
    pub value: i64,
}

/// The fields of a `ReplicaTimestampEntry`, in the order in which they stand on
/// the wire.
pub type ReplicaTimestampEntryFields = (String, i64);

impl ReplicaTimestampEntryView {
    /// The fields in the order of the wire.
    pub open spec fn fields(self) -> <ReplicaTimestampEntryFields as DeepView>::V {
        (self.key, self.value)
    }

    /// The record that the fields make.
    pub open spec fn of(
        fields: <ReplicaTimestampEntryFields as DeepView>::V,
    ) -> ReplicaTimestampEntryView {
        ReplicaTimestampEntryView { key: fields.0, value: fields.1 }
    }
}

/// One entry of a counter's vector clock: a replica, and the version of the
/// counter that this replica has seen.
#[derive(Debug, PartialEq, Eq)]
pub struct ReplicaTimestampEntry {
    key: String,
    value: i64,
}

impl DeepView for ReplicaTimestampEntry {
    type V = ReplicaTimestampEntryView;

    closed spec fn deep_view(&self) -> ReplicaTimestampEntryView {
        ReplicaTimestampEntryView { key: self.key@, value: self.value }
    }
}

impl Writer for ReplicaTimestampEntry {
    open spec fn wire(value: ReplicaTimestampEntryView) -> Seq<u8> {
        ReplicaTimestampEntryFields::wire(value.fields())
    }

    open spec fn fits(value: ReplicaTimestampEntryView) -> bool {
        ReplicaTimestampEntryFields::fits(value.fields())
    }

    fn write_to(&self, writeable: &mut Writeable) -> (result: Result<(), HazelcastClientError>) {
        (&self.key, self.value).write_to(writeable)
    }
}

impl Reader for ReplicaTimestampEntry {
    open spec fn parse(bytes: Seq<u8>) -> Result<(ReplicaTimestampEntryView, Seq<u8>), Violation> {
        match ReplicaTimestampEntryFields::parse(bytes) {
            Err(violation) => Err(violation),
            Ok((fields, rest)) => Ok((ReplicaTimestampEntryView::of(fields), rest)),
        }
    }

    fn read_from(readable: &mut Readable) -> (result: Result<
        ReplicaTimestampEntry,
        HazelcastClientError,
    >) {
        let (key, value) = ReplicaTimestampEntryFields::read_from(readable)?;
        Ok(ReplicaTimestampEntry { key, value })
    }
}

impl Codec for ReplicaTimestampEntry {
    proof fn round_trip(value: ReplicaTimestampEntryView, rest: Seq<u8>) {
        ReplicaTimestampEntryFields::round_trip(value.fields(), rest);
    }
}

impl ReplicaTimestampEntry {
    pub fn new(key: &str, value: i64) -> (entry: ReplicaTimestampEntry)
        ensures
            entry.deep_view() == (ReplicaTimestampEntryView { key: key@, value }),
    {
        ReplicaTimestampEntry { key: String::from_str(key), value }
    }

    pub fn key(&self) -> (key: &str)
        ensures
            key@ == self.deep_view().key,
    {
        self.key.as_str()
    }

    pub fn value(&self) -> (value: i64)
        ensures
            value == self.deep_view().value,
    {
        self.value
    }
}

impl Clone for ReplicaTimestampEntry {
    fn clone(&self) -> (entry: ReplicaTimestampEntry)
        ensures
            entry.deep_view() == self.deep_view(),
    {
        ReplicaTimestampEntry { key: self.key.clone(), value: self.value }
    }
}

} // verus!
