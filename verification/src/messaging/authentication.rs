//! The handshake records.

use vstd::prelude::*;
use vstd::string::StringExecFns;
use crate::bytes::Readable;
use crate::bytes::Writeable;
use crate::codec::Codec;
use crate::codec::Reader;
use crate::codec::Writer;
use crate::error::HazelcastClientError;
use crate::error::Violation;
use crate::messaging::Address;
use crate::messaging::AddressView;
use crate::messaging::ClusterMember;
use crate::messaging::ClusterMemberView;
use crate::messaging::Request;
use crate::messaging::Response;

verus! {

/// The message type of an authentication request.
pub const AUTHENTICATION_REQUEST: u16 = 0x2;

/// The message type of the answer to an authentication request.
pub const AUTHENTICATION_RESPONSE: u16 = 0x6B;

/// What an `AuthenticationRequest` holds.
pub struct AuthenticationRequestView {
    pub username: Seq<char>,
    pub password: Seq<char>,
    pub id: Option<Seq<char>>,
    pub owner_id: Option<Seq<char>>,
    pub owner_connection: bool,
    pub client_type: Seq<char>,
    pub serialization_version: u8,
    pub client_version: Seq<char>,
}

/// The fields of an `AuthenticationRequest`, in the order in which they stand
/// on the wire.
pub type AuthenticationRequestFields = (
    String,
    String,
    Option<String>,
    Option<String>,
    bool,
    String,
    u8,
    String,
);

impl AuthenticationRequestView {
    /// The fields in the order of the wire.
    pub open spec fn fields(self) -> <AuthenticationRequestFields as DeepView>::V {
        (
            self.username,
            self.password,
            self.id,
            self.owner_id,
            self.owner_connection,
            self.client_type,
            self.serialization_version,
            self.client_version,
        )
    }

    /// The record that the fields make.
    pub open spec fn of(
        fields: <AuthenticationRequestFields as DeepView>::V,
    ) -> AuthenticationRequestView {
        AuthenticationRequestView {
            username: fields.0,
            password: fields.1,
            id: fields.2,
            owner_id: fields.3,
            owner_connection: fields.4,
            client_type: fields.5,
            serialization_version: fields.6,
            client_version: fields.7,
        }
    }
}

/// The request that opens a connection: who is asking, and with which
/// client.
#[derive(Debug, PartialEq, Eq)]
pub struct AuthenticationRequest<'a> {
    username: &'a str,
    password: &'a str,
    id: Option<&'a str>,
    owner_id: Option<&'a str>,
    owner_connection: bool,
    client_type: &'a str,
    serialization_version: u8,
    client_version: &'a str,
}

impl<'a> DeepView for AuthenticationRequest<'a> {
    type V = AuthenticationRequestView;

    closed spec fn deep_view(&self) -> AuthenticationRequestView {
        AuthenticationRequestView {
            username: self.username@,
            password: self.password@,
            id: self.id.deep_view(),
            owner_id: self.owner_id.deep_view(),
            owner_connection: self.owner_connection,
            client_type: self.client_type@,
            serialization_version: self.serialization_version,
            client_version: self.client_version@,
        }
    }
}

impl<'a> Writer for AuthenticationRequest<'a> {
    open spec fn wire(value: AuthenticationRequestView) -> Seq<u8> {
        AuthenticationRequestFields::wire(value.fields())
    }

    open spec fn fits(value: AuthenticationRequestView) -> bool {
        AuthenticationRequestFields::fits(value.fields())
    }

    fn write_to(&self, writeable: &mut Writeable) -> (result: Result<(), HazelcastClientError>) {
        (
                                self.username,
                                self.password,
                                self.id,
                                self.owner_id,
                                self.owner_connection,
                                self.client_type,
                                self.serialization_version,
                                self.client_version,
                            ).write_to(writeable)
    }
}

impl<'a> AuthenticationRequest<'a> {
    /// The request of a connection's owner that names no member yet.
    pub fn new(
        username: &'a str,
        password: &'a str,
        client_type: &'a str,
        serialization_version: u8,
        client_version: &'a str,
    ) -> (request: AuthenticationRequest<'a>)
        ensures
            request.deep_view() == (AuthenticationRequestView {
                username: username@,
                password: password@,
                id: None,
                owner_id: None,
                owner_connection: true,
                client_type: client_type@,
                serialization_version,
                client_version: client_version@,
            }),
    {
        AuthenticationRequest {
            username,
            password,
            id: None,
            owner_id: None,
            owner_connection: true,
            client_type,
            serialization_version,
            client_version,
        }
    }

    pub fn username(&self) -> (username: &'a str)
        ensures
            username@ == self.deep_view().username,
    {
        self.username
    }

    pub fn password(&self) -> (password: &'a str)
        ensures
            password@ == self.deep_view().password,
    {
        self.password
    }

    pub fn id(&self) -> (id: Option<&'a str>)
        ensures
            id.deep_view() == self.deep_view().id,
    {
        self.id
    }

    pub fn owner_id(&self) -> (owner_id: Option<&'a str>)
        ensures
            owner_id.deep_view() == self.deep_view().owner_id,
    {
        self.owner_id
    }

    pub fn owner_connection(&self) -> (owner_connection: bool)
        ensures
            owner_connection == self.deep_view().owner_connection,
    {
        self.owner_connection
    }

    pub fn client_type(&self) -> (client_type: &'a str)
        ensures
            client_type@ == self.deep_view().client_type,
    {
        self.client_type
    }

    pub fn serialization_version(&self) -> (serialization_version: u8)
        ensures
            serialization_version == self.deep_view().serialization_version,
    {
        self.serialization_version
    }

    pub fn client_version(&self) -> (client_version: &'a str)
        ensures
            client_version@ == self.deep_view().client_version,
    {
        self.client_version
    }
}

impl<'a> Request for AuthenticationRequest<'a> {
    open spec fn type_id() -> u16 {
        AUTHENTICATION_REQUEST
    }

    fn message_type() -> (message_type: u16) {
        AUTHENTICATION_REQUEST
    }

    fn partition_id(&self) -> (partition_id: i32) {
        -1
    }
}

/// What one who reads the fields of an `AuthenticationRequest` in their order
/// finds in `bytes`.
pub open spec fn parse_authentication_request(bytes: Seq<u8>) -> Result<
    (AuthenticationRequestView, Seq<u8>),
    Violation,
> {
    match AuthenticationRequestFields::parse(bytes) {
        Err(violation) => Err(violation),
        Ok((fields, rest)) => Ok((AuthenticationRequestView::of(fields), rest)),
    }
}

/// The bytes of an `AuthenticationRequest` that fits the wire, with whatever
/// follows them, are read back as the same request, and what follows is left.
pub proof fn lemma_authentication_request_round_trip(
    value: AuthenticationRequestView,
    rest: Seq<u8>,
)
    requires
        AuthenticationRequest::fits(value),
    ensures
        parse_authentication_request(AuthenticationRequest::wire(value) + rest) == Ok::<
            (AuthenticationRequestView, Seq<u8>),
            Violation,
        >((value, rest)),
{
    AuthenticationRequestFields::round_trip(value.fields(), rest);
}

/// The verdict of the cluster on an authentication request.
#[derive(Clone, Copy, Debug, PartialEq, Eq, Structural)]
pub enum AuthenticationStatus {
    Authenticated,
    CredentialsFailed,
    SerializationVersionMismatch,
    NotAllowedInCluster,
}

/// The verdict that a status code stands for, where it stands for one.
pub open spec fn status_of(code: u8) -> Option<AuthenticationStatus> {
    if code == 0 {
        Some(AuthenticationStatus::Authenticated)
    } else if code == 1 {
        Some(AuthenticationStatus::CredentialsFailed)
    } else if code == 2 {
        Some(AuthenticationStatus::SerializationVersionMismatch)
    } else if code == 3 {
        Some(AuthenticationStatus::NotAllowedInCluster)
    } else {
        None
    }
}

impl AuthenticationStatus {
    /// The name of the verdict, as it is shown to the user.
    pub open spec fn name(self) -> Seq<char> {
        match self {
            AuthenticationStatus::Authenticated => "Authenticated"@,
            AuthenticationStatus::CredentialsFailed => "CredentialsFailed"@,
            AuthenticationStatus::SerializationVersionMismatch => "SerializationVersionMismatch"@,
            AuthenticationStatus::NotAllowedInCluster => "NotAllowedInCluster"@,
        }
    }

    /// The verdict that a status code stands for, where it stands for one.
    pub fn from_code(code: u8) -> (status: Option<AuthenticationStatus>)
        ensures
            status == status_of(code),
    {
        if code == 0 {
            Some(AuthenticationStatus::Authenticated)
        } else if code == 1 {
            Some(AuthenticationStatus::CredentialsFailed)
        } else if code == 2 {
            Some(AuthenticationStatus::SerializationVersionMismatch)
        } else if code == 3 {
            Some(AuthenticationStatus::NotAllowedInCluster)
        } else {
            None
        }
    }

    /// The name of the verdict, as it is shown to the user.
    pub fn to_string(&self) -> (name: String)
        ensures
            name@ == self.name(),
    {
        match self {
            AuthenticationStatus::Authenticated => String::from_str("Authenticated"),
            AuthenticationStatus::CredentialsFailed => String::from_str("CredentialsFailed"),
            AuthenticationStatus::SerializationVersionMismatch => String::from_str(
                "SerializationVersionMismatch",
            ),
            AuthenticationStatus::NotAllowedInCluster => String::from_str("NotAllowedInCluster"),
        }
    }
}

/// What an `AuthenticationResponse` holds.
pub struct AuthenticationResponseView {
    pub status: u8,
    pub address: Option<AddressView>,
    pub id: Option<Seq<char>>,
    pub owner_id: Option<Seq<char>>,
    pub serialization_version: u8,
    pub unregistered_cluster_members: Option<Seq<ClusterMemberView>>,
}

/// The fields of an `AuthenticationResponse`, in the order in which they stand
/// on the wire.
pub type AuthenticationResponseFields = (
    u8,
    Option<Address>,
    Option<String>,
    Option<String>,
    u8,
    Option<Vec<ClusterMember>>,
);

impl AuthenticationResponseView {
    /// The fields in the order of the wire.
    pub open spec fn fields(self) -> <AuthenticationResponseFields as DeepView>::V {
        (
            self.status,
            self.address,
            self.id,
            self.owner_id,
            self.serialization_version,
            self.unregistered_cluster_members,
        )
    }

    /// The record that the fields make.
    pub open spec fn of(
        fields: <AuthenticationResponseFields as DeepView>::V,
    ) -> AuthenticationResponseView {
        AuthenticationResponseView {
            status: fields.0,
            address: fields.1,
            id: fields.2,
            owner_id: fields.3,
            serialization_version: fields.4,
            unregistered_cluster_members: fields.5,
        }
    }
}

/// The answer to an authentication request: the verdict and, where it is
/// favourable, who the member is.
#[derive(Debug, PartialEq, Eq)]
pub struct AuthenticationResponse {
    status: u8,
    address: Option<Address>,
    id: Option<String>,
    owner_id: Option<String>,
    serialization_version: u8,
    unregistered_cluster_members: Option<Vec<ClusterMember>>,
}

impl DeepView for AuthenticationResponse {
    type V = AuthenticationResponseView;

    closed spec fn deep_view(&self) -> AuthenticationResponseView {
        AuthenticationResponseView {
            status: self.status,
            address: self.address.deep_view(),
            id: self.id.deep_view(),
            owner_id: self.owner_id.deep_view(),
            serialization_version: self.serialization_version,
            unregistered_cluster_members: self.unregistered_cluster_members.deep_view(),
        }
    }
}

impl Writer for AuthenticationResponse {
    open spec fn wire(value: AuthenticationResponseView) -> Seq<u8> {
        AuthenticationResponseFields::wire(value.fields())
    }

    open spec fn fits(value: AuthenticationResponseView) -> bool {
        AuthenticationResponseFields::fits(value.fields())
    }

    fn write_to(&self, writeable: &mut Writeable) -> (result: Result<(), HazelcastClientError>) {
        (
                                self.status,
                                &self.address,
                                &self.id,
                                &self.owner_id,
                                self.serialization_version,
                                &self.unregistered_cluster_members,
                            ).write_to(writeable)
    }
}

impl Reader for AuthenticationResponse {
    open spec fn parse(bytes: Seq<u8>) -> Result<(AuthenticationResponseView, Seq<u8>), Violation> {
        match AuthenticationResponseFields::parse(bytes) {
            Err(violation) => Err(violation),
            Ok((fields, rest)) => Ok((AuthenticationResponseView::of(fields), rest)),
        }
    }

    fn read_from(readable: &mut Readable) -> (result: Result<
        AuthenticationResponse,
        HazelcastClientError,
    >) {
        let (
            status,
            address,
            id,
            owner_id,
            serialization_version,
            unregistered_cluster_members,
        ) = AuthenticationResponseFields::read_from(readable)?;
        Ok(AuthenticationResponse {
            status,
            address,
            id,
            owner_id,
            serialization_version,
            unregistered_cluster_members,
        })
    }
}

impl Codec for AuthenticationResponse {
    proof fn round_trip(value: AuthenticationResponseView, rest: Seq<u8>) {
        AuthenticationResponseFields::round_trip(value.fields(), rest);
    }
}

impl AuthenticationResponse {
    pub fn new(
        status: u8,
        address: Option<Address>,
        id: Option<String>,
        owner_id: Option<String>,
        serialization_version: u8,
        unregistered_cluster_members: Option<Vec<ClusterMember>>,
    ) -> (response: AuthenticationResponse)
        ensures
            response.deep_view() == (AuthenticationResponseView {
                status,
                address: address.deep_view(),
                id: id.deep_view(),
                owner_id: owner_id.deep_view(),
                serialization_version,
                unregistered_cluster_members: unregistered_cluster_members.deep_view(),
            }),
    {
        AuthenticationResponse {
            status,
            address,
            id,
            owner_id,
            serialization_version,
            unregistered_cluster_members,
        }
    }

    /// The verdict, where the status code stands for one.
    pub fn status(&self) -> (status: Option<AuthenticationStatus>)
        ensures
            status == status_of(self.deep_view().status),
    {
        AuthenticationStatus::from_code(self.status)
    }

    /// Whether the verdict is anything but a plain yes.
    pub fn failure(&self) -> (failure: bool)
        ensures
            failure == (self.deep_view().status != 0),
    {
        self.status != 0
    }

    pub fn address(&self) -> (address: &Option<Address>)
        ensures
            address.deep_view() == self.deep_view().address,
    {
        &self.address
    }

    pub fn id(&self) -> (id: &Option<String>)
        ensures
            id.deep_view() == self.deep_view().id,
    {
        &self.id
    }

    pub fn owner_id(&self) -> (owner_id: &Option<String>)
        ensures
            owner_id.deep_view() == self.deep_view().owner_id,
    {
        &self.owner_id
    }

    pub fn serialization_version(&self) -> (serialization_version: u8)
        ensures
            serialization_version == self.deep_view().serialization_version,
    {
        self.serialization_version
    }

    pub fn unregistered_cluster_members(&self) -> (members: &Option<Vec<ClusterMember>>)
        ensures
            members.deep_view() == self.deep_view().unregistered_cluster_members,
    {
        &self.unregistered_cluster_members
    }
}

impl Response for AuthenticationResponse {
    open spec fn type_id() -> u16 {
        AUTHENTICATION_RESPONSE
    }

    fn message_type() -> (message_type: u16) {
        AUTHENTICATION_RESPONSE
    }
}

} // verus!
