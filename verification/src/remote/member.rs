//! One member of the cluster as the client knows it after the handshake.

use vstd::prelude::*;
use vstd::string::StringExecFns;
use crate::error::answers;
use crate::error::ErrorView;
use crate::error::HazelcastClientError;
use crate::error::Violation;
use crate::message::reply;
use crate::message::Message;
use crate::message::MessageView;
use crate::messaging::authentication::status_of;
use crate::messaging::authentication::AuthenticationRequest;
use crate::messaging::authentication::AuthenticationRequestView;
use crate::messaging::authentication::AuthenticationResponse;
use crate::messaging::authentication::AuthenticationResponseView;
use crate::messaging::authentication::AuthenticationStatus;
use crate::messaging::Address;
use crate::messaging::AddressView;
use crate::remote::PROTOCOL_VERSION;

verus! {

/// The client family, as the server shows it to its operators.
pub const CLIENT_TYPE: &'static str = "Rust";

/// The version of this client.
pub const CLIENT_VERSION: &'static str = "0.1.0";

/// What a `Member` holds.
pub struct MemberView {
    pub id: Seq<char>,
    pub owner_id: Seq<char>,
    pub address: AddressView,
}

/// A member that has accepted the client: who it is, and the address under
/// which the cluster knows it.
#[derive(Debug)]
pub struct Member {
    id: String,
    owner_id: String,
    address: Address,
}

impl DeepView for Member {
    type V = MemberView;

    closed spec fn deep_view(&self) -> MemberView {
        MemberView { id: self.id@, owner_id: self.owner_id@, address: self.address.deep_view() }
    }
}

/// The text that stands for a status code in a failed authentication.
pub open spec fn status_text(code: u8) -> Seq<char> {
    match status_of(code) {
        Some(status) => status.name(),
        None => "Unknown"@,
    }
}

/// What an authentication response means for the one who asked. Only the
/// status 0 admits the client, and then the response has to say who the
/// member is: its id, its owner's id and its address. Every other status is
/// a failed authentication, with the text of the status.
pub open spec fn admission(response: AuthenticationResponseView) -> Result<MemberView, ErrorView> {
    if response.status != 0 {
        Err(ErrorView::AuthenticationFailure(status_text(response.status)))
    } else if response.id is Some && response.owner_id is Some && response.address is Some {
        Ok(
            MemberView {
                id: response.id->0,
                owner_id: response.owner_id->0,
                address: response.address->0,
            },
        )
    } else {
        Err(ErrorView::ProtocolViolation(Violation::MissingIdentity))
    }
}

/// What the message that answers an authentication request means for the
/// one who asked.
pub open spec fn handshake(message: MessageView) -> Result<MemberView, ErrorView> {
    match reply::<AuthenticationResponse>(message) {
        Ok(response) => admission(response),
        Err(error) => Err(error),
    }
}

impl Member {
    /// The request that opens a connection for `username`: it names this
    /// client's family and version and the version of the protocol.
    pub fn authentication<'a>(username: &'a str, password: &'a str) -> (request:
        AuthenticationRequest<'a>)
        ensures
            request.deep_view() == (AuthenticationRequestView {
                username: username@,
                password: password@,
                id: None,
                owner_id: None,
                owner_connection: true,
                client_type: CLIENT_TYPE@,
                serialization_version: PROTOCOL_VERSION,
                client_version: CLIENT_VERSION@,
            }),
    {
        AuthenticationRequest::new(
            username,
            password,
            CLIENT_TYPE,
            PROTOCOL_VERSION,
            CLIENT_VERSION,
        )
    }

    /// Reads the answer to the authentication request. The member exists
    /// only where the cluster admits the client.
    pub fn connect(response: &Message) -> (result: Result<Member, HazelcastClientError>)
        ensures
            answers(handshake(response@), result),
    {
        let response = response.try_from::<AuthenticationResponse>()?;
        match response.status() {
            Some(AuthenticationStatus::Authenticated) => {
                let id = match response.id() {
                    Some(id) => id.clone(),
                    None => {
                        return Err(
                            HazelcastClientError::ProtocolViolation(Violation::MissingIdentity),
                        );
                    },
                };
                let owner_id = match response.owner_id() {
                    Some(owner_id) => owner_id.clone(),
                    None => {
                        return Err(
                            HazelcastClientError::ProtocolViolation(Violation::MissingIdentity),
                        );
                    },
                };
                let address = match response.address() {
                    Some(address) => address.clone(),
                    None => {
                        return Err(
                            HazelcastClientError::ProtocolViolation(Violation::MissingIdentity),
                        );
                    },
                };
                Ok(Member { id, owner_id, address })
            },
            Some(status) => Err(HazelcastClientError::AuthenticationFailure(status.to_string())),
            None => Err(HazelcastClientError::AuthenticationFailure(String::from_str("Unknown"))),
        }
    }

    pub fn id(&self) -> (id: &str)
        ensures
            id@ == self.deep_view().id,
    {
        self.id.as_str()
    }

    pub fn owner_id(&self) -> (owner_id: &str)
        ensures
            owner_id@ == self.deep_view().owner_id,
    {
        self.owner_id.as_str()
    }

    pub fn address(&self) -> (address: &Address)
        ensures
            address.deep_view() == self.deep_view().address,
    {
        &self.address
    }
}

} // verus!
