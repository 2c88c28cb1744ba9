use hazelcast_rust_client::bytes::Readable;
use hazelcast_rust_client::bytes::Writeable;
use hazelcast_rust_client::codec::Reader;
use hazelcast_rust_client::codec::Writer;
use hazelcast_rust_client::error::HazelcastClientError;
use hazelcast_rust_client::error::Violation;
use hazelcast_rust_client::messaging::authentication::AuthenticationRequest;
use hazelcast_rust_client::messaging::authentication::AuthenticationResponse;
use hazelcast_rust_client::messaging::authentication::AuthenticationStatus;
use hazelcast_rust_client::messaging::error::Exception;
use hazelcast_rust_client::messaging::error::StackTraceEntry;
use hazelcast_rust_client::messaging::ping::PingRequest;
use hazelcast_rust_client::messaging::ping::PingResponse;
use hazelcast_rust_client::messaging::pn_counter::PnCounterAddRequest;
use hazelcast_rust_client::messaging::pn_counter::PnCounterAddResponse;
use hazelcast_rust_client::messaging::pn_counter::PnCounterGetReplicaCountRequest;
use hazelcast_rust_client::messaging::pn_counter::PnCounterGetReplicaCountResponse;
use hazelcast_rust_client::messaging::pn_counter::PnCounterGetRequest;
use hazelcast_rust_client::messaging::pn_counter::PnCounterGetResponse;
use hazelcast_rust_client::messaging::Address;
use hazelcast_rust_client::messaging::AttributeEntry;
use hazelcast_rust_client::messaging::ClusterMember;
use hazelcast_rust_client::messaging::ReplicaTimestampEntry;
use hazelcast_rust_client::messaging::Request;
use hazelcast_rust_client::messaging::Response;
use hazelcast_rust_client::remote::member::Member;
use hazelcast_rust_client::remote::member::CLIENT_TYPE;
use hazelcast_rust_client::remote::member::CLIENT_VERSION;
use hazelcast_rust_client::remote::PROTOCOL_VERSION;

#[test]
fn should_write_authentication_request() {
    let request = AuthenticationRequest::new("username", "password", "Rust", 1, "1.0.0");

    let mut writeable = Writeable::new();
    request.write_to(&mut writeable).unwrap();

    let bytes = writeable.into_bytes();
    let readable = &mut Readable::new(&bytes);
    assert_eq!(String::read_from(readable).unwrap(), request.username());
    assert_eq!(String::read_from(readable).unwrap(), request.password());
    assert_eq!(bool::read_from(readable).unwrap(), true);
    assert_eq!(bool::read_from(readable).unwrap(), true);
    assert_eq!(bool::read_from(readable).unwrap(), true);
    assert_eq!(String::read_from(readable).unwrap(), request.client_type());
    assert_eq!(u8::read_from(readable).unwrap(), request.serialization_version());
    assert_eq!(String::read_from(readable).unwrap(), request.client_version());
}

#[test]
fn authentication_should_write_authentication_request() {
    let request = Member::authentication("username", "password");

    let mut writeable = Writeable::new();
    request.write_to(&mut writeable).unwrap();

    let bytes = writeable.into_bytes();
    let readable = &mut Readable::new(&bytes);
    assert_eq!(String::read_from(readable).unwrap(), request.username());
    assert_eq!(String::read_from(readable).unwrap(), request.password());
    assert_eq!(bool::read_from(readable).unwrap(), true);
    assert_eq!(bool::read_from(readable).unwrap(), true);
    assert_eq!(bool::read_from(readable).unwrap(), true);
    assert_eq!(String::read_from(readable).unwrap(), CLIENT_TYPE);
    assert_eq!(u8::read_from(readable).unwrap(), PROTOCOL_VERSION);
    assert_eq!(String::read_from(readable).unwrap(), CLIENT_VERSION);
}

#[test]
fn should_read_authentication_response() {
    let status = 0u8;
    let address = Some(Address::new("localhost", 5701));
    let id = Some("id");
    let owner_id = Some("owner-id");
    let protocol_version = 1u8;

    let writeable = &mut Writeable::new();
    status.write_to(writeable).unwrap();
    address.write_to(writeable).unwrap();
    id.write_to(writeable).unwrap();
    owner_id.write_to(writeable).unwrap();
    protocol_version.write_to(writeable).unwrap();
    true.write_to(writeable).unwrap();

    let readable = &mut Readable::new(writeable.as_slice());
    assert_eq!(
        AuthenticationResponse::read_from(readable).unwrap(),
        AuthenticationResponse::new(
            status,
            address,
            id.map(str::to_string),
            owner_id.map(str::to_string),
            protocol_version,
            None,
        )
    );
}

#[test]
fn authentication_should_read_authentication_response() {
    let status: u8 = 1;
    let address = Address::new("localhost", 5701);
    let id = "id";
    let owner_id = "owner-id";

    let writeable = &mut Writeable::new();
    status.write_to(writeable).unwrap();
    false.write_to(writeable).unwrap();
    address.write_to(writeable).unwrap();
    false.write_to(writeable).unwrap();
    id.write_to(writeable).unwrap();
    false.write_to(writeable).unwrap();
    owner_id.write_to(writeable).unwrap();
    PROTOCOL_VERSION.write_to(writeable).unwrap();
    true.write_to(writeable).unwrap();

    let readable = &mut Readable::new(writeable.as_slice());
    assert_eq!(
        AuthenticationResponse::read_from(readable).unwrap(),
        AuthenticationResponse::new(
            status,
            Some(address),
            Some(id.to_string()),
            Some(owner_id.to_string()),
            PROTOCOL_VERSION,
            None
        )
    );
}

#[test]
fn should_read_cluster_member() {
    let address = Address::new("localhost", 5701);
    let id = "id";
    let lite = true;

    let writeable = &mut Writeable::new();
    address.write_to(writeable).unwrap();
    id.write_to(writeable).unwrap();
    lite.write_to(writeable).unwrap();
    0u32.write_to(writeable).unwrap();

    let readable = &mut Readable::new(writeable.as_slice());
    assert_eq!(
        ClusterMember::read_from(readable).unwrap(),
        ClusterMember::new(address, id, lite, vec!())
    );
}

#[test]
fn mod_should_read_cluster_member() {
    let address = Address::new("localhost", 5701);
    let id = "id";
    let lite = true;

    let writeable = &mut Writeable::new();
    address.write_to(writeable).unwrap();
    id.write_to(writeable).unwrap();
    lite.write_to(writeable).unwrap();
    0u32.write_to(writeable).unwrap();

    let readable = &mut Readable::new(writeable.as_slice());
    assert_eq!(
        ClusterMember::read_from(readable).unwrap(),
        ClusterMember::new(address, id, lite, vec!())
    );
}

#[test]
fn authentication_should_read_cluster_member() {
    let address = Address::new("localhost", 5701);
    let id = "id";
    let lite = true;

    let writeable = &mut Writeable::new();
    address.write_to(writeable).unwrap();
    id.write_to(writeable).unwrap();
    lite.write_to(writeable).unwrap();
    0u32.write_to(writeable).unwrap();

    let readable = &mut Readable::new(writeable.as_slice());
    assert_eq!(
        ClusterMember::read_from(readable).unwrap(),
        ClusterMember::new(address, id, lite, vec!())
    );
}

#[test]
fn should_read_attribute() {
    let key = "key";
    let value = "value";

    let writeable = &mut Writeable::new();
    key.write_to(writeable).unwrap();
    value.write_to(writeable).unwrap();

    let readable = &mut Readable::new(writeable.as_slice());
    assert_eq!(
        AttributeEntry::read_from(readable).unwrap(),
        AttributeEntry::new(key, value)
    );
}

#[test]
fn mod_should_read_attribute() {
    let key = "key";
    let value = "value";

    let writeable = &mut Writeable::new();
    key.write_to(writeable).unwrap();
    value.write_to(writeable).unwrap();

    let readable = &mut Readable::new(writeable.as_slice());
    assert_eq!(
        AttributeEntry::read_from(readable).unwrap(),
        AttributeEntry::new(key, value)
    );
}

#[test]
fn authentication_should_read_attribute() {
    let key = "key";
    let value = "value";

    let writeable = &mut Writeable::new();
    key.write_to(writeable).unwrap();
    value.write_to(writeable).unwrap();

    let readable = &mut Readable::new(writeable.as_slice());
    assert_eq!(
        AttributeEntry::read_from(readable).unwrap(),
        AttributeEntry::new(key, value)
    );
}

#[test]
fn should_write_get_request() {
    let address = Address::new("localhost", 5701);
    let replica_timestamps = &[ReplicaTimestampEntry::new("key", 69)];
    let request = PnCounterGetRequest::new("counter-name", replica_timestamps, &address);

    let mut writeable = Writeable::new();
    request.write_to(&mut writeable).unwrap();

    let readable = &mut Readable::new(writeable.as_slice());
    assert_eq!(String::read_from(readable).unwrap(), request.name());
    assert_eq!(
        Vec::<ReplicaTimestampEntry>::read_from(readable).unwrap().as_slice(),
        replica_timestamps
    );
    assert_eq!(&Address::read_from(readable).unwrap(), request.address());
}

#[test]
fn pn_counter_should_write_get_request() {
    let address = Address::new("localhost", 5701);
    let replica_timestamps = [ReplicaTimestampEntry::new("key", 69)];
    let request = PnCounterGetRequest::new("counter-name", &replica_timestamps, &address);

    let mut writeable = Writeable::new();
    request.write_to(&mut writeable).unwrap();

    let readable = &mut Readable::new(writeable.as_slice());
    assert_eq!(String::read_from(readable).unwrap(), request.name());
    assert_eq!(
        Vec::<ReplicaTimestampEntry>::read_from(readable).unwrap().as_slice(),
        request.replica_timestamps()
    );
    assert_eq!(&Address::read_from(readable).unwrap(), request.address());
}

#[test]
fn should_read_get_response() {
    let value = 12i64;
    let replica_timestamps = vec![ReplicaTimestampEntry::new("key", 69)];

    let writeable = &mut Writeable::new();
    value.write_to(writeable).unwrap();
    replica_timestamps.write_to(writeable).unwrap();

    let readable = &mut Readable::new(writeable.as_slice());
    assert_eq!(
        PnCounterGetResponse::read_from(readable).unwrap(),
        PnCounterGetResponse::new(value, replica_timestamps)
    );
}

#[test]
fn pn_counter_should_read_get_response() {
    let value = 12i64;
    let replica_timestamps = vec![ReplicaTimestampEntry::new("key", 69)];

    let writeable = &mut Writeable::new();
    value.write_to(writeable).unwrap();
    replica_timestamps.as_slice().write_to(writeable).unwrap();

    let readable = &mut Readable::new(writeable.as_slice());
    let response = PnCounterGetResponse::read_from(readable).unwrap();
    assert_eq!(response.value(), value);
    assert_eq!(response.replica_timestamps(), replica_timestamps.as_slice());
}

#[test]
fn should_write_add_request() {
    let address = Address::new("localhost", 5701);
    let replica_timestamps = [ReplicaTimestampEntry::new("key", 69)];
    let request =
        PnCounterAddRequest::new("counter-name", -13, true, &replica_timestamps, &address);

    let mut writeable = Writeable::new();
    request.write_to(&mut writeable).unwrap();

    let readable = &mut Readable::new(writeable.as_slice());
    assert_eq!(String::read_from(readable).unwrap(), request.name());
    assert_eq!(i64::read_from(readable).unwrap(), request.delta());
    assert_eq!(bool::read_from(readable).unwrap(), request.get_before_update());
    assert_eq!(
        Vec::<ReplicaTimestampEntry>::read_from(readable).unwrap().as_slice(),
        replica_timestamps
    );
    assert_eq!(&Address::read_from(readable).unwrap(), request.address());
}

#[test]
fn pn_counter_should_write_add_request() {
    let address = Address::new("localhost", 5701);
    let replica_timestamps = [ReplicaTimestampEntry::new("key", 69)];
    let request =
        PnCounterAddRequest::new("counter-name", -13, true, &replica_timestamps, &address);

    let mut writeable = Writeable::new();
    request.write_to(&mut writeable).unwrap();

    let readable = &mut Readable::new(writeable.as_slice());
    assert_eq!(String::read_from(readable).unwrap(), "counter-name");
    assert_eq!(i64::read_from(readable).unwrap(), -13);
    assert_eq!(bool::read_from(readable).unwrap(), true);
    assert_eq!(
        Vec::<ReplicaTimestampEntry>::read_from(readable).unwrap().as_slice(),
        request.replica_timestamps()
    );
    assert_eq!(Address::read_from(readable).unwrap(), address);
}

#[test]
fn should_read_add_response() {
    let value = 12i64;
    let replica_timestamps = vec![ReplicaTimestampEntry::new("key", 69)];
    let replica_count = 3u32;

    let writeable = &mut Writeable::new();
    value.write_to(writeable).unwrap();
    replica_timestamps.write_to(writeable).unwrap();
    replica_count.write_to(writeable).unwrap();

    let readable = &mut Readable::new(writeable.as_slice());
    assert_eq!(
        PnCounterAddResponse::read_from(readable).unwrap(),
        PnCounterAddResponse::new(value, replica_timestamps, replica_count)
    );
}

#[test]
fn pn_counter_should_read_add_response() {
    let value = 12i64;
    let replica_timestamps = vec![ReplicaTimestampEntry::new("key", 69)];
    let replica_count = 3u32;

    let writeable = &mut Writeable::new();
    value.write_to(writeable).unwrap();
    replica_timestamps.as_slice().write_to(writeable).unwrap();
    replica_count.write_to(writeable).unwrap();

    let readable = &mut Readable::new(writeable.as_slice());
    let response = PnCounterAddResponse::read_from(readable).unwrap();
    assert_eq!(response.value(), value);
    assert_eq!(response.replica_timestamps(), replica_timestamps.as_slice());
    assert_eq!(response.replica_count(), replica_count);
}

#[test]
fn should_write_replica_timestamp_entry() {
    let replica_timestamp = ReplicaTimestampEntry::new("key", 69);

    let writeable = &mut Writeable::new();
    replica_timestamp.write_to(writeable).unwrap();

    let readable = &mut Readable::new(writeable.as_slice());
    assert_eq!(String::read_from(readable).unwrap(), replica_timestamp.key());
    assert_eq!(i64::read_from(readable).unwrap(), replica_timestamp.value());
}

#[test]
fn mod_should_write_replica_timestamp_entry() {
    let replica_timestamp = ReplicaTimestampEntry::new("key", 69);

    let writeable = &mut Writeable::new();
    replica_timestamp.write_to(writeable).unwrap();

    let readable = &mut Readable::new(writeable.as_slice());
    assert_eq!(String::read_from(readable).unwrap(), "key");
    assert_eq!(i64::read_from(readable).unwrap(), 69);
}

#[test]
fn pn_counter_should_write_replica_timestamp_entry() {
    let replica_timestamp = ReplicaTimestampEntry::new("key", 69);

    let writeable = &mut Writeable::new();
    replica_timestamp.write_to(writeable).unwrap();
    assert_eq!(
        writeable.as_slice(),
        [3, 0, 0, 0, b'k', b'e', b'y', 69, 0, 0, 0, 0, 0, 0, 0]
    );

    let readable = &mut Readable::new(writeable.as_slice());
    assert_eq!(String::read_from(readable).unwrap(), replica_timestamp.key());
    assert_eq!(i64::read_from(readable).unwrap(), replica_timestamp.value());
}

#[test]
fn should_read_replica_timestamp_entry() {
    let key = "key";
    let value = 12i64;

    let writeable = &mut Writeable::new();
    key.write_to(writeable).unwrap();
    value.write_to(writeable).unwrap();

    let readable = &mut Readable::new(writeable.as_slice());
    assert_eq!(
        ReplicaTimestampEntry::read_from(readable).unwrap(),
        ReplicaTimestampEntry::new(key, value)
    );
}

#[test]
fn mod_should_read_replica_timestamp_entry() {
    let key = "key";
    let value = 12i64;

    let writeable = &mut Writeable::new();
    key.write_to(writeable).unwrap();
    value.write_to(writeable).unwrap();

    let readable = &mut Readable::new(writeable.as_slice());
    assert_eq!(
        ReplicaTimestampEntry::read_from(readable).unwrap(),
        ReplicaTimestampEntry::new(key, value)
    );
}

#[test]
fn pn_counter_should_read_replica_timestamp_entry() {
    let key = "key";
    let value = 12i64;

    let writeable = &mut Writeable::new();
    key.write_to(writeable).unwrap();
    value.write_to(writeable).unwrap();

    let readable = &mut Readable::new(writeable.as_slice());
    let entry = ReplicaTimestampEntry::read_from(readable).unwrap();
    assert_eq!(entry.key(), key);
    assert_eq!(entry.value(), value);
}

#[test]
fn should_write_replica_count_request() {
    let request = PnCounterGetReplicaCountRequest::new("counter-name");

    let mut writeable = Writeable::new();
    request.write_to(&mut writeable).unwrap();

    let readable = &mut Readable::new(writeable.as_slice());
    assert_eq!(String::read_from(readable).unwrap(), request.name());
}

#[test]
fn pn_counter_should_write_replica_count_request() {
    let request = PnCounterGetReplicaCountRequest::new("counter-name");

    let mut writeable = Writeable::new();
    request.write_to(&mut writeable).unwrap();

    let readable = &mut Readable::new(writeable.as_slice());
    assert_eq!(String::read_from(readable).unwrap(), "counter-name");
    assert_eq!(readable.remaining(), 0);
}

#[test]
fn should_read_replica_count_response() {
    let replica_count = 3u32;

    let writeable = &mut Writeable::new();
    replica_count.write_to(writeable).unwrap();

    let readable = &mut Readable::new(writeable.as_slice());
    assert_eq!(
        PnCounterGetReplicaCountResponse::read_from(readable).unwrap(),
        PnCounterGetReplicaCountResponse::new(replica_count)
    );
}

#[test]
fn pn_counter_should_read_replica_count_response() {
    let count = 3u32;

    let writeable = &mut Writeable::new();
    count.write_to(writeable).unwrap();

    let readable = &mut Readable::new(writeable.as_slice());
    assert_eq!(
        PnCounterGetReplicaCountResponse::read_from(readable).unwrap().count(),
        count
    );
}

#[test]
fn should_read_exception() {
    let code = 128i32;
    let class_name = "NullPointerException";
    let message = Some("null");
    let cause_error_code = 321u32;
    let cause_class_name = Some("CauseClassName");

    let writeable = &mut Writeable::new();
    code.write_to(writeable).unwrap();
    class_name.write_to(writeable).unwrap();
    message.write_to(writeable).unwrap();
    0u32.write_to(writeable).unwrap();
    cause_error_code.write_to(writeable).unwrap();
    cause_class_name.write_to(writeable).unwrap();

    let readable = &mut Readable::new(writeable.as_slice());
    assert_eq!(
        Exception::read_from(readable).unwrap(),
        Exception::new(
            code,
            class_name,
            message.map(str::to_string),
            vec!(),
            cause_error_code,
            cause_class_name.map(str::to_string),
        )
    );
}

#[test]
fn should_read_stack_trace_entry() {
    let declaring_class = "NullPointerException";
    let method_name = "some-method";
    let file_name = Some("NullPointerException.java");
    let line_number = 999u32;

    let writeable = &mut Writeable::new();
    declaring_class.write_to(writeable).unwrap();
    method_name.write_to(writeable).unwrap();
    file_name.write_to(writeable).unwrap();
    line_number.write_to(writeable).unwrap();

    let readable = &mut Readable::new(writeable.as_slice());
    assert_eq!(
        StackTraceEntry::read_from(readable).unwrap(),
        StackTraceEntry::new(
            declaring_class,
            method_name,
            file_name.map(str::to_string),
            line_number
        )
    );
}

#[test]
fn should_write_ping_request() {
    let request = PingRequest::new();

    let mut writeable = Writeable::new();
    request.write_to(&mut writeable).unwrap();

    assert_eq!(writeable.as_slice(), []);
}

#[test]
fn should_read_ping_response() {
    let readable = &mut Readable::new(&[]);
    assert_eq!(PingResponse::read_from(readable).unwrap(), PingResponse::new());
}

#[test]
fn records_are_announced_by_their_message_types() {
    assert_eq!(AuthenticationRequest::message_type(), 0x02);
    assert_eq!(AuthenticationResponse::message_type(), 0x6B);
    assert_eq!(PingRequest::message_type(), 0x0F);
    assert_eq!(PingResponse::message_type(), 0x64);
    assert_eq!(Exception::message_type(), 0x6D);
    assert_eq!(PnCounterGetRequest::message_type(), 0x2001);
    assert_eq!(PnCounterGetResponse::message_type(), 0x7F);
    assert_eq!(PnCounterAddRequest::message_type(), 0x2002);
    assert_eq!(PnCounterAddResponse::message_type(), 0x7F);
    assert_eq!(PnCounterGetReplicaCountRequest::message_type(), 0x2003);
    assert_eq!(PnCounterGetReplicaCountResponse::message_type(), 0x66);
    assert_eq!(PingRequest::new().partition_id(), -1);
    assert_eq!(PnCounterGetReplicaCountRequest::new("c").partition_id(), -1);
}

#[test]
fn responses_are_read_as_written() {
    let response = AuthenticationResponse::new(
        0,
        Some(Address::new("127.0.0.1", 5701)),
        Some("m-1".to_string()),
        Some("o-1".to_string()),
        1,
        Some(vec![ClusterMember::new(
            Address::new("127.0.0.2", 5702),
            "m-2",
            false,
            vec![AttributeEntry::new("zone", "a"), AttributeEntry::new("rack", "7")],
        )]),
    );
    let mut writeable = Writeable::new();
    response.write_to(&mut writeable).unwrap();
    let readable = &mut Readable::new(writeable.as_slice());
    assert_eq!(AuthenticationResponse::read_from(readable).unwrap(), response);
    assert_eq!(readable.remaining(), 0);

    let exception = Exception::new(
        5,
        "X",
        Some("boom".to_string()),
        vec![
            StackTraceEntry::new("A", "run", Some("A.java".to_string()), 12),
            StackTraceEntry::new("B", "call", None, 0),
        ],
        0,
        None,
    );
    let mut writeable = Writeable::new();
    exception.write_to(&mut writeable).unwrap();
    let readable = &mut Readable::new(writeable.as_slice());
    let read = Exception::read_from(readable).unwrap();
    assert_eq!(read, exception);
    assert_eq!(read.code(), 5);
    assert_eq!(read.class_name(), "X");
    assert_eq!(read.message(), &Some("boom".to_string()));
    assert_eq!(read.stack_trace().len(), 2);
    assert_eq!(read.stack_trace()[0].declaring_class(), "A");
    assert_eq!(read.stack_trace()[0].method_name(), "run");
    assert_eq!(read.stack_trace()[0].file_name(), &Some("A.java".to_string()));
    assert_eq!(read.stack_trace()[0].line_number(), 12);
    assert_eq!(read.cause_error_code(), 0);
    assert_eq!(read.cause_class_name(), &None);

    let response = PnCounterAddResponse::new(
        -4,
        vec![ReplicaTimestampEntry::new("r1", 7), ReplicaTimestampEntry::new("r2", -1)],
        3,
    );
    let mut writeable = Writeable::new();
    response.write_to(&mut writeable).unwrap();
    let readable = &mut Readable::new(writeable.as_slice());
    assert_eq!(PnCounterAddResponse::read_from(readable).unwrap(), response);
}

#[test]
fn the_authentication_request_stands_field_by_field() {
    let request = AuthenticationRequest::new("u", "p", "Rust", 1, "v");
    assert_eq!(request.id(), None);
    assert_eq!(request.owner_id(), None);
    assert_eq!(request.owner_connection(), true);
    let mut writeable = Writeable::new();
    request.write_to(&mut writeable).unwrap();
    assert_eq!(
        writeable.as_slice(),
        [
            1, 0, 0, 0, b'u', // username
            1, 0, 0, 0, b'p', // password
            1,    // no id
            1,    // no owner id
            1,    // owner connection
            4, 0, 0, 0, b'R', b'u', b's', b't', // client type
            1,    // serialization version
            1, 0, 0, 0, b'v', // client version
        ]
    );
}

#[test]
fn status_codes_stand_for_their_verdicts() {
    assert_eq!(AuthenticationStatus::from_code(0), Some(AuthenticationStatus::Authenticated));
    assert_eq!(AuthenticationStatus::from_code(1), Some(AuthenticationStatus::CredentialsFailed));
    assert_eq!(
        AuthenticationStatus::from_code(2),
        Some(AuthenticationStatus::SerializationVersionMismatch)
    );
    assert_eq!(
        AuthenticationStatus::from_code(3),
        Some(AuthenticationStatus::NotAllowedInCluster)
    );
    assert_eq!(AuthenticationStatus::from_code(4), None);
    assert_eq!(AuthenticationStatus::Authenticated.to_string(), "Authenticated");
    assert_eq!(AuthenticationStatus::CredentialsFailed.to_string(), "CredentialsFailed");
    assert_eq!(
        AuthenticationStatus::SerializationVersionMismatch.to_string(),
        "SerializationVersionMismatch"
    );
    assert_eq!(AuthenticationStatus::NotAllowedInCluster.to_string(), "NotAllowedInCluster");

    let response = AuthenticationResponse::new(2, None, None, None, 1, None);
    assert_eq!(response.status(), Some(AuthenticationStatus::SerializationVersionMismatch));
    assert!(response.failure());
    assert_eq!(response.address(), &None);
    assert_eq!(response.id(), &None);
    assert_eq!(response.owner_id(), &None);
    let response = AuthenticationResponse::new(0, None, None, None, 1, None);
    assert!(!response.failure());
    let response = AuthenticationResponse::new(9, None, None, None, 1, None);
    assert_eq!(response.status(), None);
    assert!(response.failure());
}

#[test]
fn a_record_cut_short_is_a_violation() {
    let response = PnCounterGetResponse::new(1, vec![ReplicaTimestampEntry::new("r1", 7)]);
    let mut writeable = Writeable::new();
    response.write_to(&mut writeable).unwrap();
    let bytes = writeable.into_bytes();
    for end in 0..bytes.len() {
        let readable = &mut Readable::new(&bytes[..end]);
        assert_eq!(
            PnCounterGetResponse::read_from(readable),
            Err(HazelcastClientError::ProtocolViolation(Violation::Truncated))
        );
    }
}

#[test]
fn addresses_are_told_apart_by_host_and_port() {
    let address = Address::new("localhost", 5701);
    assert_eq!(address.host(), "localhost");
    assert_eq!(address.port(), 5701);
    assert!(address.same(&address.clone()));
    assert!(!address.same(&Address::new("localhost", 5702)));
    assert!(!address.same(&Address::new("remotehost", 5701)));
    let entry = ReplicaTimestampEntry::new("r", 1);
    assert_eq!(entry.clone(), entry);
}
