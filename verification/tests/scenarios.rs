use hazelcast_rust_client::bytes::Readable;
use hazelcast_rust_client::bytes::Writeable;
use hazelcast_rust_client::codec::Writer;
use hazelcast_rust_client::error::HazelcastClientError;
use hazelcast_rust_client::error::Violation;
use hazelcast_rust_client::message::Message;
use hazelcast_rust_client::messaging::authentication::AuthenticationRequest;
use hazelcast_rust_client::messaging::authentication::AuthenticationResponse;
use hazelcast_rust_client::messaging::error::Exception;
use hazelcast_rust_client::messaging::ping::PingRequest;
use hazelcast_rust_client::messaging::ping::PingResponse;
use hazelcast_rust_client::messaging::pn_counter::PnCounterAddRequest;
use hazelcast_rust_client::messaging::pn_counter::PnCounterAddResponse;
use hazelcast_rust_client::messaging::pn_counter::PnCounterGetReplicaCountResponse;
use hazelcast_rust_client::messaging::pn_counter::PnCounterGetRequest;
use hazelcast_rust_client::messaging::pn_counter::PnCounterGetResponse;
use hazelcast_rust_client::messaging::Address;
use hazelcast_rust_client::messaging::ReplicaTimestampEntry;
use hazelcast_rust_client::remote::channel::Channel;
use hazelcast_rust_client::remote::channel::Egress;
use hazelcast_rust_client::remote::channel::Inbox;
use hazelcast_rust_client::remote::channel::Ingress;
use hazelcast_rust_client::remote::cluster::Cluster;
use hazelcast_rust_client::remote::member::Member;
use hazelcast_rust_client::remote::FrameCodec;
use hazelcast_rust_client::PnCounter;

fn message_of<W: Writer>(message_type: u16, record: &W) -> Message {
    let mut writeable = Writeable::new();
    record.write_to(&mut writeable).unwrap();
    Message::new(message_type, -1, writeable.into_bytes())
}

fn exception() -> Exception {
    Exception::new(5, "X", Some("boom".to_string()), vec![], 0, None)
}

#[test]
fn authentication_ok() {
    let request = Message::from(&Member::authentication("dev", "dev-pass")).unwrap();
    assert_eq!(request.message_type(), 0x02);
    assert_eq!(request.partition_id(), -1);

    let response = AuthenticationResponse::new(
        0,
        Some(Address::new("127.0.0.1", 5701)),
        Some("m-1".to_string()),
        Some("o-1".to_string()),
        1,
        None,
    );
    let member = Member::connect(&message_of(0x6B, &response)).unwrap();
    assert_eq!(member.address(), &Address::new("127.0.0.1", 5701));
    assert_eq!(member.id(), "m-1");
    assert_eq!(member.owner_id(), "o-1");
}

#[test]
fn authentication_bad_credentials() {
    let response = AuthenticationResponse::new(
        1,
        Some(Address::new("127.0.0.1", 5701)),
        Some("m-1".to_string()),
        Some("o-1".to_string()),
        1,
        None,
    );
    assert_eq!(
        Member::connect(&message_of(0x6B, &response)).unwrap_err(),
        HazelcastClientError::AuthenticationFailure("CredentialsFailed".to_string())
    );
}

#[test]
fn authentication_is_refused_for_every_status_but_zero() {
    let refused = |status: u8| {
        let response = AuthenticationResponse::new(status, None, None, None, 1, None);
        Member::connect(&message_of(0x6B, &response)).unwrap_err()
    };
    assert_eq!(
        refused(2),
        HazelcastClientError::AuthenticationFailure("SerializationVersionMismatch".to_string())
    );
    assert_eq!(
        refused(3),
        HazelcastClientError::AuthenticationFailure("NotAllowedInCluster".to_string())
    );
    assert_eq!(refused(4), HazelcastClientError::AuthenticationFailure("Unknown".to_string()));
    assert_eq!(refused(255), HazelcastClientError::AuthenticationFailure("Unknown".to_string()));
}

#[test]
fn authentication_without_identity_is_a_violation() {
    let missing = HazelcastClientError::ProtocolViolation(Violation::MissingIdentity);
    let address = || Some(Address::new("127.0.0.1", 5701));
    let text = || Some("x".to_string());
    let response = AuthenticationResponse::new(0, None, text(), text(), 1, None);
    assert_eq!(Member::connect(&message_of(0x6B, &response)).unwrap_err(), missing);
    let response = AuthenticationResponse::new(0, address(), None, text(), 1, None);
    assert_eq!(Member::connect(&message_of(0x6B, &response)).unwrap_err(), missing);
    let response = AuthenticationResponse::new(0, address(), text(), None, 1, None);
    assert_eq!(Member::connect(&message_of(0x6B, &response)).unwrap_err(), missing);
}

#[test]
fn authentication_answered_by_something_else_fails() {
    assert_eq!(
        Member::connect(&message_of(0x6D, &exception())).unwrap_err(),
        HazelcastClientError::ServerFailure(exception())
    );
    assert_eq!(
        Member::connect(&Message::new(0x64, -1, vec![])).unwrap_err(),
        HazelcastClientError::ProtocolViolation(Violation::UnexpectedMessageType)
    );
    assert_eq!(
        Member::connect(&Message::new(0x6B, -1, vec![0, 0])).unwrap_err(),
        HazelcastClientError::ProtocolViolation(Violation::Truncated)
    );
}

#[test]
fn counter_get_on_empty_counter() {
    let address = Address::new("127.0.0.1", 5701);
    let cluster = Cluster::init(vec![(address.clone(), ())], vec![]).unwrap();
    let mut counter = PnCounter::new("c");
    assert_eq!(counter.name(), "c");
    assert!(counter.replica_timestamps().is_empty());
    assert_eq!(counter.address(), &None);

    let target = counter.target(&cluster).unwrap();
    assert_eq!(target, address);
    let request = counter.get_request(&target).unwrap();
    assert_eq!(request.message_type(), 0x2001);
    assert_eq!(
        request,
        message_of(0x2001, &PnCounterGetRequest::new("c", &[], &address))
    );

    let response = message_of(0x7F, &PnCounterGetResponse::new(0, vec![]));
    assert_eq!(counter.get(target, &response), Ok(0));
    assert!(counter.replica_timestamps().is_empty());
    assert_eq!(counter.address(), &Some(address));
}

#[test]
fn counter_add_and_get() {
    let address = Address::new("127.0.0.1", 5701);
    let cluster = Cluster::init(vec![(address.clone(), ())], vec![]).unwrap();
    let mut counter = PnCounter::new("c");

    let target = counter.target(&cluster).unwrap();
    let request = counter.add_and_get(1, &target).unwrap();
    assert_eq!(request.message_type(), 0x2002);
    assert_eq!(
        request,
        message_of(0x2002, &PnCounterAddRequest::new("c", 1, false, &[], &address))
    );

    let response = message_of(
        0x7F,
        &PnCounterAddResponse::new(1, vec![ReplicaTimestampEntry::new("r1", 7)], 3),
    );
    assert_eq!(counter.add(target, &response), Ok(1));
    assert_eq!(counter.replica_timestamps(), [ReplicaTimestampEntry::new("r1", 7)]);

    let target = counter.target(&cluster).unwrap();
    let echoed = [ReplicaTimestampEntry::new("r1", 7)];
    assert_eq!(
        counter.get_request(&target).unwrap(),
        message_of(0x2001, &PnCounterGetRequest::new("c", &echoed, &address))
    );
    assert_eq!(
        counter.get_and_add(2, &target).unwrap(),
        message_of(0x2002, &PnCounterAddRequest::new("c", 2, true, &echoed, &address))
    );
    assert_eq!(
        counter.add_request(-3, false, &target).unwrap(),
        message_of(0x2002, &PnCounterAddRequest::new("c", -3, false, &echoed, &address))
    );
}

#[test]
fn counter_replica_count_leaves_the_handle_alone() {
    let mut counter = PnCounter::new("c");
    let address = Address::new("127.0.0.1", 5701);
    let response = message_of(
        0x7F,
        &PnCounterGetResponse::new(4, vec![ReplicaTimestampEntry::new("r1", 7)]),
    );
    assert_eq!(counter.get(address.clone(), &response), Ok(4));

    let request = counter.replica_count_request().unwrap();
    assert_eq!(request.message_type(), 0x2003);
    assert_eq!(request.payload(), [1, 0, 0, 0, b'c']);
    let response = message_of(0x66, &PnCounterGetReplicaCountResponse::new(3));
    assert_eq!(counter.replica_count(&response), Ok(3));
    assert_eq!(counter.replica_timestamps(), [ReplicaTimestampEntry::new("r1", 7)]);
    assert_eq!(counter.address(), &Some(address));
}

#[test]
fn server_exception() {
    let response = message_of(0x6D, &exception());
    let failure = HazelcastClientError::ServerFailure(exception());
    assert_eq!(response.try_from::<PnCounterGetResponse>().unwrap_err(), failure);
    assert_eq!(response.try_from::<PnCounterAddResponse>().unwrap_err(), failure);
    assert_eq!(response.try_from::<PingResponse>().unwrap_err(), failure);
    assert_eq!(response.try_from::<AuthenticationResponse>().unwrap_err(), failure);
    assert_eq!(response.try_from::<Exception>().unwrap(), exception());

    let mut counter = PnCounter::new("c");
    let address = Address::new("127.0.0.1", 5701);
    match counter.get(address.clone(), &response).unwrap_err() {
        HazelcastClientError::ServerFailure(carried) => {
            assert_eq!(carried.code(), 5);
            assert_eq!(carried.class_name(), "X");
            assert_eq!(carried.message(), &Some("boom".to_string()));
            assert!(carried.stack_trace().is_empty());
            assert_eq!(carried.cause_error_code(), 0);
            assert_eq!(carried.cause_class_name(), &None);
        }
        other => panic!("unexpected: {:?}", other),
    }
    assert_eq!(counter.address(), &None);
    assert_eq!(counter.add(address, &response).unwrap_err(), failure);
    assert_eq!(counter.replica_count(&response).unwrap_err(), failure);
}

#[test]
fn a_message_of_another_type_is_a_violation() {
    let response = message_of(0x66, &PnCounterGetReplicaCountResponse::new(3));
    assert_eq!(
        response.try_from::<PnCounterGetResponse>().unwrap_err(),
        HazelcastClientError::ProtocolViolation(Violation::UnexpectedMessageType)
    );
    let response = Message::new(0x6D, -1, vec![1, 2]);
    assert_eq!(
        response.try_from::<PnCounterGetResponse>().unwrap_err(),
        HazelcastClientError::ProtocolViolation(Violation::Truncated)
    );
}

#[test]
fn member_disable_via_ping() {
    let address = Address::new("127.0.0.1", 5701);
    let mut cluster = Cluster::init(vec![(address.clone(), "member")], vec![]).unwrap();
    let ping = Cluster::<&str>::ping_request();
    assert_eq!(ping, Message::from(&PingRequest::new()).unwrap());
    assert_eq!(ping.message_type(), 0x0F);
    assert!(ping.payload().is_empty());

    assert!(cluster.ping(&address, &Ok(Message::new(0x64, -1, vec![]))));
    assert_eq!(*cluster.dispatch().unwrap(), "member");

    let killed = Err(HazelcastClientError::CommunicationFailure("channel closed".to_string()));
    assert!(!cluster.ping(&address, &killed));
    assert!(cluster.is_disabled(&address));
    assert_eq!(cluster.dispatch(), Err(HazelcastClientError::ClusterNonOperational));
    assert_eq!(cluster.forward(&address), Err(HazelcastClientError::NodeNonOperational));
}

#[test]
fn a_ping_answered_by_something_else_disables_the_member() {
    let a = Address::new("a", 1);
    let b = Address::new("b", 2);
    let mut cluster = Cluster::init(vec![(a.clone(), 1), (b.clone(), 2)], vec![]).unwrap();
    assert!(!cluster.ping(&a, &Ok(message_of(0x6D, &exception()))));
    assert!(!cluster.ping(&b, &Ok(Message::new(0x7F, -1, vec![]))));
    assert!(cluster.members().is_empty());
}

#[test]
fn concurrent_multiplex() {
    let address = Address::new("127.0.0.1", 5701);
    let mut channel: Channel<(usize, usize)> = Channel::new();
    let counter = PnCounter::new("c");

    // Two tasks take turns to send a hundred requests each.
    let mut frames = Vec::new();
    for round in 0..100 {
        for task in 0..2 {
            let request = counter.get_request(&address).unwrap();
            match channel.egress(&request, (task, round)) {
                Egress::Write(frame) => frames.push(frame),
                Egress::Refuse(_, error) => panic!("refused: {:?}", error),
            }
        }
    }
    assert_eq!(frames.len(), 200);

    // The server answers each request with the correlation id as the value,
    // the last request first.
    let mut answered = vec![vec![false; 100]; 2];
    let mut inbox = Inbox::new();
    for frame in frames.iter().rev() {
        let (_, id) = FrameCodec::decode(&mut Readable::new(&frame[4..])).unwrap();
        let response = message_of(0x7F, &PnCounterGetResponse::new(id as i64, vec![]));
        inbox.feed(&FrameCodec::encode_frame(&response, id).unwrap());
        let answer = inbox.take().unwrap().unwrap();
        match channel.ingress(&answer).unwrap() {
            Ingress::Deliver((task, round), message) => {
                let value = message.try_from::<PnCounterGetResponse>().unwrap().value();
                assert_eq!(value as usize, 2 * round + task + 1);
                assert!(!answered[task][round]);
                answered[task][round] = true;
            }
            _ => panic!("the answer to {} found no one", id),
        }
    }
    assert!(answered.iter().all(|task| task.iter().all(|done| *done)));
}

#[test]
fn a_handle_stays_with_the_member_that_served_it() {
    let a = Address::new("a", 1);
    let b = Address::new("b", 2);
    let mut cluster = Cluster::init(vec![(a.clone(), ()), (b.clone(), ())], vec![]).unwrap();
    let mut counter = PnCounter::new("c");
    let response = message_of(0x7F, &PnCounterGetResponse::new(1, vec![]));

    assert_eq!(counter.target_at(&cluster, 1), Ok(b.clone()));
    assert_eq!(counter.address(), &None);
    assert_eq!(counter.get(b.clone(), &response), Ok(1));
    for sequence in 0..4 {
        assert_eq!(counter.target_at(&cluster, sequence), Ok(b.clone()));
        assert_eq!(counter.get(b.clone(), &response), Ok(1));
    }
    assert_eq!(counter.target(&cluster), Ok(b.clone()));
    assert_eq!(counter.get(b.clone(), &response), Ok(1));

    cluster.disable(&b);
    assert_eq!(counter.target_at(&cluster, 1), Ok(a.clone()));
    assert_eq!(counter.get(a.clone(), &response), Ok(1));
    assert_eq!(counter.address(), &Some(a.clone()));
    cluster.disable(&a);
    assert_eq!(
        counter.target_at(&cluster, 0),
        Err(HazelcastClientError::ClusterNonOperational)
    );
    assert_eq!(counter.target(&cluster), Err(HazelcastClientError::ClusterNonOperational));
}

#[test]
fn a_failed_operation_takes_the_pin_off() {
    let a = Address::new("a", 1);
    let b = Address::new("b", 2);
    let cluster = Cluster::init(vec![(a.clone(), ()), (b.clone(), ())], vec![]).unwrap();
    let mut counter = PnCounter::new("c");
    let response = message_of(0x7F, &PnCounterGetResponse::new(1, vec![]));
    assert_eq!(counter.get(b.clone(), &response), Ok(1));

    let target = counter.target_at(&cluster, 0).unwrap();
    assert_eq!(target, b);
    assert!(counter.get(target, &Message::new(0x7F, -1, vec![1])).is_err());
    assert_eq!(counter.address(), &None);
    assert_eq!(counter.target_at(&cluster, 0), Ok(a));
}

#[test]
fn the_request_carries_the_authentication_of_this_client() {
    let request = Member::authentication("dev", "dev-pass");
    assert_eq!(request, AuthenticationRequest::new("dev", "dev-pass", "Rust", 1, "0.1.0"));
}
