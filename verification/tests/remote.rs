use std::sync::Arc;

use hazelcast_rust_client::bytes::Readable;
use hazelcast_rust_client::bytes::Writeable;
use hazelcast_rust_client::error::HazelcastClientError;
use hazelcast_rust_client::error::Violation;
use hazelcast_rust_client::message::Message;
use hazelcast_rust_client::messaging::Address;
use hazelcast_rust_client::remote::channel::Channel;
use hazelcast_rust_client::remote::channel::Egress;
use hazelcast_rust_client::remote::channel::Inbox;
use hazelcast_rust_client::remote::channel::Ingress;
use hazelcast_rust_client::remote::cluster::Cluster;
use hazelcast_rust_client::remote::registry::Registry;
use hazelcast_rust_client::remote::cluster::PING_INTERVAL;
use hazelcast_rust_client::remote::protocol_sequence;
use hazelcast_rust_client::remote::Correlator;
use hazelcast_rust_client::remote::FrameCodec;
use hazelcast_rust_client::remote::BEGIN_MESSAGE;
use hazelcast_rust_client::remote::END_MESSAGE;
use hazelcast_rust_client::remote::HEADER_LENGTH;
use hazelcast_rust_client::remote::LENGTH_FIELD_LENGTH;
use hazelcast_rust_client::remote::PROTOCOL_VERSION;
use hazelcast_rust_client::remote::UNFRAGMENTED_MESSAGE;

#[test]
fn should_encode_and_decode_message() {
    let correlation_id = 13;
    let message = Message::new(1, 2, vec![3]);

    let mut writeable = Writeable::new();
    FrameCodec::encode(&mut writeable, &message, correlation_id);
    assert_eq!(
        writeable.as_slice(),
        [
            1,   // version
            192, // flags
            1, 0, // message type
            13, 0, 0, 0, 0, 0, 0, 0, // correlation id
            2, 0, 0, 0, // partition id
            22, 0, // data offset
            3  // payload
        ]
    );

    let bytes = writeable.into_bytes();
    let mut readable = Readable::new(&bytes);
    assert_eq!(FrameCodec::decode(&mut readable).unwrap(), (message, correlation_id));
}

#[test]
fn should_convert_to_message_from_request() {
    let id = 1;
    let request = Message::new(0x69, -1, vec![2]);

    let mut frame = Writeable::new();
    FrameCodec::encode(&mut frame, &request, id);
    assert_eq!(request.message_type(), 0x69);
    assert_eq!(
        frame.as_slice(),
        [
            1,   // version
            192, // flags
            105, 0, // type
            1, 0, 0, 0, 0, 0, 0, 0, // correlation id
            255, 255, 255, 255, // partition id
            22, 0, // data offset
            2  // payload
        ]
    );
}

#[test]
fn should_convert_to_message_from_bytes() {
    let bytes = [
        1,   // version
        192, // flags
        0x69, 0, // type
        1, 0, 0, 0, 0, 0, 0, 0, // correlation id
        255, 255, 255, 255, // partition id
        22, 0, // data offset
        2, // payload
    ];

    let (message, id) = FrameCodec::decode(&mut Readable::new(&bytes)).unwrap();
    assert_eq!(id, 1);
    assert_eq!(message.message_type(), 0x69);
    assert_eq!(message.partition_id(), -1);
    assert_eq!(message.payload(), [2]);
}

#[test]
fn should_get_none_for_empty_registry() {
    let enabled: Vec<(Address, &str)> = Vec::new();
    let disabled = Vec::new();
    let registry = Registry::new(enabled, disabled);

    assert!(registry.get().is_none());
    assert!(registry.get_by(&Address::new("some-key", 0)).is_none());
    assert!(registry.get_all().is_empty());
}

#[test]
fn should_get_none_for_all_disabled_in_registry() {
    let key = Address::new("some-key", 0);

    let enabled: Vec<(Address, &str)> = Vec::new();
    let mut disabled = Vec::new();
    disabled.push(key.clone());
    let registry = Registry::new(enabled, disabled);

    assert!(registry.get().is_none());
    assert!(registry.get_by(&key).is_none());
    assert!(registry.get_all().is_empty());
}

#[test]
fn should_get_some_from_registry() {
    let key = Address::new("some-key", 0);
    let value = "some-value";

    let mut enabled = Vec::new();
    enabled.push((key.clone(), value));
    let disabled = Vec::new();
    let registry = Registry::new(enabled, disabled);

    assert_eq!(*registry.get().unwrap(), value);
    assert_eq!(*registry.get_by(&key).unwrap(), value);
    assert_eq!(*registry.get_all()[0], "some-value");
}

#[test]
fn should_get_none_after_disabling_from_registry() {
    let key = Address::new("some-key", 0);
    let value = "some-value";

    let mut enabled = Vec::new();
    enabled.push((key.clone(), value));
    let disabled = Vec::new();
    let mut registry = Registry::new(enabled, disabled);

    registry.disable(&Address::new("some-key", 0));

    assert!(registry.get().is_none());
    assert!(registry.get_by(&key).is_none());
    assert!(registry.get_all().is_empty());
}

#[test]
fn the_protocol_constants_are_those_of_the_wire() {
    assert_eq!(protocol_sequence(), vec![0x43, 0x42, 0x32]);
    assert_eq!(PROTOCOL_VERSION, 1);
    assert_eq!(BEGIN_MESSAGE, 0x80);
    assert_eq!(END_MESSAGE, 0x40);
    assert_eq!(UNFRAGMENTED_MESSAGE, BEGIN_MESSAGE | END_MESSAGE);
    assert_eq!(LENGTH_FIELD_LENGTH, 4);
    assert_eq!(HEADER_LENGTH, 22);
    assert_eq!(PING_INTERVAL, 300);
}

#[test]
fn a_frame_on_the_wire_begins_with_its_whole_length() {
    let message = Message::new(0x2001, -1, vec![9, 8, 7]);
    let frame = FrameCodec::encode_frame(&message, 0x0102_0304_0506_0708).unwrap();
    assert_eq!(
        frame,
        [
            25, 0, 0, 0, // length
            1,    // version
            0xC0, // flags
            0x01, 0x20, // message type
            8, 7, 6, 5, 4, 3, 2, 1, // correlation id
            255, 255, 255, 255, // partition id
            22, 0, // data offset
            9, 8, 7, // payload
        ]
    );
    assert_eq!(&frame[4..22], &frame[4..HEADER_LENGTH]);
    assert_eq!(&frame[20..22], [22, 0]);
    assert_eq!(&frame[22..], message.payload());

    assert_eq!(FrameCodec::frame_length(&frame), Ok(Some(25)));
    let mut readable = Readable::new(&frame[LENGTH_FIELD_LENGTH..]);
    assert_eq!(
        FrameCodec::decode(&mut readable).unwrap(),
        (message, 0x0102_0304_0506_0708)
    );
}

#[test]
fn a_frame_without_payload_is_its_header() {
    let message = Message::new(0x0F, -1, vec![]);
    let frame = FrameCodec::encode_frame(&message, 1).unwrap();
    assert_eq!(frame.len(), 22);
    assert_eq!(&frame[..4], [22, 0, 0, 0]);
}

#[test]
fn frames_are_found_in_a_stream_of_bytes() {
    let first = FrameCodec::encode_frame(&Message::new(1, -1, vec![1]), 1).unwrap();
    let second = FrameCodec::encode_frame(&Message::new(2, -1, vec![2, 2]), 2).unwrap();
    let mut stream = first.clone();
    stream.extend_from_slice(&second);

    assert_eq!(FrameCodec::frame_length(&[]), Ok(None));
    assert_eq!(FrameCodec::frame_length(&stream[..3]), Ok(None));
    assert_eq!(FrameCodec::frame_length(&stream[..4]), Ok(None));
    assert_eq!(FrameCodec::frame_length(&stream[..22]), Ok(None));
    assert_eq!(FrameCodec::frame_length(&stream[..23]), Ok(Some(23)));
    assert_eq!(FrameCodec::frame_length(&stream), Ok(Some(23)));
    assert_eq!(FrameCodec::frame_length(&stream[23..]), Ok(Some(24)));
    assert_eq!(
        FrameCodec::frame_length(&[3, 0, 0, 0, 1]),
        Err(HazelcastClientError::ProtocolViolation(Violation::Truncated))
    );
    assert_eq!(FrameCodec::frame_length(&[4, 0, 0, 0, 1]), Ok(Some(4)));
}

#[test]
fn a_longer_header_is_passed_over() {
    let bytes = [
        1, 192, 0x69, 0, // version, flags, type
        1, 0, 0, 0, 0, 0, 0, 0, // correlation id
        255, 255, 255, 255, // partition id
        25, 0, // data offset
        7, 7, 7, // what a later version put into the header
        2, // payload
    ];
    let (message, id) = FrameCodec::decode(&mut Readable::new(&bytes)).unwrap();
    assert_eq!(id, 1);
    assert_eq!(message, Message::new(0x69, -1, vec![2]));
}

#[test]
fn a_data_offset_inside_the_header_is_a_violation() {
    let mut bytes = vec![
        1, 192, 0x69, 0, 1, 0, 0, 0, 0, 0, 0, 0, 255, 255, 255, 255, 21, 0, 2,
    ];
    assert_eq!(
        FrameCodec::decode(&mut Readable::new(&bytes)),
        Err(HazelcastClientError::ProtocolViolation(Violation::DataOffset))
    );
    bytes[16] = 0;
    assert_eq!(
        FrameCodec::decode(&mut Readable::new(&bytes)),
        Err(HazelcastClientError::ProtocolViolation(Violation::DataOffset))
    );
}

#[test]
fn a_frame_cut_short_is_a_violation() {
    let bytes = [1, 192, 0x69, 0, 1, 0, 0, 0, 0, 0, 0, 0, 255, 255, 255, 255, 22];
    for end in 0..bytes.len() {
        assert_eq!(
            FrameCodec::decode(&mut Readable::new(&bytes[..end])),
            Err(HazelcastClientError::ProtocolViolation(Violation::Truncated))
        );
    }
    let bytes = [1, 192, 0x69, 0, 1, 0, 0, 0, 0, 0, 0, 0, 255, 255, 255, 255, 24, 0, 1];
    assert_eq!(
        FrameCodec::decode(&mut Readable::new(&bytes)),
        Err(HazelcastClientError::ProtocolViolation(Violation::Truncated))
    );
}

#[test]
fn the_correlator_gives_out_growing_ids_and_each_value_once() {
    let mut correlator = Correlator::new();
    assert_eq!(correlator.sequence(), 0);
    assert_eq!(correlator.set("a"), 1);
    assert_eq!(correlator.set("b"), 2);
    assert_eq!(correlator.set("c"), 3);
    assert_eq!(correlator.sequence(), 3);

    assert_eq!(correlator.get(&2), Some("b"));
    assert_eq!(correlator.get(&2), None);
    assert_eq!(correlator.get(&3), Some("c"));
    assert_eq!(correlator.get(&1), Some("a"));
    assert_eq!(correlator.get(&1), None);
    assert_eq!(correlator.get(&4), None);
    assert_eq!(correlator.get(&0), None);
    assert_eq!(correlator.set("d"), 4);
}

#[test]
fn a_channel_writes_the_frame_it_registered() {
    let mut channel: Channel<&str> = Channel::new();
    let request = Message::new(0x2001, -1, vec![5]);
    let bytes = match channel.egress(&request, "first") {
        Egress::Write(bytes) => bytes,
        Egress::Refuse(_, error) => panic!("refused: {:?}", error),
    };
    assert_eq!(bytes, FrameCodec::encode_frame(&request, 1).unwrap());
    let bytes = match channel.egress(&request, "second") {
        Egress::Write(bytes) => bytes,
        Egress::Refuse(_, error) => panic!("refused: {:?}", error),
    };
    assert_eq!(bytes, FrameCodec::encode_frame(&request, 2).unwrap());

    let mut answer = Writeable::new();
    FrameCodec::encode(&mut answer, &Message::new(0x7F, -1, vec![6]), 2);
    match channel.ingress(answer.as_slice()).unwrap() {
        Ingress::Deliver(slot, message) => {
            assert_eq!(slot, "second");
            assert_eq!(message, Message::new(0x7F, -1, vec![6]));
        }
        Ingress::Unmatched(id, _) => panic!("nothing waited under {}", id),
    }
    match channel.ingress(answer.as_slice()).unwrap() {
        Ingress::Deliver(slot, _) => panic!("delivered twice to {}", slot),
        Ingress::Unmatched(id, message) => {
            assert_eq!(id, 2);
            assert_eq!(message, Message::new(0x7F, -1, vec![6]));
        }
    }
    assert!(matches!(
        channel.ingress(&[1, 2, 3]),
        Err(HazelcastClientError::ProtocolViolation(Violation::Truncated))
    ));
}

#[test]
fn frames_are_taken_from_the_bytes_that_came_in() {
    let first = Message::new(0x64, -1, vec![]);
    let second = Message::new(0x7F, -1, vec![1, 2, 3]);
    let mut stream = FrameCodec::encode_frame(&first, 2).unwrap();
    stream.extend_from_slice(&FrameCodec::encode_frame(&second, 1).unwrap());

    let mut inbox = Inbox::new();
    assert_eq!(inbox.take(), Ok(None));
    inbox.feed(&stream[..3]);
    assert_eq!(inbox.take(), Ok(None));
    inbox.feed(&stream[3..10]);
    assert_eq!(inbox.take(), Ok(None));
    assert_eq!(inbox.len(), 10);
    inbox.feed(&stream[10..30]);
    let frame = inbox.take().unwrap().unwrap();
    assert_eq!(frame, &stream[4..22]);
    assert_eq!(FrameCodec::decode(&mut Readable::new(&frame)).unwrap(), (first, 2));
    assert_eq!(inbox.len(), 8);
    assert_eq!(inbox.take(), Ok(None));
    inbox.feed(&stream[30..]);
    let frame = inbox.take().unwrap().unwrap();
    assert_eq!(FrameCodec::decode(&mut Readable::new(&frame)).unwrap(), (second, 1));
    assert_eq!(inbox.len(), 0);
    assert_eq!(inbox.take(), Ok(None));

    inbox.feed(&[3, 0, 0, 0, 9]);
    assert_eq!(
        inbox.take(),
        Err(HazelcastClientError::ProtocolViolation(Violation::Truncated))
    );
    assert_eq!(inbox.len(), 5);
}

#[test]
fn a_channel_finds_the_slots_of_the_frames_that_came_in() {
    let mut channel: Channel<u8> = Channel::new();
    let request = Message::new(0x0F, -1, vec![]);
    assert!(matches!(channel.egress(&request, 10), Egress::Write(_)));
    assert!(matches!(channel.egress(&request, 20), Egress::Write(_)));

    let mut inbox = Inbox::new();
    inbox.feed(&FrameCodec::encode_frame(&Message::new(0x64, -1, vec![]), 2).unwrap());
    inbox.feed(&FrameCodec::encode_frame(&Message::new(0x64, -1, vec![1]), 1).unwrap());

    let frame = inbox.take().unwrap().unwrap();
    match channel.ingress(&frame).unwrap() {
        Ingress::Deliver(slot, message) => {
            assert_eq!(slot, 20);
            assert_eq!(message, Message::new(0x64, -1, vec![]));
        }
        Ingress::Unmatched(id, _) => panic!("nothing waited under {}", id),
    }
    let frame = inbox.take().unwrap().unwrap();
    match channel.ingress(&frame).unwrap() {
        Ingress::Deliver(slot, message) => {
            assert_eq!(slot, 10);
            assert_eq!(message, Message::new(0x64, -1, vec![1]));
        }
        Ingress::Unmatched(id, _) => panic!("nothing waited under {}", id),
    }
    assert_eq!(inbox.take(), Ok(None));
}

#[test]
fn the_round_robin_goes_round_the_enabled_members() {
    let a = Address::new("a", 1);
    let b = Address::new("b", 2);
    let c = Address::new("c", 3);
    let mut registry = Registry::new(
        vec![(a.clone(), "A"), (b.clone(), "B"), (c.clone(), "C")],
        vec![],
    );
    let picks: Vec<&str> = (0..7).map(|sequence| *registry.pick(sequence).unwrap()).collect();
    assert_eq!(picks, ["A", "B", "C", "A", "B", "C", "A"]);
    let next: Vec<&str> = (0..6).map(|_| *registry.get().unwrap()).collect();
    assert_eq!(next, ["A", "B", "C", "A", "B", "C"]);
    assert_eq!(registry.pick_address(4), Some(b.clone()));

    registry.disable(&b);
    assert!(registry.is_disabled(&b));
    assert!(!registry.is_disabled(&a));
    let picks: Vec<&str> = (0..5).map(|sequence| *registry.pick(sequence).unwrap()).collect();
    assert_eq!(picks, ["A", "C", "A", "C", "A"]);
    assert!(registry.get_by(&b).is_none());
    assert_eq!(*registry.get_by(&c).unwrap(), "C");
    let all: Vec<&str> = registry.get_all().iter().map(|member| **member).collect();
    assert_eq!(all, ["A", "C"]);

    registry.disable(&b);
    let all: Vec<&str> = registry.get_all().iter().map(|member| **member).collect();
    assert_eq!(all, ["A", "C"]);
    registry.disable(&a);
    registry.disable(&c);
    assert!(registry.is_empty());
    assert!(registry.pick(0).is_none());
}

#[test]
fn a_registry_keeps_the_first_member_under_an_address() {
    let a = Address::new("a", 1);
    let registry = Registry::new(
        vec![(a.clone(), 1), (Address::new("b", 1), 2), (a.clone(), 3)],
        vec![a.clone(), Address::new("z", 9)],
    );
    let all: Vec<i32> = registry.get_all().iter().map(|member| **member).collect();
    assert_eq!(all, [1, 2]);
    assert_eq!(registry.get_by(&a), Some(Arc::new(1)));
    assert!(!registry.is_disabled(&a));
    assert!(registry.is_disabled(&Address::new("z", 9)));
}

#[test]
fn a_cluster_needs_a_member() {
    let result: Result<Cluster<u8>, _> = Cluster::init(vec![], vec![Address::new("a", 1)]);
    assert!(matches!(result, Err(HazelcastClientError::ClusterNonOperational)));
}

#[test]
fn a_cluster_sends_requests_to_its_enabled_members() {
    let a = Address::new("a", 1);
    let b = Address::new("b", 2);
    let mut cluster = Cluster::init(vec![(a.clone(), "A"), (b.clone(), "B")], vec![]).unwrap();
    assert_eq!(*cluster.dispatch_at(0).unwrap(), "A");
    assert_eq!(*cluster.dispatch_at(1).unwrap(), "B");
    assert_eq!(*cluster.dispatch_at(2).unwrap(), "A");
    assert_eq!(*cluster.dispatch().unwrap(), "A");
    assert_eq!(*cluster.dispatch().unwrap(), "B");
    assert_eq!(*cluster.forward(&b).unwrap(), "B");
    assert_eq!(
        cluster.forward(&Address::new("c", 3)),
        Err(HazelcastClientError::NodeNonOperational)
    );
    assert_eq!(cluster.resolve(Some(b.clone()), 0), Ok(b.clone()));
    assert_eq!(cluster.resolve(Some(Address::new("c", 3)), 0), Ok(a.clone()));
    assert_eq!(cluster.resolve(None, 1), Ok(b.clone()));
    assert_eq!(cluster.address(Some(b.clone())), Ok(b.clone()));
    assert_eq!(cluster.members().len(), 2);

    cluster.disable(&b);
    assert!(cluster.is_disabled(&b));
    assert_eq!(cluster.forward(&b), Err(HazelcastClientError::NodeNonOperational));
    assert_eq!(cluster.resolve(Some(b.clone()), 1), Ok(a.clone()));
    assert_eq!(cluster.address(Some(b.clone())), Ok(a.clone()));
    cluster.disable(&a);
    assert_eq!(cluster.dispatch(), Err(HazelcastClientError::ClusterNonOperational));
    assert_eq!(cluster.dispatch_at(5), Err(HazelcastClientError::ClusterNonOperational));
    assert_eq!(
        cluster.resolve(Some(a.clone()), 0),
        Err(HazelcastClientError::ClusterNonOperational)
    );
    assert_eq!(cluster.address(None), Err(HazelcastClientError::ClusterNonOperational));
}

#[test]
fn a_channel_refuses_requests_once_its_ids_are_used_up() {
    let mut channel: Channel<&str> = Channel::starting_after(u64::MAX - 1);
    let request = Message::new(0x0F, -1, vec![]);
    match channel.egress(&request, "last") {
        Egress::Write(bytes) => {
            assert_eq!(bytes, FrameCodec::encode_frame(&request, u64::MAX).unwrap())
        }
        Egress::Refuse(_, error) => panic!("refused: {:?}", error),
    }
    match channel.egress(&request, "late") {
        Egress::Write(_) => panic!("an id was given out twice"),
        Egress::Refuse(slot, error) => {
            assert_eq!(slot, "late");
            assert_eq!(
                error,
                HazelcastClientError::CommunicationFailure(
                    "correlation ids are exhausted".to_string()
                )
            );
        }
    }
    let mut answer = Writeable::new();
    FrameCodec::encode(&mut answer, &Message::new(0x64, -1, vec![]), u64::MAX);
    assert!(matches!(
        channel.ingress(answer.as_slice()),
        Ok(Ingress::Deliver("last", _))
    ));
    assert_eq!(channel.sequence(), u64::MAX);
}

#[test]
fn a_correlator_starts_behind_its_base() {
    let mut correlator = Correlator::starting_after(41);
    assert_eq!(correlator.sequence(), 41);
    assert_eq!(correlator.set('a'), 42);
    assert_eq!(correlator.get(&41), None);
    assert_eq!(correlator.get(&42), Some('a'));
}
