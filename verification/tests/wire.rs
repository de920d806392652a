use bytes::Bytes;
use hbbft::crypto::{PublicKey, SecretKey, SecretKeySet};
use hbbft::dynamic_honey_badger::{DynamicHoneyBadger, JoinPlan, Message};
use hbbft::sync_key_gen::{Ack, Part, PartOutcome, SyncKeyGen};
use hydrabadger::{
    InAddr, NetworkNodeInfo, NetworkState, SocketAddr, SocketAddrV4, Uid, WireMessage,
    WireMessageKind,
};
use std::collections::BTreeMap;
use uuid::Uuid;

type Txn = Vec<u8>;

fn public_key() -> PublicKey {
    SecretKey::random().public_key()
}

fn in_addr() -> InAddr {
    InAddr(SocketAddr::V4(SocketAddrV4 { ip: 0x0a00_0001, port: 3000 }))
}

/// A vote message and a join plan of a network with a single validator.
fn vote_and_plan() -> (Message<Uuid>, JoinPlan<Uuid>) {
    let mut rng = rand::thread_rng();
    let mut dhb: DynamicHoneyBadger<Txn, Uuid> = DynamicHoneyBadger::builder()
        .build_first_node(Uuid::from_bytes(Uid::new().0), &mut rng)
        .unwrap();
    let mut voted = dhb
        .vote_to_add(Uuid::from_bytes(Uid::new().0), public_key())
        .unwrap();
    let proposed = dhb.propose(vec![1], &mut rng).unwrap();
    (
        voted.messages.remove(0).message,
        proposed.output[0].join_plan().unwrap(),
    )
}

fn part_and_ack() -> (Part, Ack) {
    let mut rng = rand::thread_rng();
    let sec_key = SecretKey::random();
    let id = Uuid::from_bytes(Uid::new().0);
    let mut pub_keys = BTreeMap::new();
    pub_keys.insert(id, sec_key.public_key());
    let (mut key_gen, part) = SyncKeyGen::new(id, sec_key, pub_keys, 0, &mut rng).unwrap();
    let part = part.unwrap();
    match key_gen.handle_part(&id, part.clone(), &mut rng).unwrap() {
        PartOutcome::Valid(Some(ack)) => (part, ack),
        _ => panic!("the part is not valid"),
    }
}

#[test]
fn hello_from_validator_holds_its_arguments() {
    let (uid, pk) = (Uid::new(), public_key());
    let info = NetworkNodeInfo { uid, in_addr: in_addr(), pk };
    let msg: WireMessage<Txn> =
        WireMessage::hello_from_validator(uid, in_addr(), pk, NetworkState::Unknown(vec![info]));
    match msg.into_kind() {
        WireMessageKind::HelloFromValidator(u, a, k, NetworkState::Unknown(nodes)) => {
            assert!(u == uid && a == in_addr() && k == pk);
            assert_eq!(nodes.len(), 1);
            assert!(nodes[0].uid == uid && nodes[0].pk == pk);
        }
        _ => panic!("another kind"),
    }
}

#[test]
fn hello_request_change_add_holds_its_arguments() {
    let (uid, pk) = (Uid::new(), public_key());
    let msg: WireMessage<Txn> = WireMessage::hello_request_change_add(uid, in_addr(), pk);
    match msg.kind() {
        WireMessageKind::HelloRequestChangeAdd(u, a, k) => {
            assert!(*u == uid && *a == in_addr() && *k == pk)
        }
        _ => panic!("another kind"),
    }
}

#[test]
fn welcome_received_change_add_holds_its_arguments() {
    let (uid, pk) = (Uid::new(), public_key());
    let set = SecretKeySet::random(0, &mut rand::thread_rng()).public_keys();
    let mut keys = BTreeMap::new();
    keys.insert(uid, pk);
    let state = NetworkState::Active(vec![], set.clone(), keys);
    let msg: WireMessage<Txn> = WireMessage::welcome_received_change_add(uid, pk, state);
    match msg.into_kind() {
        WireMessageKind::WelcomeReceivedChangeAdd(u, k, NetworkState::Active(nodes, s, keys)) => {
            assert!(u == uid && k == pk && s == set);
            assert!(nodes.is_empty());
            assert!(keys.get(&uid) == Some(&pk));
        }
        _ => panic!("another kind"),
    }
}

#[test]
fn transaction_holds_its_arguments() {
    let uid = Uid::new();
    let msg: WireMessage<Txn> = WireMessage::transaction(uid, vec![1, 2, 3]);
    match msg.into_kind() {
        WireMessageKind::Transaction(u, txn) => assert!(u == uid && txn == vec![1, 2, 3]),
        _ => panic!("another kind"),
    }
}

#[test]
fn message_and_join_plan_hold_their_arguments() {
    let uid = Uid::new();
    let (vote, plan) = vote_and_plan();
    let vote_bytes = bincode::serialize(&vote).unwrap();
    let plan_bytes = bincode::serialize(&plan).unwrap();
    let msg: WireMessage<Txn> = WireMessage::message(uid, vote);
    match msg.into_kind() {
        WireMessageKind::Message(u, m) => {
            assert!(u == uid);
            assert_eq!(bincode::serialize(&m).unwrap(), vote_bytes);
        }
        _ => panic!("another kind"),
    }
    let msg: WireMessage<Txn> = WireMessage::join_plan(plan);
    match msg.into_kind() {
        WireMessageKind::JoinPlan(p) => assert_eq!(bincode::serialize(&p).unwrap(), plan_bytes),
        _ => panic!("another kind"),
    }
}

#[test]
fn key_generation_messages_hold_their_arguments() {
    let (part, ack) = part_and_ack();
    let msg: WireMessage<Txn> = WireMessage::key_gen_part(part.clone());
    match msg.into_kind() {
        WireMessageKind::KeyGenPart(p) => assert!(p == part),
        _ => panic!("another kind"),
    }
    let msg: WireMessage<Txn> = WireMessage::key_gen_part_ack(ack.clone());
    match msg.into_kind() {
        WireMessageKind::KeyGenAck(a) => assert!(a == ack),
        _ => panic!("another kind"),
    }
}

#[test]
fn a_message_is_made_from_its_kind() {
    let msg: WireMessage<Txn> = WireMessage::from(WireMessageKind::Goodbye);
    assert!(matches!(msg.kind(), WireMessageKind::Goodbye));
    let msg: WireMessage<Txn> = WireMessageKind::Bytes(Bytes::from(vec![4, 5])).into();
    match msg.into_kind() {
        WireMessageKind::Bytes(bytes) => assert_eq!(&bytes[..], &[4, 5]),
        _ => panic!("another kind"),
    }
    let msg: WireMessage<Txn> =
        WireMessage::from(WireMessageKind::NetworkState(NetworkState::NoNetwork));
    assert!(matches!(
        msg.into_kind(),
        WireMessageKind::NetworkState(NetworkState::NoNetwork)
    ));
}
