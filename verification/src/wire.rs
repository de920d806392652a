//! Messages that nodes send each other.
//!
//! The consensus layer, whose messages are carried along, knows a node by the
//! UUID of its `Uid`.
use crate::addr::InAddr;
use crate::uid::Uid;
use bytes::Bytes;
use hbbft::crypto::{PublicKey, PublicKeySet};
use hbbft::dynamic_honey_badger::{JoinPlan, Message};
use hbbft::sync_key_gen::{Ack, Part};
use std::collections::BTreeMap;
use uuid::Uuid;
use vstd::prelude::*;

verus! {

/// Nodes of the network.
pub struct NetworkNodeInfo {
    pub uid: Uid,
    pub in_addr: InAddr,
    pub pk: PublicKey,
}

/// The current state of the network.
pub enum NetworkState {
    /// There is no network yet.
    NoNetwork,
    Unknown(Vec<NetworkNodeInfo>),
    AwaitingMorePeersForKeyGeneration(Vec<NetworkNodeInfo>),
    GeneratingKeys(Vec<NetworkNodeInfo>, BTreeMap<Uid, PublicKey>),
    Active(Vec<NetworkNodeInfo>, PublicKeySet, BTreeMap<Uid, PublicKey>),
}

/// Messages sent over the network between nodes.
pub enum WireMessageKind<T> {
    HelloFromValidator(Uid, InAddr, PublicKey, NetworkState),
    HelloRequestChangeAdd(Uid, InAddr, PublicKey),
    WelcomeReceivedChangeAdd(Uid, PublicKey, NetworkState),
    RequestNetworkState,
    NetworkState(NetworkState),
    Goodbye,
    Bytes(Bytes),
    Message(Uid, Message<Uuid>),
    Transaction(Uid, T),
    KeyGenPart(Part),
    KeyGenAck(Ack),
    JoinPlan(JoinPlan<Uuid>),
}

/// Messages sent over the network between nodes.
pub struct WireMessage<T> {
    kind: WireMessageKind<T>,
}

impl<T> View for WireMessage<T> {
    type V = WireMessageKind<T>;

    /// A wire message is no more than its kind.
    closed spec fn view(&self) -> WireMessageKind<T> {
        self.kind
    }
}

impl<T> WireMessage<T> {
    /// Returns a `HelloFromValidator` variant.
    pub fn hello_from_validator(
        src_uid: Uid,
        in_addr: InAddr,
        pk: PublicKey,
        net_state: NetworkState,
    ) -> (msg: WireMessage<T>)
        ensures
            msg@ == WireMessageKind::<T>::HelloFromValidator(src_uid, in_addr, pk, net_state),
    {
        WireMessage::from(WireMessageKind::HelloFromValidator(src_uid, in_addr, pk, net_state))
    }

    /// Returns a `HelloRequestChangeAdd` variant.
    pub fn hello_request_change_add(src_uid: Uid, in_addr: InAddr, pk: PublicKey) -> (msg:
        WireMessage<T>)
        ensures
            msg@ == WireMessageKind::<T>::HelloRequestChangeAdd(src_uid, in_addr, pk),
    {
        WireMessage { kind: WireMessageKind::HelloRequestChangeAdd(src_uid, in_addr, pk) }
    }

    /// Returns a `WelcomeReceivedChangeAdd` variant.
    pub fn welcome_received_change_add(src_uid: Uid, pk: PublicKey, net_state: NetworkState) -> (msg:
        WireMessage<T>)
        ensures
            msg@ == WireMessageKind::<T>::WelcomeReceivedChangeAdd(src_uid, pk, net_state),
    {
        WireMessage { kind: WireMessageKind::WelcomeReceivedChangeAdd(src_uid, pk, net_state) }
    }

    /// Returns a `Transaction` variant.
    pub fn transaction(src_uid: Uid, txn: T) -> (msg: WireMessage<T>)
        ensures
            msg@ == WireMessageKind::Transaction(src_uid, txn),
    {
        WireMessage { kind: WireMessageKind::Transaction(src_uid, txn) }
    }

    /// Returns a `Message` variant.
    pub fn message(src_uid: Uid, msg: Message<Uuid>) -> (wire: WireMessage<T>)
        ensures
            wire@ == WireMessageKind::<T>::Message(src_uid, msg),
    {
        WireMessage { kind: WireMessageKind::Message(src_uid, msg) }
    }

    /// Returns a `KeyGenPart` variant.
    pub fn key_gen_part(part: Part) -> (msg: WireMessage<T>)
        ensures
            msg@ == WireMessageKind::<T>::KeyGenPart(part),
    {
        WireMessage { kind: WireMessageKind::KeyGenPart(part) }
    }

    /// Returns a `KeyGenAck` variant.
    pub fn key_gen_part_ack(outcome: Ack) -> (msg: WireMessage<T>)
        ensures
            msg@ == WireMessageKind::<T>::KeyGenAck(outcome),
    {
        WireMessage::from(WireMessageKind::KeyGenAck(outcome))
    }

    /// Returns a `JoinPlan` variant.
    pub fn join_plan(jp: JoinPlan<Uuid>) -> (msg: WireMessage<T>)
        ensures
            msg@ == WireMessageKind::<T>::JoinPlan(jp),
    {
        WireMessage::from(WireMessageKind::JoinPlan(jp))
    }

    /// Returns the wire message kind.
    pub fn kind(&self) -> (kind: &WireMessageKind<T>)
        ensures
            *kind == self@,
    {
        &self.kind
    }

    /// Consumes this `WireMessage` into its kind.
    pub fn into_kind(self) -> (kind: WireMessageKind<T>)
        ensures
            kind == self@,
    {
        self.kind
    }
}

impl<T> From<WireMessageKind<T>> for WireMessage<T> {
    fn from(kind: WireMessageKind<T>) -> (msg: WireMessage<T>)
        ensures
            msg@ == kind,
    {
        WireMessage { kind }
    }
}

impl<T> vstd::std_specs::convert::FromSpecImpl<WireMessageKind<T>> for WireMessage<T> {
    open spec fn obeys_from_spec() -> bool {
        true
    }

    closed spec fn from_spec(kind: WireMessageKind<T>) -> WireMessage<T> {
        WireMessage { kind }
    }
}

/// A message made from a kind is turned back into that kind.
pub proof fn law_kind_comes_back<T>(kind: WireMessageKind<T>)
    ensures
        <WireMessage<T> as vstd::std_specs::convert::FromSpec<WireMessageKind<T>>>::from_spec(kind)@
            == kind,
{
}

/// A message is made from the kind into which it is turned: there is nothing
/// to a message but its kind.
pub proof fn law_message_comes_back<T>(msg: WireMessage<T>)
    ensures
        <WireMessage<T> as vstd::std_specs::convert::FromSpec<WireMessageKind<T>>>::from_spec(msg@)
            == msg,
{
}

/// A validator's greeting is read back with everything that it was made of.
pub proof fn law_hello_from_validator_is_read_back<T>(
    src_uid: Uid,
    in_addr: InAddr,
    pk: PublicKey,
    net_state: NetworkState,
    msg: WireMessage<T>,
    kind: WireMessageKind<T>,
)
    requires
        call_ensures(WireMessage::<T>::hello_from_validator, (src_uid, in_addr, pk, net_state), msg),
        call_ensures(WireMessage::<T>::into_kind, (msg,), kind),
    ensures
        kind == WireMessageKind::<T>::HelloFromValidator(src_uid, in_addr, pk, net_state),
{
}

/// A request to be added is read back with everything that it was made of.
pub proof fn law_hello_request_change_add_is_read_back<T>(
    src_uid: Uid,
    in_addr: InAddr,
    pk: PublicKey,
    msg: WireMessage<T>,
    kind: WireMessageKind<T>,
)
    requires
        call_ensures(WireMessage::<T>::hello_request_change_add, (src_uid, in_addr, pk), msg),
        call_ensures(WireMessage::<T>::into_kind, (msg,), kind),
    ensures
        kind == WireMessageKind::<T>::HelloRequestChangeAdd(src_uid, in_addr, pk),
{
}

/// A welcome is read back with everything that it was made of.
pub proof fn law_welcome_received_change_add_is_read_back<T>(
    src_uid: Uid,
    pk: PublicKey,
    net_state: NetworkState,
    msg: WireMessage<T>,
    kind: WireMessageKind<T>,
)
    requires
        call_ensures(WireMessage::<T>::welcome_received_change_add, (src_uid, pk, net_state), msg),
        call_ensures(WireMessage::<T>::into_kind, (msg,), kind),
    ensures
        kind == WireMessageKind::<T>::WelcomeReceivedChangeAdd(src_uid, pk, net_state),
{
}

/// A transaction is read back with everything that it was made of.
pub proof fn law_transaction_is_read_back<T>(
    src_uid: Uid,
    txn: T,
    msg: WireMessage<T>,
    kind: WireMessageKind<T>,
)
    requires
        call_ensures(WireMessage::<T>::transaction, (src_uid, txn), msg),
        call_ensures(WireMessage::<T>::into_kind, (msg,), kind),
    ensures
        kind == WireMessageKind::<T>::Transaction(src_uid, txn),
{
}

/// A message of the consensus layer is read back with everything that it was made of.
pub proof fn law_message_is_read_back<T>(
    src_uid: Uid,
    content: Message<Uuid>,
    msg: WireMessage<T>,
    kind: WireMessageKind<T>,
)
    requires
        call_ensures(WireMessage::<T>::message, (src_uid, content), msg),
        call_ensures(WireMessage::<T>::into_kind, (msg,), kind),
    ensures
        kind == WireMessageKind::<T>::Message(src_uid, content),
{
}

/// A proposal in key generation is read back with everything that it was made of.
pub proof fn law_key_gen_part_is_read_back<T>(
    part: Part,
    msg: WireMessage<T>,
    kind: WireMessageKind<T>,
)
    requires
        call_ensures(WireMessage::<T>::key_gen_part, (part,), msg),
        call_ensures(WireMessage::<T>::into_kind, (msg,), kind),
    ensures
        kind == WireMessageKind::<T>::KeyGenPart(part),
{
}

/// The confirmation of a proposal is read back with everything that it was made of.
pub proof fn law_key_gen_part_ack_is_read_back<T>(
    outcome: Ack,
    msg: WireMessage<T>,
    kind: WireMessageKind<T>,
)
    requires
        call_ensures(WireMessage::<T>::key_gen_part_ack, (outcome,), msg),
        call_ensures(WireMessage::<T>::into_kind, (msg,), kind),
    ensures
        kind == WireMessageKind::<T>::KeyGenAck(outcome),
{
}

/// A join plan is read back with everything that it was made of.
pub proof fn law_join_plan_is_read_back<T>(
    jp: JoinPlan<Uuid>,
    msg: WireMessage<T>,
    kind: WireMessageKind<T>,
)
    requires
        call_ensures(WireMessage::<T>::join_plan, (jp,), msg),
        call_ensures(WireMessage::<T>::into_kind, (msg,), kind),
    ensures
        kind == WireMessageKind::<T>::JoinPlan(jp),
{
}

/// A message made from a kind holds that kind, whether it is looked at or taken
/// apart.
pub proof fn law_kind_is_kept<T>(
    given: WireMessageKind<T>,
    msg: WireMessage<T>,
    seen: &WireMessageKind<T>,
    taken: WireMessageKind<T>,
)
    requires
        call_ensures(<WireMessage<T> as From<WireMessageKind<T>>>::from, (given,), msg),
        call_ensures(WireMessage::<T>::kind, (&msg,), seen),
        call_ensures(WireMessage::<T>::into_kind, (msg,), taken),
    ensures
        *seen == given,
        taken == given,
{
}

/// Looking at a message shows what taking it apart gives, and a message made
/// from that is the same message.
pub proof fn law_looking_agrees_with_taking_apart<T>(
    msg: WireMessage<T>,
    seen: &WireMessageKind<T>,
    taken: WireMessageKind<T>,
    again: WireMessage<T>,
)
    requires
        call_ensures(WireMessage::<T>::kind, (&msg,), seen),
        call_ensures(WireMessage::<T>::into_kind, (msg,), taken),
        call_ensures(<WireMessage<T> as From<WireMessageKind<T>>>::from, (taken,), again),
    ensures
        *seen == taken,
        again == msg,
{
}

}
