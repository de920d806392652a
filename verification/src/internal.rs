//! Messages between internal threads and tasks.
use crate::addr::{InAddr, OutAddr};
use crate::uid::Uid;
use crate::wire::WireMessage;
use hbbft::crypto::PublicKey;
use hbbft::dynamic_honey_badger::{Input, Message};
use uuid::Uuid;
use vstd::prelude::*;

verus! {

/// A message between internal threads/tasks.
#[verifier::reject_recursive_types(T)]
pub enum InternalMessageKind<T> {
    Wire(WireMessage<T>),
    HbMessage(Message<Uuid>),
    HbInput(Input<T, Uuid>),
    PeerDisconnect,
    NewIncomingConnection(InAddr, PublicKey, bool),
    NewOutgoingConnection,
}

/// A message between internal threads/tasks.
#[verifier::reject_recursive_types(T)]
pub struct InternalMessage<T> {
    src_uid: Option<Uid>,
    src_addr: OutAddr,
    kind: InternalMessageKind<T>,
}

impl<T> View for InternalMessage<T> {
    type V = (Option<Uid>, OutAddr, InternalMessageKind<T>);

    /// The source identifier, where it is known, the source address and the
    /// kind.
    closed spec fn view(&self) -> (Option<Uid>, OutAddr, InternalMessageKind<T>) {
        (self.src_uid, self.src_addr, self.kind)
    }
}

impl<T> InternalMessage<T> {
    /// Returns a new `InternalMessage`.
    pub fn new(src_uid: Option<Uid>, src_addr: OutAddr, kind: InternalMessageKind<T>) -> (msg:
        InternalMessage<T>)
        ensures
            msg@ == (src_uid, src_addr, kind),
    {
        InternalMessage { src_uid, src_addr, kind }
    }

    /// Returns a new `InternalMessage` without a uid.
    pub fn new_without_uid(src_addr: OutAddr, kind: InternalMessageKind<T>) -> (msg: InternalMessage<
        T,
    >)
        ensures
            msg@ == (None::<Uid>, src_addr, kind),
    {
        InternalMessage::new(None, src_addr, kind)
    }

    /// Returns a `Wire` message.
    pub fn wire(src_uid: Option<Uid>, src_addr: OutAddr, wire_message: WireMessage<T>) -> (msg:
        InternalMessage<T>)
        ensures
            msg@ == (src_uid, src_addr, InternalMessageKind::Wire(wire_message)),
    {
        InternalMessage::new(src_uid, src_addr, InternalMessageKind::Wire(wire_message))
    }

    /// Returns an `HbMessage` message.
    pub fn hb_message(src_uid: Uid, src_addr: OutAddr, msg: Message<Uuid>) -> (internal:
        InternalMessage<T>)
        ensures
            internal@ == (Some(src_uid), src_addr, InternalMessageKind::<T>::HbMessage(msg)),
    {
        InternalMessage::new(Some(src_uid), src_addr, InternalMessageKind::HbMessage(msg))
    }

    /// Returns an `HbInput` message.
    pub fn hb_input(src_uid: Uid, src_addr: OutAddr, input: Input<T, Uuid>) -> (msg:
        InternalMessage<T>)
        ensures
            msg@ == (Some(src_uid), src_addr, InternalMessageKind::HbInput(input)),
    {
        InternalMessage::new(Some(src_uid), src_addr, InternalMessageKind::HbInput(input))
    }

    /// Returns a `PeerDisconnect` message.
    pub fn peer_disconnect(src_uid: Uid, src_addr: OutAddr) -> (msg: InternalMessage<T>)
        ensures
            msg@ == (Some(src_uid), src_addr, InternalMessageKind::<T>::PeerDisconnect),
    {
        InternalMessage::new(Some(src_uid), src_addr, InternalMessageKind::PeerDisconnect)
    }

    /// Returns a `NewIncomingConnection` message.
    pub fn new_incoming_connection(
        src_uid: Uid,
        src_addr: OutAddr,
        src_in_addr: InAddr,
        src_pk: PublicKey,
        request_change_add: bool,
    ) -> (msg: InternalMessage<T>)
        ensures
            msg@ == (
                Some(src_uid),
                src_addr,
                InternalMessageKind::<T>::NewIncomingConnection(
                    src_in_addr,
                    src_pk,
                    request_change_add,
                ),
            ),
    {
        InternalMessage::new(
            Some(src_uid),
            src_addr,
            InternalMessageKind::NewIncomingConnection(src_in_addr, src_pk, request_change_add),
        )
    }

    /// Returns a `NewOutgoingConnection` message.
    pub fn new_outgoing_connection(src_addr: OutAddr) -> (msg: InternalMessage<T>)
        ensures
            msg@ == (None::<Uid>, src_addr, InternalMessageKind::<T>::NewOutgoingConnection),
    {
        InternalMessage::new_without_uid(src_addr, InternalMessageKind::NewOutgoingConnection)
    }

    /// Returns the source unique identifier this message was received in.
    pub fn src_uid(&self) -> (uid: Option<&Uid>)
        ensures
            uid == (match self@.0 {
                Some(uid) => Some(&uid),
                None => None,
            }),
    {
        self.src_uid.as_ref()
    }

    /// Returns the source socket this message was received on.
    pub fn src_addr(&self) -> (addr: &OutAddr)
        ensures
            *addr == self@.1,
    {
        &self.src_addr
    }

    /// Returns the internal message kind.
    pub fn kind(&self) -> (kind: &InternalMessageKind<T>)
        ensures
            *kind == self@.2,
    {
        &self.kind
    }

    /// Consumes this `InternalMessage` into its parts.
    pub fn into_parts(self) -> (parts: (Option<Uid>, OutAddr, InternalMessageKind<T>))
        ensures
            parts == self@,
    {
        (self.src_uid, self.src_addr, self.kind)
    }
}

/// A message that is put together from the parts of another is that message.
pub proof fn law_parts_make_the_message<T>(msg: InternalMessage<T>, other: InternalMessage<T>)
    requires
        msg@ == other@,
    ensures
        msg == other,
{
}

/// A message is read back with everything that it was made of.
pub proof fn law_new_is_read_back<T>(
    src_uid: Option<Uid>,
    src_addr: OutAddr,
    kind: InternalMessageKind<T>,
    msg: InternalMessage<T>,
    parts: (Option<Uid>, OutAddr, InternalMessageKind<T>),
)
    requires
        call_ensures(InternalMessage::<T>::new, (src_uid, src_addr, kind), msg),
        call_ensures(InternalMessage::<T>::into_parts, (msg,), parts),
    ensures
        parts.0 == src_uid,
        parts.1 == src_addr,
        parts.2 == kind,
{
}

/// A message without a uid is read back with everything that it was made of.
pub proof fn law_new_without_uid_is_read_back<T>(
    src_addr: OutAddr,
    kind: InternalMessageKind<T>,
    msg: InternalMessage<T>,
    parts: (Option<Uid>, OutAddr, InternalMessageKind<T>),
)
    requires
        call_ensures(InternalMessage::<T>::new_without_uid, (src_addr, kind), msg),
        call_ensures(InternalMessage::<T>::into_parts, (msg,), parts),
    ensures
        parts.0 == None::<Uid>,
        parts.1 == src_addr,
        parts.2 == kind,
{
}

/// A message from the wire is read back with everything that it was made of.
pub proof fn law_wire_is_read_back<T>(
    src_uid: Option<Uid>,
    src_addr: OutAddr,
    wire_message: WireMessage<T>,
    msg: InternalMessage<T>,
    parts: (Option<Uid>, OutAddr, InternalMessageKind<T>),
)
    requires
        call_ensures(InternalMessage::<T>::wire, (src_uid, src_addr, wire_message), msg),
        call_ensures(InternalMessage::<T>::into_parts, (msg,), parts),
    ensures
        parts.0 == src_uid,
        parts.1 == src_addr,
        parts.2 == InternalMessageKind::<T>::Wire(wire_message),
{
}

/// A message of the consensus layer is read back with everything that it was made of.
pub proof fn law_hb_message_is_read_back<T>(
    src_uid: Uid,
    src_addr: OutAddr,
    content: Message<Uuid>,
    msg: InternalMessage<T>,
    parts: (Option<Uid>, OutAddr, InternalMessageKind<T>),
)
    requires
        call_ensures(InternalMessage::<T>::hb_message, (src_uid, src_addr, content), msg),
        call_ensures(InternalMessage::<T>::into_parts, (msg,), parts),
    ensures
        parts.0 == Some(src_uid),
        parts.1 == src_addr,
        parts.2 == InternalMessageKind::<T>::HbMessage(content),
{
}

/// An input to the consensus layer is read back with everything that it was made of.
pub proof fn law_hb_input_is_read_back<T>(
    src_uid: Uid,
    src_addr: OutAddr,
    input: Input<T, Uuid>,
    msg: InternalMessage<T>,
    parts: (Option<Uid>, OutAddr, InternalMessageKind<T>),
)
    requires
        call_ensures(InternalMessage::<T>::hb_input, (src_uid, src_addr, input), msg),
        call_ensures(InternalMessage::<T>::into_parts, (msg,), parts),
    ensures
        parts.0 == Some(src_uid),
        parts.1 == src_addr,
        parts.2 == InternalMessageKind::<T>::HbInput(input),
{
}

/// The notice that a peer is gone is read back with everything that it was made of.
pub proof fn law_peer_disconnect_is_read_back<T>(
    src_uid: Uid,
    src_addr: OutAddr,
    msg: InternalMessage<T>,
    parts: (Option<Uid>, OutAddr, InternalMessageKind<T>),
)
    requires
        call_ensures(InternalMessage::<T>::peer_disconnect, (src_uid, src_addr), msg),
        call_ensures(InternalMessage::<T>::into_parts, (msg,), parts),
    ensures
        parts.0 == Some(src_uid),
        parts.1 == src_addr,
        parts.2 == InternalMessageKind::<T>::PeerDisconnect,
{
}

/// The notice of an incoming connection is read back with everything that it was made of.
pub proof fn law_new_incoming_connection_is_read_back<T>(
    src_uid: Uid,
    src_addr: OutAddr,
    src_in_addr: InAddr,
    src_pk: PublicKey,
    request_change_add: bool,
    msg: InternalMessage<T>,
    parts: (Option<Uid>, OutAddr, InternalMessageKind<T>),
)
    requires
        call_ensures(InternalMessage::<T>::new_incoming_connection, (src_uid, src_addr, src_in_addr, src_pk, request_change_add), msg),
        call_ensures(InternalMessage::<T>::into_parts, (msg,), parts),
    ensures
        parts.0 == Some(src_uid),
        parts.1 == src_addr,
        parts.2 == InternalMessageKind::<T>::NewIncomingConnection(src_in_addr, src_pk, request_change_add),
{
}

/// The notice of an outgoing connection is read back with everything that it was made of.
pub proof fn law_new_outgoing_connection_is_read_back<T>(
    src_addr: OutAddr,
    msg: InternalMessage<T>,
    parts: (Option<Uid>, OutAddr, InternalMessageKind<T>),
)
    requires
        call_ensures(InternalMessage::<T>::new_outgoing_connection, (src_addr,), msg),
        call_ensures(InternalMessage::<T>::into_parts, (msg,), parts),
    ensures
        parts.0 == None::<Uid>,
        parts.1 == src_addr,
        parts.2 == InternalMessageKind::<T>::NewOutgoingConnection,
{
}

/// Each part that is looked at is the one that taking the message apart gives,
/// and the parts put together are the same message.
pub proof fn law_looking_agrees_with_taking_apart<T>(
    msg: InternalMessage<T>,
    uid: Option<&Uid>,
    addr: &OutAddr,
    kind: &InternalMessageKind<T>,
    parts: (Option<Uid>, OutAddr, InternalMessageKind<T>),
    again: InternalMessage<T>,
)
    requires
        call_ensures(InternalMessage::<T>::src_uid, (&msg,), uid),
        call_ensures(InternalMessage::<T>::src_addr, (&msg,), addr),
        call_ensures(InternalMessage::<T>::kind, (&msg,), kind),
        call_ensures(InternalMessage::<T>::into_parts, (msg,), parts),
        call_ensures(InternalMessage::<T>::new, parts, again),
    ensures
        uid is Some <==> parts.0 is Some,
        uid is Some ==> *uid->0 == parts.0->0,
        *addr == parts.1,
        *kind == parts.2,
        again == msg,
{
}

}
