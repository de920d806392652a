//! Types of other crates that messages carry and streams pass on.
//!
//! None of them is looked into: a value of one of these types is moved from
//! where it came to where it goes. What the byte buffers hold has a name, and
//! their few operations that are used are described over it.
use vstd::prelude::*;

verus! {

/// `uuid::Uuid`, by which the consensus layer tells nodes apart.
#[verifier::external_type_specification]
#[verifier::external_body]
pub struct ExUuid(uuid::Uuid);

/// `hbbft::crypto::PublicKey`, the public key of a node.
#[verifier::external_type_specification]
#[verifier::external_body]
pub struct ExPublicKey(hbbft::crypto::PublicKey);

/// `hbbft::crypto::PublicKeySet`, the key set that the validators share.
#[verifier::external_type_specification]
#[verifier::external_body]
pub struct ExPublicKeySet(hbbft::crypto::PublicKeySet);

/// `hbbft::sync_key_gen::Part`, a proposal in key generation.
#[verifier::external_type_specification]
#[verifier::external_body]
pub struct ExPart(hbbft::sync_key_gen::Part);

/// `hbbft::sync_key_gen::Ack`, the confirmation of a `Part`.
#[verifier::external_type_specification]
#[verifier::external_body]
pub struct ExAck(hbbft::sync_key_gen::Ack);

/// `hbbft::dynamic_honey_badger::JoinPlan`, what a node needs to join.
#[verifier::external_type_specification]
#[verifier::external_body]
#[verifier::reject_recursive_types(N)]
pub struct ExJoinPlan<N: Ord>(hbbft::dynamic_honey_badger::JoinPlan<N>);

/// `hbbft::dynamic_honey_badger::Message`, a message of the consensus layer.
#[verifier::external_type_specification]
#[verifier::external_body]
#[verifier::reject_recursive_types(N)]
pub struct ExDhbMessage<N: Ord>(hbbft::dynamic_honey_badger::Message<N>);

/// `hbbft::dynamic_honey_badger::Input`, an input to the consensus layer.
#[verifier::external_type_specification]
#[verifier::external_body]
#[verifier::reject_recursive_types(C)]
#[verifier::reject_recursive_types(N)]
pub struct ExDhbInput<C, N: Ord>(hbbft::dynamic_honey_badger::Input<C, N>);

/// `std::io::Error`, a failure of the socket or of the framing.
#[verifier::external_type_specification]
#[verifier::external_body]
pub struct ExIoError(std::io::Error);

/// `bincode::ErrorKind`, which a boxed `bincode::Error` holds.
#[verifier::external_type_specification]
#[verifier::external_body]
pub struct ExBincodeErrorKind(bincode::ErrorKind);

/// `bytes::Bytes`, a sequence of bytes that no longer changes.
#[verifier::external_type_specification]
#[verifier::external_body]
pub struct ExBytes(bytes::Bytes);

/// `bytes::BytesMut`, a growing buffer of bytes.
#[verifier::external_type_specification]
#[verifier::external_body]
pub struct ExBytesMut(bytes::BytesMut);

/// The bytes in a `Bytes`.
pub uninterp spec fn content(bytes: bytes::Bytes) -> Seq<u8>;

/// The bytes in a `BytesMut`.
pub uninterp spec fn buffered(buffer: bytes::BytesMut) -> Seq<u8>;

/// `bytes::BytesMut::new`: the new buffer is empty.
pub assume_specification[ bytes::BytesMut::new ]() -> (buffer: bytes::BytesMut)
    ensures
        buffered(buffer) == Seq::<u8>::empty(),
;

/// `bytes::BytesMut::extend_from_slice`: the slice is added at the end.
pub assume_specification[ bytes::BytesMut::extend_from_slice ](
    buffer: &mut bytes::BytesMut,
    extend: &[u8],
)
    ensures
        buffered(*final(buffer)) == buffered(*old(buffer)) + extend@,
;

/// `bytes::BytesMut::freeze`: the same bytes, no longer changing.
pub assume_specification[ bytes::BytesMut::freeze ](buffer: bytes::BytesMut) -> (bytes: bytes::Bytes)
    ensures
        content(bytes) == buffered(buffer),
;

}
