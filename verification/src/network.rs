//! What is handed to the network: bytes, and the addresses they go to.
use bytes::Bytes;
use vstd::prelude::*;

verus! {

/// A reference-counted, immutable byte buffer of the `bytes` crate.
#[verifier::external_type_specification]
#[verifier::external_body]
pub struct ExBytes(Bytes);

/// The bytes that a buffer holds.
pub uninterp spec fn contents(buffer: Bytes) -> Seq<u8>;

/// Calls `<Bytes as From<Vec<u8>>>::from`, which takes over the vector: the buffer holds
/// exactly its bytes, in their order.
#[verifier::external_body]
fn into_buffer(data: Vec<u8>) -> (buffer: Bytes)
    ensures
        contents(buffer) == data@,
{
    Bytes::from(data)
}

/// The network address of a node, as text.
#[derive(Debug, PartialEq, Eq)]
pub struct Address(pub String);

/// An encoded message and the addresses it is sent to.
#[derive(Debug, PartialEq, Eq)]
pub struct NetMessage(pub Bytes, pub Vec<Address>);

#[verifier::ext_equal]
pub struct NetMessageView {
    pub data: Seq<u8>,
    pub addresses: Seq<Address>,
}

impl View for NetMessage {
    type V = NetMessageView;

    open spec fn view(&self) -> NetMessageView {
        NetMessageView { data: contents(self.0), addresses: self.1@ }
    }
}

impl NetMessage {
    /// The message that carries `data` to `addresses`.
    pub fn new(data: Vec<u8>, addresses: Vec<Address>) -> (message: NetMessage)
        ensures
            message@ == (NetMessageView { data: data@, addresses: addresses@ }),
    {
        NetMessage(into_buffer(data), addresses)
    }
}

} // verus!
