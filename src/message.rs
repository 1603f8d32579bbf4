//! The outbound message and its fixed-layout wire encoding:
//! one action byte followed by a 32-byte payload, with no length prefix.

use vstd::prelude::*;

verus! {

/// Size of the payload carried by an outbound message.
pub const MESSAGE_DATA_LENGTH: usize = 32;

/// Size of an encoded outbound message: the action byte and the payload.
pub const MESSAGE_FRAME_LENGTH: usize = 33;

/// Action of the message that carries the player's username.
pub const MESSAGE_ACTION_SEND_USERNAME: u8 = 1;

/// A message sent from the client to the server.
#[derive(Clone, Copy)]
pub struct Message {
    pub action: u8,
    pub data: [u8; 32],
}

/// The bytes of an encoded message: the action, then the payload as is.
pub open spec fn encoding(action: u8, data: Seq<u8>) -> Seq<u8> {
    seq![action] + data
}

/// A text placed left-aligned in a payload, the rest of it zero.
pub open spec fn padded(text: Seq<u8>) -> Seq<u8> {
    text + Seq::new((32 - text.len()) as nat, |_i: int| 0u8)
}

/// Decoding an encoded message gives back its action and its payload.
pub proof fn lemma_decode_encode(action: u8, data: Seq<u8>)
    requires
        data.len() == 32,
    ensures
        encoding(action, data).len() == 33,
        encoding(action, data)[0] == action,
        encoding(action, data).subrange(1, 33) == data,
{
    assert(encoding(action, data).subrange(1, 33) =~= data);
}

/// Encoding a decoded 33-byte buffer gives back the same bytes.
pub proof fn lemma_encode_decode(bytes: Seq<u8>)
    requires
        bytes.len() == 33,
    ensures
        encoding(bytes[0], bytes.subrange(1, 33)) == bytes,
{
    assert(encoding(bytes[0], bytes.subrange(1, 33)) =~= bytes);
}

/// A username message survives encoding and decoding: the decoded action is
/// the username action, the payload starts with the username and the rest of
/// it is zero.
pub proof fn lemma_username_round_trip(name: Seq<u8>)
    requires
        name.len() <= 32,
    ensures
        ({
            let bytes = encoding(MESSAGE_ACTION_SEND_USERNAME, padded(name));
            &&& bytes.len() == 33
            &&& bytes[0] == MESSAGE_ACTION_SEND_USERNAME
            &&& bytes.subrange(1, 33).subrange(0, name.len() as int) == name
            &&& forall|i: int| name.len() <= i < 32 ==> #[trigger] bytes.subrange(1, 33)[i] == 0
        }),
{
    let data = padded(name);
    lemma_decode_encode(MESSAGE_ACTION_SEND_USERNAME, data);
    assert(data.subrange(0, name.len() as int) =~= name);
}

/// Relies on `bincode::serialize` with its default configuration: a `u8` is
/// written as one byte, and a tuple or a fixed-size array as its elements in
/// order, with no length prefix. Writing into a `Vec` cannot fail.
#[verifier::external_body]
fn serialize_frame(action: u8, data: [u8; 32]) -> (r: Option<Vec<u8>>)
    ensures
        r is Some,
        r->0@ == encoding(action, data@),
{
    bincode::serialize(&(action, data)).ok()
}

impl Message {
    /// A message with the given action and an all-zero payload.
    pub fn new(action: u8) -> (r: Message)
        ensures
            r.action == action,
            r.data@ == Seq::new(32, |_i: int| 0u8),
    {
        let r = Message { action: action, data: [0u8; 32] };
        assert(r.data@ =~= Seq::new(32, |_i: int| 0u8));
        r
    }

    /// Replaces the payload.
    pub fn set_data(&mut self, data: [u8; 32])
        ensures
            final(self).action == old(self).action,
            final(self).data == data,
    {
        self.data = data;
    }

    /// The username message: the username action, and a payload that holds
    /// the username left-aligned and zero-padded.
    pub fn from_username(name: &[u8]) -> (r: Message)
        requires
            name@.len() <= MESSAGE_DATA_LENGTH,
        ensures
            r.action == MESSAGE_ACTION_SEND_USERNAME,
            r.data@ == padded(name@),
    {
        let mut message = Message::new(MESSAGE_ACTION_SEND_USERNAME);
        let mut bytes = [0u8; 32];
        let mut i: usize = 0;
        while i < name.len()
            invariant
                name@.len() <= MESSAGE_DATA_LENGTH,
                i <= name@.len(),
                forall|j: int| 0 <= j < i ==> bytes@[j] == name@[j],
                forall|j: int| name@.len() <= j < 32 ==> bytes@[j] == 0,
            decreases name@.len() - i,
        {
            bytes.set(i, name[i]);
            i = i + 1;
        }
        message.set_data(bytes);
        assert(bytes@ =~= padded(name@));
        message
    }

    /// The wire form of the message: `[action][payload]`, 33 bytes.
    pub fn encode(&self) -> (r: Vec<u8>)
        ensures
            r@ == encoding(self.action, self.data@),
            r@.len() == MESSAGE_FRAME_LENGTH,
    {
        let r = serialize_frame(self.action, self.data);
        r.unwrap()
    }

    /// Reads a message back from its wire form: byte 0 is the action, the
    /// remaining 32 bytes are the payload.
    pub fn decode(bytes: &[u8]) -> (r: Message)
        requires
            bytes@.len() == MESSAGE_FRAME_LENGTH,
        ensures
            r.action == bytes@[0],
            r.data@ == bytes@.subrange(1, 33),
    {
        let mut data = [0u8; 32];
        let mut i: usize = 0;
        while i < MESSAGE_DATA_LENGTH
            invariant
                bytes@.len() == MESSAGE_FRAME_LENGTH,
                i <= MESSAGE_DATA_LENGTH,
                forall|j: int| 0 <= j < i ==> data@[j] == bytes@[j + 1],
            decreases MESSAGE_DATA_LENGTH - i,
        {
            data.set(i, bytes[i + 1]);
            i = i + 1;
        }
        assert(data@ =~= bytes@.subrange(1, 33));
        Message { action: bytes[0], data: data }
    }
}

} // verus!
