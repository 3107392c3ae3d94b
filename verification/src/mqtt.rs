//! The MQTT client: handle ownership, topic marshalling and result
//! translation.
//!
//! A client owns exactly one vendor client handle for its whole lifetime;
//! the vendor call that allocates the handle, the delegating calls that
//! use it, and the release on destruction are foreign and live with the
//! embedding application, which passes the handle here as a plain address
//! token and feeds the vendor returns back through the translation
//! functions below.

use vstd::prelude::*;
use vstd::string::StringSliceAdditionalSpecFns;

use crate::error::Error;
use crate::wifi::{copied_nul, copy_to_slice_nul, zero_bytes, zero_vec};

verus! {

/// The identifier the vendor assigns an enqueued MQTT message.
pub type MessageId = i32;

/// Fixed capacity of the stack buffer a topic is marshalled into, the
/// mandatory terminator included.
pub const STR_BUFFER_SIZE: usize = 128;

/// The vendor return that means a subscribe, unsubscribe or publish call
/// failed; distinct from a legitimate zero message identifier.
pub const MESSAGE_ID_FAILURE: i32 = -1;

/// An MQTT client, bound to exactly one vendor client handle.
pub struct Client {
    handle: usize,
}

impl Client {
    /// The vendor handle this client is bound to, as an address token.
    pub closed spec fn spec_handle(self) -> usize {
        self.handle
    }

    /// A client is bound to a nonnull handle.
    pub open spec fn wf(self) -> bool {
        self.spec_handle() != 0
    }

    /// Binds a client to an already-allocated vendor handle, given as an
    /// address token, rejecting a null one. The vendor call that allocates
    /// the handle from a configuration is foreign and performed by the
    /// embedding application before this point.
    pub fn init(handle: usize) -> (r: Result<Client, Error>)
        ensures
            handle != 0 ==> r is Ok && r->Ok_0.wf() && r->Ok_0.spec_handle() == handle,
            handle == 0 ==> r == Err::<Client, Error>(Error::InvalidArgument),
    {
        if handle == 0 {
            Err(Error::InvalidArgument)
        } else {
            Ok(Client { handle })
        }
    }

    /// The handle token, for the delegating vendor calls.
    pub fn handle(&self) -> (r: usize)
        ensures
            r == self.spec_handle(),
    {
        self.handle
    }
}

/// Copies a topic into the fixed-size buffer followed by the mandatory
/// terminator. The capacity bound is a deliberate fixed-capacity
/// invariant: a topic that cannot fit with its terminator is outside this
/// function's contract, and the embedding application aborts on it rather
/// than truncating; [`topic_buffer`] is the checked path.
pub fn as_nul_terminated(string: &str, bytes: &mut Vec<u8>)
    requires
        string.spec_bytes().len() + 1 <= old(bytes)@.len(),
    ensures
        copied_nul(old(bytes)@, string.spec_bytes(), final(bytes)@),
{
    let _r = copy_to_slice_nul(bytes, string);
}

/// Builds the marshalled topic buffer: the topic's bytes, a terminator,
/// and zero padding up to the fixed capacity. Returns `None` exactly when
/// the topic with its terminator cannot fit.
pub fn topic_buffer(topic: &str) -> (r: Option<Vec<u8>>)
    ensures
        topic.spec_bytes().len() + 1 > STR_BUFFER_SIZE ==> r is None,
        topic.spec_bytes().len() + 1 <= STR_BUFFER_SIZE ==> r is Some && r->0@.len()
            == STR_BUFFER_SIZE && copied_nul(
            zero_bytes(STR_BUFFER_SIZE as nat),
            topic.spec_bytes(),
            r->0@,
        ),
{
    let len: usize = topic.as_bytes().len();
    if len >= STR_BUFFER_SIZE {
        None
    } else {
        let mut buffer = zero_vec(STR_BUFFER_SIZE);
        as_nul_terminated(topic, &mut buffer);
        Some(buffer)
    }
}

/// Translates the return of a vendor subscribe, unsubscribe or publish
/// call: the failure sentinel maps to an absent identifier, and any other
/// value, zero included, is the assigned message identifier itself.
pub fn message_id_from_return(retval: i32) -> (r: Option<MessageId>)
    ensures
        retval == MESSAGE_ID_FAILURE ==> r is None,
        retval != MESSAGE_ID_FAILURE ==> r == Some::<MessageId>(retval),
{
    if retval == MESSAGE_ID_FAILURE {
        None
    } else {
        Some(retval)
    }
}

} // verus!
