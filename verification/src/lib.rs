//! A minimal greeting service: one stateless operation that turns a caller's
//! name into the message `"Hello " + name + "!"`.
//!
//! The service handler here is pure and total; binding a network address and
//! moving requests over the wire is the surrounding runtime's concern and is
//! kept out of this library.

use vstd::prelude::*;

verus! {

/// The message the service produces for a given name:
/// `"Hello "` followed by the name followed by `"!"`.
pub open spec fn greeting(name: Seq<char>) -> Seq<char> {
    "Hello "@ + name + "!"@
}

/// A request to the greeting service. The name may be any string, including
/// the empty string; no validation is performed.
pub struct HelloRequest {
    pub name: String,
}

/// The service's reply, carrying the greeting message.
pub struct HelloReply {
    pub message: String,
}

/// The stateless greeting service. It holds no state, so every call is
/// independent of every other.
#[derive(Debug, PartialEq, Eq, Structural)]
pub struct MyGreeter {}

impl Default for MyGreeter {
    fn default() -> (g: MyGreeter)
        ensures
            g == (MyGreeter {}),
    {
        MyGreeter {}
    }
}

impl MyGreeter {
    /// Creates the service. There is no configuration to give it.
    pub fn new() -> MyGreeter {
        MyGreeter {}
    }

    /// Handles one call: builds the greeting for the request's name.
    /// Accepts every string and never fails.
    pub fn say_hello(&self, request: HelloRequest) -> (reply: HelloReply)
        ensures
            reply.message@ == greeting(request.name@),
    {
        let mut message = String::from_str("Hello ");
        message.append(request.name.as_str());
        message.append("!");
        HelloReply { message }
    }
}

/// The operation is deterministic and touches no state: two replies produced
/// for requests with equal names carry equal messages, so repeating a call
/// with the same input yields the same output both times.
pub proof fn lemma_say_hello_deterministic(
    r1: HelloRequest,
    r2: HelloRequest,
    y1: HelloReply,
    y2: HelloReply,
)
    requires
        r1.name@ == r2.name@,
        y1.message@ == greeting(r1.name@),
        y2.message@ == greeting(r2.name@),
    ensures
        y1.message@ == y2.message@,
{
}

/// The greeting embeds the name verbatim: six characters of prefix, the name
/// itself, and a single closing character, for every name including the empty
/// one.
pub proof fn lemma_greeting_shape(name: Seq<char>)
    ensures
        greeting(name).len() == name.len() + 7,
        greeting(name).subrange(0, 6) == "Hello "@,
        greeting(name).subrange(6, 6 + name.len() as int) == name,
        greeting(name)[6 + name.len() as int] == '!',
{
    reveal_strlit("Hello ");
    reveal_strlit("!");
    assert(greeting(name).subrange(0, 6) =~= "Hello "@);
    assert(greeting(name).subrange(6, 6 + name.len() as int) =~= name);
}

} // verus!
