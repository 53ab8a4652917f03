/// Shared memory message framing.
pub mod shared_memory;

use vstd::prelude::*;

use crate::Error;
use crate::protocol::{decode, lemma_decode_words, Command, MessageId, Payload};

verus! {

/// A command handed to a transport and how it ended: the message identifier and the wire form of
/// the command, then the wire form of the response or the error.
pub type Exchange = (MessageId, Seq<u32>, Result<Seq<u32>, Error>);

/// The commands carried by a transport and how each ended, in order.
pub type TransportLog = Seq<Exchange>;

/// The exchange of `command` that ended in `r`.
pub open spec fn exchange_of<C: Command>(command: C, r: Result<C::Response, Error>) -> Exchange {
    (
        C::spec_id(),
        command.spec_words(),
        match r {
            Ok(response) => Ok(response.spec_words()),
            Err(e) => Err(e),
        },
    )
}

/// The response of an exchange, decoded as `R`, or its error.
pub open spec fn reply<R: Payload>(e: Exchange) -> Result<R, Error> {
    match e.2 {
        Ok(words) => Ok(decode::<R>(words)),
        Err(x) => Err(x),
    }
}

/// The reply of the exchange of a command is what the command returned.
pub proof fn lemma_reply<C: Command>(command: C, r: Result<C::Response, Error>)
    ensures
        reply::<C::Response>(exchange_of(command, r)) == r,
{
    if let Ok(response) = r {
        lemma_decode_words(response);
    }
}

/// Trait for implementing SCMI transport layers.
///
/// A transport keeps, as its specification state, the log of the commands that it has carried
/// and how each ended. An implementation promises that each call of `invoke_command` appends
/// exactly the exchange of the command that it was handed and the result that it returns.
pub trait Transport {
    /// The commands carried by this transport and how each ended, in order.
    ///
    /// It is specification state: Rust code that implements the trait outside Verus writes the
    /// method with a body that is never run.
    spec fn log(&self) -> TransportLog;

    /// Sends `command` to the platform and returns its response.
    fn invoke_command<C: Command>(&mut self, command: C) -> (r: Result<C::Response, Error>)
        ensures
            final(self).log() == old(self).log().push(exchange_of(command, r)),
    ;
}

} // verus!
