//! The query text the protocol sends to the record store, built with an
//! exact character-level specification. The store's query language itself is
//! an external collaborator; the library only guarantees which statement
//! text is issued for which intent.

use vstd::prelude::*;
use vstd::string::StringExecFns;

verus! {

/// The live subscription scoped to messages addressed to `name`.
pub fn live_select_query(name: &str) -> (q: String)
    ensures
        q@ == "LIVE SELECT * FROM message WHERE out = agent:"@ + name@,
{
    String::from_str("LIVE SELECT * FROM message WHERE out = agent:").concat(name)
}

/// The one-shot query for messages addressed to `name`.
pub fn message_select_query(name: &str) -> (q: String)
    ensures
        q@ == "SELECT * FROM message WHERE out = agent:"@ + name@,
{
    String::from_str("SELECT * FROM message WHERE out = agent:").concat(name)
}

/// The relation write that records one message from `from` to `to`; the
/// payload and creation time are bound as parameters by the caller.
pub fn relate_query(from: &str, to: &str) -> (q: String)
    ensures
        q@ == "RELATE agent:"@ + from@ + "->message->agent:"@ + to@
            + " CONTENT { created: time::now(), payload: $payload };"@,
{
    String::from_str("RELATE agent:").concat(from).concat("->message->agent:").concat(to).concat(
        " CONTENT { created: time::now(), payload: $payload };",
    )
}

} // verus!
