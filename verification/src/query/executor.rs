//! The decisions of the loop that reads the agent's output into a message
//! stream: what to do with each line read and with each protocol message.

use vstd::prelude::*;

use crate::transport::communication::{assistant_content, converts_to, protocol_to_sdk_message};
use crate::transport::protocol::{create_request, jsonrpc_version, opt_text, ProtocolMessage};
use crate::types::error::QwenError;
use crate::types::message::SDKMessage;
use crate::utils::text::{trim_text, trimmed};

verus! {

broadcast use vstd::string::group_string_axioms;

/// What happened while the reader waited.
pub enum ReaderEvent {
    /// The query was cancelled.
    Cancelled,
    /// A read from the agent finished: a message, the end of its output, or an error.
    Read(Result<Option<ProtocolMessage>, QwenError>),
}

/// What the reader does next.
pub enum ReaderAction {
    /// Hand a message to the stream and read on.
    Deliver(SDKMessage),
    /// Nothing to hand over; read on.
    Skip,
    /// Hand an error to the stream and read on.
    Report(QwenError),
    /// Hand an error to the stream and stop.
    ReportAndStop(QwenError),
    /// Stop reading.
    Stop,
}

/// The reader's answer to an event: on cancellation or at the end of the
/// agent's output it stops; a read error is reported and ends the loop; a
/// message is converted, and delivered, skipped or reported as the
/// conversion says.
pub open spec fn reader_responds(event: ReaderEvent, action: ReaderAction) -> bool {
    match event {
        ReaderEvent::Cancelled => action is Stop,
        ReaderEvent::Read(Err(e)) => action == ReaderAction::ReportAndStop(e),
        ReaderEvent::Read(Ok(None)) => action is Stop,
        ReaderEvent::Read(Ok(Some(m))) => exists|r: Result<Option<SDKMessage>, QwenError>| {
            &&& converts_to(m, assistant_content(m), r)
            &&& match r {
                Ok(Some(x)) => action == ReaderAction::Deliver(x),
                Ok(None) => action is Skip,
                Err(e) => action == ReaderAction::Report(e),
            }
        },
    }
}

/// Decide what the reader does with an event.
pub fn next_reader_action(event: ReaderEvent) -> (action: ReaderAction)
    ensures
        reader_responds(event, action),
{
    match event {
        ReaderEvent::Cancelled => ReaderAction::Stop,
        ReaderEvent::Read(Err(e)) => ReaderAction::ReportAndStop(e),
        ReaderEvent::Read(Ok(None)) => ReaderAction::Stop,
        ReaderEvent::Read(Ok(Some(m))) => {
            let r = protocol_to_sdk_message(&m);
            match r {
                Ok(Some(x)) => ReaderAction::Deliver(x),
                Ok(None) => ReaderAction::Skip,
                Err(e) => ReaderAction::Report(e),
            }
        },
    }
}

/// What a line read from the agent holds: `None` when the output ended (no
/// bytes were read) or the line is blank, otherwise the line without its
/// surrounding white space.
pub fn line_payload(bytes_read: usize, line: &str) -> (r: Option<String>)
    ensures
        bytes_read == 0 ==> r is None,
        bytes_read != 0 ==> (r matches Some(t) ==> t@ == trimmed(line@) && t@.len() > 0),
        bytes_read != 0 ==> (r is None <==> trimmed(line@).len() == 0),
{
    if bytes_read == 0 {
        return None;
    }
    let t = trim_text(line);
    if t.as_str().is_empty() {
        None
    } else {
        Some(t)
    }
}

/// The next query request: it takes the identifier after `last_id` and
/// carries `params`.
pub fn next_query_request(last_id: u64, params: serde_json::Value) -> (r: (u64, ProtocolMessage))
    requires
        last_id < u64::MAX,
    ensures
        r.0 == last_id + 1,
        r.1.id == Some(r.0),
        r.1.jsonrpc@ == jsonrpc_version(),
        opt_text(r.1.method) == Some("query"@),
        r.1.params == Some(params),
        r.1.result is None,
        r.1.error is None,
{
    let id = last_id + 1;
    (id, create_request(id, "query", Some(params)))
}


/// Identifiers that count from one: the `i`-th is `i + 1`.
pub open spec fn counts_from_one(ids: Seq<u64>) -> bool {
    forall|i: int| 0 <= i < ids.len() ==> #[trigger] ids[i] == i + 1
}

/// The identifiers given to the query requests of one agent process: they
/// run 1, 2, 3, ... in the order the requests are made.
pub struct RequestIds {
    last: u64,
    issued: Ghost<Seq<u64>>,
}

impl RequestIds {
    /// The identifiers handed out so far, in order.
    pub closed spec fn issued(&self) -> Seq<u64> {
        self.issued@
    }

    #[verifier::type_invariant]
    closed spec fn counts_up(self) -> bool {
        &&& counts_from_one(self.issued@)
        &&& self.issued@.len() == self.last
    }

    /// No identifier handed out yet.
    pub fn new() -> (r: Self)
        ensures
            r.issued() == Seq::<u64>::empty(),
    {
        RequestIds { last: 0, issued: Ghost(Seq::empty()) }
    }

    /// How many identifiers have been handed out, which is also the last one
    /// (0 when none has).
    pub fn last_id(&self) -> (n: u64)
        ensures
            n == self.issued().len(),
            counts_from_one(self.issued()),
    {
        proof {
            use_type_invariant(self);
        }
        self.last
    }

    /// The next query request, carrying `params`: it takes the identifier
    /// after the last one handed out, which is recorded as handed out.
    pub fn next_query(&mut self, params: serde_json::Value) -> (r: (u64, ProtocolMessage))
        requires
            old(self).issued().len() < u64::MAX,
        ensures
            counts_from_one(old(self).issued()),
            counts_from_one(final(self).issued()),
            r.0 == old(self).issued().len() + 1,
            final(self).issued() == old(self).issued().push(r.0),
            !old(self).issued().contains(r.0),
            r.1.id == Some(r.0),
            r.1.jsonrpc@ == jsonrpc_version(),
            opt_text(r.1.method) == Some("query"@),
            r.1.params == Some(params),
            r.1.result is None,
            r.1.error is None,
    {
        proof {
            use_type_invariant(&*self);
        }
        let ghost before = self.issued@;
        let (id, message) = next_query_request(self.last, params);
        proof {
            assert forall|i: int| 0 <= i < before.len() implies before[i] != id by {
                assert(before[i] == i + 1);
            }
            assert(counts_from_one(before.push(id)));
        }
        *self = RequestIds { last: id, issued: Ghost(before.push(id)) };
        (id, message)
    }
}

/// Identifiers that count from one are all different, and the last of them
/// is their number: after `k` requests from a fresh `RequestIds` the
/// identifiers were exactly 1, 2, ..., k, none repeated.
pub proof fn lemma_request_ids_are_distinct(ids: Seq<u64>)
    requires
        counts_from_one(ids),
    ensures
        forall|i: int, j: int| 0 <= i < ids.len() && 0 <= j < ids.len() && i != j ==> #[trigger] ids[i] != #[trigger] ids[j],
        ids.len() > 0 ==> ids.last() == ids.len(),
{
}

} // verus!
