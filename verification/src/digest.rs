//! The digest notification actor's decision logic.  The actor owns the
//! bidirectional stream to the switch: on startup it sends a
//! master-arbitration handshake (a handshake failure is reported, not
//! fatal), then for every inbound message it forwards the fact updates that
//! `handle_digest` decodes — one per digest data item — to the control
//! actor, which applies each as its own update batch.  Every other payload
//! kind is observed and discarded.  When the stream ends, the actor ends;
//! the digest feature is inert until a new start request.

use vstd::prelude::*;

use crate::record::{FactUpdate, Record, UpdateKind};

verus! {

/// One decoded digest notification: the digest identifier the switch
/// published for it, and its structured data items.
pub struct DigestList {
    pub digest_id: u32,
    pub data: Vec<Record>,
}

/// The payload of one inbound message on the switch's notification stream.
pub enum StreamPayload {
    /// Acknowledgement of the master-arbitration handshake.
    Arbitration,
    /// A packet-in event.
    Packet,
    /// A digest notification: the only payload that produces fact updates.
    Digest(DigestList),
    /// An idle-timeout notification for a table entry.
    IdleTimeout,
    /// A stream-level error report from the switch.
    StreamError,
    /// Any other payload kind.
    Other,
}

/// One inbound stream message; the switch may send one with no payload.
pub struct StreamResponse {
    pub update: Option<StreamPayload>,
}

/// Digest generation parameters the actor writes to the switch when the
/// digest stream starts.
pub struct DigestConfig {
    pub digest_id: u32,
    pub max_timeout_ns: u64,
    pub max_list_size: u64,
    pub ack_timeout_ns: u64,
}

/// The configuration the actor uses: the deployment's digest identifier,
/// with a notification sent per message (list size one, no batching
/// timeout).
pub fn digest_config() -> (c: DigestConfig)
    ensures
        c.digest_id == 399590470u32,
        c.max_timeout_ns == 0,
        c.max_list_size == 1,
        c.ack_timeout_ns == 1,
{
    DigestConfig { digest_id: 399590470, max_timeout_ns: 0, max_list_size: 1, ack_timeout_ns: 1 }
}

/// The fact updates one stream message contributes: one insertion per
/// digest data item, in order, into the relation the digest identifier
/// names; no other payload kind contributes any.
pub open spec fn facts_of_message(m: StreamResponse) -> Seq<FactUpdate> {
    match m.update {
        Some(StreamPayload::Digest(d)) => Seq::new(
            d.data@.len(),
            |i: int|
                FactUpdate {
                    kind: UpdateKind::Insert,
                    relid: d.digest_id as u64,
                    value: d.data@[i],
                },
        ),
        _ => Seq::empty(),
    }
}

/// Decodes one stream receive into the fact updates to forward to the
/// control actor.  A stream error yields none and ends nothing here: the
/// caller's receive loop ends when the stream itself does.
pub fn handle_digest(res: Result<StreamResponse, String>) -> (out: Vec<FactUpdate>)
    ensures
        match res {
            Ok(m) => out@ == facts_of_message(m),
            Err(_) => out@ == Seq::<FactUpdate>::empty(),
        },
{
    let mut out: Vec<FactUpdate> = Vec::new();
    match res {
        Ok(m) => match m.update {
            Some(StreamPayload::Digest(d)) => {
                let ghost items = d.data@;
                let did = d.digest_id;
                let mut data = d.data;
                proof {
                    assert(facts_of_message(m).skip(0) =~= facts_of_message(m));
                }
                while data.len() > 0
                    invariant
                        out@.len() + data@.len() == items.len(),
                        data@ == items.skip(out@.len() as int),
                        forall|i: int|
                            0 <= i < out@.len() ==> #[trigger] out@[i] == (FactUpdate {
                                kind: UpdateKind::Insert,
                                relid: did as u64,
                                value: items[i],
                            }),
                    decreases data@.len(),
                {
                    let ghost n = out@.len() as int;
                    let value = data.remove(0);
                    proof {
                        assert(items.skip(n)[0] == items[n]);
                        assert(items.skip(n).remove(0) =~= items.skip(n + 1));
                    }
                    out.push(FactUpdate { kind: UpdateKind::Insert, relid: did as u64, value });
                }
                proof {
                    assert(out@ =~= facts_of_message(m));
                }
                out
            },
            _ => out,
        },
        Err(_) => out,
    }
}

} // verus!
