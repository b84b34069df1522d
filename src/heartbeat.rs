use vstd::prelude::*;

verus! {

/// How many heartbeats may wait in the channel before new ones are dropped.
pub const CHANNEL_CAPACITY: usize = 32;

/// HTTP status of a successful reply.
pub const STATUS_OK: u16 = 200;

/// What became of a heartbeat that a ping handler tried to enqueue.
#[derive(Clone, Copy, Debug, PartialEq, Eq, Structural)]
pub enum Delivery {
    /// The heartbeat is in the channel.
    Queued,
    /// The channel was full and the heartbeat was dropped.
    Dropped,
    /// The watchdog is gone (the process is shutting down).
    Closed,
}

/// The reply to a ping request.
#[derive(Clone, Debug)]
pub struct PingReply {
    pub status: u16,
    pub body: String,
}

/// The body of every ping reply.
pub open spec fn pong() -> Seq<char> {
    seq!['p', 'o', 'n', 'g']
}

/// The reply to a ping: `200` with body `pong`, whatever became of the
/// heartbeat; nothing about the watchdog's state or load reaches the caller.
pub fn ping_reply(_delivery: Delivery) -> (r: PingReply)
    ensures
        r.status == 200,
        r.body@ == pong(),
{
    broadcast use vstd::string::to_string_from_display_ensures_for_str;

    let body = "pong".to_string();
    proof {
        reveal_strlit("pong");
    }
    PingReply { status: STATUS_OK, body }
}

} // verus!
