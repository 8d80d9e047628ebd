//! Sink that hands FLV tags to the subscribers of a stream.
//!
//! Broadcasting a tag is the caller's part.
use crate::traits::Node;
use crate::types::Protocol;
use vstd::prelude::*;

verus! {

/// Sends the tags of one stream to its subscribers.
#[derive(Debug)]
pub struct FlvSink {
    live_id: String,
}

impl FlvSink {
    /// The stream whose tags are sent.
    pub closed spec fn id(&self) -> Seq<char> {
        self.live_id@
    }

    /// A sink for a stream.
    pub fn new(live_id: &str) -> (r: Self)
        ensures
            r.id() == live_id@,
    {
        FlvSink { live_id: live_id.to_owned() }
    }

    /// The stream whose tags are sent.
    pub fn live_id(&self) -> (r: &str)
        ensures
            r@ == self.id(),
    {
        self.live_id.as_str()
    }

    /// The protocol served.
    pub fn protocol(&self) -> (r: Protocol)
        ensures
            r == Protocol::HttpFlv,
    {
        Protocol::HttpFlv
    }
}

impl Node for FlvSink {
    fn name(&self) -> (r: &str)
        ensures
            r@ == "flv-sink"@,
    {
        "flv-sink"
    }
}

} // verus!
