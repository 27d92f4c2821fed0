//! Which stream a message belongs to.

use crate::messenger::wire::LOOPBACK_ONLY;
use vstd::prelude::*;

verus! {

/// The stream of messages under the care of a delivery layer.
pub const ISM_STREAM_ID: u8 = 0;

/// The stream of requests that bypass the delivery layers.
pub const BYPASS_ISM_STREAM_ID: u8 = 1;

/// One stream of one local client.
#[derive(Debug, Clone, Copy, PartialEq, Eq, Hash, Structural)]
pub struct StreamKey {
    pub cid: u64,
    pub stream_id: u8,
}

impl StreamKey {
    /// The one stream of requests that bypass the delivery layers.
    pub open spec fn bypass() -> Self {
        StreamKey { cid: LOOPBACK_ONLY, stream_id: BYPASS_ISM_STREAM_ID }
    }

    /// The one stream of requests that bypass the delivery layers.
    pub fn bypass_ism() -> (key: Self)
        ensures
            key == StreamKey::bypass(),
    {
        StreamKey { cid: LOOPBACK_ONLY, stream_id: BYPASS_ISM_STREAM_ID }
    }

    /// The stream that a client's delivery layer sends and receives on.
    pub fn ism(cid: u64) -> (key: Self)
        ensures
            key == (StreamKey { cid, stream_id: ISM_STREAM_ID }),
    {
        StreamKey { cid, stream_id: ISM_STREAM_ID }
    }
}

/// No delivery layer's stream is the bypass: what a client sends through its delivery layer is
/// never taken for a request to the internal service.
pub proof fn law_delivery_streams_are_not_the_bypass(cid: u64)
    ensures
        (StreamKey { cid, stream_id: ISM_STREAM_ID }) != StreamKey::bypass(),
{
}

/// The bypass is one stream, of no client: its CID is zero and its number one. A delivery layer's
/// stream has the number zero.
pub proof fn law_the_bypass_is_of_no_client(key: StreamKey)
    ensures
        key == StreamKey::bypass() <==> key.cid == 0 && key.stream_id == 1,
        ISM_STREAM_ID == 0,
{
}

} // verus!
