//! Where a peer connection's datagram channel is.
//!
//! The channel is offered once for each peer connection, and dropping its receive half tears the
//! path down. Every transition therefore either keeps the halves reachable or declares the path
//! gone.
//!
//! A simultaneous connect makes two connections with one peer, and two offers. All that are
//! outstanding are kept, and the first open races them: were one to replace the other, the
//! connection that survives could be the one whose offer was lost.

use vstd::prelude::*;

verus! {

/// Where a peer connection's datagram channel is. `O` is an offer that has not been delivered on,
/// `T` the send half and `X` the receive half.
pub enum UdpState<O, T, X> {
    /// Offers that have not been delivered on yet.
    Pending(Vec<O>),
    /// A first open is waiting for an offer.
    Opening,
    /// Both halves, parked between calls.
    Idle { tx: T, rx: X },
    /// The receive half is in a live call.
    Lent { tx: T },
    /// No usable path. Only a new offer recovers from this.
    Unavailable,
}

impl<O, T, X> UdpState<O, T, X> {
    /// The state of a new peer connection: one offer, or no path at all.
    pub fn from_optional_channel(udp_rx: Option<O>) -> (state: Self)
        ensures
            match udp_rx {
                Some(offer) => state matches UdpState::Pending(offers) && offers@ == seq![offer],
                None => state is Unavailable,
            },
    {
        match udp_rx {
            Some(rx) => {
                let mut offers: Vec<O> = Vec::new();
                offers.push(rx);
                assert(offers@ =~= seq![rx]);
                UdpState::Pending(offers)
            },
            None => UdpState::Unavailable,
        }
    }

    /// Record one more offer for this peer.
    ///
    /// Offers accumulate rather than replace each other, and one recovers a connection without a
    /// path. A state that already has a usable path, or an open in flight, is left alone.
    pub fn offer(&mut self, rx: O)
        ensures
            match *old(self) {
                UdpState::Pending(offers) => *final(self) matches UdpState::Pending(more) && more@
                    == offers@.push(rx),
                UdpState::Unavailable => *final(self) matches UdpState::Pending(offers) && offers@
                    == seq![rx],
                _ => *final(self) == *old(self),
            },
    {
        match self {
            UdpState::Pending(offers) => {
                offers.push(rx);
            },
            UdpState::Unavailable => {
                let mut offers: Vec<O> = Vec::new();
                offers.push(rx);
                assert(offers@ =~= seq![rx]);
                *self = UdpState::Pending(offers);
            },
            _ => {},
        }
    }

    /// How many offers are outstanding.
    pub fn pending_offers(&self) -> (n: usize)
        ensures
            n == match *self {
                UdpState::Pending(offers) => offers@.len(),
                _ => 0,
            },
    {
        match self {
            UdpState::Pending(offers) => offers.len(),
            _ => 0,
        }
    }
}

/// A new connection has one offer where there is one, and counts it.
pub proof fn law_a_new_connection_has_its_one_offer<O, T, X>(
    udp_rx: Option<O>,
    state: UdpState<O, T, X>,
    n: usize,
)
    requires
        call_ensures(UdpState::<O, T, X>::from_optional_channel, (udp_rx,), state),
        call_ensures(UdpState::<O, T, X>::pending_offers, (&state,), n),
    ensures
        udp_rx is Some ==> n == 1 && (state matches UdpState::Pending(offers) && offers@[0]
            == udp_rx->0),
        udp_rx is None ==> n == 0 && state is Unavailable,
{
}

/// Offers accumulate, none in place of another, and one makes a lost path usable again; a path that
/// is there, or is being opened, is left alone.
pub proof fn law_offers_accumulate<O, T, X>(rx: O)
    ensures
        forall|state: &mut UdpState<O, T, X>| #[trigger]
            call_ensures(UdpState::<O, T, X>::offer, (state, rx), ()) ==> match *state {
                UdpState::Pending(offers) => *final(state) matches UdpState::Pending(more)
                    && more@.len() == offers@.len() + 1 && more@.take(offers@.len() as int)
                    == offers@ && more@.last() == rx,
                UdpState::Unavailable => *final(state) matches UdpState::Pending(offers)
                    && offers@.len() == 1 && offers@[0] == rx,
                _ => *final(state) == *state,
            },
{
    assert forall|state: &mut UdpState<O, T, X>| #[trigger]
        call_ensures(UdpState::<O, T, X>::offer, (state, rx), ()) implies match *state {
        UdpState::Pending(offers) => *final(state) matches UdpState::Pending(more) && more@.len()
            == offers@.len() + 1 && more@.take(offers@.len() as int) == offers@ && more@.last()
            == rx,
        UdpState::Unavailable => *final(state) matches UdpState::Pending(offers) && offers@.len()
            == 1 && offers@[0] == rx,
        _ => *final(state) == *state,
    } by {
        if let UdpState::Pending(offers) = *state {
            let more = final(state)->Pending_0@;
            assert(more == offers@.push(rx));
            assert(more.take(offers@.len() as int) =~= offers@);
        }
    }
}

} // verus!
