//! What a subscriber of the event stream receives.

use vstd::prelude::*;

use crate::error::Error;
use crate::types::Event;

verus! {

/// The number of dropped events as a `usize`, saturating at `usize::MAX`.
pub fn clamp_missed(missed: u64) -> (n: usize)
    ensures
        n == (if missed <= usize::MAX {
            missed as usize
        } else {
            usize::MAX
        }),
{
    if missed <= usize::MAX as u64 {
        missed as usize
    } else {
        usize::MAX
    }
}

/// What the event channel yielded to one subscriber.
pub enum Received {
    /// The next event.
    Event(Event),
    /// The subscriber fell behind and this many events were dropped.
    Lagged(u64),
}

/// The item a subscriber gets for what the channel yielded: an event, or
/// the report of how many events were dropped.
pub open spec fn received_item(r: Received) -> Result<Event, Error> {
    match r {
        Received::Event(ev) => Ok(ev),
        Received::Lagged(missed) => Err(Error::EventLagged {
            missed: if missed <= usize::MAX {
                missed as usize
            } else {
                usize::MAX
            },
        }),
    }
}

impl Received {
    /// The item a subscriber gets for what the channel yielded.
    pub fn into_item(self) -> (r: Result<Event, Error>)
        ensures
            r == received_item(self),
    {
        match self {
            Received::Event(ev) => Ok(ev),
            Received::Lagged(missed) => Err(Error::EventLagged { missed: clamp_missed(missed) }),
        }
    }
}

/// The result of waiting for the next event: the channel's item, or
/// `Disconnected` once the channel has closed.
pub fn recv_result(next: Option<Received>) -> (r: Result<Event, Error>)
    ensures
        match next {
            Some(x) => r == received_item(x),
            None => r == Err::<Event, Error>(Error::Disconnected),
        },
{
    match next {
        Some(x) => x.into_item(),
        None => Err(Error::Disconnected),
    }
}

} // verus!
