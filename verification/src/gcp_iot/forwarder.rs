//! The forwarding of events from the outbound queue to the session.

use crate::gcp_iot::{DeviceIdentity, DeviceIdentityView};
use crate::manufacturing_components::feeder::Event;
use vstd::prelude::*;

verus! {

/// The quality of service of every publication and subscription: delivery
/// at least once.
pub const QOS_1: i32 = 1;

/// One message to publish.
#[derive(Clone, Debug, PartialEq, Eq)]
pub struct Publication {
    pub topic: String,
    pub payload: String,
    pub qos: i32,
}

/// Whether `publication` is what tells of `event` on behalf of the device
/// `identity`: on the topic of the component that the event comes from, with
/// the event's JSON text as the body.
pub open spec fn tells_of(
    publication: Publication,
    identity: DeviceIdentityView,
    event: Event,
) -> bool {
    &&& publication.topic@ == identity.events_topic(event.spec_source())
    &&& publication.payload@ == event.spec_payload()
    &&& publication.qos == QOS_1
}

/// The message that tells of `event`.
pub fn publication(identity: &DeviceIdentity, event: Event) -> (r: Publication)
    ensures
        tells_of(r, identity@, event),
{
    Publication {
        topic: identity.events_topic(event.source()),
        payload: String::from_str(event.payload()),
        qos: QOS_1,
    }
}

/// The messages that tell of the events of `queue`: one for each event, in
/// the order of the queue. No event is dropped and none is moved.
pub fn publications(identity: &DeviceIdentity, queue: &Vec<Event>) -> (r: Vec<Publication>)
    ensures
        r@.len() == queue@.len(),
        forall|i: int| 0 <= i < queue@.len() ==> tells_of(#[trigger] r@[i], identity@, queue@[i]),
{
    let mut out: Vec<Publication> = Vec::new();
    let mut i: usize = 0;
    while i < queue.len()
        invariant
            i <= queue.len(),
            out@.len() == i,
            forall|j: int| 0 <= j < i ==> tells_of(#[trigger] out@[j], identity@, queue@[j]),
        decreases queue.len() - i,
    {
        out.push(publication(identity, queue[i]));
        i = i + 1;
    }
    out
}

} // verus!
