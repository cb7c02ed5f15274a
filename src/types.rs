use vstd::prelude::*;
use mev_share::rpc::SendBundleRequest;
use mev_share::sse::Event as ShareEvent;
use crate::engine::{ActionMapping, EventMapping};

verus! {

/// A pending transaction or bundle announced on the MEV-Share event stream.
/// Opaque here: the library moves it without looking inside.
#[verifier::external_type_specification]
#[verifier::external_body]
pub struct ExShareEvent(ShareEvent);

/// A bundle to be submitted to the MEV-Share relay. Opaque here as well.
#[verifier::external_type_specification]
#[verifier::external_body]
pub struct ExSendBundleRequest(SendBundleRequest);

/// Relies on the derived `Clone` of `mev_share::sse::Event`, which copies the
/// event for each strategy it is sent to; nothing is promised of the copy.
pub assume_specification[ <ShareEvent as std::clone::Clone>::clone ](e: &ShareEvent) -> ShareEvent;

/// Relies on the derived `Clone` of `mev_share::rpc::SendBundleRequest`; nothing
/// is promised of the copy.
pub assume_specification[ <SendBundleRequest as std::clone::Clone>::clone ](
    b: &SendBundleRequest,
) -> SendBundleRequest;

/// The events that the strategies of this bot consume, one variant per producer.
#[derive(Debug, Clone)]
pub enum Event {
    MEVShareEvent(ShareEvent),
}

/// The actions that the strategies of this bot emit, one variant per action kind.
#[derive(Debug, Clone)]
pub enum Action {
    SubmitBundle(SendBundleRequest),
}

/// The mapping of the MEV-Share collector: every native event becomes exactly
/// one engine event, its payload kept as it is.
pub struct ShareEventMapping;

impl EventMapping<ShareEvent, Event> for ShareEventMapping {
    open spec fn spec_map(n: ShareEvent) -> Event {
        Event::MEVShareEvent(n)
    }

    fn map(n: ShareEvent) -> (r: Event) {
        Event::MEVShareEvent(n)
    }
}

/// The mapping of the MEV-Share executor: it takes the bundle out of a
/// `SubmitBundle` action.
pub struct SubmitBundleMapping;

impl ActionMapping<Action, SendBundleRequest> for SubmitBundleMapping {
    open spec fn spec_map(a: Action) -> Option<SendBundleRequest> {
        match a {
            Action::SubmitBundle(b) => Some(b),
        }
    }

    fn map(a: Action) -> (r: Option<SendBundleRequest>) {
        match a {
            Action::SubmitBundle(b) => Some(b),
        }
    }
}

} // verus!
