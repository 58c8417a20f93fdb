use vstd::prelude::*;

verus! {

use crate::filter::{FilterConfig, eligible, is_eligible};

/// How many seconds back a (re)subscription reaches: the bounded recent
/// window that avoids re-processing ancient history on reconnect.
pub const SUBSCRIBE_WINDOW_SECS: u64 = 30;

/// The ingestion loop's connection state.
#[derive(Clone, Copy, Debug, PartialEq, Eq, Structural)]
pub enum FeedState {
    Disconnected,
    Subscribed,
}

/// What the feed connection reported to the ingestion loop.
#[derive(Clone, Copy, Debug, PartialEq, Eq, Structural)]
pub enum FeedSignal {
    /// Connecting and subscribing succeeded.
    SubscribeOk,
    /// Connecting or subscribing failed.
    SubscribeFailed,
    /// A notification carrying an event arrived.
    EventArrived,
    /// The connection was lost.
    ConnectionLost,
}

/// What the loop must do next. The loop never terminates on a feed
/// failure: every disconnection leads back to a resubscribe attempt.
#[derive(Clone, Copy, Debug, PartialEq, Eq, Structural)]
pub enum FeedDirective {
    /// Reconnect and subscribe again (after a bounded backoff).
    Resubscribe,
    /// Hand the arrived event to the commit path.
    HandleEvent,
    /// Nothing to do.
    Ignore,
}

/// The ingestion loop's transition relation: subscribed on success, back to
/// disconnected (and resubscribing) on any connection-level failure, and
/// events are handled only while subscribed.
pub open spec fn feed_step_model(s: FeedState, sig: FeedSignal) -> (FeedState, FeedDirective) {
    match (s, sig) {
        (FeedState::Disconnected, FeedSignal::SubscribeOk) => (
            FeedState::Subscribed,
            FeedDirective::Ignore,
        ),
        (FeedState::Disconnected, FeedSignal::SubscribeFailed) => (
            FeedState::Disconnected,
            FeedDirective::Resubscribe,
        ),
        (FeedState::Disconnected, FeedSignal::EventArrived) => (
            FeedState::Disconnected,
            FeedDirective::Ignore,
        ),
        (FeedState::Disconnected, FeedSignal::ConnectionLost) => (
            FeedState::Disconnected,
            FeedDirective::Resubscribe,
        ),
        (FeedState::Subscribed, FeedSignal::SubscribeOk) => (
            FeedState::Subscribed,
            FeedDirective::Ignore,
        ),
        (FeedState::Subscribed, FeedSignal::SubscribeFailed) => (
            FeedState::Disconnected,
            FeedDirective::Resubscribe,
        ),
        (FeedState::Subscribed, FeedSignal::EventArrived) => (
            FeedState::Subscribed,
            FeedDirective::HandleEvent,
        ),
        (FeedState::Subscribed, FeedSignal::ConnectionLost) => (
            FeedState::Disconnected,
            FeedDirective::Resubscribe,
        ),
    }
}

/// One step of the ingestion loop's control flow. Pure: the caller performs
/// the returned directive (resubscribe with backoff, or hand the event to
/// the commit path) and reports the next signal.
pub fn feed_step(s: FeedState, sig: FeedSignal) -> (r: (FeedState, FeedDirective))
    ensures
        r == feed_step_model(s, sig),
        sig == FeedSignal::ConnectionLost ==> r.1 == FeedDirective::Resubscribe,
        r.1 == FeedDirective::HandleEvent ==> s == FeedState::Subscribed && sig
            == FeedSignal::EventArrived,
{
    match (s, sig) {
        (FeedState::Disconnected, FeedSignal::SubscribeOk) => (
            FeedState::Subscribed,
            FeedDirective::Ignore,
        ),
        (FeedState::Disconnected, FeedSignal::SubscribeFailed) => (
            FeedState::Disconnected,
            FeedDirective::Resubscribe,
        ),
        (FeedState::Disconnected, FeedSignal::EventArrived) => (
            FeedState::Disconnected,
            FeedDirective::Ignore,
        ),
        (FeedState::Disconnected, FeedSignal::ConnectionLost) => (
            FeedState::Disconnected,
            FeedDirective::Resubscribe,
        ),
        (FeedState::Subscribed, FeedSignal::SubscribeOk) => (
            FeedState::Subscribed,
            FeedDirective::Ignore,
        ),
        (FeedState::Subscribed, FeedSignal::SubscribeFailed) => (
            FeedState::Disconnected,
            FeedDirective::Resubscribe,
        ),
        (FeedState::Subscribed, FeedSignal::EventArrived) => (
            FeedState::Subscribed,
            FeedDirective::HandleEvent,
        ),
        (FeedState::Subscribed, FeedSignal::ConnectionLost) => (
            FeedState::Disconnected,
            FeedDirective::Resubscribe,
        ),
    }
}

/// The time lower bound of a (re)subscription filter: `now` minus the
/// bounded recent window, saturating at the epoch.
pub fn since_lower_bound(now: u64, window: u64) -> (r: u64)
    ensures
        window <= now ==> r == now - window,
        window > now ==> r == 0,
{
    if window <= now {
        now - window
    } else {
        0
    }
}

/// The per-notification decision of the ingestion loop: an event goes to
/// the commit path only when it belongs to this loop's own subscription and
/// its category is eligible for notarization.
pub fn should_notarize(subscription_matches: bool, cfg: &FilterConfig, category: u16) -> (r: bool)
    ensures
        r == (subscription_matches && eligible(*cfg, category)),
{
    subscription_matches && is_eligible(cfg, category)
}

} // verus!
