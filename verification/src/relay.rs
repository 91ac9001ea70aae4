use crate::error::{DockerError, DockerErrorView};
use vstd::prelude::*;

verus! {

/// Where a subscription stands.
#[derive(Debug, Clone, Copy, PartialEq, Eq, Structural)]
pub enum RelayState {
    Subscribing,
    Active,
    Completed,
    Failed,
}

/// Which stream a subscription relays.
#[derive(Debug, Clone, Copy, PartialEq, Eq, Structural)]
pub enum StreamKind {
    /// The engine's event stream.
    Events,
    /// The progress of an image pull, forwarded to the sink.
    PullProgress,
    /// An image pull whose progress is awaited but not forwarded.
    Pull,
}

/// What a subscription is told: that its stream is open, or what the stream
/// delivered next.
#[derive(Debug)]
pub enum StreamItem {
    /// The stream has been opened.
    Opened,
    /// An item, serialized.
    Payload(String),
    /// An item that could not be serialized.
    Unserializable,
    /// A stream-level error, by its text.
    Failure(String),
    /// The stream has ended.
    End,
}

/// What a `StreamItem` holds, as mathematical values.
pub enum StreamItemView {
    Opened,
    Payload(Seq<char>),
    Unserializable,
    Failure(Seq<char>),
    End,
}

impl View for StreamItem {
    type V = StreamItemView;

    open spec fn view(&self) -> StreamItemView {
        match self {
            StreamItem::Opened => StreamItemView::Opened,
            StreamItem::Payload(p) => StreamItemView::Payload(p@),
            StreamItem::Unserializable => StreamItemView::Unserializable,
            StreamItem::Failure(e) => StreamItemView::Failure(e@),
            StreamItem::End => StreamItemView::End,
        }
    }
}

/// One notification for the sink: the channel's name and the payload.
#[derive(Debug)]
pub struct Notification {
    pub channel: String,
    pub payload: String,
}

/// What a `Notification` holds, as mathematical values.
pub struct NotificationView {
    pub channel: Seq<char>,
    pub payload: Seq<char>,
}

impl View for Notification {
    type V = NotificationView;

    open spec fn view(&self) -> NotificationView {
        NotificationView { channel: self.channel@, payload: self.payload@ }
    }
}

/// What one step of a subscription yields: the next state, what is to be
/// forwarded to the sink, and the error that ends the operation, if any.
#[derive(Debug)]
pub struct RelayStep {
    pub state: RelayState,
    pub notification: Option<Notification>,
    pub error: Option<DockerError>,
}

/// What a `RelayStep` holds, as mathematical values.
pub struct RelayStepView {
    pub state: RelayState,
    pub notification: Option<NotificationView>,
    pub error: Option<DockerErrorView>,
}

impl View for RelayStep {
    type V = RelayStepView;

    open spec fn view(&self) -> RelayStepView {
        RelayStepView {
            state: self.state,
            notification: match self.notification {
                Some(n) => Some(n@),
                None => None,
            },
            error: match self.error {
                Some(e) => Some(e@),
                None => None,
            },
        }
    }
}

/// The channel on which a stream's items are forwarded; a plain pull
/// forwards none.
pub open spec fn item_channel(kind: StreamKind) -> Option<Seq<char>> {
    match kind {
        StreamKind::Events => Some("docker-event"@),
        StreamKind::PullProgress => Some("pull-progress"@),
        StreamKind::Pull => None,
    }
}

/// What is forwarded for an item with the payload `payload`.
pub open spec fn item_notification(kind: StreamKind, payload: Seq<char>) -> Option<
    NotificationView,
> {
    match item_channel(kind) {
        Some(channel) => Some(NotificationView { channel, payload }),
        None => None,
    }
}

/// The channel on which a stream-level error is reported to the sink; a
/// plain pull has no sink.
pub open spec fn failure_channel(kind: StreamKind) -> Option<Seq<char>> {
    match kind {
        StreamKind::Events => Some("docker-event-error"@),
        StreamKind::PullProgress => Some("pull-progress-error"@),
        StreamKind::Pull => None,
    }
}

/// What is forwarded for a stream-level error: a notification of its own,
/// on the error channel of the stream.
pub open spec fn failure_notification(kind: StreamKind, reason: Seq<char>) -> Option<
    NotificationView,
> {
    match failure_channel(kind) {
        Some(channel) => Some(NotificationView { channel, payload: "Error: "@ + reason }),
        None => None,
    }
}

/// The error that a stream-level error ends a pull with; the event stream
/// has no caller left to report to.
pub open spec fn failure_error(kind: StreamKind, reason: Seq<char>) -> Option<DockerErrorView> {
    match kind {
        StreamKind::Events => None,
        _ => Some(DockerErrorView::OperationError("Failed to pull image: "@ + reason)),
    }
}

/// A step that changes nothing and forwards nothing.
pub open spec fn idle(state: RelayState) -> RelayStepView {
    RelayStepView { state, notification: None, error: None }
}

/// The step that a subscription of the kind `kind` takes in the state
/// `state` on `item`.
///
/// A subscription waits in `Subscribing` until its stream is opened. While
/// `Active` it forwards every serialized item, skips an item that could not
/// be serialized, fails on a stream-level error and completes at the end of
/// the stream. `Completed` and `Failed` are final.
pub open spec fn step(kind: StreamKind, state: RelayState, item: StreamItemView) -> RelayStepView {
    match state {
        RelayState::Subscribing => match item {
            StreamItemView::Opened => idle(RelayState::Active),
            _ => idle(state),
        },
        RelayState::Active => match item {
            StreamItemView::Opened => idle(state),
            StreamItemView::Payload(payload) => RelayStepView {
                state,
                notification: item_notification(kind, payload),
                error: None,
            },
            StreamItemView::Unserializable => idle(state),
            StreamItemView::Failure(reason) => RelayStepView {
                state: RelayState::Failed,
                notification: failure_notification(kind, reason),
                error: failure_error(kind, reason),
            },
            StreamItemView::End => idle(RelayState::Completed),
        },
        _ => idle(state),
    }
}

/// Takes one step of a subscription.
pub fn relay_step(kind: StreamKind, state: RelayState, item: StreamItem) -> (r: RelayStep)
    ensures
        r@ == step(kind, state, item@),
{
    match state {
        RelayState::Subscribing => match item {
            StreamItem::Opened => RelayStep {
                state: RelayState::Active,
                notification: None,
                error: None,
            },
            _ => RelayStep { state, notification: None, error: None },
        },
        RelayState::Active => match item {
            StreamItem::Opened => RelayStep { state, notification: None, error: None },
            StreamItem::Payload(payload) => {
                let notification = match kind {
                    StreamKind::Events => Some(
                        Notification { channel: String::from_str("docker-event"), payload },
                    ),
                    StreamKind::PullProgress => Some(
                        Notification { channel: String::from_str("pull-progress"), payload },
                    ),
                    StreamKind::Pull => None,
                };
                RelayStep { state, notification, error: None }
            },
            StreamItem::Unserializable => RelayStep { state, notification: None, error: None },
            StreamItem::Failure(reason) => {
                let notification = match kind {
                    StreamKind::Events => Some(
                        Notification {
                            channel: String::from_str("docker-event-error"),
                            payload: String::from_str("Error: ").concat(reason.as_str()),
                        },
                    ),
                    StreamKind::PullProgress => Some(
                        Notification {
                            channel: String::from_str("pull-progress-error"),
                            payload: String::from_str("Error: ").concat(reason.as_str()),
                        },
                    ),
                    StreamKind::Pull => None,
                };
                let error = match kind {
                    StreamKind::Events => None,
                    _ => Some(
                        DockerError::OperationError(
                            String::from_str("Failed to pull image: ").concat(reason.as_str()),
                        ),
                    ),
                };
                RelayStep { state: RelayState::Failed, notification, error }
            },
            StreamItem::End => RelayStep {
                state: RelayState::Completed,
                notification: None,
                error: None,
            },
        },
        _ => RelayStep { state, notification: None, error: None },
    }
}


/// What relaying a sequence of items yields: the final state and everything
/// that was forwarded, in the order of forwarding.
#[derive(Debug)]
pub struct RelayRun {
    pub state: RelayState,
    pub notifications: Vec<Notification>,
}

/// The state of a subscription after the items `items`, one step each.
pub open spec fn state_after(kind: StreamKind, state: RelayState, items: Seq<StreamItemView>)
    -> RelayState
    decreases items.len(),
{
    if items.len() == 0 {
        state
    } else {
        step(kind, state_after(kind, state, items.drop_last()), items.last()).state
    }
}

/// Everything that a subscription forwards on the items `items`, in the
/// order of the items.
pub open spec fn forwarded(kind: StreamKind, state: RelayState, items: Seq<StreamItemView>) -> Seq<
    NotificationView,
>
    decreases items.len(),
{
    if items.len() == 0 {
        Seq::empty()
    } else {
        let before = forwarded(kind, state, items.drop_last());
        match step(kind, state_after(kind, state, items.drop_last()), items.last()).notification {
            Some(n) => before.push(n),
            None => before,
        }
    }
}

/// The views of a sequence of items.
pub open spec fn item_views(items: Seq<StreamItem>) -> Seq<StreamItemView> {
    items.map_values(|i: StreamItem| i@)
}

impl Clone for StreamItem {
    fn clone(&self) -> (r: StreamItem)
        ensures
            r@ == self@,
    {
        match self {
            StreamItem::Opened => StreamItem::Opened,
            StreamItem::Payload(p) => StreamItem::Payload(p.clone()),
            StreamItem::Unserializable => StreamItem::Unserializable,
            StreamItem::Failure(e) => StreamItem::Failure(e.clone()),
            StreamItem::End => StreamItem::End,
        }
    }
}

/// Relays a whole sequence of items, one step each, and collects what is
/// forwarded.
pub fn relay_all(kind: StreamKind, state: RelayState, items: &Vec<StreamItem>) -> (r: RelayRun)
    ensures
        r.state == state_after(kind, state, item_views(items@)),
        r.notifications@.map_values(|n: Notification| n@) == forwarded(
            kind,
            state,
            item_views(items@),
        ),
{
    let ghost all = item_views(items@);
    let mut current = state;
    let mut notifications: Vec<Notification> = Vec::new();
    let mut i: usize = 0;
    assert(all.take(0) =~= Seq::<StreamItemView>::empty());
    while i < items.len()
        invariant
            i <= items.len(),
            all == item_views(items@),
            current == state_after(kind, state, all.take(i as int)),
            notifications@.map_values(|n: Notification| n@) == forwarded(
                kind,
                state,
                all.take(i as int),
            ),
        decreases items.len() - i,
    {
        let item = items[i].clone();
        proof {
            assert(item@ == all[i as int]);
            assert(all.take(i + 1).drop_last() =~= all.take(i as int));
            assert(all.take(i + 1).last() == all[i as int]);
        }
        let taken = relay_step(kind, current, item);
        current = taken.state;
        if let Some(notification) = taken.notification {
            proof {
                assert(notifications@.push(notification).map_values(|n: Notification| n@)
                    =~= notifications@.map_values(|n: Notification| n@).push(notification@));
            }
            notifications.push(notification);
        }
        i = i + 1;
    }
    assert(all.take(items.len() as int) =~= all);
    RelayRun { state: current, notifications }
}


/// The items that a sequence of payloads arrives as.
pub open spec fn payload_items(payloads: Seq<Seq<char>>) -> Seq<StreamItemView> {
    payloads.map_values(|p: Seq<char>| StreamItemView::Payload(p))
}

/// The notifications that carry a sequence of payloads on one channel.
pub open spec fn payload_notifications(channel: Seq<char>, payloads: Seq<Seq<char>>) -> Seq<
    NotificationView,
> {
    payloads.map_values(|p: Seq<char>| NotificationView { channel, payload: p })
}

/// An active subscription forwards the items of its stream in the order of
/// their arrival, each exactly once, and stays active: what reaches the
/// sink is the sequence of payloads itself, on the stream's channel.
pub proof fn lemma_relay_keeps_order(kind: StreamKind, payloads: Seq<Seq<char>>)
    requires
        item_channel(kind) is Some,
    ensures
        state_after(kind, RelayState::Active, payload_items(payloads)) == RelayState::Active,
        forwarded(kind, RelayState::Active, payload_items(payloads)) == payload_notifications(
            item_channel(kind)->0,
            payloads,
        ),
    decreases payloads.len(),
{
    let items = payload_items(payloads);
    let channel = item_channel(kind)->0;
    if payloads.len() == 0 {
        assert(forwarded(kind, RelayState::Active, items) =~= payload_notifications(
            channel,
            payloads,
        ));
    } else {
        let shorter = payloads.drop_last();
        lemma_relay_keeps_order(kind, shorter);
        assert(items.drop_last() =~= payload_items(shorter));
        assert(items.last() == StreamItemView::Payload(payloads.last()));
        assert(payload_notifications(channel, payloads) =~= payload_notifications(
            channel,
            shorter,
        ).push(NotificationView { channel, payload: payloads.last() }));
    }
}

/// A subscription that has completed or failed stays as it is and forwards
/// nothing more, whatever arrives.
pub proof fn lemma_final_states_are_silent(
    kind: StreamKind,
    state: RelayState,
    items: Seq<StreamItemView>,
)
    requires
        state == RelayState::Completed || state == RelayState::Failed,
    ensures
        state_after(kind, state, items) == state,
        forwarded(kind, state, items) == Seq::<NotificationView>::empty(),
    decreases items.len(),
{
    if items.len() > 0 {
        lemma_final_states_are_silent(kind, state, items.drop_last());
    }
}


/// `bollard::models::EventMessage`, one event of the engine; nothing is
/// known of what it holds.
#[verifier::external_type_specification]
#[verifier::external_body]
pub struct ExEventMessage(bollard::models::EventMessage);

/// `bollard::models::CreateImageInfo`, one progress report of an image
/// pull; nothing is known of what it holds.
#[verifier::external_type_specification]
#[verifier::external_body]
pub struct ExCreateImageInfo(bollard::models::CreateImageInfo);

/// Calls `serde_json::to_string` on an engine event: the event as JSON, or
/// nothing where it cannot be serialized.
#[verifier::external_body]
fn event_json(event: &bollard::models::EventMessage) -> Option<String> {
    serde_json::to_string(event).ok()
}

/// The JSON text that the progress of an image pull serializes to; nothing
/// where it cannot be serialized. The record holds strings and integers
/// only, so its text depends on the record alone.
pub uninterp spec fn progress_text(progress: bollard::models::CreateImageInfo) -> Option<Seq<char>>;

/// Calls `serde_json::to_string` on the progress of an image pull: the
/// progress as JSON, or nothing where it cannot be serialized.
#[verifier::external_body]
fn progress_json(progress: &bollard::models::CreateImageInfo) -> (r: Option<String>)
    ensures
        match r {
            Some(json) => progress_text(*progress) == Some(json@),
            None => progress_text(*progress) is None,
        },
{
    serde_json::to_string(progress).ok()
}

/// The item that a serialized payload arrives as: the payload itself, or
/// the mark of an item that could not be serialized.
pub open spec fn serialized_item(json: Option<Seq<char>>) -> StreamItemView {
    match json {
        Some(text) => StreamItemView::Payload(text),
        None => StreamItemView::Unserializable,
    }
}

impl StreamItem {
    /// The item that the outcome of serializing a stream's item arrives as.
    pub fn from_serialized(json: Option<String>) -> (r: StreamItem)
        ensures
            r@ == serialized_item(
                match json {
                    Some(text) => Some(text@),
                    None => None,
                },
            ),
    {
        match json {
            Some(text) => StreamItem::Payload(text),
            None => StreamItem::Unserializable,
        }
    }

    /// What the event stream delivered, as a subscription is told it: the
    /// end of the stream, an event in serialized form or one that cannot be
    /// serialized, or the text of a stream-level error.
    pub fn from_event(
        next: Option<Result<bollard::models::EventMessage, bollard::errors::Error>>,
    ) -> (r: StreamItem)
        ensures
            match next {
                None => r@ is End,
                Some(Ok(_)) => r@ is Payload || r@ is Unserializable,
                Some(Err(_)) => r@ is Failure,
            },
    {
        match next {
            None => StreamItem::End,
            Some(Ok(event)) => StreamItem::from_serialized(event_json(&event)),
            Some(Err(e)) => StreamItem::Failure(crate::connection::error_text(&e)),
        }
    }

    /// What the progress stream of an image pull delivered, as a
    /// subscription is told it: the end of the stream, the progress in
    /// serialized form or the mark that it cannot be serialized, or the text
    /// of a stream-level error.
    pub fn from_progress(
        next: Option<Result<bollard::models::CreateImageInfo, bollard::errors::Error>>,
    ) -> (r: StreamItem)
        ensures
            match next {
                None => r@ is End,
                Some(Ok(progress)) => r@ == serialized_item(progress_text(progress)),
                Some(Err(_)) => r@ is Failure,
            },
    {
        match next {
            None => StreamItem::End,
            Some(Ok(progress)) => StreamItem::from_serialized(progress_json(&progress)),
            Some(Err(e)) => StreamItem::Failure(crate::connection::error_text(&e)),
        }
    }
}

} // verus!
