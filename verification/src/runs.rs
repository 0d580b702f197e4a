//! Whole runs of the router: what [`step`] does from the first call to the
//! last, against any settings store and chat platform.

use crate::model::{ChatMessageView, EventKind, GuildSettingsView, InboundEvent};
use crate::router::{
    guild_of, pin_of, redirect_message, reference_of, step, ActionView, Outcome, PinboardError,
    ReplyView, Skip, StageView,
};
use vstd::prelude::*;

verus! {

/// The calls that a run made, in order, and how it ended. `end` is `None`
/// where the run was cut off before it ended.
pub struct Run {
    pub calls: Seq<ActionView>,
    pub end: Option<Result<Outcome, PinboardError>>,
}

/// The run that goes on from `stage` with `reply` in hand, for at most
/// `fuel` decisions. `world` answers each call.
pub open spec fn run_from(
    event: InboundEvent,
    world: spec_fn(ActionView) -> ReplyView,
    stage: StageView,
    reply: ReplyView,
    fuel: nat,
) -> Run
    decreases fuel,
{
    if fuel == 0 {
        Run { calls: Seq::empty(), end: None }
    } else {
        let (next, action) = step(event, stage, reply);
        match action {
            ActionView::Finish(end) => Run { calls: Seq::empty(), end: Some(end) },
            _ => {
                let rest = run_from(event, world, next, world(action), (fuel - 1) as nat);
                Run { calls: seq![action] + rest.calls, end: rest.end }
            },
        }
    }
}

/// The most decisions that a run takes.
pub open spec fn longest_run() -> nat {
    6
}

/// The run of `event` from the start, in a world that answers each call as
/// `world` says.
pub open spec fn run(event: InboundEvent, world: spec_fn(ActionView) -> ReplyView) -> Run {
    run_from(event, world, StageView::Start, ReplyView::Nothing, longest_run())
}

/// Whether a call posts a message or removes a pin.
pub open spec fn writes(action: ActionView) -> bool {
    action is Send || action is Unpin
}

/// The settings let the event through: the feature is on, has an archive
/// channel, and watches the event's channel.
pub open spec fn lets_through(event: InboundEvent, settings: GuildSettingsView) -> bool {
    &&& settings.pinboard_enabled
    &&& settings.pinboard_channel is Some
    &&& settings.pinboard_watch is Some ==> settings.pinboard_watch->0.contains(event.channel_id)
}

/// Every run ends, whatever the world answers.
pub proof fn run_ends(event: InboundEvent, world: spec_fn(ActionView) -> ReplyView)
    ensures
        run(event, world).end is Some,
{
    reveal_with_fuel(run_from, 7);
}

/// An event that is not a pin ends in success without a single call.
pub proof fn other_events_make_no_calls(
    event: InboundEvent,
    world: spec_fn(ActionView) -> ReplyView,
)
    requires
        event.kind != EventKind::PinsAdd,
    ensures
        run(event, world).end == Some(
            Ok::<Outcome, PinboardError>(Outcome::Skipped(Skip::NotAPin)),
        ),
        run(event, world).calls.len() == 0,
{
    reveal_with_fuel(run_from, 7);
}

/// Where the guild has the feature off or has no archive channel, a run
/// ends in success and neither posts nor unpins.
pub proof fn disabled_guild_is_left_alone(
    event: InboundEvent,
    world: spec_fn(ActionView) -> ReplyView,
    settings: GuildSettingsView,
)
    requires
        world(ActionView::FetchSettings { guild_id: guild_of(event) }) == ReplyView::Settings(
            settings,
        ),
        !settings.pinboard_enabled || settings.pinboard_channel is None,
    ensures
        run(event, world).end is Some,
        run(event, world).end->0 is Ok,
        forall|i: int|
            0 <= i < run(event, world).calls.len() ==> !writes(
                #[trigger] run(event, world).calls[i],
            ),
        event.kind == EventKind::PinsAdd ==> run(event, world) == (Run {
            calls: seq![ActionView::FetchSettings { guild_id: guild_of(event) }],
            end: Some(Ok(Outcome::Skipped(Skip::Disabled))),
        }),
{
    reveal_with_fuel(run_from, 7);
    if event.kind == EventKind::PinsAdd {
        let first = ActionView::FetchSettings { guild_id: guild_of(event) };
        assert(run(event, world).calls =~= seq![first]);
    }
}

/// Where the guild has a watch list without the event's channel, a run
/// ends in success and asks for nothing but the settings.
pub proof fn unwatched_channel_is_left_alone(
    event: InboundEvent,
    world: spec_fn(ActionView) -> ReplyView,
    settings: GuildSettingsView,
)
    requires
        world(ActionView::FetchSettings { guild_id: guild_of(event) }) == ReplyView::Settings(
            settings,
        ),
        settings.pinboard_watch is Some,
        !settings.pinboard_watch->0.contains(event.channel_id),
    ensures
        run(event, world).end is Some,
        run(event, world).end->0 matches Ok(outcome) && outcome is Skipped,
        forall|i: int|
            0 <= i < run(event, world).calls.len() ==> #[trigger] run(event, world).calls[i]
                is FetchSettings,
{
    reveal_with_fuel(run_from, 7);
}

/// A pin event that gets past the guild's settings and names no pinned
/// message fails with `MissingReference`, before any pin is listed.
pub proof fn missing_reference_fails(
    event: InboundEvent,
    world: spec_fn(ActionView) -> ReplyView,
    settings: GuildSettingsView,
)
    requires
        event.kind == EventKind::PinsAdd,
        world(ActionView::FetchSettings { guild_id: guild_of(event) }) == ReplyView::Settings(
            settings,
        ),
        lets_through(event, settings),
        reference_of(event) is None,
    ensures
        run(event, world) == (Run {
            calls: seq![ActionView::FetchSettings { guild_id: guild_of(event) }],
            end: Some(Err(PinboardError::MissingReference)),
        }),
{
    reveal_with_fuel(run_from, 7);
    let first = ActionView::FetchSettings { guild_id: guild_of(event) };
    assert(run(event, world).calls =~= seq![first]);
}

/// Where the pinned message is not among the channel's pins, a run fails
/// with `PinNotFound` and neither posts nor unpins.
pub proof fn unlisted_pin_fails(
    event: InboundEvent,
    world: spec_fn(ActionView) -> ReplyView,
    settings: GuildSettingsView,
    pins: Seq<ChatMessageView>,
)
    requires
        event.kind == EventKind::PinsAdd,
        world(ActionView::FetchSettings { guild_id: guild_of(event) }) == ReplyView::Settings(
            settings,
        ),
        lets_through(event, settings),
        reference_of(event) is Some,
        world(ActionView::FetchPins { channel_id: event.channel_id }) == ReplyView::Pins(pins),
        forall|i: int| 0 <= i < pins.len() ==> (#[trigger] pins[i]).id != reference_of(event)->0,
    ensures
        run(event, world) == (Run {
            calls: seq![
                ActionView::FetchSettings { guild_id: guild_of(event) },
                ActionView::FetchPins { channel_id: event.channel_id },
            ],
            end: Some(Err(PinboardError::PinNotFound)),
        }),
{
    reveal_with_fuel(run_from, 7);
    pin_of_finds_the_first(pins, reference_of(event)->0);
    let first = ActionView::FetchSettings { guild_id: guild_of(event) };
    let second = ActionView::FetchPins { channel_id: event.channel_id };
    assert(run(event, world).calls =~= seq![first, second]);
}

/// `pin_of` gives the message at the least index that has the id, and
/// nothing exactly when no message has it.
pub proof fn pin_of_finds_the_first(pins: Seq<ChatMessageView>, reference_id: u64)
    ensures
        match pin_of(pins, reference_id) {
            Some(pin) => exists|i: int|
                0 <= i < pins.len() && #[trigger] pins[i] == pin && pin.id == reference_id
                    && forall|j: int| 0 <= j < i ==> (#[trigger] pins[j]).id != reference_id,
            None => forall|i: int| 0 <= i < pins.len() ==> (#[trigger] pins[i]).id != reference_id,
        },
    decreases pins.len(),
{
    if pins.len() == 0 {
    } else if pins[0].id == reference_id {
    } else {
        let rest = pins.drop_first();
        pin_of_finds_the_first(rest, reference_id);
        match pin_of(rest, reference_id) {
            Some(pin) => {
                let i = choose|i: int|
                    0 <= i < rest.len() && #[trigger] rest[i] == pin && pin.id == reference_id
                        && forall|j: int| 0 <= j < i ==> (#[trigger] rest[j]).id != reference_id;
                assert(pins[i + 1] == pin);
                assert forall|j: int| 0 <= j < i + 1 implies (#[trigger] pins[j]).id
                    != reference_id by {
                    if j > 0 {
                        assert(pins[j] == rest[j - 1]);
                    }
                }
            },
            None => {
                assert forall|i: int| 0 <= i < pins.len() implies (#[trigger] pins[i]).id
                    != reference_id by {
                    if i > 0 {
                        assert(pins[i] == rest[i - 1]);
                    }
                }
            },
        }
    }
}

/// The calls of a run that gets as far as posting the summary of `pin`.
pub open spec fn calls_up_to_send(
    event: InboundEvent,
    settings: GuildSettingsView,
    pin: ChatMessageView,
    color: Option<u32>,
) -> Seq<ActionView> {
    seq![
        ActionView::FetchSettings { guild_id: guild_of(event) },
        ActionView::FetchPins { channel_id: event.channel_id },
        ActionView::ResolveColor { guild_id: guild_of(event), user_id: pin.author_member_id },
        ActionView::Send {
            channel_id: settings.pinboard_channel->0,
            message: redirect_message(event.pinner_id, pin, color),
        },
    ]
}

/// The world answers the first three calls of a redirect: it lets the
/// event through, lists the pinned message as `pin`, and tells `color`.
pub open spec fn finds_pin(
    event: InboundEvent,
    world: spec_fn(ActionView) -> ReplyView,
    settings: GuildSettingsView,
    pins: Seq<ChatMessageView>,
    pin: ChatMessageView,
    color: Option<u32>,
) -> bool {
    &&& event.kind == EventKind::PinsAdd
    &&& world(ActionView::FetchSettings { guild_id: guild_of(event) }) == ReplyView::Settings(
        settings,
    )
    &&& lets_through(event, settings)
    &&& reference_of(event) is Some
    &&& world(ActionView::FetchPins { channel_id: event.channel_id }) == ReplyView::Pins(pins)
    &&& pin_of(pins, reference_of(event)->0) == Some(pin)
    &&& world(
        ActionView::ResolveColor { guild_id: guild_of(event), user_id: pin.author_member_id },
    ) == ReplyView::Color(color)
}

/// Where everything succeeds, the summary is posted once to the archive
/// channel and the pin is then removed from the event's channel.
pub proof fn redirect_posts_then_unpins(
    event: InboundEvent,
    world: spec_fn(ActionView) -> ReplyView,
    settings: GuildSettingsView,
    pins: Seq<ChatMessageView>,
    pin: ChatMessageView,
    color: Option<u32>,
)
    requires
        finds_pin(event, world, settings, pins, pin, color),
        world(calls_up_to_send(event, settings, pin, color)[3]) == ReplyView::Done,
        world(ActionView::Unpin { channel_id: event.channel_id, message_id: pin.id })
            == ReplyView::Done,
    ensures
        run(event, world) == (Run {
            calls: calls_up_to_send(event, settings, pin, color).push(
                ActionView::Unpin { channel_id: event.channel_id, message_id: pin.id },
            ),
            end: Some(Ok(Outcome::Redirected { warning: None })),
        }),
{
    reveal_with_fuel(run_from, 7);
    assert(run(event, world).calls =~= calls_up_to_send(event, settings, pin, color).push(
        ActionView::Unpin { channel_id: event.channel_id, message_id: pin.id },
    ));
}

/// Where the summary was posted and the unpin fails, the run still ends
/// in success, with a warning, and the summary was posted once only.
pub proof fn failed_unpin_is_a_warning(
    event: InboundEvent,
    world: spec_fn(ActionView) -> ReplyView,
    settings: GuildSettingsView,
    pins: Seq<ChatMessageView>,
    pin: ChatMessageView,
    color: Option<u32>,
)
    requires
        finds_pin(event, world, settings, pins, pin, color),
        world(calls_up_to_send(event, settings, pin, color)[3]) == ReplyView::Done,
        world(ActionView::Unpin { channel_id: event.channel_id, message_id: pin.id })
            != ReplyView::Done,
    ensures
        run(event, world) == (Run {
            calls: calls_up_to_send(event, settings, pin, color).push(
                ActionView::Unpin { channel_id: event.channel_id, message_id: pin.id },
            ),
            end: Some(Ok(Outcome::Redirected { warning: Some(PinboardError::UnpinWarning) })),
        }),
{
    reveal_with_fuel(run_from, 7);
    assert(run(event, world).calls =~= calls_up_to_send(event, settings, pin, color).push(
        ActionView::Unpin { channel_id: event.channel_id, message_id: pin.id },
    ));
}

/// Where posting the summary fails, the run fails with
/// `RedirectSendError` and the pin is never removed.
pub proof fn failed_send_keeps_the_pin(
    event: InboundEvent,
    world: spec_fn(ActionView) -> ReplyView,
    settings: GuildSettingsView,
    pins: Seq<ChatMessageView>,
    pin: ChatMessageView,
    color: Option<u32>,
)
    requires
        finds_pin(event, world, settings, pins, pin, color),
        world(calls_up_to_send(event, settings, pin, color)[3]) != ReplyView::Done,
    ensures
        run(event, world) == (Run {
            calls: calls_up_to_send(event, settings, pin, color),
            end: Some(Err(PinboardError::RedirectSendError)),
        }),
{
    reveal_with_fuel(run_from, 7);
    assert(run(event, world).calls =~= calls_up_to_send(event, settings, pin, color));
}

/// Whatever the world answers, a pin is removed only right after its
/// summary was posted with success: where posting fails, or is never
/// reached, the pin stays in place.
pub proof fn unpin_only_follows_a_send(
    event: InboundEvent,
    world: spec_fn(ActionView) -> ReplyView,
    i: int,
)
    requires
        0 <= i < run(event, world).calls.len(),
        run(event, world).calls[i] is Unpin,
    ensures
        i > 0,
        run(event, world).calls[i - 1] is Send,
        world(run(event, world).calls[i - 1]) == ReplyView::Done,
{
    reveal_with_fuel(run_from, 7);
}

/// Whatever the world answers, a run posts at most one message.
pub proof fn at_most_one_send(
    event: InboundEvent,
    world: spec_fn(ActionView) -> ReplyView,
    i: int,
    j: int,
)
    requires
        0 <= i < run(event, world).calls.len(),
        0 <= j < run(event, world).calls.len(),
        run(event, world).calls[i] is Send,
        run(event, world).calls[j] is Send,
    ensures
        i == j,
{
    reveal_with_fuel(run_from, 7);
}

} // verus!
