//! The pin event filter and router.
//!
//! A redirect alternates decisions with calls to the settings store and
//! the chat platform. The decisions are [`handle`]: given the event, the
//! stage reached and the reply to the last call, it names the next call or
//! the end. Whoever owns the connections runs the calls.

use crate::model::{
    ChatMessage, ChatMessageView, EventKind, GuildSettings, GuildSettingsView, InboundEvent,
    OutboundMessage, OutboundMessageView,
};
use crate::platform::{default_guild_id, SENTINEL_GUILD};
use crate::summary::{resolve_message_to_embed, summary_of};
use crate::text::{decimal_digits, decimal_text};
use vstd::prelude::*;
use vstd::string::*;

verus! {

/// Why a redirect failed, or what went wrong after it succeeded.
#[derive(Clone, Copy, Debug, PartialEq, Eq, Structural)]
pub enum PinboardError {
    /// The settings store could not return the guild's settings.
    SettingsFetchError,
    /// The pin event does not say which message was pinned.
    MissingReference,
    /// The channel's pins could not be listed.
    PlatformFetchError,
    /// The pinned message is not among the channel's pins.
    PinNotFound,
    /// The summary could not be posted; the pin stays in place.
    RedirectSendError,
    /// The summary was posted but the pin could not be removed. Not fatal.
    UnpinWarning,
}

/// Why an event was left alone.
#[derive(Clone, Copy, Debug, PartialEq, Eq, Structural)]
pub enum Skip {
    /// The event is not a pin.
    NotAPin,
    /// No settings store is configured.
    NoStore,
    /// The guild has the feature off, or has no archive channel.
    Disabled,
    /// The guild watches other channels only.
    Unwatched,
}

/// How an event ended when it did not fail.
#[derive(Clone, Copy, Debug, PartialEq, Eq, Structural)]
pub enum Outcome {
    /// Nothing was posted, for this reason.
    Skipped(Skip),
    /// The summary was posted. `warning` tells whether the unpin failed.
    Redirected { warning: Option<PinboardError> },
}

/// What the guild's settings make of a pin event.
#[derive(Clone, Copy, Debug, PartialEq, Eq, Structural)]
pub enum Routing {
    /// Leave the event alone.
    Skip(Skip),
    /// The event cannot be acted on.
    Fail(PinboardError),
    /// Post the pin `reference_id` to the channel `target`.
    Lookup { target: u64, reference_id: u64 },
}

/// How far a redirect has come.
#[derive(Debug, PartialEq, Eq)]
pub enum Stage {
    /// Nothing was decided yet.
    Start,
    /// The guild's settings were asked for.
    AwaitingSettings,
    /// The pins of the event's channel were asked for, to find the message
    /// `reference_id` and post it to the channel `target`.
    AwaitingPins { target: u64, reference_id: u64 },
    /// The pinned message was found, and the colour of its author asked
    /// for.
    AwaitingColor { target: u64, pin: ChatMessage },
    /// The summary of the message `pin_id` was handed over for posting.
    AwaitingSend { pin_id: u64 },
    /// The summary was posted, and the unpin asked for.
    AwaitingUnpin,
    /// The event ended.
    Finished(Result<Outcome, PinboardError>),
}

pub enum StageView {
    Start,
    AwaitingSettings,
    AwaitingPins { target: u64, reference_id: u64 },
    AwaitingColor { target: u64, pin: ChatMessageView },
    AwaitingSend { pin_id: u64 },
    AwaitingUnpin,
    Finished(Result<Outcome, PinboardError>),
}

impl View for Stage {
    type V = StageView;

    open spec fn view(&self) -> StageView {
        match self {
            Stage::Start => StageView::Start,
            Stage::AwaitingSettings => StageView::AwaitingSettings,
            Stage::AwaitingPins { target, reference_id } => StageView::AwaitingPins {
                target: *target,
                reference_id: *reference_id,
            },
            Stage::AwaitingColor { target, pin } => StageView::AwaitingColor {
                target: *target,
                pin: pin@,
            },
            Stage::AwaitingSend { pin_id } => StageView::AwaitingSend { pin_id: *pin_id },
            Stage::AwaitingUnpin => StageView::AwaitingUnpin,
            Stage::Finished(end) => StageView::Finished(*end),
        }
    }
}

/// What came back from the call that the last [`Action`] asked for.
#[derive(Debug, PartialEq, Eq)]
pub enum Reply {
    /// No call was made yet.
    Nothing,
    /// There is no settings store to ask.
    NoStore,
    /// The call failed.
    Failed,
    /// The settings of the guild.
    Settings(GuildSettings),
    /// The pinned messages of the channel.
    Pins(Vec<ChatMessage>),
    /// The display colour of the member's highest role, where it has one
    /// that the platform knows.
    Color(Option<u32>),
    /// The call succeeded and returns nothing.
    Done,
}

pub enum ReplyView {
    Nothing,
    NoStore,
    Failed,
    Settings(GuildSettingsView),
    Pins(Seq<ChatMessageView>),
    Color(Option<u32>),
    Done,
}

impl View for Reply {
    type V = ReplyView;

    open spec fn view(&self) -> ReplyView {
        match self {
            Reply::Nothing => ReplyView::Nothing,
            Reply::NoStore => ReplyView::NoStore,
            Reply::Failed => ReplyView::Failed,
            Reply::Settings(settings) => ReplyView::Settings(settings@),
            Reply::Pins(pins) => ReplyView::Pins(pins.deep_view()),
            Reply::Color(color) => ReplyView::Color(*color),
            Reply::Done => ReplyView::Done,
        }
    }
}

/// What to do next for an event.
#[derive(Debug, PartialEq, Eq)]
pub enum Action {
    /// Ask the settings store for the guild's settings.
    FetchSettings { guild_id: u64 },
    /// List the pinned messages of a channel.
    FetchPins { channel_id: u64 },
    /// Look up the display colour of a member's highest role.
    ResolveColor { guild_id: u64, user_id: u64 },
    /// Post a message to a channel.
    Send { channel_id: u64, message: OutboundMessage },
    /// Remove a pin.
    Unpin { channel_id: u64, message_id: u64 },
    /// Nothing more: the event ended this way.
    Finish(Result<Outcome, PinboardError>),
}

pub enum ActionView {
    FetchSettings { guild_id: u64 },
    FetchPins { channel_id: u64 },
    ResolveColor { guild_id: u64, user_id: u64 },
    Send { channel_id: u64, message: OutboundMessageView },
    Unpin { channel_id: u64, message_id: u64 },
    Finish(Result<Outcome, PinboardError>),
}

impl View for Action {
    type V = ActionView;

    open spec fn view(&self) -> ActionView {
        match self {
            Action::FetchSettings { guild_id } => ActionView::FetchSettings { guild_id: *guild_id },
            Action::FetchPins { channel_id } => ActionView::FetchPins { channel_id: *channel_id },
            Action::ResolveColor { guild_id, user_id } => ActionView::ResolveColor {
                guild_id: *guild_id,
                user_id: *user_id,
            },
            Action::Send { channel_id, message } => ActionView::Send {
                channel_id: *channel_id,
                message: message@,
            },
            Action::Unpin { channel_id, message_id } => ActionView::Unpin {
                channel_id: *channel_id,
                message_id: *message_id,
            },
            Action::Finish(end) => ActionView::Finish(*end),
        }
    }
}

/// The guild that an event belongs to: its own, or the sentinel when it
/// names none.
pub open spec fn guild_of(event: InboundEvent) -> u64 {
    match event.guild_id {
        Some(guild_id) => guild_id,
        None => SENTINEL_GUILD,
    }
}

/// The id of the message that a pin event points to.
pub open spec fn reference_of(event: InboundEvent) -> Option<u64> {
    match event.message_reference {
        Some(reference) => reference.message_id,
        None => None,
    }
}

/// What the guild's settings make of a pin event: the feature must be on
/// and have an archive channel, the event's channel must be watched where a
/// watch list is set, and the event must name the pinned message.
pub open spec fn route_of(event: InboundEvent, settings: GuildSettingsView) -> Routing {
    if !settings.pinboard_enabled || settings.pinboard_channel is None {
        Routing::Skip(Skip::Disabled)
    } else if settings.pinboard_watch is Some && !settings.pinboard_watch->0.contains(
        event.channel_id,
    ) {
        Routing::Skip(Skip::Unwatched)
    } else if reference_of(event) is None {
        Routing::Fail(PinboardError::MissingReference)
    } else {
        Routing::Lookup {
            target: settings.pinboard_channel->0,
            reference_id: reference_of(event)->0,
        }
    }
}

/// The first of `pins` whose id is `reference_id`.
pub open spec fn pin_of(pins: Seq<ChatMessageView>, reference_id: u64) -> Option<ChatMessageView>
    decreases pins.len(),
{
    if pins.len() == 0 {
        None
    } else if pins[0].id == reference_id {
        Some(pins[0])
    } else {
        pin_of(pins.drop_first(), reference_id)
    }
}

/// The text that mentions the user `user_id`: the id in decimal between
/// `<@` and `>`.
pub open spec fn mention_text(user_id: u64) -> Seq<char> {
    seq!['<', '@'] + decimal_digits(user_id as nat) + seq!['>']
}

/// The text that goes with a redirected pin.
pub open spec fn redirect_content(pinner_id: u64, permalink: Seq<char>) -> Seq<char> {
    "📌'd by "@ + mention_text(pinner_id) + " in "@ + permalink
}

/// The message that archives `pin`: who pinned it and where, with the
/// pin's summary, and with no one pinged.
pub open spec fn redirect_message(
    pinner_id: u64,
    pin: ChatMessageView,
    color: Option<u32>,
) -> OutboundMessageView {
    OutboundMessageView {
        content: redirect_content(pinner_id, pin.permalink),
        embed: summary_of(pin, color),
        suppress_mentions: true,
    }
}

/// The end of an event: the stage that holds it and the action that
/// reports it.
pub open spec fn finish(end: Result<Outcome, PinboardError>) -> (StageView, ActionView) {
    (StageView::Finished(end), ActionView::Finish(end))
}

/// One decision of the router.
///
/// Each stage waits for one kind of reply. Any other reply counts as the
/// failure of the call that the stage waits for.
pub open spec fn step(event: InboundEvent, stage: StageView, reply: ReplyView) -> (
    StageView,
    ActionView,
) {
    match stage {
        StageView::Start => {
            if event.kind != EventKind::PinsAdd {
                finish(Ok(Outcome::Skipped(Skip::NotAPin)))
            } else {
                (
                    StageView::AwaitingSettings,
                    ActionView::FetchSettings { guild_id: guild_of(event) },
                )
            }
        },
        StageView::AwaitingSettings => match reply {
            ReplyView::NoStore => finish(Ok(Outcome::Skipped(Skip::NoStore))),
            ReplyView::Settings(settings) => match route_of(event, settings) {
                Routing::Skip(reason) => finish(Ok(Outcome::Skipped(reason))),
                Routing::Fail(error) => finish(Err(error)),
                Routing::Lookup { target, reference_id } => (
                    StageView::AwaitingPins { target, reference_id },
                    ActionView::FetchPins { channel_id: event.channel_id },
                ),
            },
            _ => finish(Err(PinboardError::SettingsFetchError)),
        },
        StageView::AwaitingPins { target, reference_id } => match reply {
            ReplyView::Pins(pins) => match pin_of(pins, reference_id) {
                Some(pin) => (
                    StageView::AwaitingColor { target, pin },
                    ActionView::ResolveColor {
                        guild_id: guild_of(event),
                        user_id: pin.author_member_id,
                    },
                ),
                None => finish(Err(PinboardError::PinNotFound)),
            },
            _ => finish(Err(PinboardError::PlatformFetchError)),
        },
        StageView::AwaitingColor { target, pin } => {
            let color = match reply {
                ReplyView::Color(color) => color,
                _ => None,
            };
            (
                StageView::AwaitingSend { pin_id: pin.id },
                ActionView::Send {
                    channel_id: target,
                    message: redirect_message(event.pinner_id, pin, color),
                },
            )
        },
        StageView::AwaitingSend { pin_id } => match reply {
            ReplyView::Done => (
                StageView::AwaitingUnpin,
                ActionView::Unpin { channel_id: event.channel_id, message_id: pin_id },
            ),
            _ => finish(Err(PinboardError::RedirectSendError)),
        },
        StageView::AwaitingUnpin => match reply {
            ReplyView::Done => finish(Ok(Outcome::Redirected { warning: None })),
            _ => finish(
                Ok(Outcome::Redirected { warning: Some(PinboardError::UnpinWarning) }),
            ),
        },
        StageView::Finished(end) => finish(end),
    }
}

/// Whether `channel_id` is among `channels`.
fn is_watched(channels: &Vec<u64>, channel_id: u64) -> (watched: bool)
    ensures
        watched == channels@.to_set().contains(channel_id),
{
    let mut i: usize = 0;
    while i < channels.len()
        invariant
            i <= channels@.len(),
            forall|j: int| 0 <= j < i ==> channels@[j] != channel_id,
        decreases channels@.len() - i,
    {
        if channels[i] == channel_id {
            return true;
        }
        i += 1;
    }
    false
}

/// The guild that an event belongs to: its own, or the sentinel when it
/// names none.
pub fn resolve_guild(event: &InboundEvent) -> (guild_id: u64)
    ensures
        guild_id == guild_of(*event),
{
    match event.guild_id {
        Some(guild_id) => guild_id,
        None => default_guild_id(),
    }
}

/// Decides from the guild's settings whether a pin event is acted on.
pub fn route(event: &InboundEvent, settings: &GuildSettings) -> (routing: Routing)
    ensures
        routing == route_of(*event, settings@),
{
    if !settings.pinboard_enabled {
        return Routing::Skip(Skip::Disabled);
    }
    let target = match settings.pinboard_channel {
        Some(target) => target,
        None => {
            return Routing::Skip(Skip::Disabled);
        },
    };
    if let Some(sources) = &settings.pinboard_watch {
        if !is_watched(sources, event.channel_id) {
            return Routing::Skip(Skip::Unwatched);
        }
    }
    let reference = match event.message_reference {
        Some(reference) => reference,
        None => {
            return Routing::Fail(PinboardError::MissingReference);
        },
    };
    match reference.message_id {
        Some(reference_id) => Routing::Lookup { target, reference_id },
        None => Routing::Fail(PinboardError::MissingReference),
    }
}

/// The place among `pins` of the first message whose id is `reference_id`.
pub fn pin_position(pins: &Vec<ChatMessage>, reference_id: u64) -> (found: Option<usize>)
    ensures
        match found {
            Some(i) => i < pins@.len() && pin_of(pins.deep_view(), reference_id) == Some(
                pins@[i as int]@,
            ),
            None => pin_of(pins.deep_view(), reference_id) is None,
        },
{
    let ghost all = pins.deep_view();
    let mut i: usize = 0;
    assert(all.skip(0) =~= all);
    while i < pins.len()
        invariant
            i <= pins@.len(),
            all == pins.deep_view(),
            pin_of(all, reference_id) == pin_of(all.skip(i as int), reference_id),
        decreases pins@.len() - i,
    {
        proof {
            let rest = all.skip(i as int);
            assert(rest[0] == pins@[i as int]@);
            assert(rest.drop_first() =~= all.skip(i + 1));
        }
        if pins[i].id == reference_id {
            return Some(i);
        }
        i += 1;
    }
    None
}

/// Looks up the pinned message among the channel's pins.
pub fn find_pin(pins: &Vec<ChatMessage>, reference_id: u64) -> (found: Option<&ChatMessage>)
    ensures
        match found {
            Some(pin) => pin_of(pins.deep_view(), reference_id) == Some(pin@),
            None => pin_of(pins.deep_view(), reference_id) is None,
        },
{
    match pin_position(pins, reference_id) {
        Some(i) => Some(&pins[i]),
        None => None,
    }
}

/// Writes the mention of the user `user_id`.
pub fn user_mention(user_id: u64) -> (mention: String)
    ensures
        mention@ == mention_text(user_id),
{
    proof {
        reveal_strlit("<@");
        reveal_strlit(">");
        assert("<@"@ =~= seq!['<', '@']);
        assert(">"@ =~= seq!['>']);
    }
    let mut mention = "<@".to_owned();
    mention.append(decimal_text(user_id).as_str());
    mention.append(">");
    mention
}

/// Builds the message that archives `pin`.
pub fn redirect(pinner_id: u64, pin: &ChatMessage, color: Option<u32>) -> (message:
    OutboundMessage)
    ensures
        message@ == redirect_message(pinner_id, pin@, color),
{
    let embed = resolve_message_to_embed(pin, color);
    let mut content = "📌'd by ".to_owned();
    content.append(user_mention(pinner_id).as_str());
    content.append(" in ");
    content.append(pin.permalink.as_str());
    OutboundMessage { content, embed, suppress_mentions: true }
}

/// The end of an event.
fn finished(end: Result<Outcome, PinboardError>) -> (next: (Stage, Action))
    ensures
        (next.0@, next.1@) == finish(end),
{
    (Stage::Finished(end), Action::Finish(end))
}

/// Decides what to do next for `event`, from the stage reached and the
/// reply to the last action.
///
/// Start with [`Stage::Start`] and [`Reply::Nothing`], carry out the action
/// returned, and call again with the stage returned and the reply, until
/// the action is [`Action::Finish`].
pub fn handle(event: &InboundEvent, stage: Stage, reply: Reply) -> (next: (Stage, Action))
    ensures
        (next.0@, next.1@) == step(*event, stage@, reply@),
{
    match stage {
        Stage::Start => {
            if event.kind != EventKind::PinsAdd {
                return finished(Ok(Outcome::Skipped(Skip::NotAPin)));
            }
            (Stage::AwaitingSettings, Action::FetchSettings { guild_id: resolve_guild(event) })
        },
        Stage::AwaitingSettings => match reply {
            Reply::NoStore => finished(Ok(Outcome::Skipped(Skip::NoStore))),
            Reply::Settings(settings) => match route(event, &settings) {
                Routing::Skip(reason) => finished(Ok(Outcome::Skipped(reason))),
                Routing::Fail(error) => finished(Err(error)),
                Routing::Lookup { target, reference_id } => (
                    Stage::AwaitingPins { target, reference_id },
                    Action::FetchPins { channel_id: event.channel_id },
                ),
            },
            _ => finished(Err(PinboardError::SettingsFetchError)),
        },
        Stage::AwaitingPins { target, reference_id } => match reply {
            Reply::Pins(pins) => {
                let mut pins = pins;
                match pin_position(&pins, reference_id) {
                    Some(i) => {
                        let pin = pins.remove(i);
                        let user_id = pin.author_member_id;
                        (
                            Stage::AwaitingColor { target, pin },
                            Action::ResolveColor { guild_id: resolve_guild(event), user_id },
                        )
                    },
                    None => finished(Err(PinboardError::PinNotFound)),
                }
            },
            _ => finished(Err(PinboardError::PlatformFetchError)),
        },
        Stage::AwaitingColor { target, pin } => {
            let color = match reply {
                Reply::Color(color) => color,
                _ => None,
            };
            let message = redirect(event.pinner_id, &pin, color);
            (Stage::AwaitingSend { pin_id: pin.id }, Action::Send { channel_id: target, message })
        },
        Stage::AwaitingSend { pin_id } => match reply {
            Reply::Done => (
                Stage::AwaitingUnpin,
                Action::Unpin { channel_id: event.channel_id, message_id: pin_id },
            ),
            _ => finished(Err(PinboardError::RedirectSendError)),
        },
        Stage::AwaitingUnpin => match reply {
            Reply::Done => finished(Ok(Outcome::Redirected { warning: None })),
            _ => finished(Ok(Outcome::Redirected { warning: Some(PinboardError::UnpinWarning) })),
        },
        Stage::Finished(end) => finished(end),
    }
}

} // verus!
