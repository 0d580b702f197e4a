//! The data that a pin redirect works on, each type with its mathematical
//! view.

use vstd::prelude::*;

verus! {

/// What kind of platform event arrived.
#[derive(Clone, Copy, Debug, PartialEq, Eq, Structural)]
pub enum EventKind {
    /// A message was pinned.
    PinsAdd,
    /// Anything else.
    Other,
}

/// A pointer from an event to the message it is about.
#[derive(Clone, Copy, Debug, PartialEq, Eq, Structural)]
pub struct MessageReference {
    pub message_id: Option<u64>,
}

/// An event as the event source delivers it.
#[derive(Clone, Copy, Debug, PartialEq, Eq, Structural)]
pub struct InboundEvent {
    pub kind: EventKind,
    /// Absent when the event is not scoped to a guild.
    pub guild_id: Option<u64>,
    pub channel_id: u64,
    pub message_reference: Option<MessageReference>,
    /// The user who caused the event: for a pin, the pinner.
    pub pinner_id: u64,
}

/// The per-guild configuration that the settings store returns.
#[derive(Debug, PartialEq, Eq)]
pub struct GuildSettings {
    pub pinboard_enabled: bool,
    pub pinboard_channel: Option<u64>,
    pub pinboard_watch: Option<Vec<u64>>,
}

/// [`GuildSettings`] with the watched channels as a set.
pub struct GuildSettingsView {
    pub pinboard_enabled: bool,
    pub pinboard_channel: Option<u64>,
    pub pinboard_watch: Option<Set<u64>>,
}

impl View for GuildSettings {
    type V = GuildSettingsView;

    open spec fn view(&self) -> GuildSettingsView {
        GuildSettingsView {
            pinboard_enabled: self.pinboard_enabled,
            pinboard_channel: self.pinboard_channel,
            pinboard_watch: match self.pinboard_watch {
                Some(channels) => Some(channels@.to_set()),
                None => None,
            },
        }
    }
}

/// One file attached to a message.
#[derive(Debug, PartialEq, Eq)]
pub struct Attachment {
    pub url: String,
    pub content_type: Option<String>,
}

pub struct AttachmentView {
    pub url: Seq<char>,
    pub content_type: Option<Seq<char>>,
}

impl View for Attachment {
    type V = AttachmentView;

    open spec fn view(&self) -> AttachmentView {
        AttachmentView { url: self.url@, content_type: self.content_type.deep_view() }
    }
}

impl DeepView for Attachment {
    type V = AttachmentView;

    open spec fn deep_view(&self) -> AttachmentView {
        self@
    }
}

/// The author block of a summary.
#[derive(Debug, PartialEq, Eq)]
pub struct Author {
    pub name: String,
    pub icon_url: String,
}

pub struct AuthorView {
    pub name: Seq<char>,
    pub icon_url: Seq<char>,
}

impl View for Author {
    type V = AuthorView;

    open spec fn view(&self) -> AuthorView {
        AuthorView { name: self.name@, icon_url: self.icon_url@ }
    }
}

impl DeepView for Author {
    type V = AuthorView;

    open spec fn deep_view(&self) -> AuthorView {
        self@
    }
}

/// A message rendered for posting into another channel.
#[derive(Debug, PartialEq, Eq)]
pub struct Summary {
    pub title: Option<String>,
    pub author: Option<Author>,
    pub color_hex: Option<u32>,
    pub image_url: Option<String>,
    pub footer_text: Option<String>,
    pub body_text: String,
}

pub struct SummaryView {
    pub title: Option<Seq<char>>,
    pub author: Option<AuthorView>,
    pub color_hex: Option<u32>,
    pub image_url: Option<Seq<char>>,
    pub footer_text: Option<Seq<char>>,
    pub body_text: Seq<char>,
}

impl View for Summary {
    type V = SummaryView;

    open spec fn view(&self) -> SummaryView {
        SummaryView {
            title: self.title.deep_view(),
            author: self.author.deep_view(),
            color_hex: self.color_hex,
            image_url: self.image_url.deep_view(),
            footer_text: self.footer_text.deep_view(),
            body_text: self.body_text@,
        }
    }
}

impl DeepView for Summary {
    type V = SummaryView;

    open spec fn deep_view(&self) -> SummaryView {
        self@
    }
}

/// The summary with nothing set.
pub open spec fn blank_summary() -> SummaryView {
    SummaryView {
        title: None,
        author: None,
        color_hex: None,
        image_url: None,
        footer_text: None,
        body_text: Seq::empty(),
    }
}

/// A message of the chat platform.
#[derive(Debug, PartialEq, Eq)]
pub struct ChatMessage {
    pub id: u64,
    pub author_display_name: String,
    pub author_avatar_url: String,
    pub content: String,
    pub attachments: Vec<Attachment>,
    /// The summaries that the message already carries, such as a link
    /// preview.
    pub embeds: Vec<Summary>,
    pub author_member_id: u64,
    pub permalink: String,
}

pub struct ChatMessageView {
    pub id: u64,
    pub author_display_name: Seq<char>,
    pub author_avatar_url: Seq<char>,
    pub content: Seq<char>,
    pub attachments: Seq<AttachmentView>,
    pub embeds: Seq<SummaryView>,
    pub author_member_id: u64,
    pub permalink: Seq<char>,
}

impl View for ChatMessage {
    type V = ChatMessageView;

    open spec fn view(&self) -> ChatMessageView {
        ChatMessageView {
            id: self.id,
            author_display_name: self.author_display_name@,
            author_avatar_url: self.author_avatar_url@,
            content: self.content@,
            attachments: self.attachments.deep_view(),
            embeds: self.embeds.deep_view(),
            author_member_id: self.author_member_id,
            permalink: self.permalink@,
        }
    }
}

impl DeepView for ChatMessage {
    type V = ChatMessageView;

    open spec fn deep_view(&self) -> ChatMessageView {
        self@
    }
}

/// The message that a redirect posts to the archive channel.
#[derive(Debug, PartialEq, Eq)]
pub struct OutboundMessage {
    pub content: String,
    pub embed: Summary,
    /// When set, no role or user named in the content is pinged.
    pub suppress_mentions: bool,
}

pub struct OutboundMessageView {
    pub content: Seq<char>,
    pub embed: SummaryView,
    pub suppress_mentions: bool,
}

impl View for OutboundMessage {
    type V = OutboundMessageView;

    open spec fn view(&self) -> OutboundMessageView {
        OutboundMessageView {
            content: self.content@,
            embed: self.embed@,
            suppress_mentions: self.suppress_mentions,
        }
    }
}

/// Copies optional text.
pub fn copy_text(text: &Option<String>) -> (copy: Option<String>)
    ensures
        copy.deep_view() == text.deep_view(),
{
    match text {
        Some(t) => Some(t.clone()),
        None => None,
    }
}

impl Clone for GuildSettings {
    fn clone(&self) -> (copy: GuildSettings)
        ensures
            copy@ == self@,
    {
        GuildSettings {
            pinboard_enabled: self.pinboard_enabled,
            pinboard_channel: self.pinboard_channel,
            pinboard_watch: match &self.pinboard_watch {
                Some(channels) => Some(channels.clone()),
                None => None,
            },
        }
    }
}

impl Clone for Attachment {
    fn clone(&self) -> (copy: Attachment)
        ensures
            copy@ == self@,
    {
        Attachment { url: self.url.clone(), content_type: copy_text(&self.content_type) }
    }
}

impl Clone for Author {
    fn clone(&self) -> (copy: Author)
        ensures
            copy@ == self@,
    {
        Author { name: self.name.clone(), icon_url: self.icon_url.clone() }
    }
}

impl Clone for Summary {
    fn clone(&self) -> (copy: Summary)
        ensures
            copy@ == self@,
    {
        Summary {
            title: copy_text(&self.title),
            author: match &self.author {
                Some(author) => Some(author.clone()),
                None => None,
            },
            color_hex: self.color_hex,
            image_url: copy_text(&self.image_url),
            footer_text: copy_text(&self.footer_text),
            body_text: self.body_text.clone(),
        }
    }
}

impl Clone for ChatMessage {
    fn clone(&self) -> (copy: ChatMessage)
        ensures
            copy@ == self@,
    {
        ChatMessage {
            id: self.id,
            author_display_name: self.author_display_name.clone(),
            author_avatar_url: self.author_avatar_url.clone(),
            content: self.content.clone(),
            attachments: self.attachments.clone(),
            embeds: self.embeds.clone(),
            author_member_id: self.author_member_id,
            permalink: self.permalink.clone(),
        }
    }
}

impl Clone for OutboundMessage {
    fn clone(&self) -> (copy: OutboundMessage)
        ensures
            copy@ == self@,
    {
        OutboundMessage {
            content: self.content.clone(),
            embed: self.embed.clone(),
            suppress_mentions: self.suppress_mentions,
        }
    }
}

impl Summary {
    /// The summary with nothing set.
    pub fn blank() -> (summary: Summary)
        ensures
            summary@ == blank_summary(),
    {
        Summary {
            title: None,
            author: None,
            color_hex: None,
            image_url: None,
            footer_text: None,
            body_text: String::new(),
        }
    }
}

} // verus!
