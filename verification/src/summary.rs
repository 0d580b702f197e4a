//! The message summarizer: renders a chat message as a [`Summary`].

use crate::boundary::{truncate_body, truncated_body};
use crate::model::{
    blank_summary, Attachment, AttachmentView, Author, AuthorView, ChatMessage, ChatMessageView,
    Summary, SummaryView,
};
use crate::text::{contains, contains_text, decimal_digits, decimal_text};
use vstd::prelude::*;
use vstd::string::*;

verus! {

/// The marker by which a content type declares an image.
pub open spec fn image_marker() -> Seq<char> {
    seq!['i', 'm', 'a', 'g', 'e', '/']
}

/// Whether an attachment declares itself an image.
pub open spec fn is_image(attachment: AttachmentView) -> bool {
    attachment.content_type matches Some(kind) && contains_text(kind, image_marker())
}

/// The address of the first attachment, in the order given, that declares
/// itself an image.
pub open spec fn first_image(attachments: Seq<AttachmentView>) -> Option<Seq<char>>
    decreases attachments.len(),
{
    if attachments.len() == 0 {
        None
    } else if is_image(attachments[0]) {
        Some(attachments[0].url)
    } else {
        first_image(attachments.drop_first())
    }
}

/// The footer of a message with `count` attachments.
pub open spec fn attachment_note(count: nat) -> Seq<char> {
    decimal_digits(count) + " attachments"@
}

/// The summary that a message carries over: its first one, if it has any.
pub open spec fn base_summary(msg: ChatMessageView) -> SummaryView {
    if msg.embeds.len() > 0 {
        msg.embeds[0]
    } else {
        blank_summary()
    }
}

/// The summary of `msg`, given the display colour of its author's highest
/// role where one was found.
///
/// Author and body are always those of the message. Colour, image and
/// footer are laid over the carried summary only where the message has
/// them; the title is carried as it is.
pub open spec fn summary_of(msg: ChatMessageView, color: Option<u32>) -> SummaryView {
    let base = base_summary(msg);
    SummaryView {
        title: base.title,
        author: Some(AuthorView { name: msg.author_display_name, icon_url: msg.author_avatar_url }),
        color_hex: if color is Some {
            color
        } else {
            base.color_hex
        },
        image_url: if first_image(msg.attachments) is Some {
            first_image(msg.attachments)
        } else {
            base.image_url
        },
        footer_text: if msg.attachments.len() > 1 {
            Some(attachment_note(msg.attachments.len()))
        } else {
            base.footer_text
        },
        body_text: truncated_body(msg.content),
    }
}

/// `first_image` picks the attachment at the least index that is an image,
/// and nothing exactly when no attachment is one.
pub proof fn first_image_is_the_earliest(attachments: Seq<AttachmentView>)
    ensures
        match first_image(attachments) {
            Some(url) => exists|i: int|
                0 <= i < attachments.len() && is_image(#[trigger] attachments[i]) && url
                    == attachments[i].url && forall|j: int|
                    0 <= j < i ==> !is_image(#[trigger] attachments[j]),
            None => forall|i: int|
                0 <= i < attachments.len() ==> !is_image(#[trigger] attachments[i]),
        },
    decreases attachments.len(),
{
    if attachments.len() == 0 {
    } else if is_image(attachments[0]) {
    } else {
        let rest = attachments.drop_first();
        first_image_is_the_earliest(rest);
        assert(forall|i: int| 0 <= i < rest.len() ==> rest[i] == attachments[i + 1]);
        match first_image(rest) {
            Some(url) => {
                let i = choose|i: int|
                    0 <= i < rest.len() && is_image(#[trigger] rest[i]) && url == rest[i].url
                        && forall|j: int| 0 <= j < i ==> !is_image(#[trigger] rest[j]);
                assert(is_image(attachments[i + 1]));
                assert forall|j: int| 0 <= j < i + 1 implies !is_image(
                    #[trigger] attachments[j],
                ) by {
                    if j > 0 {
                        assert(attachments[j] == rest[j - 1]);
                    }
                }
            },
            None => {
                assert forall|i: int| 0 <= i < attachments.len() implies !is_image(
                    #[trigger] attachments[i],
                ) by {
                    if i > 0 {
                        assert(attachments[i] == rest[i - 1]);
                    }
                }
            },
        }
    }
}

/// Where the platform could tell no colour, the summary has the colour that
/// the message carried over, and none where it carried nothing over: no
/// colour is made up.
pub proof fn unresolved_color_is_left_unset(msg: ChatMessageView)
    ensures
        summary_of(msg, None).color_hex == base_summary(msg).color_hex,
        msg.embeds.len() == 0 ==> summary_of(msg, None).color_hex is None,
{
}

/// The footer counts every attachment, whatever its kind, and is set by
/// the summarizer exactly when there is more than one.
pub proof fn footer_counts_all_attachments(msg: ChatMessageView, color: Option<u32>)
    ensures
        msg.attachments.len() > 1 ==> summary_of(msg, color).footer_text == Some(
            attachment_note(msg.attachments.len()),
        ),
        msg.attachments.len() <= 1 ==> summary_of(msg, color).footer_text == base_summary(
            msg,
        ).footer_text,
{
}

/// The author block is that of the message, whatever it carried over.
pub proof fn author_is_the_message_author(msg: ChatMessageView, color: Option<u32>)
    ensures
        summary_of(msg, color).author == Some(
            AuthorView { name: msg.author_display_name, icon_url: msg.author_avatar_url },
        ),
{
}

/// Whether an attachment declares itself an image.
fn declares_image(attachment: &Attachment) -> (image: bool)
    ensures
        image == is_image(attachment@),
{
    match &attachment.content_type {
        Some(kind) => {
            proof {
                reveal_strlit("image/");
                assert("image/"@ =~= image_marker());
            }
            contains(kind.as_str(), "image/")
        },
        None => false,
    }
}

/// The address of the first attachment that declares itself an image.
pub fn first_image_url(attachments: &Vec<Attachment>) -> (url: Option<String>)
    ensures
        url.deep_view() == first_image(attachments.deep_view()),
{
    let ghost all = attachments.deep_view();
    let mut i: usize = 0;
    assert(all.skip(0) =~= all);
    while i < attachments.len()
        invariant
            i <= attachments@.len(),
            all == attachments.deep_view(),
            first_image(all) == first_image(all.skip(i as int)),
        decreases attachments@.len() - i,
    {
        proof {
            let rest = all.skip(i as int);
            assert(rest[0] == attachments@[i as int]@);
            assert(rest.drop_first() =~= all.skip(i + 1));
        }
        if declares_image(&attachments[i]) {
            return Some(attachments[i].url.clone());
        }
        i += 1;
    }
    None
}

/// The footer of a message with `count` attachments.
fn attachment_note_text(count: usize) -> (note: String)
    ensures
        note@ == attachment_note(count as nat),
{
    let mut note = decimal_text(count as u64);
    note.append(" attachments");
    note
}

/// Renders `msg` as a summary, with `color` the display colour of its
/// author's highest role, or `None` where the platform could not tell it.
pub fn resolve_message_to_embed(msg: &ChatMessage, color: Option<u32>) -> (summary: Summary)
    ensures
        summary@ == summary_of(msg@, color),
{
    let body = truncate_body(msg.content.as_str());
    let attached_image = first_image_url(&msg.attachments);
    let attachments_len = msg.attachments.len();

    let mut embed = if msg.embeds.len() > 0 {
        msg.embeds[0].clone()
    } else {
        Summary::blank()
    };

    embed.author = Some(
        Author { name: msg.author_display_name.clone(), icon_url: msg.author_avatar_url.clone() },
    );

    if let Some(c) = color {
        embed.color_hex = Some(c);
    }

    if let Some(url) = attached_image {
        embed.image_url = Some(url);
    }

    if attachments_len > 1 {
        embed.footer_text = Some(attachment_note_text(attachments_len));
    }

    embed.body_text = body;
    embed
}

} // verus!
