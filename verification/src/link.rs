//! Showing a link as an embed: its title comes from the last segment of
//! its path.

use crate::text::{replace_all, replaced};
use url::Url;
use vstd::prelude::*;

verus! {

/// The error of the url crate's parser. The library only passes it on.
#[verifier::external_type_specification]
#[verifier::external_body]
pub struct ExParseError(url::ParseError);

/// What the url crate makes of `text`: `None` where `Url::parse` refuses
/// it; else what `Url::path_segments` returns for the parsed address,
/// which is `None` for an address that cannot be a base and else the
/// segments of its path.
pub uninterp spec fn url_path_segments(text: Seq<char>) -> Option<Option<Seq<Seq<char>>>>;

/// Parses `text` with `Url::parse` and lists the segments of its path
/// with `Url::path_segments`, each copied to a `String`.
///
/// The result is a function of `text` alone, named
/// [`url_path_segments`].
#[verifier::external_body]
fn path_segments(text: &str) -> (parsed: Result<Option<Vec<String>>, url::ParseError>)
    ensures
        parsed is Ok ==> url_path_segments(text@) == Some(parsed->Ok_0.deep_view()),
        parsed is Err ==> url_path_segments(text@) is None,
{
    let url = Url::parse(text)?;
    Ok(url.path_segments().map(|parts| parts.map(String::from).collect()))
}

/// The accent colours of an embed.
#[derive(Clone, Copy, Debug, PartialEq, Eq, Structural)]
pub enum Accent {
    Blue,
}

/// A link shown as an embed.
#[derive(Debug, PartialEq, Eq)]
pub struct UrlEmbed {
    pub title: String,
    pub image: String,
    pub url: String,
    pub color: Accent,
}

pub struct UrlEmbedView {
    pub title: Seq<char>,
    pub image: Seq<char>,
    pub url: Seq<char>,
    pub color: Accent,
}

impl View for UrlEmbed {
    type V = UrlEmbedView;

    open spec fn view(&self) -> UrlEmbedView {
        UrlEmbedView { title: self.title@, image: self.image@, url: self.url@, color: self.color }
    }
}

/// What to answer to a request to show a link.
#[derive(Debug, PartialEq, Eq)]
pub enum UrlReply {
    /// Send this embed.
    Embed(UrlEmbed),
    /// Say this text.
    Say(String),
}

pub enum UrlReplyView {
    Embed(UrlEmbedView),
    Say(Seq<char>),
}

impl View for UrlReply {
    type V = UrlReplyView;

    open spec fn view(&self) -> UrlReplyView {
        match self {
            UrlReply::Embed(embed) => UrlReplyView::Embed(embed@),
            UrlReply::Say(text) => UrlReplyView::Say(text@),
        }
    }
}

/// The title for a link with these path segments: the last segment, or
/// `image` where there is none, with each `%20` read as a space.
pub open spec fn title_of(segments: Seq<Seq<char>>) -> Seq<char> {
    replaced(
        if segments.len() > 0 {
            segments.last()
        } else {
            "image"@
        },
        "%20"@,
        " "@,
    )
}

/// The answer for the link `url`, given the segments of its path where it
/// could be parsed: the link as a blue embed, the link itself as image
/// and target; or an apology where it could not be parsed.
pub open spec fn url_reply_of(url: Seq<char>, segments: Option<Seq<Seq<char>>>) -> UrlReplyView {
    match segments {
        Some(segments) => UrlReplyView::Embed(
            UrlEmbedView { title: title_of(segments), image: url, url, color: Accent::Blue },
        ),
        None => UrlReplyView::Say("i can't get that for you right now :("@),
    }
}

/// The path segments of `text` where the url crate parses it.
pub open spec fn parsed_segments(text: Seq<char>) -> Option<Seq<Seq<char>>> {
    match url_path_segments(text) {
        Some(Some(segments)) => Some(segments),
        _ => None,
    }
}

/// Makes the title for a link from the segments of its path.
pub fn embed_title(segments: &Vec<String>) -> (title: String)
    ensures
        title@ == title_of(segments.deep_view()),
{
    if segments.len() > 0 {
        replace_all(segments[segments.len() - 1].as_str(), "%20", " ")
    } else {
        replace_all("image", "%20", " ")
    }
}

/// Makes the answer for the link `url` from the segments of its path, or
/// from `None` where it could not be parsed.
pub fn url_reply(url: String, segments: Option<&Vec<String>>) -> (reply: UrlReply)
    ensures
        reply@ == url_reply_of(
            url@,
            match segments {
                Some(segments) => Some(segments.deep_view()),
                None => None,
            },
        ),
{
    match segments {
        Some(segments) => {
            let title = embed_title(segments);
            UrlReply::Embed(UrlEmbed { title, image: url.clone(), url, color: Accent::Blue })
        },
        None => UrlReply::Say("i can't get that for you right now :(".to_owned()),
    }
}

/// Decides how to show the link `url`.
///
/// An address that parses but cannot be a base, such as a `data:` or
/// `mailto:` address, has no path segments to take a title from and is not
/// accepted; [`try_send_url_as_embed`] tells such an address apart.
pub fn send_url_as_embed(url: String) -> (reply: UrlReply)
    requires
        url_path_segments(url@) != Some(None::<Seq<Seq<char>>>),
    ensures
        reply@ == url_reply_of(url@, parsed_segments(url@)),
{
    match path_segments(url.as_str()) {
        Ok(Some(segments)) => url_reply(url, Some(&segments)),
        _ => url_reply(url, None),
    }
}

/// Decides how to show the link `url`, or returns `None` for an address
/// that parses but cannot be a base.
pub fn try_send_url_as_embed(url: String) -> (reply: Option<UrlReply>)
    ensures
        reply is None <==> url_path_segments(url@) == Some(None::<Seq<Seq<char>>>),
        reply matches Some(shown) ==> shown@ == url_reply_of(url@, parsed_segments(url@)),
{
    match path_segments(url.as_str()) {
        Ok(None) => None,
        _ => Some(send_url_as_embed(url)),
    }
}

} // verus!
