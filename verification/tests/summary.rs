use pinboard::model::{Attachment, Author, ChatMessage, Summary};
use pinboard::summary::{first_image_url, resolve_message_to_embed};

fn attachment(url: &str, content_type: Option<&str>) -> Attachment {
    Attachment { url: url.to_string(), content_type: content_type.map(|kind| kind.to_string()) }
}

fn message(content: &str, attachments: Vec<Attachment>, embeds: Vec<Summary>) -> ChatMessage {
    ChatMessage {
        id: 1001,
        author_display_name: "teawie".to_string(),
        author_avatar_url: "https://cdn.example/avatars/7.png".to_string(),
        content: content.to_string(),
        attachments,
        embeds,
        author_member_id: 7,
        permalink: "https://discord.com/channels/1/2/1001".to_string(),
    }
}

fn preview() -> Summary {
    Summary {
        title: Some("A page".to_string()),
        author: Some(Author { name: "site".to_string(), icon_url: "https://site/i.png".to_string() }),
        color_hex: Some(0x112233),
        image_url: Some("https://site/preview.png".to_string()),
        footer_text: Some("from the site".to_string()),
        body_text: "what the page says".to_string(),
    }
}

#[test]
fn summary_of_a_plain_message() {
    let summary = resolve_message_to_embed(&message("hello", vec![], vec![]), None);
    assert_eq!(
        summary,
        Summary {
            title: None,
            author: Some(Author {
                name: "teawie".to_string(),
                icon_url: "https://cdn.example/avatars/7.png".to_string(),
            }),
            color_hex: None,
            image_url: None,
            footer_text: None,
            body_text: "hello".to_string(),
        }
    );
}

#[test]
fn one_image_and_one_other_attachment() {
    let msg = message(
        "look",
        vec![
            attachment("https://cdn.example/cat.png", Some("image/png")),
            attachment("https://cdn.example/notes.txt", Some("text/plain")),
        ],
        vec![],
    );
    let summary = resolve_message_to_embed(&msg, None);
    assert_eq!(summary.image_url, Some("https://cdn.example/cat.png".to_string()));
    assert_eq!(summary.footer_text, Some("2 attachments".to_string()));
}

#[test]
fn the_first_image_in_order_is_selected() {
    let attachments = vec![
        attachment("https://cdn.example/a.txt", Some("text/plain")),
        attachment("https://cdn.example/b.bin", None),
        attachment("https://cdn.example/c.gif", Some("image/gif")),
        attachment("https://cdn.example/d.png", Some("image/png")),
    ];
    assert_eq!(first_image_url(&attachments), Some("https://cdn.example/c.gif".to_string()));
    let summary = resolve_message_to_embed(&message("", attachments, vec![]), None);
    assert_eq!(summary.image_url, Some("https://cdn.example/c.gif".to_string()));
    assert_eq!(summary.footer_text, Some("4 attachments".to_string()));
}

#[test]
fn no_image_is_set_without_an_image_attachment() {
    assert_eq!(first_image_url(&vec![]), None);
    let attachments = vec![
        attachment("https://cdn.example/a.txt", Some("text/plain")),
        attachment("https://cdn.example/b.bin", None),
        attachment("https://cdn.example/c.PNG", Some("IMAGE/PNG")),
    ];
    assert_eq!(first_image_url(&attachments), None);
    let summary = resolve_message_to_embed(&message("", attachments, vec![]), None);
    assert_eq!(summary.image_url, None);
    assert_eq!(summary.footer_text, Some("3 attachments".to_string()));
}

#[test]
fn a_single_attachment_gets_no_footer() {
    let msg = message("", vec![attachment("https://cdn.example/cat.png", Some("image/png"))], vec![]);
    let summary = resolve_message_to_embed(&msg, None);
    assert_eq!(summary.image_url, Some("https://cdn.example/cat.png".to_string()));
    assert_eq!(summary.footer_text, None);
}

#[test]
fn the_footer_counts_attachments_that_are_no_images() {
    let attachments: Vec<Attachment> = (0..12)
        .map(|i| attachment(&format!("https://cdn.example/{i}.txt"), Some("text/plain")))
        .collect();
    let summary = resolve_message_to_embed(&message("", attachments, vec![]), None);
    assert_eq!(summary.image_url, None);
    assert_eq!(summary.footer_text, Some("12 attachments".to_string()));
}

#[test]
fn an_unresolved_color_is_left_unset() {
    let summary = resolve_message_to_embed(&message("hi", vec![], vec![]), None);
    assert_eq!(summary.color_hex, None);
}

#[test]
fn a_resolved_color_is_set() {
    let summary = resolve_message_to_embed(&message("hi", vec![], vec![]), Some(0xabcdef));
    assert_eq!(summary.color_hex, Some(0xabcdef));
    let summary = resolve_message_to_embed(&message("hi", vec![], vec![]), Some(0));
    assert_eq!(summary.color_hex, Some(0));
}

#[test]
fn an_existing_embed_is_carried_over() {
    let summary = resolve_message_to_embed(&message("see this", vec![], vec![preview()]), None);
    assert_eq!(
        summary,
        Summary {
            title: Some("A page".to_string()),
            author: Some(Author {
                name: "teawie".to_string(),
                icon_url: "https://cdn.example/avatars/7.png".to_string(),
            }),
            color_hex: Some(0x112233),
            image_url: Some("https://site/preview.png".to_string()),
            footer_text: Some("from the site".to_string()),
            body_text: "see this".to_string(),
        }
    );
}

#[test]
fn only_the_first_existing_embed_is_carried_over() {
    let mut second = preview();
    second.title = Some("Another page".to_string());
    let summary =
        resolve_message_to_embed(&message("see this", vec![], vec![preview(), second]), None);
    assert_eq!(summary.title, Some("A page".to_string()));
}

#[test]
fn the_message_overlays_what_it_carries_over() {
    let msg = message(
        "see this",
        vec![
            attachment("https://cdn.example/cat.png", Some("image/png")),
            attachment("https://cdn.example/dog.png", Some("image/png")),
        ],
        vec![preview()],
    );
    let summary = resolve_message_to_embed(&msg, Some(0x445566));
    assert_eq!(
        summary,
        Summary {
            title: Some("A page".to_string()),
            author: Some(Author {
                name: "teawie".to_string(),
                icon_url: "https://cdn.example/avatars/7.png".to_string(),
            }),
            color_hex: Some(0x445566),
            image_url: Some("https://cdn.example/cat.png".to_string()),
            footer_text: Some("2 attachments".to_string()),
            body_text: "see this".to_string(),
        }
    );
}

#[test]
fn the_body_of_a_summary_is_cut_to_the_limit() {
    let content = "x".repeat(700);
    let summary = resolve_message_to_embed(&message(&content, vec![], vec![]), None);
    assert_eq!(summary.body_text, content);

    let content = "x".repeat(2000);
    let summary = resolve_message_to_embed(&message(&content, vec![], vec![]), None);
    assert_eq!(summary.body_text, format!("{}...", "x".repeat(700)));
}

#[test]
fn blank_summary_has_nothing_set() {
    assert_eq!(
        Summary::blank(),
        Summary {
            title: None,
            author: None,
            color_hex: None,
            image_url: None,
            footer_text: None,
            body_text: String::new(),
        }
    );
}

#[test]
fn a_clone_has_every_field() {
    assert_eq!(preview().clone(), preview());
    assert_eq!(Summary::blank().clone(), Summary::blank());
    let msg = message(
        "hello",
        vec![attachment("https://cdn.example/cat.png", Some("image/png"))],
        vec![preview()],
    );
    let copy = msg.clone();
    assert_eq!(copy, msg);
    assert_eq!(copy.attachments[0].clone(), attachment("https://cdn.example/cat.png", Some("image/png")));
}
