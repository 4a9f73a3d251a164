use weechat_matrix::{
    AudioMessageEventContent, EmoteMessageEventContent, EncryptedEvent, EncryptedFile, Event,
    FileMessageEventContent, HasFormattedBody, HasUrlOrFile, ImageMessageEventContent,
    LocationMessageEventContent, MemberEvent, MembershipState, MessageEvent,
    MessageEventContent, NoticeMessageEventContent, RenderError, RenderableEvent,
    ServerNoticeMessageEventContent, TextMessageEventContent, VideoMessageEventContent,
};

fn text(body: &str, formatted: Option<&str>) -> TextMessageEventContent {
    TextMessageEventContent {
        body: body.to_string(),
        formatted_body: formatted.map(|f| f.to_string()),
    }
}

fn encrypted_file(url: &str) -> EncryptedFile {
    EncryptedFile {
        url: url.to_string(),
    }
}

fn image(url: Option<&str>, file: Option<&str>) -> ImageMessageEventContent {
    ImageMessageEventContent {
        body: "cat.png".to_string(),
        url: url.map(|u| u.to_string()),
        file: file.map(encrypted_file),
    }
}

fn message(content: MessageEventContent) -> Event {
    Event::MessagePosted(MessageEvent { content })
}

fn member(subject: &str, membership: MembershipState) -> Event {
    Event::MembershipChanged(MemberEvent {
        state_key: subject.to_string(),
        membership,
    })
}

#[test]
fn plain_body_is_resolved_when_no_formatted_body() {
    assert_eq!(text("hello", None).resolve_body(), "hello");
    let emote = EmoteMessageEventContent {
        body: "waves".to_string(),
        formatted_body: None,
    };
    assert_eq!(emote.resolve_body(), "waves");
    let notice = NoticeMessageEventContent {
        body: "".to_string(),
        formatted_body: None,
    };
    assert_eq!(notice.resolve_body(), "");
}

#[test]
fn formatted_body_is_preferred_verbatim() {
    let t = text("hello", Some("<b>hello</b>"));
    assert_eq!(t.resolve_body(), "<b>hello</b>");
    let notice = NoticeMessageEventContent {
        body: "plain".to_string(),
        formatted_body: Some("<i>rich</i> & <script>".to_string()),
    };
    assert_eq!(notice.resolve_body(), "<i>rich</i> & <script>");
}

#[test]
fn direct_locator_is_resolved() {
    assert_eq!(image(Some("mxc://a/b"), None).resolve_url(), Ok("mxc://a/b"));
    let audio = AudioMessageEventContent {
        body: "song".to_string(),
        url: Some("mxc://a/song".to_string()),
        file: None,
    };
    assert_eq!(audio.resolve_url(), Ok("mxc://a/song"));
}

#[test]
fn direct_locator_wins_over_encrypted_file() {
    assert_eq!(
        image(Some("mxc://a/plain"), Some("mxc://a/enc")).resolve_url(),
        Ok("mxc://a/plain")
    );
}

#[test]
fn encrypted_file_locator_is_resolved() {
    assert_eq!(image(None, Some("mxc://a/enc")).resolve_url(), Ok("mxc://a/enc"));
    let video = VideoMessageEventContent {
        body: "clip".to_string(),
        url: None,
        file: Some(encrypted_file("mxc://v/enc")),
    };
    assert_eq!(video.resolve_url(), Ok("mxc://v/enc"));
}

#[test]
fn missing_locator_is_an_error() {
    assert_eq!(image(None, None).resolve_url(), Err(RenderError::MissingLocator));
    let file = FileMessageEventContent {
        body: "report.pdf".to_string(),
        url: None,
        file: None,
    };
    assert_eq!(file.resolve_url(), Err(RenderError::MissingLocator));
    let event = message(MessageEventContent::File(file));
    assert_eq!(event.render("Alice"), Err(RenderError::MissingLocator));
}

#[test]
fn join_is_rendered_as_sentence() {
    let event = member("@bob:example.org", MembershipState::Join);
    assert_eq!(
        event.render("Bob"),
        Ok("Bob (@bob:example.org) has joined the room".to_string())
    );
}

#[test]
fn every_membership_state_has_its_verb() {
    let cases = [
        (MembershipState::Leave, "Bob (@bob:x) has left the room"),
        (MembershipState::Ban, "Bob (@bob:x) has banned the room"),
        (MembershipState::Invite, "Bob (@bob:x) has invited the room"),
        (MembershipState::Knock, "Bob (@bob:x) has knocked on the room"),
    ];
    for (state, expected) in cases {
        assert_eq!(member("@bob:x", state).render("Bob"), Ok(expected.to_string()));
    }
}

#[test]
fn text_message_is_rendered_with_tab() {
    let event = message(MessageEventContent::Text(text("hi", None)));
    assert_eq!(event.render("Alice"), Ok("Alice\thi".to_string()));
}

#[test]
fn formatted_text_message_shows_formatted_body() {
    let event = message(MessageEventContent::Text(text("hi", Some("<em>hi</em>"))));
    assert_eq!(event.render("Alice"), Ok("Alice\t<em>hi</em>".to_string()));
}

#[test]
fn emote_and_notice_render_like_text() {
    let emote = message(MessageEventContent::Emote(EmoteMessageEventContent {
        body: "waves".to_string(),
        formatted_body: None,
    }));
    assert_eq!(emote.render("Alice"), Ok("Alice\twaves".to_string()));
    let notice = message(MessageEventContent::Notice(NoticeMessageEventContent {
        body: "build passed".to_string(),
        formatted_body: Some("<b>build passed</b>".to_string()),
    }));
    assert_eq!(notice.render("ci"), Ok("ci\t<b>build passed</b>".to_string()));
}

#[test]
fn undecryptable_event_has_placeholder() {
    let event = Event::Undecryptable(EncryptedEvent);
    assert_eq!(event.render("X"), Ok("X\tUnable to decrypt message".to_string()));
}

#[test]
fn server_notice_ignores_displayname() {
    for name in ["Alice", "", "SERVER"] {
        let event = message(MessageEventContent::ServerNotice(
            ServerNoticeMessageEventContent {
                body: "Maintenance at 5pm".to_string(),
            },
        ));
        assert_eq!(event.render(name), Ok("SERVER\tMaintenance at 5pm".to_string()));
    }
}

#[test]
fn media_messages_show_body_and_locator() {
    let event = message(MessageEventContent::Image(image(Some("mxc://a/b"), None)));
    assert_eq!(event.render("Alice"), Ok("Alice\tcat.png: mxc://a/b".to_string()));
    let event = message(MessageEventContent::Image(image(None, Some("mxc://a/enc"))));
    assert_eq!(event.render("Alice"), Ok("Alice\tcat.png: mxc://a/enc".to_string()));
    let audio = message(MessageEventContent::Audio(AudioMessageEventContent {
        body: "song.ogg".to_string(),
        url: Some("mxc://s/1".to_string()),
        file: None,
    }));
    assert_eq!(audio.render("Bob"), Ok("Bob\tsong.ogg: mxc://s/1".to_string()));
    let video = message(MessageEventContent::Video(VideoMessageEventContent {
        body: "clip.mp4".to_string(),
        url: None,
        file: Some(encrypted_file("mxc://v/2")),
    }));
    assert_eq!(video.render("Bob"), Ok("Bob\tclip.mp4: mxc://v/2".to_string()));
}

#[test]
fn location_shows_geo_uri() {
    let event = message(MessageEventContent::Location(LocationMessageEventContent {
        body: "Home".to_string(),
        geo_uri: "geo:51.5008,0.1247".to_string(),
    }));
    assert_eq!(event.render("Alice"), Ok("Alice\tHome: geo:51.5008,0.1247".to_string()));
}

#[test]
fn rendering_twice_gives_identical_output() {
    let event = message(MessageEventContent::Text(text("hi", Some("<b>hi</b>"))));
    let first = event.render("Alice");
    let second = event.render("Alice");
    assert_eq!(first, second);
    let joined = member("@c:d", MembershipState::Invite);
    assert_eq!(joined.render("C"), joined.render("C"));
}

#[test]
fn empty_displayname_still_gives_a_line() {
    let event = message(MessageEventContent::Text(text("", None)));
    assert_eq!(event.render(""), Ok("\t".to_string()));
    let event = member("", MembershipState::Leave);
    assert_eq!(event.render(""), Ok(" () has left the room".to_string()));
}

#[test]
fn single_event_types_render_directly() {
    let m = MessageEvent {
        content: MessageEventContent::Text(text("yo", None)),
    };
    assert_eq!(m.render("Dan"), Ok("Dan\tyo".to_string()));
    let e = EncryptedEvent;
    assert_eq!(e.render("Dan"), Ok("Dan\tUnable to decrypt message".to_string()));
}
