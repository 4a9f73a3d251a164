use vstd::prelude::*;

use crate::content::{
    preferred_body, preferred_locator, HasFormattedBody, HasUrlOrFile, MessageEventContent,
    RenderError,
};
use crate::event::{EncryptedEvent, Event, MemberEvent, MembershipState, MessageEvent};

verus! {

/// What a rendering produced, with the line seen as its characters.
pub open spec fn line_view(r: Result<String, RenderError>) -> Result<Seq<char>, RenderError> {
    match r {
        Ok(s) => Ok(s@),
        Err(e) => Err(e),
    }
}

/// `sender`, a tab, then `text`.
pub open spec fn tab_separated(sender: Seq<char>, text: Seq<char>) -> Seq<char> {
    sender + "\t"@ + text
}

/// The verb phrase for a membership state.
pub open spec fn membership_verb(m: MembershipState) -> Seq<char> {
    match m {
        MembershipState::Join => "joined"@,
        MembershipState::Leave => "left"@,
        MembershipState::Ban => "banned"@,
        MembershipState::Invite => "invited"@,
        MembershipState::Knock => "knocked on"@,
    }
}

/// The sentence for a membership change.
pub open spec fn membership_sentence(
    displayname: Seq<char>,
    subject: Seq<char>,
    m: MembershipState,
) -> Seq<char> {
    displayname + " ("@ + subject + ") has "@ + membership_verb(m) + " the room"@
}

/// The line for a media message: its description, then the locator.
pub open spec fn media_line(
    displayname: Seq<char>,
    body: Seq<char>,
    locator: Result<Seq<char>, RenderError>,
) -> Result<Seq<char>, RenderError> {
    match locator {
        Ok(l) => Ok(tab_separated(displayname, body + ": "@ + l)),
        Err(e) => Err(e),
    }
}

/// The line for a message with the given content.
pub open spec fn message_line(displayname: Seq<char>, content: MessageEventContent) -> Result<
    Seq<char>,
    RenderError,
> {
    match content {
        MessageEventContent::Text(t) => Ok(
            tab_separated(displayname, preferred_body(t.body_view(), t.formatted_body_view())),
        ),
        MessageEventContent::Emote(e) => Ok(
            tab_separated(displayname, preferred_body(e.body_view(), e.formatted_body_view())),
        ),
        MessageEventContent::Notice(n) => Ok(
            tab_separated(displayname, preferred_body(n.body_view(), n.formatted_body_view())),
        ),
        MessageEventContent::Audio(a) => media_line(
            displayname,
            a.body@,
            preferred_locator(a.url_view(), a.file_url_view()),
        ),
        MessageEventContent::File(f) => media_line(
            displayname,
            f.body@,
            preferred_locator(f.url_view(), f.file_url_view()),
        ),
        MessageEventContent::Image(i) => media_line(
            displayname,
            i.body@,
            preferred_locator(i.url_view(), i.file_url_view()),
        ),
        MessageEventContent::Video(v) => media_line(
            displayname,
            v.body@,
            preferred_locator(v.url_view(), v.file_url_view()),
        ),
        MessageEventContent::Location(l) => Ok(
            tab_separated(displayname, l.body@ + ": "@ + l.geo_uri@),
        ),
        MessageEventContent::ServerNotice(sn) => Ok(tab_separated("SERVER"@, sn.body@)),
    }
}

/// Events that can be shown as one line of the chat UI. The display name of
/// the event's sender is given by the caller, since it depends on room state
/// that the event does not carry.
pub trait RenderableEvent {
    /// The line for this event, or why there is none.
    spec fn rendered(&self, displayname: Seq<char>) -> Result<Seq<char>, RenderError>;

    fn render(&self, displayname: &str) -> (r: Result<String, RenderError>)
        ensures
            line_view(r) == self.rendered(displayname@),
    ;
}

fn join_with_tab(sender: &str, text: &str) -> (r: String)
    ensures
        r@ == tab_separated(sender@, text@),
{
    let mut line = String::from_str(sender);
    line.append("\t");
    line.append(text);
    line
}

fn verb_of(m: MembershipState) -> (r: &'static str)
    ensures
        r@ == membership_verb(m),
{
    match m {
        MembershipState::Join => "joined",
        MembershipState::Leave => "left",
        MembershipState::Ban => "banned",
        MembershipState::Invite => "invited",
        MembershipState::Knock => "knocked on",
    }
}

fn render_media(displayname: &str, body: &str, locator: Result<&str, RenderError>) -> (r: Result<
    String,
    RenderError,
>)
    ensures
        line_view(r) == media_line(
            displayname@,
            body@,
            match locator {
                Ok(l) => Ok(l@),
                Err(e) => Err(e),
            },
        ),
{
    match locator {
        Ok(l) => {
            let mut text = String::from_str(body);
            text.append(": ");
            text.append(l);
            Ok(join_with_tab(displayname, text.as_str()))
        },
        Err(e) => Err(e),
    }
}

impl RenderableEvent for EncryptedEvent {
    open spec fn rendered(&self, displayname: Seq<char>) -> Result<Seq<char>, RenderError> {
        Ok(tab_separated(displayname, "Unable to decrypt message"@))
    }

    fn render(&self, displayname: &str) -> (r: Result<String, RenderError>) {
        Ok(join_with_tab(displayname, "Unable to decrypt message"))
    }
}

impl RenderableEvent for MemberEvent {
    open spec fn rendered(&self, displayname: Seq<char>) -> Result<Seq<char>, RenderError> {
        Ok(membership_sentence(displayname, self.state_key@, self.membership))
    }

    fn render(&self, displayname: &str) -> (r: Result<String, RenderError>) {
        let mut line = String::from_str(displayname);
        line.append(" (");
        line.append(self.state_key.as_str());
        line.append(") has ");
        line.append(verb_of(self.membership));
        line.append(" the room");
        Ok(line)
    }
}

impl RenderableEvent for MessageEvent {
    open spec fn rendered(&self, displayname: Seq<char>) -> Result<Seq<char>, RenderError> {
        message_line(displayname, self.content)
    }

    fn render(&self, displayname: &str) -> (r: Result<String, RenderError>) {
        match &self.content {
            MessageEventContent::Text(t) => Ok(join_with_tab(displayname, t.resolve_body())),
            MessageEventContent::Emote(e) => Ok(join_with_tab(displayname, e.resolve_body())),
            MessageEventContent::Notice(n) => Ok(join_with_tab(displayname, n.resolve_body())),
            MessageEventContent::Audio(a) => render_media(
                displayname,
                a.body.as_str(),
                a.resolve_url(),
            ),
            MessageEventContent::File(f) => render_media(
                displayname,
                f.body.as_str(),
                f.resolve_url(),
            ),
            MessageEventContent::Image(i) => render_media(
                displayname,
                i.body.as_str(),
                i.resolve_url(),
            ),
            MessageEventContent::Video(v) => render_media(
                displayname,
                v.body.as_str(),
                v.resolve_url(),
            ),
            MessageEventContent::Location(l) => {
                let mut text = String::from_str(l.body.as_str());
                text.append(": ");
                text.append(l.geo_uri.as_str());
                Ok(join_with_tab(displayname, text.as_str()))
            },
            MessageEventContent::ServerNotice(sn) => Ok(
                join_with_tab("SERVER", sn.body.as_str()),
            ),
        }
    }
}

impl RenderableEvent for Event {
    open spec fn rendered(&self, displayname: Seq<char>) -> Result<Seq<char>, RenderError> {
        match self {
            Event::Undecryptable(e) => e.rendered(displayname),
            Event::MembershipChanged(m) => m.rendered(displayname),
            Event::MessagePosted(m) => m.rendered(displayname),
        }
    }

    fn render(&self, displayname: &str) -> (r: Result<String, RenderError>) {
        match self {
            Event::Undecryptable(e) => e.render(displayname),
            Event::MembershipChanged(m) => m.render(displayname),
            Event::MessagePosted(m) => m.render(displayname),
        }
    }
}

/// Rendering is a pure function of the event and the display name: two
/// renderings of the same event under the same display name give the same
/// outcome, the same line character for character or the same error.
pub proof fn render_is_deterministic<E: RenderableEvent>(
    event: &E,
    displayname: Seq<char>,
    first: Result<String, RenderError>,
    second: Result<String, RenderError>,
)
    requires
        line_view(first) == event.rendered(displayname),
        line_view(second) == event.rendered(displayname),
    ensures
        first is Ok <==> second is Ok,
        first is Ok ==> first->Ok_0@ == second->Ok_0@,
        first is Err ==> first == second,
{
}

/// A rendered line is never empty, whatever the display name.
pub proof fn rendered_line_is_never_empty(event: Event, displayname: Seq<char>)
    ensures
        event.rendered(displayname) is Ok ==> event.rendered(displayname)->Ok_0.len() > 0,
{
    reveal_strlit("\t");
    reveal_strlit(" (");
}

} // verus!
