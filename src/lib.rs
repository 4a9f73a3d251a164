//! Rendering of chat room events into single lines for a terminal chat client.

mod content;
mod event;
mod render;

pub use content::{
    preferred_body, preferred_locator, AudioMessageEventContent, EmoteMessageEventContent,
    EncryptedFile, FileMessageEventContent, HasFormattedBody, HasUrlOrFile,
    ImageMessageEventContent, LocationMessageEventContent, MessageEventContent,
    NoticeMessageEventContent, RenderError, ServerNoticeMessageEventContent,
    TextMessageEventContent, VideoMessageEventContent,
};
pub use event::{EncryptedEvent, Event, MemberEvent, MembershipState, MessageEvent};
pub use render::{
    line_view, media_line, membership_sentence, membership_verb, message_line, render_is_deterministic,
    rendered_line_is_never_empty, tab_separated, RenderableEvent,
};
