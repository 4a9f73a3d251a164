use vstd::prelude::*;

verus! {

/// The body to display: the formatted one when present, else the plain one.
pub open spec fn preferred_body(body: Seq<char>, formatted_body: Option<Seq<char>>) -> Seq<char> {
    match formatted_body {
        Some(f) => f,
        None => body,
    }
}

/// The locator to display: the plain one when present, else the encrypted
/// file's; with neither, the content is malformed.
pub open spec fn preferred_locator(url: Option<Seq<char>>, file_url: Option<Seq<char>>) -> Result<
    Seq<char>,
    RenderError,
> {
    match url {
        Some(u) => Ok(u),
        None => match file_url {
            Some(f) => Ok(f),
            None => Err(RenderError::MissingLocator),
        },
    }
}

/// Message contents that carry a mandatory plain body and an optional
/// formatted (rich) body. `resolve_body` picks the one to display.
pub trait HasFormattedBody {
    /// The plain body.
    spec fn body_view(&self) -> Seq<char>;

    /// The formatted body, if the content has one.
    spec fn formatted_body_view(&self) -> Option<Seq<char>>;

    fn body(&self) -> (r: &str)
        ensures
            r@ == self.body_view(),
    ;

    fn formatted_body(&self) -> (r: Option<&str>)
        ensures
            r.is_some() == self.formatted_body_view().is_some(),
            r.is_some() ==> r.unwrap()@ == self.formatted_body_view().unwrap(),
    ;

    /// The formatted body if present, else the plain body.
    fn resolve_body(&self) -> (r: &str)
        ensures
            self.formatted_body_view() is None ==> r@ == self.body_view(),
            self.formatted_body_view() is Some ==> r@ == self.formatted_body_view()->Some_0,
    {
        match self.formatted_body() {
            Some(f) => f,
            None => self.body(),
        }
    }
}

/// Content of a plain text message.
pub struct TextMessageEventContent {
    pub body: String,
    pub formatted_body: Option<String>,
}

impl HasFormattedBody for TextMessageEventContent {
    open spec fn body_view(&self) -> Seq<char> {
        self.body@
    }

    open spec fn formatted_body_view(&self) -> Option<Seq<char>> {
        match self.formatted_body {
            Some(f) => Some(f@),
            None => None,
        }
    }

    fn body(&self) -> (r: &str) {
        self.body.as_str()
    }

    fn formatted_body(&self) -> (r: Option<&str>) {
        match &self.formatted_body {
            Some(f) => Some(f.as_str()),
            None => None,
        }
    }
}


/// Content of an emote message (an action performed by the sender).
pub struct EmoteMessageEventContent {
    pub body: String,
    pub formatted_body: Option<String>,
}

impl HasFormattedBody for EmoteMessageEventContent {
    open spec fn body_view(&self) -> Seq<char> {
        self.body@
    }

    open spec fn formatted_body_view(&self) -> Option<Seq<char>> {
        match self.formatted_body {
            Some(f) => Some(f@),
            None => None,
        }
    }

    fn body(&self) -> (r: &str) {
        self.body.as_str()
    }

    fn formatted_body(&self) -> (r: Option<&str>) {
        match &self.formatted_body {
            Some(f) => Some(f.as_str()),
            None => None,
        }
    }
}

/// Content of a notice message (typically sent by a bot).
pub struct NoticeMessageEventContent {
    pub body: String,
    pub formatted_body: Option<String>,
}

impl HasFormattedBody for NoticeMessageEventContent {
    open spec fn body_view(&self) -> Seq<char> {
        self.body@
    }

    open spec fn formatted_body_view(&self) -> Option<Seq<char>> {
        match self.formatted_body {
            Some(f) => Some(f@),
            None => None,
        }
    }

    fn body(&self) -> (r: &str) {
        self.body.as_str()
    }

    fn formatted_body(&self) -> (r: Option<&str>) {
        match &self.formatted_body {
            Some(f) => Some(f.as_str()),
            None => None,
        }
    }
}

/// Why a line could not be rendered.
#[derive(Clone, Copy, Debug, PartialEq, Eq, Structural)]
pub enum RenderError {
    /// Media content that carries neither a plain locator nor an encrypted
    /// file, although every well-formed media message has one of the two.
    MissingLocator,
}

/// An encrypted attachment. Only where it can be fetched matters here; the
/// keys that decrypt it are used elsewhere.
pub struct EncryptedFile {
    pub url: String,
}

/// Message contents that point at outside media, either through a plain
/// locator or through an encrypted file. `resolve_url` picks the one to
/// display.
pub trait HasUrlOrFile {
    /// The plain locator, if the content has one.
    spec fn url_view(&self) -> Option<Seq<char>>;

    /// The locator held by the encrypted file, if the content has one.
    spec fn file_url_view(&self) -> Option<Seq<char>>;

    fn url(&self) -> (r: Option<&str>)
        ensures
            r.is_some() == self.url_view().is_some(),
            r.is_some() ==> r.unwrap()@ == self.url_view().unwrap(),
    ;

    fn file(&self) -> (r: Option<&str>)
        ensures
            r.is_some() == self.file_url_view().is_some(),
            r.is_some() ==> r.unwrap()@ == self.file_url_view().unwrap(),
    ;

    /// The plain locator if present, else the encrypted file's locator. A
    /// content with neither breaks the message model and is reported as
    /// `MissingLocator`, never as an empty locator.
    fn resolve_url(&self) -> (r: Result<&str, RenderError>)
        ensures
            self.url_view() is Some ==> r is Ok && r->Ok_0@ == self.url_view()->Some_0,
            self.url_view() is None && self.file_url_view() is Some ==> r is Ok
                && r->Ok_0@ == self.file_url_view()->Some_0,
            self.url_view() is None && self.file_url_view() is None ==> r == Err::<
                &str,
                RenderError,
            >(RenderError::MissingLocator),
    {
        match self.url() {
            Some(u) => Ok(u),
            None => match self.file() {
                Some(f) => Ok(f),
                None => Err(RenderError::MissingLocator),
            },
        }
    }
}

/// Content of an audio message.
pub struct AudioMessageEventContent {
    pub body: String,
    pub url: Option<String>,
    pub file: Option<EncryptedFile>,
}

impl HasUrlOrFile for AudioMessageEventContent {
    open spec fn url_view(&self) -> Option<Seq<char>> {
        match self.url {
            Some(u) => Some(u@),
            None => None,
        }
    }

    open spec fn file_url_view(&self) -> Option<Seq<char>> {
        match self.file {
            Some(f) => Some(f.url@),
            None => None,
        }
    }

    fn url(&self) -> (r: Option<&str>) {
        match &self.url {
            Some(u) => Some(u.as_str()),
            None => None,
        }
    }

    fn file(&self) -> (r: Option<&str>) {
        match &self.file {
            Some(f) => Some(f.url.as_str()),
            None => None,
        }
    }
}

/// Content of a generic file message.
pub struct FileMessageEventContent {
    pub body: String,
    pub url: Option<String>,
    pub file: Option<EncryptedFile>,
}

impl HasUrlOrFile for FileMessageEventContent {
    open spec fn url_view(&self) -> Option<Seq<char>> {
        match self.url {
            Some(u) => Some(u@),
            None => None,
        }
    }

    open spec fn file_url_view(&self) -> Option<Seq<char>> {
        match self.file {
            Some(f) => Some(f.url@),
            None => None,
        }
    }

    fn url(&self) -> (r: Option<&str>) {
        match &self.url {
            Some(u) => Some(u.as_str()),
            None => None,
        }
    }

    fn file(&self) -> (r: Option<&str>) {
        match &self.file {
            Some(f) => Some(f.url.as_str()),
            None => None,
        }
    }
}

/// Content of an image message.
pub struct ImageMessageEventContent {
    pub body: String,
    pub url: Option<String>,
    pub file: Option<EncryptedFile>,
}

impl HasUrlOrFile for ImageMessageEventContent {
    open spec fn url_view(&self) -> Option<Seq<char>> {
        match self.url {
            Some(u) => Some(u@),
            None => None,
        }
    }

    open spec fn file_url_view(&self) -> Option<Seq<char>> {
        match self.file {
            Some(f) => Some(f.url@),
            None => None,
        }
    }

    fn url(&self) -> (r: Option<&str>) {
        match &self.url {
            Some(u) => Some(u.as_str()),
            None => None,
        }
    }

    fn file(&self) -> (r: Option<&str>) {
        match &self.file {
            Some(f) => Some(f.url.as_str()),
            None => None,
        }
    }
}

/// Content of a video message.
pub struct VideoMessageEventContent {
    pub body: String,
    pub url: Option<String>,
    pub file: Option<EncryptedFile>,
}

impl HasUrlOrFile for VideoMessageEventContent {
    open spec fn url_view(&self) -> Option<Seq<char>> {
        match self.url {
            Some(u) => Some(u@),
            None => None,
        }
    }

    open spec fn file_url_view(&self) -> Option<Seq<char>> {
        match self.file {
            Some(f) => Some(f.url@),
            None => None,
        }
    }

    fn url(&self) -> (r: Option<&str>) {
        match &self.url {
            Some(u) => Some(u.as_str()),
            None => None,
        }
    }

    fn file(&self) -> (r: Option<&str>) {
        match &self.file {
            Some(f) => Some(f.url.as_str()),
            None => None,
        }
    }
}

/// Content of a location message: a description and a `geo:` URI.
pub struct LocationMessageEventContent {
    pub body: String,
    pub geo_uri: String,
}

/// Content of a notice sent by the homeserver itself.
pub struct ServerNoticeMessageEventContent {
    pub body: String,
}

/// The kinds of message content, a closed set.
pub enum MessageEventContent {
    Text(TextMessageEventContent),
    Emote(EmoteMessageEventContent),
    Notice(NoticeMessageEventContent),
    Audio(AudioMessageEventContent),
    File(FileMessageEventContent),
    Image(ImageMessageEventContent),
    Video(VideoMessageEventContent),
    Location(LocationMessageEventContent),
    ServerNotice(ServerNoticeMessageEventContent),
}

} // verus!
