//! The Telegram Bot API as far as a reminder needs it: the `sendMessage`
//! call, as the address and the form fields of an HTTP POST.

use vstd::prelude::*;
use vstd::string::StringExecFns;

verus! {

/// The host that serves bots where no other is given.
pub open spec fn default_url() -> Seq<char> {
    "api.telegram.org"@
}

/// The address of a bot's `sendMessage` call.
pub open spec fn send_message_url(url: Seq<char>, bot_id: Seq<char>) -> Seq<char> {
    url + "/bot"@ + bot_id + "/sendMessage"@
}

/// The form fields of a `sendMessage` call, in the order in which they are
/// sent: link previews off, notification on, no markup, the chat, the text.
pub open spec fn send_message_form(chat_id: Seq<char>, text: Seq<char>) -> Seq<
    (Seq<char>, Seq<char>),
> {
    seq![
        ("disable_web_page_preview"@, "true"@),
        ("disable_notification"@, "false"@),
        ("parse_mode"@, "none"@),
        ("chat_id"@, chat_id),
        ("text"@, text),
    ]
}

/// An HTTP POST that is ready to be sent: its address, and its form fields
/// as pairs of name and value.
#[derive(Debug)]
pub struct Request {
    pub url: String,
    pub form: Vec<(String, String)>,
}

/// A request as a mathematical value.
pub struct RequestView {
    pub url: Seq<char>,
    pub form: Seq<(Seq<char>, Seq<char>)>,
}

impl View for Request {
    type V = RequestView;

    open spec fn view(&self) -> RequestView {
        RequestView {
            url: self.url@,
            form: self.form@.map_values(|field: (String, String)| (field.0@, field.1@)),
        }
    }
}

/// A bot's access to the API: the host that serves it and the bot's id.
#[derive(Debug)]
pub struct Telegram {
    url: String,
    bot_id: String,
}

/// A bot's access as a mathematical value.
pub struct TelegramView {
    pub url: Seq<char>,
    pub bot_id: Seq<char>,
}

impl View for Telegram {
    type V = TelegramView;

    closed spec fn view(&self) -> TelegramView {
        TelegramView { url: self.url@, bot_id: self.bot_id@ }
    }
}

impl Telegram {
    /// Access for the bot `bot_id` at the host `url`, or at the default host
    /// where none is given.
    pub fn new(bot_id: String, url: Option<String>) -> (r: Self)
        ensures
            r@.bot_id == bot_id@,
            r@.url == match url {
                Some(given) => given@,
                None => default_url(),
            },
    {
        let url = match url {
            Some(given) => given,
            None => "api.telegram.org".to_string(),
        };
        Telegram { url, bot_id }
    }

    /// The host that serves the bot.
    pub fn url(&self) -> (r: &str)
        ensures
            r@ == self@.url,
    {
        self.url.as_str()
    }

    /// The bot's id.
    pub fn bot_id(&self) -> (r: &str)
        ensures
            r@ == self@.bot_id,
    {
        self.bot_id.as_str()
    }

    /// The POST that sends `text` to the chat `chat_id`.
    pub fn send_request(&self, chat_id: &str, text: &str) -> (r: Request)
        ensures
            r@.url == send_message_url(self@.url, self@.bot_id),
            r@.form == send_message_form(chat_id@, text@),
    {
        let mut url = self.url.clone();
        url.append("/bot");
        url.append(self.bot_id.as_str());
        url.append("/sendMessage");
        let mut form: Vec<(String, String)> = Vec::new();
        form.push(("disable_web_page_preview".to_string(), "true".to_string()));
        form.push(("disable_notification".to_string(), "false".to_string()));
        form.push(("parse_mode".to_string(), "none".to_string()));
        form.push(("chat_id".to_string(), chat_id.to_string()));
        form.push(("text".to_string(), text.to_string()));
        let r = Request { url, form };
        assert(r@.form =~= send_message_form(chat_id@, text@));
        r
    }
}

} // verus!
