use vstd::prelude::*;
use vstd::string::StringExecFns;

verus! {

/// The lower-case hexadecimal digit of `n`, for `n < 16`.
pub open spec fn hex_digit(n: u32) -> char {
    seq!['0', '1', '2', '3', '4', '5', '6', '7', '8', '9', 'a', 'b', 'c', 'd', 'e', 'f'][n as int]
}

/// How `serde_json` writes the character `c` inside a JSON string: a quote,
/// a backslash and the control characters below U+0020 are escaped (with the
/// short forms `\b \t \n \f \r` where JSON has them, else `\u00XX`); every
/// other character stands as it is.
pub open spec fn json_escaped_char(c: char) -> Seq<char> {
    if c == '"' {
        seq!['\\', '"']
    } else if c == '\\' {
        seq!['\\', '\\']
    } else if c == '\x08' {
        seq!['\\', 'b']
    } else if c == '\t' {
        seq!['\\', 't']
    } else if c == '\n' {
        seq!['\\', 'n']
    } else if c == '\x0C' {
        seq!['\\', 'f']
    } else if c == '\r' {
        seq!['\\', 'r']
    } else if (c as u32) < 0x20 {
        seq!['\\', 'u', '0', '0', hex_digit((c as u32) / 16), hex_digit((c as u32) % 16)]
    } else {
        seq![c]
    }
}

/// The characters of `s`, each written as inside a JSON string.
pub open spec fn json_escaped(s: Seq<char>) -> Seq<char>
    decreases s.len(),
{
    if s.len() == 0 {
        Seq::empty()
    } else {
        json_escaped(s.drop_last()) + json_escaped_char(s.last())
    }
}

/// The JSON string literal that `serde_json` writes for `s`: `s` escaped,
/// in double quotes.
pub open spec fn json_string_of(s: Seq<char>) -> Seq<char> {
    seq!['"'] + json_escaped(s) + seq!['"']
}

/// Relies on `serde_json::Value`'s `Display`, which writes a string value as
/// a JSON string literal through `format_escaped_str` and its escape table.
#[verifier::external_body]
fn json_string(s: &str) -> (r: String)
    ensures
        r@ == json_string_of(s@),
{
    serde_json::Value::String(s.to_string()).to_string()
}

/// The request body that asks the messaging API to push one text message
/// `text` to the user `to`:
/// `{"to":<to>,"messages":[{"type":"text","text":<text>}]}`.
pub open spec fn notification_payload(to: Seq<char>, text: Seq<char>) -> Seq<char> {
    "{\"to\":"@ + json_string_of(to) + ",\"messages\":[{\"type\":\"text\",\"text\":"@ + json_string_of(text)
        + "}]}"@
}

/// Sends notifications through a push-messaging API: where to post, with
/// which token, and to which user.
pub struct LineHandler {
    messaging_api_url: String,
    token: String,
    target_user_id: String,
}

impl LineHandler {
    /// The endpoint that notifications are posted to.
    pub closed spec fn url_spec(&self) -> Seq<char> {
        self.messaging_api_url@
    }

    /// The bearer token that authorises the posts.
    pub closed spec fn token_spec(&self) -> Seq<char> {
        self.token@
    }

    /// The user that notifications are pushed to.
    pub closed spec fn recipient(&self) -> Seq<char> {
        self.target_user_id@
    }

    /// A handler that posts to `messaging_api_url` with `token`, for the user
    /// `target_user_id`.
    pub fn new(messaging_api_url: String, token: String, target_user_id: String) -> (r: Self)
        ensures
            r.url_spec() == messaging_api_url@,
            r.token_spec() == token@,
            r.recipient() == target_user_id@,
    {
        Self { messaging_api_url, token, target_user_id }
    }

    /// The endpoint that notifications are posted to.
    pub fn messaging_api_url(&self) -> (r: &str)
        ensures
            r@ == self.url_spec(),
    {
        self.messaging_api_url.as_str()
    }

    /// The bearer token that authorises the posts.
    pub fn token(&self) -> (r: &str)
        ensures
            r@ == self.token_spec(),
    {
        self.token.as_str()
    }

    /// The user that notifications are pushed to.
    pub fn target_user_id(&self) -> (r: &str)
        ensures
            r@ == self.recipient(),
    {
        self.target_user_id.as_str()
    }

    /// The JSON body of the one request that pushes `message` to the user.
    pub fn notification_body(&self, message: &str) -> (r: String)
        ensures
            r@ == notification_payload(self.recipient(), message@),
    {
        let mut body = String::from_str("{\"to\":");
        let to = json_string(self.target_user_id.as_str());
        body.append(to.as_str());
        body.append(",\"messages\":[{\"type\":\"text\",\"text\":");
        let text = json_string(message);
        body.append(text.as_str());
        body.append("}]}");
        body
    }
}

} // verus!
