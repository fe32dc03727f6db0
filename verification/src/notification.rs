//! The message a runner sends, and its JSON payload.

use vstd::prelude::*;
use vstd::string::StringExecFns;

verus! {

/// The JSON string literal, quotes and escapes included, that `serde_json`
/// writes for `text`.
pub uninterp spec fn json_literal(text: Seq<char>) -> Seq<char>;

/// Formats `text` as a `serde_json::Value::String` in compact form.
///
/// Trusted: the output depends on `text` alone.
#[verifier::external_body]
fn quote(text: &str) -> (r: String)
    ensures
        r@ == json_literal(text@),
{
    serde_json::Value::String(text.to_owned()).to_string()
}

/// The payload object: the member `channel` first, then `text`, with no
/// white space, given the two values already as JSON literals.
pub open spec fn payload(channel_literal: Seq<char>, text_literal: Seq<char>) -> Seq<char> {
    "{\"channel\":"@ + channel_literal + ",\"text\":"@ + text_literal + "}"@
}

/// Puts two JSON literals into the payload object.
pub fn frame_payload(channel_literal: &str, text_literal: &str) -> (r: String)
    ensures
        r@ == payload(channel_literal@, text_literal@),
{
    let mut body = String::from_str("{\"channel\":");
    body.append(channel_literal);
    body.append(",\"text\":");
    body.append(text_literal);
    body.append("}");
    body
}

/// A message for one channel.
#[derive(Debug, PartialEq, Eq)]
pub struct Notification {
    channel: String,
    text: String,
}

impl Clone for Notification {
    fn clone(&self) -> (r: Self)
        ensures
            r == *self,
    {
        Notification { channel: self.channel.clone(), text: self.text.clone() }
    }
}

impl Notification {
    /// The destination channel's identifier.
    pub closed spec fn spec_channel(self) -> Seq<char> {
        self.channel@
    }

    /// The message body.
    pub closed spec fn spec_text(self) -> Seq<char> {
        self.text@
    }

    /// A message with the given destination and body.
    pub fn new(channel: &str, text: &str) -> (r: Notification)
        ensures
            r.spec_channel() == channel@,
            r.spec_text() == text@,
    {
        Notification { channel: channel.to_owned(), text: text.to_owned() }
    }

    /// The destination channel's identifier.
    pub fn channel(&self) -> (r: &str)
        ensures
            r@ == self.spec_channel(),
    {
        self.channel.as_str()
    }

    /// The message body.
    pub fn text(&self) -> (r: &str)
        ensures
            r@ == self.spec_text(),
    {
        self.text.as_str()
    }

    /// The request body for this message: a JSON object with the members
    /// `channel` and `text`, in this order.
    pub fn to_json(&self) -> (r: String)
        ensures
            r@ == payload(json_literal(self.spec_channel()), json_literal(self.spec_text())),
    {
        let channel = quote(self.channel.as_str());
        let text = quote(self.text.as_str());
        frame_payload(channel.as_str(), text.as_str())
    }
}

} // verus!
