//! The JSON body of a message sent through the Postmark email API.
use vstd::prelude::*;
use std::collections::HashMap;

verus! {

/// The body of an email, as HTML or as plain text.
pub enum EmailBody<'request> {
    HtmlBody(&'request str),
    TextBody(&'request str),
}

/// A plain-text email from the service's sender address, with every optional
/// Postmark field left unset.
pub struct EmailJson<'client, 'request> {
    pub from: &'client str,
    pub to: &'request str,
    pub cc: Option<String>,
    pub bcc: Option<String>,
    pub subject: Option<String>,
    pub tag: Option<String>,
    pub text_body: &'request str,
    pub reply_to: Option<String>,
    pub headers: Option<Vec<String>>,
    pub track_opens: Option<bool>,
    pub track_links: Option<String>,
    pub metadata: Option<HashMap<String, String>>,
    pub attachments: Option<Vec<String>>,
    pub message_stream: Option<String>,
}

impl<'client, 'request> EmailJson<'client, 'request> {
    /// An email to `to` from `from` with `text_body` as its text.
    pub fn new(to: &'request str, from: &'client str, text_body: &'request str) -> (r: Self)
        ensures
            r.to == to,
            r.from == from,
            r.text_body == text_body,
            r.cc is None && r.bcc is None && r.subject is None && r.tag is None,
            r.reply_to is None && r.headers is None && r.track_opens is None,
            r.track_links is None && r.metadata is None && r.attachments is None,
            r.message_stream is None,
    {
        EmailJson {
            from,
            to,
            cc: None,
            bcc: None,
            subject: None,
            tag: None,
            text_body,
            reply_to: None,
            headers: None,
            track_opens: None,
            track_links: None,
            metadata: None,
            attachments: None,
            message_stream: None,
        }
    }
}

} // verus!
