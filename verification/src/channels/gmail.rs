//! Gmail: configuration, message header/body extraction, base64url transport
//! encoding and RFC 2822 message composition.

use vstd::prelude::*;
use vstd::utf8::*;

use crate::channels::encoding::{
    b64url_decode, b64url_encode, b64url_nopad_decoding, b64url_nopad_encoding,
    decode_error_text, string_from_utf8, utf8_error_text,
};
use crate::channels::{IncomingMessage, OutgoingMessage};
use crate::error::BeaconError;
use crate::text::{ascii_lower_char, ascii_lowercase, chars_of, concat};

verus! {

/// Gmail connection configuration.
#[derive(Debug, Clone)]
pub struct GmailConfig {
    /// Path to Google service account credentials JSON
    pub credentials_path: String,
    /// Seconds between polling for new messages
    pub poll_interval_secs: u64,
    /// Gmail labels to watch (e.g. `["INBOX"]`)
    pub labels: Vec<String>,
    /// User email address to act as
    pub user_email: String,
}

/// A message header as the Gmail API returns it.
#[derive(Debug, Clone)]
pub struct MessagePartHeader {
    pub name: Option<String>,
    pub value: Option<String>,
}

/// Two strings are equal up to ASCII case (`str::eq_ignore_ascii_case`).
pub open spec fn ascii_ci_eq(a: Seq<char>, b: Seq<char>) -> bool {
    ascii_lowercase(a) == ascii_lowercase(b)
}

/// Whether two strings are equal up to ASCII case.
pub fn eq_ignore_ascii_case(a: &str, b: &str) -> (r: bool)
    ensures
        r == ascii_ci_eq(a@, b@),
{
    let x = chars_of(a);
    let y = chars_of(b);
    if x.len() != y.len() {
        proof {
            assert(ascii_lowercase(a@).len() != ascii_lowercase(b@).len());
        }
        return false;
    }
    let mut i: usize = 0;
    while i < x.len()
        invariant
            x@ == a@,
            y@ == b@,
            x@.len() == y@.len(),
            i <= x@.len(),
            forall|k: int| 0 <= k < i ==> ascii_lower_char(#[trigger] x@[k]) == ascii_lower_char(y@[k]),
        decreases x@.len() - i,
    {
        let cx = lower_ascii(x[i]);
        let cy = lower_ascii(y[i]);
        if cx != cy {
            proof {
                assert(ascii_lowercase(a@)[i as int] != ascii_lowercase(b@)[i as int]);
            }
            return false;
        }
        i = i + 1;
    }
    proof {
        assert(ascii_lowercase(a@) =~= ascii_lowercase(b@));
    }
    true
}

/// ASCII lowercase of one character.
fn lower_ascii(c: char) -> (r: char)
    ensures
        r == ascii_lower_char(c),
{
    if 'A' <= c && c <= 'Z' {
        let u = (c as u32) + 32;
        lower_ascii_letter(u)
    } else {
        c
    }
}

/// The lowercase letter with the given code point.
fn lower_ascii_letter(u: u32) -> (r: char)
    requires
        97 <= u <= 122,
    ensures
        r == u as char,
{
    let b = u as u8;
    b as char
}

/// The header `name` refers to: some header whose name matches up to ASCII case.
pub open spec fn header_named(h: MessagePartHeader, name: Seq<char>) -> bool {
    h.name matches Some(n) && ascii_ci_eq(n@, name)
}

/// Extract a header value by name: the value of the first header whose name matches
/// up to ASCII case (none if there is no such header or it has no value).
pub fn extract_header(headers: &Vec<MessagePartHeader>, name: &str) -> (r: Option<String>)
    ensures
        (forall|i: int| 0 <= i < headers@.len() ==> !header_named(#[trigger] headers@[i], name@)) ==> r is None,
        forall|i: int| 0 <= i < headers@.len() && header_named(#[trigger] headers@[i], name@)
            && (forall|j: int| 0 <= j < i ==> !header_named(#[trigger] headers@[j], name@)) ==> r
            == headers@[i].value,
{
    let mut i: usize = 0;
    while i < headers.len()
        invariant
            i <= headers@.len(),
            forall|j: int| 0 <= j < i ==> !header_named(#[trigger] headers@[j], name@),
        decreases headers@.len() - i,
    {
        let h = &headers[i];
        let hit = match &h.name {
            Some(n) => eq_ignore_ascii_case(n.as_str(), name),
            None => false,
        };
        if hit {
            let r = h.value.clone();
            proof {
                assert forall|k: int| 0 <= k < headers@.len() && header_named(#[trigger] headers@[k], name@)
                    && (forall|j: int| 0 <= j < k ==> !header_named(#[trigger] headers@[j], name@)) implies r
                    == headers@[k].value by {
                    if k > i {
                        assert(!header_named(headers@[i as int], name@));
                    }
                }
            }
            return r;
        }
        i = i + 1;
    }
    None
}

/// Decode a base64url-encoded string (Gmail API format) into UTF-8 text. Decoding the
/// encoding of a text's UTF-8 bytes gives the text back.
pub fn base64_url_decode(input: &str) -> (r: Result<String, BeaconError>)
    ensures
        forall|s: Seq<char>| #[trigger] b64url_nopad_encoding(encode_utf8(s)) == input@ ==> (r matches Ok(t) && t@ == s),
        r is Ok <==> (b64url_nopad_decoding(input@) matches Some(b) && valid_utf8(b)),
        r matches Ok(s) ==> s@ == decode_utf8(b64url_nopad_decoding(input@)->0),
        r matches Err(e) ==> e is Channel,
{
    let bytes = match b64url_decode(input) {
        Ok(b) => b,
        Err(e) => {
            let msg = decode_error_text(&e);
            return Err(BeaconError::Channel(concat("base64url decode failed: ", msg.as_str())));
        },
    };
    proof {
        assert forall|s: Seq<char>| #[trigger] b64url_nopad_encoding(encode_utf8(s)) == input@ implies valid_utf8(bytes@) && decode_utf8(bytes@) == s by {
            encode_utf8_valid_utf8(s);
            encode_utf8_decode_utf8(s);
        }
    }
    match string_from_utf8(bytes) {
        Ok(s) => Ok(s),
        Err(e) => {
            let msg = utf8_error_text(&e);
            Err(BeaconError::Channel(concat("UTF-8 decode failed: ", msg.as_str())))
        },
    }
}

/// Encode bytes as base64url (Gmail API format).
pub fn base64_url_encode(input: &[u8]) -> (r: String)
    requires
        input@.len() <= usize::MAX / 2,
    ensures
        r@ == b64url_nopad_encoding(input@),
{
    b64url_encode(input)
}

/// The RFC 2822 text of a plain-text email: To, From, Subject, MIME headers, the
/// reply headers when replying, a blank line, then the body (CRLF line ends).
pub open spec fn composed_email(
    to: Seq<char>,
    from: Seq<char>,
    subject: Seq<char>,
    body: Seq<char>,
    in_reply_to: Option<Seq<char>>,
) -> Seq<char> {
    "To: "@ + to + "\r\n"@ + "From: "@ + from + "\r\n"@ + "Subject: "@ + subject + "\r\n"@
        + "MIME-Version: 1.0\r\n"@ + "Content-Type: text/plain; charset=utf-8\r\n"@ + match in_reply_to {
        Some(id) => "In-Reply-To: "@ + id + "\r\n"@ + "References: "@ + id + "\r\n"@,
        None => Seq::empty(),
    } + "\r\n"@ + body
}

/// Compose an RFC 2822 email message.
pub fn compose_email(to: &str, from: &str, subject: &str, body: &str, in_reply_to: Option<&str>) -> (r: String)
    ensures
        r@ == composed_email(to@, from@, subject@, body@, match in_reply_to {
            Some(id) => Some(id@),
            None => None,
        }),
{
    let mut msg = String::from_str("To: ");
    msg.append(to);
    msg.append("\r\n");
    msg.append("From: ");
    msg.append(from);
    msg.append("\r\n");
    msg.append("Subject: ");
    msg.append(subject);
    msg.append("\r\n");
    msg.append("MIME-Version: 1.0\r\n");
    msg.append("Content-Type: text/plain; charset=utf-8\r\n");
    let ghost head = msg@;
    match in_reply_to {
        Some(ref_id) => {
            msg.append("In-Reply-To: ");
            msg.append(ref_id);
            msg.append("\r\n");
            msg.append("References: ");
            msg.append(ref_id);
            msg.append("\r\n");
        },
        None => {
            assert(head + Seq::<char>::empty() =~= head);
        },
    }
    msg.append("\r\n");
    msg.append(body);
    msg
}

/// Content forwarded for a polled email: the body, prefixed with "[subject] " when
/// the subject is not empty.
pub fn email_content(subject: &str, body: String) -> (r: String)
    ensures
        r@ == (if subject@.len() == 0 { body@ } else { "["@ + subject@ + "] "@ + body@ }),
{
    if subject.is_empty() {
        body
    } else {
        let mut s = String::from_str("[");
        s.append(subject);
        s.append("] ");
        s.append(body.as_str());
        s
    }
}

/// Body data of a message part (the base64url text, as bytes).
#[derive(Debug, Clone)]
pub struct MessagePartBody {
    pub data: Option<Vec<u8>>,
}

/// One MIME part of a message, possibly with child parts.
#[derive(Debug)]
pub struct MessagePart {
    pub mime_type: Option<String>,
    pub headers: Option<Vec<MessagePartHeader>>,
    pub body: Option<MessagePartBody>,
    pub parts: Option<Vec<MessagePart>>,
}

/// The decoded text of a part's own body, when the part is text/plain (up to ASCII
/// case) and its body data decodes (as UTF-8, then base64url, then UTF-8).
pub open spec fn own_text(p: MessagePart) -> Option<Seq<char>> {
    match (p.mime_type, p.body) {
        (Some(m), Some(b)) => match b.data {
            Some(d) => if ascii_ci_eq(m@, "text/plain"@) && valid_utf8(d@) {
                match b64url_nopad_decoding(decode_utf8(d@)) {
                    Some(raw) => if valid_utf8(raw) {
                        Some(decode_utf8(raw))
                    } else {
                        None
                    },
                    None => None,
                }
            } else {
                None
            },
            None => None,
        },
        _ => None,
    }
}

/// The text/plain body of a message part: its own text if it has one, else the first
/// non-empty text among its child parts (depth first), else empty.
pub open spec fn text_body(p: MessagePart) -> Seq<char>
    decreases p,
{
    if own_text(p) is Some {
        own_text(p)->0
    } else {
        match p.parts {
            Some(v) => first_text(v@),
            None => Seq::empty(),
        }
    }
}

/// The decoded text of a part's own body, if it is a decodable text/plain part.
fn own_text_exec(p: &MessagePart) -> (r: Option<String>)
    ensures
        r is Some <==> own_text(*p) is Some,
        r matches Some(t) ==> own_text(*p) == Some(t@),
{
    let m = match &p.mime_type {
        Some(m) => m,
        None => {
            return None;
        },
    };
    let b = match &p.body {
        Some(b) => b,
        None => {
            return None;
        },
    };
    let d = match &b.data {
        Some(d) => d,
        None => {
            return None;
        },
    };
    proof {
        reveal_strlit("text/plain");
    }
    if !eq_ignore_ascii_case(m.as_str(), "text/plain") {
        return None;
    }
    let data_str = match string_from_utf8(d.clone()) {
        Ok(s) => s,
        Err(_) => {
            return None;
        },
    };
    match base64_url_decode(data_str.as_str()) {
        Ok(t) => Some(t),
        Err(_) => None,
    }
}

/// Recursively extract the text/plain body from a MIME message payload.
pub fn extract_text_body(payload: &MessagePart) -> (r: String)
    ensures
        r@ == text_body(*payload),
    decreases payload,
{
    if let Some(t) = own_text_exec(payload) {
        return t;
    }
    if let Some(parts) = &payload.parts {
        let mut i: usize = 0;
        proof {
            assert(parts@.subrange(0, parts@.len() as int) =~= parts@);
        }
        while i < parts.len()
            invariant
                i <= parts@.len(),
                payload.parts == Some(*parts),
                own_text(*payload) is None,
                first_text(parts@) == first_text(parts@.subrange(i as int, parts@.len() as int)),
            decreases parts@.len() - i,
        {
            proof {
                assert(decreases_to!(*payload => payload.parts));
                assert(decreases_to!(payload.parts => payload.parts->0));
                assert(decreases_to!(*parts => parts@));
                assert(decreases_to!(parts@ => parts@[i as int]));
                assert(decreases_to!(*payload => parts@[i as int]));
            }
            let text = extract_text_body(&parts[i]);
            let ghost rest = parts@.subrange(i as int, parts@.len() as int);
            proof {
                assert(rest[0] == parts@[i as int]);
                assert(rest.drop_first() =~= parts@.subrange(i + 1, parts@.len() as int));
            }
            if !text.as_str().is_empty() {
                return text;
            }
            i = i + 1;
        }
        proof {
            assert(parts@.subrange(i as int, parts@.len() as int) =~= Seq::<MessagePart>::empty());
        }
    }
    String::new()
}

/// The first non-empty text body among parts, in order.
pub open spec fn first_text(parts: Seq<MessagePart>) -> Seq<char>
    decreases parts,
{
    if parts.len() == 0 {
        Seq::empty()
    } else if text_body(parts[0]).len() > 0 {
        text_body(parts[0])
    } else {
        first_text(parts.drop_first())
    }
}

/// The value of the first header with the given name (up to ASCII case), if any.
pub open spec fn header_value(hs: Seq<MessagePartHeader>, name: Seq<char>) -> Option<String>
    decreases hs.len(),
{
    if hs.len() == 0 {
        None
    } else if header_named(hs[0], name) {
        hs[0].value
    } else {
        header_value(hs.drop_first(), name)
    }
}

proof fn lemma_header_value(hs: Seq<MessagePartHeader>, name: Seq<char>, r: Option<String>)
    requires
        (forall|i: int| 0 <= i < hs.len() ==> !header_named(#[trigger] hs[i], name)) ==> r is None,
        forall|i: int| 0 <= i < hs.len() && header_named(#[trigger] hs[i], name)
            && (forall|j: int| 0 <= j < i ==> !header_named(#[trigger] hs[j], name)) ==> r == hs[i].value,
    ensures
        r == header_value(hs, name),
    decreases hs.len(),
{
    if hs.len() > 0 && !header_named(hs[0], name) {
        let t = hs.drop_first();
        assert forall|i: int| 0 <= i < t.len() && header_named(#[trigger] t[i], name)
            && (forall|j: int| 0 <= j < i ==> !header_named(#[trigger] t[j], name)) implies r == t[i].value by {
            assert(hs[i + 1] == t[i]);
            assert forall|j: int| 0 <= j < i + 1 implies !header_named(#[trigger] hs[j], name) by {
                if j > 0 {
                    assert(hs[j] == t[j - 1]);
                }
            }
        }
        if forall|i: int| 0 <= i < t.len() ==> !header_named(#[trigger] t[i], name) {
            assert forall|i: int| 0 <= i < hs.len() implies !header_named(#[trigger] hs[i], name) by {
                if i > 0 {
                    assert(hs[i] == t[i - 1]);
                }
            }
        }
        lemma_header_value(t, name, r);
    }
}

/// A header's value, or empty text.
pub open spec fn text_of(o: Option<String>) -> Seq<char> {
    match o {
        Some(s) => s@,
        None => Seq::empty(),
    }
}

/// The message forwarded for a polled email: sent by its `From` header, with the
/// `[subject] ` prefix, replying to its `Message-ID`, in its thread.
pub fn polled_message(msg_id: String, thread_id: Option<String>, payload: &MessagePart) -> (m: IncomingMessage)
    ensures
        ({
            let hs = match payload.headers {
                Some(h) => h@,
                None => Seq::empty(),
            };
            let from = text_of(header_value(hs, "From"@));
            let subject = text_of(header_value(hs, "Subject"@));
            let body = text_body(*payload);
            &&& m.id@ == msg_id@
            &&& m.channel_id@ == from
            &&& m.sender_id@ == from
            &&& m.sender_name@ == from
            &&& m.content@ == (if subject.len() == 0 { body } else { "["@ + subject + "] "@ + body })
            &&& m.is_dm
            &&& m.reply_to == header_value(hs, "Message-ID"@)
            &&& m.attachments@.len() == 0
            &&& m.thread_id == thread_id
            &&& m.callback_data is None
        }),
{
    let empty: Vec<MessagePartHeader> = Vec::new();
    let headers = match &payload.headers {
        Some(h) => h,
        None => &empty,
    };
    let from_h = extract_header(headers, "From");
    let subject_h = extract_header(headers, "Subject");
    let message_id = extract_header(headers, "Message-ID");
    proof {
        lemma_header_value(headers@, "From"@, from_h);
        lemma_header_value(headers@, "Subject"@, subject_h);
        lemma_header_value(headers@, "Message-ID"@, message_id);
    }
    let from = match from_h {
        Some(f) => f,
        None => String::new(),
    };
    let subject = match subject_h {
        Some(s) => s,
        None => String::new(),
    };
    let body = extract_text_body(payload);
    let content = email_content(subject.as_str(), body);
    IncomingMessage {
        id: msg_id,
        channel_id: from.clone(),
        sender_id: from.clone(),
        sender_name: from,
        content,
        is_dm: true,
        reply_to: message_id,
        attachments: Vec::new(),
        thread_id,
        callback_data: None,
    }
}

/// The subject of an outgoing email: "Re: " when replying, else "Message from Beacon".
pub open spec fn outgoing_subject(reply_to: Option<String>) -> Seq<char> {
    match reply_to {
        Some(_) => "Re: "@,
        None => "Message from Beacon"@,
    }
}

/// The raw message sent for an outgoing message: the composed email from the user's
/// address to the channel id, base64url encoded.
pub fn outgoing_raw_email(message: &OutgoingMessage, user_email: &str) -> (r: String)
    requires
        encode_utf8(composed_email(
            message.channel_id@,
            user_email@,
            outgoing_subject(message.reply_to),
            message.content@,
            match message.reply_to {
                Some(id) => Some(id@),
                None => None,
            },
        )).len() <= usize::MAX / 2,
    ensures
        r@ == b64url_nopad_encoding(encode_utf8(composed_email(
            message.channel_id@,
            user_email@,
            outgoing_subject(message.reply_to),
            message.content@,
            match message.reply_to {
                Some(id) => Some(id@),
                None => None,
            },
        ))),
{
    let subject = match &message.reply_to {
        Some(_) => "Re: ",
        None => "Message from Beacon",
    };
    let reply = match &message.reply_to {
        Some(id) => Some(id.as_str()),
        None => None,
    };
    proof {
        reveal_strlit("Re: ");
        reveal_strlit("Message from Beacon");
    }
    let raw = compose_email(message.channel_id.as_str(), user_email, subject, message.content.as_str(), reply);
    let bytes = raw.as_str().as_bytes();
    proof {
        encode_utf8_valid_utf8(raw@);
    }
    base64_url_encode(bytes)
}

} // verus!
