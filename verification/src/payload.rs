//! Wire payload of one outbound notification, and its JSON encoding.
//!
//! The payload always names exactly one recipient and carries exactly two
//! content parts, the plain-text one first and the HTML one second. The
//! encoder is a pure transformation: its output is pinned, character by
//! character, by `payload_json`.

use vstd::prelude::*;
use vstd::string::*;

verus! {

/// The four-bit value `d` as a lowercase hexadecimal digit.
pub open spec fn hex_digit(d: int) -> Seq<char> {
    if d == 0 {
        "0"@
    } else if d == 1 {
        "1"@
    } else if d == 2 {
        "2"@
    } else if d == 3 {
        "3"@
    } else if d == 4 {
        "4"@
    } else if d == 5 {
        "5"@
    } else if d == 6 {
        "6"@
    } else if d == 7 {
        "7"@
    } else if d == 8 {
        "8"@
    } else if d == 9 {
        "9"@
    } else if d == 10 {
        "a"@
    } else if d == 11 {
        "b"@
    } else if d == 12 {
        "c"@
    } else if d == 13 {
        "d"@
    } else if d == 14 {
        "e"@
    } else {
        "f"@
    }
}

/// Characters that may not stand bare inside a JSON string literal: the
/// quote, the backslash, and the control characters below U+0020.
pub open spec fn needs_escape(c: char) -> bool {
    c == '"' || c == '\\' || (c as u32) < 0x20
}

/// JSON escaping of one character: an escaped character is written in the
/// six-character form `\u00XX`; every other character stands for itself.
pub open spec fn escape_char(c: char) -> Seq<char> {
    if needs_escape(c) {
        "\\u00"@ + hex_digit((c as u32) as int / 16) + hex_digit((c as u32) as int % 16)
    } else {
        seq![c]
    }
}

/// JSON escaping of a whole string.
pub open spec fn json_escaped(s: Seq<char>) -> Seq<char>
    decreases s.len(),
{
    if s.len() == 0 {
        Seq::empty()
    } else {
        escape_char(s[0]) + json_escaped(s.drop_first())
    }
}

proof fn lemma_json_escaped_push(s: Seq<char>, c: char)
    ensures
        json_escaped(s.push(c)) == json_escaped(s) + escape_char(c),
    decreases s.len(),
{
    if s.len() == 0 {
        assert(s.push(c)[0] == c);
        assert(s.push(c).drop_first() =~= Seq::<char>::empty());
        assert(json_escaped(s.push(c)) == escape_char(c) + json_escaped(Seq::<char>::empty()));
        assert(json_escaped(Seq::<char>::empty()) == Seq::<char>::empty());
        assert(json_escaped(s.push(c)) =~= json_escaped(s) + escape_char(c));
    } else {
        assert(s.push(c)[0] == s[0]);
        assert(s.push(c).drop_first() =~= s.drop_first().push(c));
        lemma_json_escaped_push(s.drop_first(), c);
        assert(json_escaped(s.push(c)) =~= json_escaped(s) + escape_char(c));
    }
}

fn hex_digit_str(d: u32) -> (r: &'static str)
    requires
        d < 16,
    ensures
        r@ == hex_digit(d as int),
{
    match d {
        0 => "0",
        1 => "1",
        2 => "2",
        3 => "3",
        4 => "4",
        5 => "5",
        6 => "6",
        7 => "7",
        8 => "8",
        9 => "9",
        10 => "a",
        11 => "b",
        12 => "c",
        13 => "d",
        14 => "e",
        _ => "f",
    }
}

/// Escape `s` for inclusion in a JSON string literal.
pub fn json_escape(s: &str) -> (r: String)
    ensures
        r@ == json_escaped(s@),
{
    let n = s.unicode_len();
    let mut out = String::new();
    let mut i: usize = 0;
    while i < n
        invariant
            i <= n,
            n == s@.len(),
            out@ == json_escaped(s@.take(i as int)),
        decreases n - i,
    {
        let c = s.get_char(i);
        let code = c as u32;
        if c == '"' || c == '\\' || code < 0x20 {
            out.append("\\u00");
            out.append(hex_digit_str(code / 16));
            out.append(hex_digit_str(code % 16));
        } else {
            let piece = s.substring_char(i, i + 1);
            proof {
                assert(piece@ =~= seq![s@[i as int]]);
            }
            out.append(piece);
        }
        proof {
            lemma_json_escaped_push(s@.take(i as int), s@[i as int]);
            assert(s@.take(i as int).push(s@[i as int]) =~= s@.take(i + 1 as int));
            assert(out@ =~= json_escaped(s@.take(i + 1 as int)));
        }
        i += 1;
    }
    proof {
        assert(s@.take(n as int) =~= s@);
    }
    out
}

/// `s` escaped and wrapped in quotes, as it stands inside the JSON body.
pub open spec fn quoted(s: Seq<char>) -> Seq<char> {
    "\""@ + json_escaped(s) + "\""@
}

/// The JSON body sent to the provider, as a function of the five field
/// values: sender and recipient address, subject, plain-text and HTML part.
pub open spec fn payload_json(
    from: Seq<char>,
    to: Seq<char>,
    subject: Seq<char>,
    text: Seq<char>,
    html: Seq<char>,
) -> Seq<char> {
    "{\"personalizations\":{\"to\":[{\"email\":"@ + quoted(to) + "}]},\"from\":{\"email\":"@
        + quoted(from) + "},\"subject\":"@ + quoted(subject)
        + ",\"content\":[{\"type\":\"text/plain\",\"value\":"@ + quoted(text)
        + "},{\"type\":\"text/html\",\"value\":"@ + quoted(html) + "}]}"@
}

/// One content part of the wire payload, tagged with its MIME-like subtype.
pub struct EmailContent {
    pub content_kind: String,
    pub value: String,
}

/// The wire payload of one outbound notification.
pub struct SendEmailRequest {
    pub from_email: String,
    pub to: Vec<String>,
    pub subject: String,
    pub content: Vec<EmailContent>,
}

impl SendEmailRequest {
    /// Shape invariant of the wire payload: exactly one recipient, and
    /// exactly two content parts tagged `text/plain` then `text/html`.
    pub open spec fn wf(self) -> bool {
        &&& self.to@.len() == 1
        &&& self.content@.len() == 2
        &&& self.content@[0].content_kind@ == "text/plain"@
        &&& self.content@[1].content_kind@ == "text/html"@
    }
}

/// Build the wire payload from the five field values. The result always
/// satisfies the shape invariant, whatever the inputs.
pub fn build_send_request(from: &str, to: &str, subject: &str, text: &str, html: &str) -> (r:
    SendEmailRequest)
    ensures
        r.wf(),
        r.from_email@ == from@,
        r.to@[0]@ == to@,
        r.subject@ == subject@,
        r.content@[0].value@ == text@,
        r.content@[1].value@ == html@,
{
    let mut to_list: Vec<String> = Vec::new();
    to_list.push(String::from_str(to));
    let mut content: Vec<EmailContent> = Vec::new();
    content.push(
        EmailContent { content_kind: String::from_str("text/plain"), value: String::from_str(text) },
    );
    content.push(
        EmailContent { content_kind: String::from_str("text/html"), value: String::from_str(html) },
    );
    SendEmailRequest {
        from_email: String::from_str(from),
        to: to_list,
        subject: String::from_str(subject),
        content,
    }
}

fn append_quoted(out: &mut String, s: &str)
    ensures
        final(out)@ == old(out)@ + quoted(s@),
{
    out.append("\"");
    let escaped = json_escape(s);
    out.append(escaped.as_str());
    out.append("\"");
    proof {
        assert(out@ =~= old(out)@ + quoted(s@));
    }
}

/// Serialize the wire payload; the result is exactly `payload_json` of the
/// five field values.
pub fn encode_send_request(req: &SendEmailRequest) -> (r: String)
    requires
        req.wf(),
    ensures
        r@ == payload_json(
            req.from_email@,
            req.to@[0]@,
            req.subject@,
            req.content@[0].value@,
            req.content@[1].value@,
        ),
{
    let mut out = String::from_str("{\"personalizations\":{\"to\":[{\"email\":");
    append_quoted(&mut out, req.to[0].as_str());
    out.append("}]},\"from\":{\"email\":");
    append_quoted(&mut out, req.from_email.as_str());
    out.append("},\"subject\":");
    append_quoted(&mut out, req.subject.as_str());
    out.append(",\"content\":[{\"type\":\"text/plain\",\"value\":");
    append_quoted(&mut out, req.content[0].value.as_str());
    out.append("},{\"type\":\"text/html\",\"value\":");
    append_quoted(&mut out, req.content[1].value.as_str());
    out.append("}]}");
    proof {
        assert(out@ =~= payload_json(
            req.from_email@,
            req.to@[0]@,
            req.subject@,
            req.content@[0].value@,
            req.content@[1].value@,
        ));
    }
    out
}

} // verus!
