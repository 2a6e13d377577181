//! The remote vision-model analysis step: the exact request body sent to
//! the inference endpoint, and the rules for its outcome. Sending the
//! request and reading the response are the caller's I/O; this module
//! computes the texts.

use vstd::prelude::*;
use crate::text::dec_digits;
use crate::text::u64_to_string;

verus! {

/// The base64 text (standard alphabet, padded) of a byte sequence.
pub uninterp spec fn base64_standard(bytes: Seq<u8>) -> Seq<char>;

/// Relies on `base64::engine::general_purpose::STANDARD` through
/// `base64::Engine::encode`: the standard alphabet with padding, so the
/// text is a function of the bytes alone, four characters for every
/// started three-byte group.
#[verifier::external_body]
fn base64_encode(bytes: &Vec<u8>) -> (r: String)
    requires
        4 * ((bytes@.len() + 2) / 3) <= usize::MAX,
    ensures
        r@ == base64_standard(bytes@),
        r@.len() == 4 * ((bytes@.len() + 2) / 3),
{
    base64::Engine::encode(&base64::engine::general_purpose::STANDARD, bytes.as_slice())
}

/// Relies on `String::push`: it appends exactly the one character.
#[verifier::external_body]
fn push_char(s: &mut String, c: char)
    ensures
        final(s)@ == old(s)@.push(c),
{
    s.push(c);
}

/// The lowercase hexadecimal digit character for `d` in `0 .. 16`.
pub open spec fn hex_digit(d: int) -> char {
    if d < 10 {
        crate::text::digit_char(d)
    } else if d == 10 {
        'a'
    } else if d == 11 {
        'b'
    } else if d == 12 {
        'c'
    } else if d == 13 {
        'd'
    } else if d == 14 {
        'e'
    } else {
        'f'
    }
}

fn hex_digit_char(d: u32) -> (c: char)
    requires
        d < 16,
    ensures
        c == hex_digit(d as int),
{
    match d {
        0 => '0',
        1 => '1',
        2 => '2',
        3 => '3',
        4 => '4',
        5 => '5',
        6 => '6',
        7 => '7',
        8 => '8',
        9 => '9',
        10 => 'a',
        11 => 'b',
        12 => 'c',
        13 => 'd',
        14 => 'e',
        _ => 'f',
    }
}

/// How one character appears inside a JSON string literal: quote and
/// backslash escaped, the common control characters by letter, the rest of
/// the control range as a `\u00XX` sequence, everything else as itself.
pub open spec fn json_escaped_char(c: char) -> Seq<char> {
    if c == '"' {
        seq!['\\', '"']
    } else if c == '\\' {
        seq!['\\', '\\']
    } else if c == '\n' {
        seq!['\\', 'n']
    } else if c == '\r' {
        seq!['\\', 'r']
    } else if c == '\t' {
        seq!['\\', 't']
    } else if (c as u32) < 0x20 {
        seq!['\\', 'u', '0', '0', hex_digit(c as u32 as int / 16), hex_digit(c as u32 as int % 16)]
    } else {
        seq![c]
    }
}

/// A whole string escaped for embedding in a JSON string literal.
pub open spec fn json_escaped(s: Seq<char>) -> Seq<char>
    decreases s.len(),
{
    if s.len() == 0 {
        Seq::<char>::empty()
    } else {
        json_escaped(s.drop_last()) + json_escaped_char(s.last())
    }
}

proof fn lemma_json_escaped_take_step(s: Seq<char>, i: int)
    requires
        0 <= i < s.len(),
    ensures
        json_escaped(s.take(i + 1)) == json_escaped(s.take(i)) + json_escaped_char(s[i]),
{
    assert(s.take(i + 1).drop_last() =~= s.take(i));
    assert(s.take(i + 1).last() == s[i]);
}

/// Escape a string for embedding in a JSON string literal.
pub fn json_escape(s: &str) -> (r: String)
    ensures
        r@ == json_escaped(s@),
{
    let n = s.unicode_len();
    let mut out = String::new();
    let mut i: usize = 0;
    while i < n
        invariant
            n == s@.len(),
            i <= n,
            out@ == json_escaped(s@.take(i as int)),
        decreases n - i,
    {
        proof {
            lemma_json_escaped_take_step(s@, i as int);
        }
        let c = s.get_char(i);
        if c == '"' {
            push_char(&mut out, '\\');
            push_char(&mut out, '"');
        } else if c == '\\' {
            push_char(&mut out, '\\');
            push_char(&mut out, '\\');
        } else if c == '\n' {
            push_char(&mut out, '\\');
            push_char(&mut out, 'n');
        } else if c == '\r' {
            push_char(&mut out, '\\');
            push_char(&mut out, 'r');
        } else if c == '\t' {
            push_char(&mut out, '\\');
            push_char(&mut out, 't');
        } else if (c as u32) < 0x20 {
            let code = c as u32;
            push_char(&mut out, '\\');
            push_char(&mut out, 'u');
            push_char(&mut out, '0');
            push_char(&mut out, '0');
            push_char(&mut out, hex_digit_char(code / 16));
            push_char(&mut out, hex_digit_char(code % 16));
        } else {
            push_char(&mut out, c);
        }
        proof {
            assert(out@ =~= json_escaped(s@.take(i as int)) + json_escaped_char(s@[i as int]));
        }
        i = i + 1;
    }
    proof {
        assert(s@.take(n as int) =~= s@);
    }
    out
}

/// The prompt sent when the caller supplies none.
pub open spec fn default_prompt_text() -> Seq<char> {
    "Analyze this screenshot and describe all UI elements, text, images and other information. Analyze text carefully and include the full text recognized in each area."@
}

/// The caller's prompt, or the default when none was given.
pub fn choose_prompt(custom: Option<&str>) -> (r: String)
    ensures
        match custom {
            Some(p) => r@ == p@,
            None => r@ == default_prompt_text(),
        },
{
    match custom {
        Some(p) => p.to_owned(),
        None => "Analyze this screenshot and describe all UI elements, text, images and other information. Analyze text carefully and include the full text recognized in each area.".to_owned(),
    }
}

/// The complete JSON request body for the vision endpoint: the prompt
/// escaped into the text part, the base64 image in a data URL, and the
/// fixed 1000-token response cap. The base64 alphabet contains no character
/// JSON needs escaped, so the image text is embedded as it is.
pub open spec fn vision_request_text(prompt: Seq<char>, image_b64: Seq<char>) -> Seq<char> {
    "{\"model\":\"gpt-4-vision-preview\",\"messages\":[{\"role\":\"user\",\"content\":[{\"type\":\"text\",\"text\":\""@
        + json_escaped(prompt)
        + "\"},{\"type\":\"image_url\",\"image_url\":{\"url\":\"data:image/jpeg;base64,"@
        + image_b64 + "\"}}]}],\"max_tokens\":1000}"@
}

/// Build the vision request body from a prompt and the encoded image bytes.
pub fn vision_request_body(prompt: &str, image_b64: &str) -> (r: String)
    ensures
        r@ == vision_request_text(prompt@, image_b64@),
{
    let escaped = json_escape(prompt);
    let r = String::from_str(
        "{\"model\":\"gpt-4-vision-preview\",\"messages\":[{\"role\":\"user\",\"content\":[{\"type\":\"text\",\"text\":\"",
    );
    let r = r.concat(escaped.as_str());
    let r = r.concat(
        "\"},{\"type\":\"image_url\",\"image_url\":{\"url\":\"data:image/jpeg;base64,",
    );
    let r = r.concat(image_b64);
    let r = r.concat("\"}}]}],\"max_tokens\":1000}");
    r
}

/// Base64-encode a compressed image and build the full request body around
/// it, with the caller's prompt or the default.
pub fn build_analysis_request(custom_prompt: Option<&str>, image_bytes: &Vec<u8>) -> (r: String)
    requires
        4 * ((image_bytes@.len() + 2) / 3) <= usize::MAX,
    ensures
        match custom_prompt {
            Some(p) => r@ == vision_request_text(p@, base64_standard(image_bytes@)),
            None => r@ == vision_request_text(default_prompt_text(), base64_standard(image_bytes@)),
        },
{
    let prompt = choose_prompt(custom_prompt);
    let b64 = base64_encode(image_bytes);
    vision_request_body(prompt.as_str(), b64.as_str())
}

/// Whether an HTTP status counts as success: the 2xx range. A non-success
/// response is surfaced with its status and body; it does not suppress
/// results the run already produced.
pub fn is_success_status(status: u16) -> (r: bool)
    ensures
        r == (200 <= status < 300),
{
    200 <= status && status < 300
}

/// The message reported when the endpoint answers with a non-success
/// status: the status, the response body verbatim, and a reminder of what
/// must be running where.
pub open spec fn llm_failure_text(status: int, body: Seq<char>) -> Seq<char> {
    "LLM request failed with status "@ + dec_digits(status) + ": "@ + body
        + ". Make sure LMStudio is running on localhost:1234 with a vision model loaded."@
}

/// Build the non-success report for a status and response body.
pub fn llm_failure_message(status: u16, body: &str) -> (r: String)
    ensures
        r@ == llm_failure_text(status as int, body@),
{
    let r = String::from_str("LLM request failed with status ");
    let r = r.concat(u64_to_string(status as u64).as_str());
    let r = r.concat(": ");
    let r = r.concat(body);
    let r = r.concat(
        ". Make sure LMStudio is running on localhost:1234 with a vision model loaded.",
    );
    r
}

} // verus!
