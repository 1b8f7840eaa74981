//! The pull-request call: the endpoint URL, the JSON request body, and the
//! classification of the response.
//!
//! The body is framed here, byte by byte, against a specification of the
//! JSON encoding of the four fields; sending it is network work and happens
//! outside the library. A response is success exactly when its status is in
//! the 2xx range; any other status fails the run with the response body
//! kept whole for diagnostics.

use crate::errors::PipelineError;
use vstd::prelude::*;
use vstd::string::StringExecFns;
use vstd::string::StringSliceAdditionalSpecFns;

verus! {

/// The lower-case hex digit of a value below 16.
pub open spec fn hex_digit(d: u8) -> u8
    recommends
        d < 16,
{
    if d < 10 {
        (0x30 + d) as u8
    } else {
        (0x57 + d) as u8
    }
}

/// How one byte of a field appears inside a JSON string literal: quote,
/// backslash and the named control characters get a two-byte escape, any
/// other control character the six-byte `\u00XX` form, and every other
/// byte stands as it is.
pub open spec fn json_escape_byte(b: u8) -> Seq<u8> {
    if b == 0x22 {
        seq![0x5cu8, 0x22u8]
    } else if b == 0x5c {
        seq![0x5cu8, 0x5cu8]
    } else if b == 0x08 {
        seq![0x5cu8, 0x62u8]
    } else if b == 0x09 {
        seq![0x5cu8, 0x74u8]
    } else if b == 0x0a {
        seq![0x5cu8, 0x6eu8]
    } else if b == 0x0c {
        seq![0x5cu8, 0x66u8]
    } else if b == 0x0d {
        seq![0x5cu8, 0x72u8]
    } else if b < 0x20 {
        seq![0x5cu8, 0x75u8, 0x30u8, 0x30u8, hex_digit(b / 16), hex_digit(b % 16)]
    } else {
        seq![b]
    }
}

/// A field's bytes with every byte escaped as JSON requires.
pub open spec fn json_escaped(s: Seq<u8>) -> Seq<u8>
    decreases s.len(),
{
    if s.len() == 0 {
        Seq::empty()
    } else {
        json_escaped(s.drop_last()) + json_escape_byte(s.last())
    }
}

/// A JSON string literal: the escaped field between two quotes.
pub open spec fn json_string(s: Seq<u8>) -> Seq<u8> {
    seq![0x22u8] + json_escaped(s) + seq![0x22u8]
}

/// The bytes of `{"title":`.
pub open spec fn label_title() -> Seq<u8> {
    seq![0x7bu8, 0x22u8, 0x74u8, 0x69u8, 0x74u8, 0x6cu8, 0x65u8, 0x22u8, 0x3au8]
}

/// The bytes of `,"body":`.
pub open spec fn label_body() -> Seq<u8> {
    seq![0x2cu8, 0x22u8, 0x62u8, 0x6fu8, 0x64u8, 0x79u8, 0x22u8, 0x3au8]
}

/// The bytes of `,"head":`.
pub open spec fn label_head() -> Seq<u8> {
    seq![0x2cu8, 0x22u8, 0x68u8, 0x65u8, 0x61u8, 0x64u8, 0x22u8, 0x3au8]
}

/// The bytes of `,"base":`.
pub open spec fn label_base() -> Seq<u8> {
    seq![0x2cu8, 0x22u8, 0x62u8, 0x61u8, 0x73u8, 0x65u8, 0x22u8, 0x3au8]
}

/// The whole request body: a JSON object with the four fields `title`,
/// `body`, `head` and `base`, in that order.
pub open spec fn pr_body_spec(title: Seq<u8>, body: Seq<u8>, head: Seq<u8>, base: Seq<u8>) -> Seq<
    u8,
> {
    label_title() + json_string(title) + label_body() + json_string(body) + label_head()
        + json_string(head) + label_base() + json_string(base) + seq![0x7du8]
}

/// The lower-case hex digit of a value below 16.
fn hex_digit_of(d: u8) -> (r: u8)
    requires
        d < 16,
    ensures
        r == hex_digit(d),
{
    if d < 10 {
        0x30 + d
    } else {
        0x57 + d
    }
}

/// Appends one byte's JSON escape.
fn push_escaped_byte(out: &mut Vec<u8>, b: u8)
    ensures
        final(out)@ == old(out)@ + json_escape_byte(b),
{
    if b == 0x22 {
        out.push(0x5c);
        out.push(0x22);
    } else if b == 0x5c {
        out.push(0x5c);
        out.push(0x5c);
    } else if b == 0x08 {
        out.push(0x5c);
        out.push(0x62);
    } else if b == 0x09 {
        out.push(0x5c);
        out.push(0x74);
    } else if b == 0x0a {
        out.push(0x5c);
        out.push(0x6e);
    } else if b == 0x0c {
        out.push(0x5c);
        out.push(0x66);
    } else if b == 0x0d {
        out.push(0x5c);
        out.push(0x72);
    } else if b < 0x20 {
        out.push(0x5c);
        out.push(0x75);
        out.push(0x30);
        out.push(0x30);
        out.push(hex_digit_of(b / 16));
        out.push(hex_digit_of(b % 16));
    } else {
        out.push(b);
    }
    proof {
        assert(out@ =~= old(out)@ + json_escape_byte(b));
    }
}

/// Appends a field as a JSON string literal.
#[verifier::loop_isolation(false)]
fn push_json_string(out: &mut Vec<u8>, field: &str)
    ensures
        final(out)@ == old(out)@ + json_string(field.spec_bytes()),
{
    out.push(0x22);
    let bytes = field.as_bytes();
    let mut i: usize = 0;
    while i < bytes.len()
        invariant
            i <= bytes@.len(),
            out@ == old(out)@ + seq![0x22u8] + json_escaped(bytes@.subrange(0, i as int)),
        decreases bytes@.len() - i,
    {
        let b = bytes[i];
        push_escaped_byte(out, b);
        proof {
            let pre = bytes@.subrange(0, i as int);
            let post = bytes@.subrange(0, i as int + 1);
            assert(post.drop_last() =~= pre);
            assert(post.last() == b);
            assert(json_escaped(post) == json_escaped(pre) + json_escape_byte(b));
            assert(out@ =~= old(out)@ + seq![0x22u8] + json_escaped(post));
        }
        i += 1;
    }
    proof {
        assert(bytes@.subrange(0, bytes@.len() as int) =~= bytes@);
    }
    out.push(0x22);
    proof {
        assert(out@ =~= old(out)@ + json_string(field.spec_bytes()));
    }
}

/// The JSON body of the pull-request call, framed byte by byte: the four
/// fields as escaped JSON string literals in a single object.
pub fn pr_request_body(title: &str, body: &str, head: &str, base: &str) -> (r: Vec<u8>)
    ensures
        r@ == pr_body_spec(title.spec_bytes(), body.spec_bytes(), head.spec_bytes(), base.spec_bytes()),
{
    let mut out: Vec<u8> = Vec::new();
    out.push(0x7b);
    out.push(0x22);
    out.push(0x74);
    out.push(0x69);
    out.push(0x74);
    out.push(0x6c);
    out.push(0x65);
    out.push(0x22);
    out.push(0x3a);
    proof {
        assert(out@ =~= label_title());
    }
    push_json_string(&mut out, title);
    let ghost after_title = out@;
    out.push(0x2c);
    out.push(0x22);
    out.push(0x62);
    out.push(0x6f);
    out.push(0x64);
    out.push(0x79);
    out.push(0x22);
    out.push(0x3a);
    proof {
        assert(out@ =~= after_title + label_body());
    }
    push_json_string(&mut out, body);
    let ghost after_body = out@;
    out.push(0x2c);
    out.push(0x22);
    out.push(0x68);
    out.push(0x65);
    out.push(0x61);
    out.push(0x64);
    out.push(0x22);
    out.push(0x3a);
    proof {
        assert(out@ =~= after_body + label_head());
    }
    push_json_string(&mut out, head);
    let ghost after_head = out@;
    out.push(0x2c);
    out.push(0x22);
    out.push(0x62);
    out.push(0x61);
    out.push(0x73);
    out.push(0x65);
    out.push(0x22);
    out.push(0x3a);
    proof {
        assert(out@ =~= after_head + label_base());
    }
    push_json_string(&mut out, base);
    out.push(0x7d);
    proof {
        assert(out@ =~= pr_body_spec(
            title.spec_bytes(),
            body.spec_bytes(),
            head.spec_bytes(),
            base.spec_bytes(),
        ));
    }
    out
}

/// The pull-request endpoint of a repository of the organization.
pub fn pr_url(repo: &str) -> (r: String)
    ensures
        r@ == "https://api.github.com/repos/republik-io/"@ + repo@ + "/pulls"@,
{
    let mut s = String::from_str("https://api.github.com/repos/republik-io/");
    s.append(repo);
    s.append("/pulls");
    s
}

/// Decides what the pull-request response means: any status in the 2xx
/// range is success; any other status fails the run, and the failure
/// carries the status and the response body unchanged.
pub fn classify_pr_response(status: u16, body: String) -> (r: Result<(), PipelineError>)
    ensures
        r is Ok <==> (200 <= status < 300),
        !(200 <= status < 300) ==> r == Result::<(), PipelineError>::Err(
            PipelineError::ApiRejected(status, body),
        ),
{
    if 200 <= status && status < 300 {
        Result::Ok(())
    } else {
        Result::Err(PipelineError::ApiRejected(status, body))
    }
}

} // verus!
