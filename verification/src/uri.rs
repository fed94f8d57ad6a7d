//! Where the capture service left its artifact: the local path that a
//! `file:` URI names.

use vstd::prelude::*;
use vstd::string::{StringExecFns, StringSliceAdditionalSpecFns};
use vstd::utf8::encode_utf8;

use crate::error::ScreenshotError;

verus! {

/// The text of the error for a URI that names no local file.
pub open spec fn invalid_path_text() -> Seq<char> {
    "Invalid file path"@
}

/// `file://` in bytes.
pub open spec fn file_scheme() -> Seq<u8> {
    seq![0x66u8, 0x69, 0x6c, 0x65, 0x3a, 0x2f, 0x2f]
}

/// `localhost` in bytes.
pub open spec fn localhost() -> Seq<u8> {
    seq![0x6cu8, 0x6f, 0x63, 0x61, 0x6c, 0x68, 0x6f, 0x73, 0x74]
}

/// The longest prefix of `s` that holds neither `a` nor `b`.
pub open spec fn before(s: Seq<u8>, a: u8, b: u8) -> Seq<u8>
    decreases s.len(),
{
    if s.len() == 0 || s[0] == a || s[0] == b {
        Seq::empty()
    } else {
        seq![s[0]] + before(s.skip(1), a, b)
    }
}

pub open spec fn is_hex(b: u8) -> bool {
    (0x30 <= b <= 0x39) || (0x41 <= b <= 0x46) || (0x61 <= b <= 0x66)
}

/// The value of a hexadecimal digit.
pub open spec fn hex_value(b: u8) -> int {
    if 0x30 <= b <= 0x39 {
        b - 0x30
    } else if 0x41 <= b <= 0x46 {
        b - 0x41 + 10
    } else {
        b - 0x61 + 10
    }
}

/// Whether an escape `%XX` stands at the front of `s`.
pub open spec fn escaped(s: Seq<u8>) -> bool {
    s.len() >= 3 && s[0] == 0x25 && is_hex(s[1]) && is_hex(s[2])
}

/// `s` with every escape `%XX` replaced by the byte it writes. A `%` that
/// opens no escape stands for itself.
pub open spec fn percent_decoded(s: Seq<u8>) -> Seq<u8>
    decreases s.len(),
{
    if s.len() == 0 {
        Seq::empty()
    } else if escaped(s) {
        seq![(hex_value(s[1]) * 16 + hex_value(s[2])) as u8] + percent_decoded(s.skip(3))
    } else {
        seq![s[0]] + percent_decoded(s.skip(1))
    }
}

/// The bytes of the local path that a URI names: the URI has the scheme
/// `file`, no host or the host `localhost`, and a path, which is taken up to
/// a query or fragment and freed of its escapes.
pub open spec fn local_path(uri: Seq<u8>) -> Option<Seq<u8>> {
    let scheme = file_scheme();
    if uri.len() >= scheme.len() && uri.take(scheme.len() as int) == scheme {
        let rest = uri.skip(scheme.len() as int);
        let host = before(rest, 0x2f, 0x2f);
        if host.len() < rest.len() && (host.len() == 0 || host == localhost()) {
            Some(percent_decoded(before(rest.skip(host.len() as int), 0x3f, 0x23)))
        } else {
            None
        }
    } else {
        None
    }
}

/// A prefix that stops at `a` or `b` is no longer than the text, holds
/// neither, and ends where one of them stands or the text ends.
pub proof fn lemma_before(s: Seq<u8>, a: u8, b: u8)
    ensures
        before(s, a, b).len() <= s.len(),
        before(s, a, b) == s.take(before(s, a, b).len() as int),
        forall|i: int| 0 <= i < before(s, a, b).len() ==> s[i] != a && s[i] != b,
        before(s, a, b).len() < s.len() ==> {
            let stop = s[before(s, a, b).len() as int];
            stop == a || stop == b
        },
    decreases s.len(),
{
    if s.len() == 0 || s[0] == a || s[0] == b {
        assert(s.take(0) =~= Seq::<u8>::empty());
    } else {
        let tail = s.skip(1);
        lemma_before(tail, a, b);
        let n = before(tail, a, b).len() as int;
        assert(before(s, a, b) =~= s.take(n + 1)) by {
            assert(tail.take(n) =~= s.take(n + 1).skip(1));
        }
        assert forall|i: int| 0 <= i < before(s, a, b).len() implies s[i] != a && s[i] != b by {
            if i > 0 {
                assert(s[i] == tail[i - 1]);
            }
        }
        if before(s, a, b).len() < s.len() {
            assert(s[n + 1] == tail[n]);
        }
    }
}

/// How many bytes at the front of `text`, from `from` on, hold neither `a`
/// nor `b`.
fn run_length(text: &[u8], from: usize, a: u8, b: u8) -> (n: usize)
    requires
        from <= text.len(),
    ensures
        n == before(text@.skip(from as int), a, b).len(),
        from + n <= text.len(),
{
    let ghost s = text@.skip(from as int);
    let mut i: usize = from;
    assert(s.skip(0) =~= s);
    while i < text.len() && text[i] != a && text[i] != b
        invariant
            from <= i <= text.len(),
            s == text@.skip(from as int),
            before(s, a, b).len() == (i - from) + before(s.skip(i - from), a, b).len(),
        decreases text.len() - i,
    {
        proof {
            let here = s.skip(i - from);
            assert(here[0] == text@[i as int]);
            assert(here.skip(1) =~= s.skip(i - from + 1));
        }
        i += 1;
    }
    proof {
        let here = s.skip(i - from);
        if i < text.len() {
            assert(here[0] == text@[i as int]);
        }
    }
    i - from
}

fn hex_digit(b: u8) -> (v: Option<u8>)
    ensures
        v is Some <==> is_hex(b),
        v matches Some(d) ==> d == hex_value(b) && d < 16,
{
    if 0x30 <= b && b <= 0x39 {
        Some(b - 0x30)
    } else if 0x41 <= b && b <= 0x46 {
        Some(b - 0x41 + 10)
    } else if 0x61 <= b && b <= 0x66 {
        Some(b - 0x61 + 10)
    } else {
        None
    }
}

/// Replaces every escape `%XX` in `text[from..to]` by the byte it writes.
fn percent_decode(text: &[u8], from: usize, to: usize) -> (out: Vec<u8>)
    requires
        from <= to <= text.len(),
    ensures
        out@ == percent_decoded(text@.subrange(from as int, to as int)),
{
    let ghost s = text@.subrange(from as int, to as int);
    let mut out: Vec<u8> = Vec::new();
    let mut i: usize = from;
    assert(s.skip(0) =~= s);
    while i < to
        invariant
            from <= i <= to <= text.len(),
            s == text@.subrange(from as int, to as int),
            percent_decoded(s) == out@ + percent_decoded(s.skip(i - from)),
        decreases to - i,
    {
        let ghost here = s.skip(i - from);
        let ghost done = out@;
        assert(here.len() == to - i);
        assert(here[0] == text@[i as int]);
        let mut step: usize = 1;
        let mut byte: u8 = text[i];
        if text[i] == 0x25 && to - i >= 3 {
            assert(here[1] == text@[i + 1]);
            assert(here[2] == text@[i + 2]);
            match (hex_digit(text[i + 1]), hex_digit(text[i + 2])) {
                (Some(high), Some(low)) => {
                    byte = high * 16 + low;
                    step = 3;
                },
                _ => {},
            }
        }
        out.push(byte);
        proof {
            assert(here.skip(step as int) =~= s.skip(i - from + step));
            assert(percent_decoded(here) == seq![byte] + percent_decoded(here.skip(step as int)));
            assert(out@ =~= done + seq![byte]);
            assert(done + (seq![byte] + percent_decoded(here.skip(step as int))) =~= (done
                + seq![byte]) + percent_decoded(here.skip(step as int)));
        }
        i += step;
    }
    assert(percent_decoded(s.skip(i - from)) =~= Seq::<u8>::empty());
    assert(out@ + Seq::<u8>::empty() =~= out@);
    out
}

fn starts_with_file_scheme(text: &[u8]) -> (b: bool)
    ensures
        b == (text@.len() >= file_scheme().len() && text@.take(file_scheme().len() as int)
            == file_scheme()),
{
    if text.len() < 7 {
        return false;
    }
    let b = text[0] == 0x66 && text[1] == 0x69 && text[2] == 0x6c && text[3] == 0x65 && text[4]
        == 0x3a && text[5] == 0x2f && text[6] == 0x2f;
    proof {
        let head = text@.take(7);
        if b {
            assert(head =~= file_scheme());
        } else {
            assert(head[0] == text@[0] && head[1] == text@[1] && head[2] == text@[2] && head[3]
                == text@[3] && head[4] == text@[4] && head[5] == text@[5] && head[6] == text@[6]);
        }
    }
    b
}

fn is_localhost(text: &[u8], from: usize, len: usize) -> (b: bool)
    requires
        from + len <= text.len(),
    ensures
        b == (text@.subrange(from as int, from + len) == localhost()),
{
    if len != 9 {
        assert(text@.subrange(from as int, from + len).len() != localhost().len());
        return false;
    }
    let b = text[from] == 0x6c && text[from + 1] == 0x6f && text[from + 2] == 0x63 && text[from
        + 3] == 0x61 && text[from + 4] == 0x6c && text[from + 5] == 0x68 && text[from + 6] == 0x6f
        && text[from + 7] == 0x73 && text[from + 8] == 0x74;
    proof {
        let host = text@.subrange(from as int, from + len);
        if b {
            assert(host =~= localhost());
        } else {
            assert(host[0] == text@[from as int] && host[1] == text@[from + 1] && host[2]
                == text@[from + 2] && host[3] == text@[from + 3] && host[4] == text@[from + 4]
                && host[5] == text@[from + 5] && host[6] == text@[from + 6] && host[7]
                == text@[from + 7] && host[8] == text@[from + 8]);
        }
    }
    b
}

/// The bytes of the local path that the bytes of a URI name.
pub fn local_path_of(uri: &[u8]) -> (path: Option<Vec<u8>>)
    ensures
        match local_path(uri@) {
            Some(p) => path matches Some(v) && v@ == p,
            None => path is None,
        },
{
    if !starts_with_file_scheme(uri) {
        return None;
    }
    let ghost rest = uri@.skip(7);
    let host_len = run_length(uri, 7, 0x2f, 0x2f);
    proof {
        lemma_before(rest, 0x2f, 0x2f);
        assert(before(rest, 0x2f, 0x2f) =~= uri@.subrange(7, 7 + host_len));
    }
    if 7 + host_len == uri.len() {
        return None;
    }
    if host_len != 0 && !is_localhost(uri, 7, host_len) {
        return None;
    }
    let start: usize = 7 + host_len;
    let ghost tail = rest.skip(host_len as int);
    assert(tail =~= uri@.skip(start as int));
    let path_len = run_length(uri, start, 0x3f, 0x23);
    proof {
        lemma_before(tail, 0x3f, 0x23);
        assert(before(tail, 0x3f, 0x23) =~= uri@.subrange(start as int, start + path_len));
    }
    Some(percent_decode(uri, start, start + path_len))
}

/// The local path that a URI of the capture service names, as bytes. A URI
/// that names no local file is an error of the portal.
pub fn file_path_from_uri(uri: &str) -> (r: Result<Vec<u8>, ScreenshotError>)
    ensures
        match local_path(encode_utf8(uri@)) {
            Some(p) => r matches Ok(v) && v@ == p,
            None => r matches Err(ScreenshotError::Portal(text)) && text@ == invalid_path_text(),
        },
{
    match local_path_of(uri.as_bytes()) {
        Some(path) => Ok(path),
        None => Err(ScreenshotError::Portal(String::from_str("Invalid file path"))),
    }
}

} // verus!
