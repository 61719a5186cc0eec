//! Structured rendering of a room snapshot.
//!
//! A [`crate::live::Node`] renders to a pretty-printed JSON document with
//! two-space indentation. Rendering is a diagnostic convenience and is
//! infallible: it is total over all snapshots and always yields a
//! non-empty string.

use vstd::prelude::*;

use crate::live::{Node, NodeV, UrlV, spec_token};
use vstd::string::{StrSliceExecFns, StringExecFns};

verus! {

/// The lowercase hexadecimal digit of a value below sixteen.
pub open spec fn hex_digit(d: int) -> char {
    if d == 0 {
        '0'
    } else if d == 1 {
        '1'
    } else if d == 2 {
        '2'
    } else if d == 3 {
        '3'
    } else if d == 4 {
        '4'
    } else if d == 5 {
        '5'
    } else if d == 6 {
        '6'
    } else if d == 7 {
        '7'
    } else if d == 8 {
        '8'
    } else if d == 9 {
        '9'
    } else if d == 10 {
        'a'
    } else if d == 11 {
        'b'
    } else if d == 12 {
        'c'
    } else if d == 13 {
        'd'
    } else if d == 14 {
        'e'
    } else {
        'f'
    }
}

/// The JSON escape of one character: quote, backslash and the named
/// control characters take a two-character escape, the remaining control
/// characters a `\u00XX` escape, and every other character stands as
/// itself.
pub open spec fn escaped_char(c: char) -> Seq<char> {
    if c == '"' {
        "\\\""@
    } else if c == '\\' {
        "\\\\"@
    } else if c == '\u{8}' {
        "\\b"@
    } else if c == '\t' {
        "\\t"@
    } else if c == '\n' {
        "\\n"@
    } else if c == '\u{c}' {
        "\\f"@
    } else if c == '\r' {
        "\\r"@
    } else if (c as u32) < 32 {
        "\\u00"@ + seq![hex_digit(c as u32 as int / 16), hex_digit(c as u32 as int % 16)]
    } else {
        seq![c]
    }
}

/// The JSON escape of a string: each character escaped in order.
pub open spec fn escaped(s: Seq<char>) -> Seq<char>
    decreases s.len(),
{
    if s.len() == 0 {
        Seq::empty()
    } else {
        escaped(s.drop_last()) + escaped_char(s.last())
    }
}

/// The rendering of one playback endpoint as an element of the `urls`
/// array.
pub open spec fn json_of_url(u: UrlV) -> Seq<char> {
    "    {\n      \"format\": \""@ + escaped(spec_token(u.format)) + "\",\n      \"url\": \""@
        + escaped(u.url) + "\"\n    }"@
}

/// The rendering of the first `i` endpoints, each followed by a comma
/// unless it is the last of the whole list.
pub open spec fn json_of_urls_upto(us: Seq<UrlV>, i: int) -> Seq<char>
    decreases i,
{
    if i <= 0 {
        Seq::empty()
    } else {
        json_of_urls_upto(us, i - 1) + json_of_url(us[i - 1]) + (if i == us.len() {
            "\n"@
        } else {
            ",\n"@
        })
    }
}

/// The rendering of the `urls` array.
pub open spec fn json_of_urls(us: Seq<UrlV>) -> Seq<char> {
    if us.len() == 0 {
        "[]"@
    } else {
        "[\n"@ + json_of_urls_upto(us, us.len() as int) + "  ]"@
    }
}

/// The rendered document of a room snapshot: a JSON object with the
/// fields `rid`, `title`, `cover`, `anchor`, `head` and `urls`, in that
/// order, pretty-printed with two-space indentation.
pub open spec fn json_of_node(n: NodeV) -> Seq<char> {
    "{\n  \"rid\": \""@ + escaped(n.rid) + "\",\n  \"title\": \""@ + escaped(n.title)
        + "\",\n  \"cover\": \""@ + escaped(n.cover) + "\",\n  \"anchor\": \""@ + escaped(n.anchor)
        + "\",\n  \"head\": \""@ + escaped(n.head) + "\",\n  \"urls\": "@ + json_of_urls(n.urls)
        + "\n}"@
}

/// Rendering is total and never yields the empty string, whatever the
/// snapshot holds.
pub proof fn lemma_json_of_node_nonempty(n: NodeV)
    ensures
        json_of_node(n).len() > 0,
{
    reveal_strlit("{\n  \"rid\": \"");
}

/// Relies on String::push: appends exactly one character.
#[verifier::external_body]
fn push_char(s: &mut String, c: char)
    ensures
        final(s)@ == old(s)@ + seq![c],
{
    s.push(c);
}

/// The lowercase hexadecimal digit of a value below sixteen.
fn hex_digit_char(d: u32) -> (r: char)
    requires
        d < 16,
    ensures
        r == hex_digit(d as int),
{
    if d == 0 {
        '0'
    } else if d == 1 {
        '1'
    } else if d == 2 {
        '2'
    } else if d == 3 {
        '3'
    } else if d == 4 {
        '4'
    } else if d == 5 {
        '5'
    } else if d == 6 {
        '6'
    } else if d == 7 {
        '7'
    } else if d == 8 {
        '8'
    } else if d == 9 {
        '9'
    } else if d == 10 {
        'a'
    } else if d == 11 {
        'b'
    } else if d == 12 {
        'c'
    } else if d == 13 {
        'd'
    } else if d == 14 {
        'e'
    } else {
        'f'
    }
}

/// Appends the JSON escape of `s` to `out`.
fn push_escaped(out: &mut String, s: &str)
    ensures
        final(out)@ == old(out)@ + escaped(s@),
{
    let ghost base = out@;
    let n = s.unicode_len();
    let mut i: usize = 0;
    proof {
        assert(s@.take(0) =~= Seq::<char>::empty());
        assert(base + escaped(s@.take(0)) =~= base);
    }
    while i < n
        invariant
            i <= n,
            n == s@.len(),
            out@ == base + escaped(s@.take(i as int)),
        decreases n - i,
    {
        let c = s.get_char(i);
        proof {
            let t = s@.take(i + 1 as int);
            assert(t.drop_last() =~= s@.take(i as int));
            assert(t.last() == s@[i as int]);
        }
        if c == '"' {
            out.append("\\\"");
        } else if c == '\\' {
            out.append("\\\\");
        } else if c == '\u{8}' {
            out.append("\\b");
        } else if c == '\t' {
            out.append("\\t");
        } else if c == '\n' {
            out.append("\\n");
        } else if c == '\u{c}' {
            out.append("\\f");
        } else if c == '\r' {
            out.append("\\r");
        } else {
            let u = c as u32;
            if u < 32 {
                out.append("\\u00");
                let hi = hex_digit_char(u / 16);
                push_char(out, hi);
                let lo = hex_digit_char(u % 16);
                push_char(out, lo);
            } else {
                push_char(out, c);
            }
        }
        proof {
            assert(out@ =~= base + escaped(s@.take(i + 1 as int)));
        }
        i = i + 1;
    }
    proof {
        assert(s@.take(n as int) =~= s@);
    }
}

impl Node {
    /// Renders this snapshot as a pretty-printed JSON document.
    ///
    /// Rendering is infallible: it returns the (never empty) document for
    /// every snapshot and has no failure path.
    pub fn json(&self) -> (r: String)
        ensures
            r@ == json_of_node(self@),
            r@.len() > 0,
    {
        let mut out = String::new();
        out.append("{\n  \"rid\": \"");
        push_escaped(&mut out, self.rid.as_str());
        out.append("\",\n  \"title\": \"");
        push_escaped(&mut out, self.title.as_str());
        out.append("\",\n  \"cover\": \"");
        push_escaped(&mut out, self.cover.as_str());
        out.append("\",\n  \"anchor\": \"");
        push_escaped(&mut out, self.anchor.as_str());
        out.append("\",\n  \"head\": \"");
        push_escaped(&mut out, self.head.as_str());
        out.append("\",\n  \"urls\": ");
        let ghost head_part = out@;
        let m = self.urls.len();
        if m == 0 {
            out.append("[]");
            proof {
                assert(out@ =~= head_part + json_of_urls(self@.urls));
            }
        } else {
            out.append("[\n");
            let ghost arr_base = out@;
            let mut i: usize = 0;
            while i < m
                invariant
                    i <= m,
                    m == self.urls@.len(),
                    self@.urls.len() == m,
                    forall|j: int| 0 <= j < m ==> self@.urls[j] == self.urls@[j]@,
                    arr_base == head_part + "[\n"@,
                    out@ == arr_base + json_of_urls_upto(self@.urls, i as int),
                decreases m - i,
            {
                out.append("    {\n      \"format\": \"");
                let tok = self.urls[i].format.token();
                push_escaped(&mut out, tok.as_str());
                out.append("\",\n      \"url\": \"");
                push_escaped(&mut out, self.urls[i].url.as_str());
                out.append("\"\n    }");
                if i + 1 == m {
                    out.append("\n");
                } else {
                    out.append(",\n");
                }
                proof {
                    assert(out@ =~= arr_base + json_of_urls_upto(self@.urls, i + 1 as int));
                }
                i = i + 1;
            }
            out.append("  ]");
            proof {
                assert(out@ =~= head_part + json_of_urls(self@.urls));
            }
        }
        out.append("\n}");
        proof {
            assert(out@ =~= json_of_node(self@));
            lemma_json_of_node_nonempty(self@);
        }
        out
    }
}

} // verus!
