//! Building the translate request: the query URL and the JSON body, with
//! JSON string escaping done and proved here.
//!
//! The body is the serialization of a one-element list holding the source
//! text, `[{"Text":"..."}]`, with the escaping JSON requires: `"` and `\`
//! are escaped, control characters become their short escapes or `\u00XX`,
//! and every other character stands as itself.

use vstd::prelude::*;

use crate::outside::push_char;
use crate::records::TextItem;

verus! {

/// The lowercase hexadecimal digit for `n`.
pub open spec fn hex_digit(n: u32) -> char
    recommends
        n < 16,
{
    if n == 0 { '0' }
    else if n == 1 { '1' }
    else if n == 2 { '2' }
    else if n == 3 { '3' }
    else if n == 4 { '4' }
    else if n == 5 { '5' }
    else if n == 6 { '6' }
    else if n == 7 { '7' }
    else if n == 8 { '8' }
    else if n == 9 { '9' }
    else if n == 10 { 'a' }
    else if n == 11 { 'b' }
    else if n == 12 { 'c' }
    else if n == 13 { 'd' }
    else if n == 14 { 'e' }
    else { 'f' }
}

fn hex_digit_exec(n: u32) -> (r: char)
    requires
        n < 16,
    ensures
        r == hex_digit(n),
{
    if n == 0 { '0' }
    else if n == 1 { '1' }
    else if n == 2 { '2' }
    else if n == 3 { '3' }
    else if n == 4 { '4' }
    else if n == 5 { '5' }
    else if n == 6 { '6' }
    else if n == 7 { '7' }
    else if n == 8 { '8' }
    else if n == 9 { '9' }
    else if n == 10 { 'a' }
    else if n == 11 { 'b' }
    else if n == 12 { 'c' }
    else if n == 13 { 'd' }
    else if n == 14 { 'e' }
    else { 'f' }
}

/// How one character stands inside a JSON string literal.
pub open spec fn escaped_char(c: char) -> Seq<char> {
    if c == '"' { seq!['\\', '"'] }
    else if c == '\\' { seq!['\\', '\\'] }
    else if c == '\u{8}' { seq!['\\', 'b'] }
    else if c == '\t' { seq!['\\', 't'] }
    else if c == '\n' { seq!['\\', 'n'] }
    else if c == '\u{c}' { seq!['\\', 'f'] }
    else if c == '\r' { seq!['\\', 'r'] }
    else if (c as u32) < 0x20 {
        seq!['\\', 'u', '0', '0', hex_digit((c as u32) / 16), hex_digit((c as u32) % 16)]
    } else {
        seq![c]
    }
}

/// How a whole string stands inside a JSON string literal.
pub open spec fn escape_seq(s: Seq<char>) -> Seq<char>
    decreases s.len(),
{
    if s.len() == 0 {
        Seq::empty()
    } else {
        escape_seq(s.drop_last()) + escaped_char(s.last())
    }
}

/// Appends the JSON string escaping of `s` to `out`.
fn escape_into(out: &mut String, s: &str)
    ensures
        final(out)@ == old(out)@ + escape_seq(s@),
{
    let len = s.unicode_len();
    let mut i: usize = 0;
    while i < len
        invariant
            i <= len,
            len == s@.len(),
            out@ == old(out)@ + escape_seq(s@.take(i as int)),
        decreases len - i,
    {
        let c = s.get_char(i);
        if c == '"' {
            out.append("\\\"");
            proof {
                reveal_strlit("\\\"");
                assert("\\\""@ =~= escaped_char(c));
            }
        } else if c == '\\' {
            out.append("\\\\");
            proof {
                reveal_strlit("\\\\");
                assert("\\\\"@ =~= escaped_char(c));
            }
        } else if c == '\u{8}' {
            out.append("\\b");
            proof {
                reveal_strlit("\\b");
                assert("\\b"@ =~= escaped_char(c));
            }
        } else if c == '\t' {
            out.append("\\t");
            proof {
                reveal_strlit("\\t");
                assert("\\t"@ =~= escaped_char(c));
            }
        } else if c == '\n' {
            out.append("\\n");
            proof {
                reveal_strlit("\\n");
                assert("\\n"@ =~= escaped_char(c));
            }
        } else if c == '\u{c}' {
            out.append("\\f");
            proof {
                reveal_strlit("\\f");
                assert("\\f"@ =~= escaped_char(c));
            }
        } else if c == '\r' {
            out.append("\\r");
            proof {
                reveal_strlit("\\r");
                assert("\\r"@ =~= escaped_char(c));
            }
        } else if (c as u32) < 0x20 {
            out.append("\\u00");
            push_char(out, hex_digit_exec((c as u32) / 16));
            push_char(out, hex_digit_exec((c as u32) % 16));
            proof {
                reveal_strlit("\\u00");
                assert("\\u00"@.push(hex_digit((c as u32) / 16)).push(hex_digit((c as u32) % 16))
                    =~= escaped_char(c));
            }
        } else {
            push_char(out, c);
            proof {
                assert(old(out)@ + escape_seq(s@.take(i as int)).push(c) =~= (old(out)@
                    + escape_seq(s@.take(i as int))).push(c));
                assert(escape_seq(s@.take(i as int)) + escaped_char(c) =~= escape_seq(
                    s@.take(i as int),
                ).push(c));
            }
        }
        proof {
            assert(s@.take(i as int + 1).drop_last() =~= s@.take(i as int));
            assert(s@.take(i as int + 1).last() == s@[i as int]);
            assert(escape_seq(s@.take(i as int + 1)) == escape_seq(s@.take(i as int))
                + escaped_char(s@[i as int]));
            assert(out@ =~= old(out)@ + escape_seq(s@.take(i as int + 1)));
        }
        i = i + 1;
    }
    proof {
        assert(s@.take(len as int) =~= s@);
    }
}

/// The serialized request body for one source text.
pub open spec fn body_of(text: Seq<char>) -> Seq<char> {
    "[{\"Text\":\""@ + escape_seq(text) + "\"}]"@
}

/// Serializes the one-element request list holding `item`.
pub fn build_body(item: &TextItem) -> (r: String)
    ensures
        r@ == body_of(item.text@),
{
    let mut out = String::from_str("[{\"Text\":\"");
    escape_into(&mut out, item.text.as_str());
    out.append("\"}]");
    proof {
        assert(out@ =~= body_of(item.text@));
    }
    out
}

/// The translate endpoint URL with its query parameters. An empty `from`
/// asks the service to detect the source language.
pub open spec fn url_of(api: Seq<char>, from: Seq<char>, to: Seq<char>) -> Seq<char> {
    api + "?api-version=3.0&to="@ + to + "&from="@ + from
}

/// Builds the translate endpoint URL with its query parameters.
pub fn build_url(api: &str, from: &str, to: &str) -> (r: String)
    ensures
        r@ == url_of(api@, from@, to@),
{
    let mut url = String::from_str(api);
    url.append("?api-version=3.0&to=");
    url.append(to);
    url.append("&from=");
    url.append(from);
    proof {
        assert(url@ =~= url_of(api@, from@, to@));
    }
    url
}

} // verus!
