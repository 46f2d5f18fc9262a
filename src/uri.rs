//! Rendering of identities as `kythe:` URIs.

use vstd::prelude::*;
use crate::text::{push_char, chars_of};
use crate::vname::{VName, VNameModel};

verus! {

/// Whether a character is alphabetic or numeric, as Unicode defines it.
pub uninterp spec fn alphanumeric(c: char) -> bool;

/// Relies on `char::is_alphanumeric`: whether `c` is alphabetic or numeric.
#[verifier::external_body]
fn is_alphanumeric(c: char) -> (r: bool)
    ensures
        r == alphanumeric(c),
{
    c.is_alphanumeric()
}

/// Whether `c` is written as a percent sequence. Alphanumerics and `-._~`
/// never are; `/` only where `escape_slash` asks for it.
pub open spec fn should_escape_spec(c: char, escape_slash: bool) -> bool {
    if alphanumeric(c) {
        false
    } else if c == '-' || c == '.' || c == '_' || c == '~' {
        false
    } else if c == '/' {
        escape_slash
    } else {
        true
    }
}

/// The upper-case hexadecimal digit of `d`.
pub open spec fn hex_digit(d: nat) -> char {
    if d < 10 {
        ((d + 48) as u8) as char
    } else {
        ((d + 55) as u8) as char
    }
}

/// A percent sequence: `%` and the two upper-case hexadecimal digits of a
/// byte.
pub open spec fn pct(b: nat) -> Seq<char> {
    seq!['%', hex_digit(b / 16), hex_digit(b % 16)]
}

/// The percent sequences of the UTF-8 encoding of `c`.
pub open spec fn pct_utf8(c: char) -> Seq<char> {
    let v = c as u32 as nat;
    if v < 0x80 {
        pct(v)
    } else if v < 0x800 {
        pct(0xC0 + v / 64) + pct(0x80 + v % 64)
    } else if v < 0x10000 {
        pct(0xE0 + v / 4096) + pct(0x80 + (v / 64) % 64) + pct(0x80 + v % 64)
    } else {
        pct(0xF0 + v / 262144) + pct(0x80 + (v / 4096) % 64) + pct(0x80 + (v / 64) % 64) + pct(0x80 + v % 64)
    }
}

/// How one character is written in an escaped component.
pub open spec fn escape_char_spec(c: char, escape_slash: bool) -> Seq<char> {
    if should_escape_spec(c, escape_slash) {
        pct_utf8(c)
    } else {
        seq![c]
    }
}

/// An escaped component: each character written as `escape_char_spec` says.
pub open spec fn escape_spec(s: Seq<char>, escape_slash: bool) -> Seq<char>
    decreases s.len(),
{
    if s.len() == 0 {
        Seq::empty()
    } else {
        escape_spec(s.drop_last(), escape_slash) + escape_char_spec(s.last(), escape_slash)
    }
}

/// The text of a field preceded by its marker, or nothing when it is empty.
pub open spec fn uri_part(marker: Seq<char>, field: Seq<char>, escape_slash: bool) -> Seq<char> {
    if field.len() == 0 {
        Seq::empty()
    } else {
        marker + escape_spec(field, escape_slash)
    }
}

/// The URI of an identity: corpus, language, path, root and signature in that
/// order, each omitted when empty.
pub open spec fn uri_spec(v: VNameModel) -> Seq<char> {
    "kythe:"@ + uri_part("//"@, v.corpus, false) + uri_part("?lang="@, v.language, true)
        + uri_part("?path="@, v.path, false) + uri_part("?root="@, v.root, false)
        + uri_part("#"@, v.signature, true)
}

/// Whether a character must be escaped.
pub fn should_escape(c: char, escape_slash: bool) -> (r: bool)
    ensures
        r == should_escape_spec(c, escape_slash),
{
    if is_alphanumeric(c) {
        return false;
    }
    match c {
        '-' | '.' | '_' | '~' => false,
        '/' => escape_slash,
        _ => true,
    }
}

fn hex_digit_char(d: u32) -> (r: char)
    requires
        d < 16,
    ensures
        r == hex_digit(d as nat),
{
    if d < 10 {
        ((d + 48) as u8) as char
    } else {
        ((d + 55) as u8) as char
    }
}

/// Appends the percent sequence of byte `b`.
fn append_pct(out: &mut String, b: u32)
    requires
        b < 256,
    ensures
        final(out)@ == old(out)@ + pct(b as nat),
{
    push_char(out, '%');
    push_char(out, hex_digit_char(b / 16));
    push_char(out, hex_digit_char(b % 16));
    assert(out@ =~= old(out)@ + pct(b as nat));
}

/// Appends the percent sequences of the UTF-8 encoding of `c`.
fn append_pct_utf8(out: &mut String, c: char)
    ensures
        final(out)@ == old(out)@ + pct_utf8(c),
{
    let v = c as u32;
    if v < 0x80 {
        append_pct(out, v);
    } else if v < 0x800 {
        append_pct(out, 0xC0 + v / 64);
        append_pct(out, 0x80 + v % 64);
    } else if v < 0x10000 {
        append_pct(out, 0xE0 + v / 4096);
        append_pct(out, 0x80 + (v / 64) % 64);
        append_pct(out, 0x80 + v % 64);
    } else {
        assert(v <= 0x10FFFF);
        append_pct(out, 0xF0 + v / 262144);
        append_pct(out, 0x80 + (v / 4096) % 64);
        append_pct(out, 0x80 + (v / 64) % 64);
        append_pct(out, 0x80 + v % 64);
    }
    assert(out@ =~= old(out)@ + pct_utf8(c));
}

/// Appends the escaped form of `input` to `out`.
fn append_escaped(out: &mut String, input: &str, escape_slash: bool)
    ensures
        final(out)@ == old(out)@ + escape_spec(input@, escape_slash),
{
    let chars = chars_of(input);
    let n = chars.len();
    let mut i: usize = 0;
    while i < n
        invariant
            n == chars@.len(),
            chars@ == input@,
            i <= n,
            out@ == old(out)@ + escape_spec(input@.take(i as int), escape_slash),
        decreases n - i,
    {
        let c = chars[i];
        if should_escape(c, escape_slash) {
            append_pct_utf8(out, c);
        } else {
            push_char(out, c);
        }
        proof {
            let t = input@.take(i as int + 1);
            assert(t.drop_last() =~= input@.take(i as int));
            assert(t.last() == c);
            assert(out@ =~= old(out)@ + escape_spec(t, escape_slash));
        }
        i = i + 1;
    }
    proof {
        assert(input@.take(n as int) =~= input@);
    }
}

/// Escapes every character of `input` that [`should_escape`] selects as
/// the percent sequences (`%` and two upper-case hex digits) of the bytes of
/// its UTF-8 encoding.
pub fn escape_string(input: &str, escape_slash: bool) -> (r: String)
    ensures
        r@ == escape_spec(input@, escape_slash),
{
    let mut escaped = String::new();
    append_escaped(&mut escaped, input, escape_slash);
    escaped
}

/// Appends `marker` and the escaped `field` to `out`, unless `field` is empty.
fn append_part(out: &mut String, marker: &str, field: &String, escape_slash: bool)
    ensures
        final(out)@ == old(out)@ + uri_part(marker@, field@, escape_slash),
{
    if field.as_str().unicode_len() != 0 {
        out.append(marker);
        append_escaped(out, field.as_str(), escape_slash);
        assert(out@ =~= old(out)@ + uri_part(marker@, field@, escape_slash));
    } else {
        assert(out@ =~= old(out)@ + uri_part(marker@, field@, escape_slash));
    }
}

/// Converts an identity to a `kythe:` URI.
pub fn vname_to_kythe_uri(vname: &VName) -> (r: String)
    ensures
        r@ == uri_spec(vname@),
{
    let mut uri = String::from_str("kythe:");
    append_part(&mut uri, "//", &vname.corpus, false);
    append_part(&mut uri, "?lang=", &vname.language, true);
    append_part(&mut uri, "?path=", &vname.path, false);
    append_part(&mut uri, "?root=", &vname.root, false);
    append_part(&mut uri, "#", &vname.signature, true);
    uri
}

/// A component that holds no character to escape is its own escaped form,
/// so escaping it again changes nothing.
pub proof fn lemma_escape_idempotent(s: Seq<char>, escape_slash: bool)
    requires
        forall|i: int| 0 <= i < s.len() ==> !should_escape_spec(#[trigger] s[i], escape_slash),
    ensures
        escape_spec(s, escape_slash) == s,
        escape_spec(escape_spec(s, escape_slash), escape_slash) == escape_spec(s, escape_slash),
    decreases s.len(),
{
    if s.len() > 0 {
        let t = s.drop_last();
        assert forall|i: int| 0 <= i < t.len() implies !should_escape_spec(#[trigger] t[i], escape_slash) by {
            assert(t[i] == s[i]);
        }
        lemma_escape_idempotent(t, escape_slash);
        assert(!should_escape_spec(s[s.len() - 1], escape_slash));
        assert(t.push(s.last()) =~= s);
    }
}

} // verus!
