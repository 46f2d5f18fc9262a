//! Documentation links: finding them in markup, reading their kind hints, and
//! re-writing the text with resolved links kept as `[title]` references.

use vstd::prelude::*;
use pulldown_cmark::{BrokenLink, CowStr, Event, Options, Parser, Tag};
use crate::entity::DocLink;
use crate::text::{chars_of, push_char};

verus! {

/// The namespace a link's kind hint selects.
#[derive(Clone, Copy, Debug, PartialEq, Eq, Structural)]
pub enum Namespace {
    Types,
    Values,
    Macros,
}

pub open spec fn prefixes(ns: Namespace) -> Seq<Seq<char>> {
    match ns {
        Namespace::Types => seq![
            "type"@,
            "struct"@,
            "enum"@,
            "mod"@,
            "trait"@,
            "union"@,
            "module"@,
            "prim"@,
            "primitive"@,
        ],
        Namespace::Values => seq![
            "value"@,
            "function"@,
            "fn"@,
            "method"@,
            "const"@,
            "static"@,
            "mod"@,
            "module"@,
        ],
        Namespace::Macros => seq!["macro"@, "derive"@],
    }
}

pub open spec fn suffixes(ns: Namespace) -> Seq<Seq<char>> {
    match ns {
        Namespace::Types => Seq::empty(),
        Namespace::Values => seq!["()"@],
        Namespace::Macros => seq!["!"@],
    }
}

fn prefixes_of(ns: Namespace) -> (r: Vec<&'static str>)
    ensures
        r@.len() == prefixes(ns).len(),
        forall|k: int| 0 <= k < r@.len() ==> (#[trigger] r@[k])@ == prefixes(ns)[k],
{
    match ns {
        Namespace::Types => vec![
            "type",
            "struct",
            "enum",
            "mod",
            "trait",
            "union",
            "module",
            "prim",
            "primitive",
        ],
        Namespace::Values => vec![
            "value",
            "function",
            "fn",
            "method",
            "const",
            "static",
            "mod",
            "module",
        ],
        Namespace::Macros => vec!["macro", "derive"],
    }
}

fn suffixes_of(ns: Namespace) -> (r: Vec<&'static str>)
    ensures
        r@.len() == suffixes(ns).len(),
        forall|k: int| 0 <= k < r@.len() ==> (#[trigger] r@[k])@ == suffixes(ns)[k],
{
    match ns {
        Namespace::Types => vec![],
        Namespace::Values => vec!["()"],
        Namespace::Macros => vec!["!"],
    }
}

/// `p` starts `s` and is followed by `@` or a space.
pub open spec fn prefix_fits(s: Seq<char>, p: Seq<char>) -> bool {
    p.len() < s.len() && s.take(p.len() as int) == p && (s[p.len() as int] == '@' || s[p.len() as int]
        == ' ')
}

pub open spec fn suffix_fits(s: Seq<char>, x: Seq<char>) -> bool {
    x.len() <= s.len() && s.skip(s.len() - x.len()) == x
}

pub open spec fn first_prefix(s: Seq<char>, ps: Seq<Seq<char>>, k: int) -> Option<Seq<char>>
    decreases ps.len() - k,
{
    if k < 0 || k >= ps.len() {
        None
    } else if prefix_fits(s, ps[k]) {
        Some(ps[k])
    } else {
        first_prefix(s, ps, k + 1)
    }
}

pub open spec fn first_suffix(s: Seq<char>, xs: Seq<Seq<char>>, k: int) -> Option<Seq<char>>
    decreases xs.len() - k,
{
    if k < 0 || k >= xs.len() {
        None
    } else if suffix_fits(s, xs[k]) {
        Some(xs[k])
    } else {
        first_suffix(s, xs, k + 1)
    }
}

/// The link text with the hint of namespace `ns` removed, if it has one.
pub open spec fn ns_strip(s: Seq<char>, ns: Namespace) -> Option<Seq<char>> {
    match first_prefix(s, prefixes(ns), 0) {
        Some(p) => Some(s.skip((p.len() + 1) as int)),
        None => match first_suffix(s, suffixes(ns), 0) {
            Some(x) => Some(s.take(s.len() - x.len())),
            None => None,
        },
    }
}

pub open spec fn lead_ticks(s: Seq<char>, i: int) -> int
    decreases s.len() - i,
{
    if 0 <= i < s.len() && s[i] == '`' {
        lead_ticks(s, i + 1)
    } else {
        i
    }
}

pub open spec fn trail_ticks(s: Seq<char>, j: int) -> int
    decreases j,
{
    if 0 < j <= s.len() && s[j - 1] == '`' {
        trail_ticks(s, j - 1)
    } else {
        j
    }
}

/// `s` without the backticks at either end.
pub open spec fn trim_ticks(s: Seq<char>) -> Seq<char> {
    let i = lead_ticks(s, 0);
    if i >= s.len() {
        Seq::empty()
    } else {
        s.subrange(i, trail_ticks(s, s.len() as int))
    }
}

/// The target of an intra-documentation link and the namespace its hint
/// names: a prefix such as `struct ` or `fn@`, or a suffix `()` or `!`.
pub open spec fn parse_link_spec(raw: Seq<char>) -> (Seq<char>, Option<Namespace>) {
    let s = trim_ticks(raw);
    match ns_strip(s, Namespace::Types) {
        Some(r) => (r, Some(Namespace::Types)),
        None => match ns_strip(s, Namespace::Values) {
            Some(r) => (r, Some(Namespace::Values)),
            None => match ns_strip(s, Namespace::Macros) {
                Some(r) => (r, Some(Namespace::Macros)),
                None => (s, None),
            },
        },
    }
}

fn seq_to_string(v: &Vec<char>, from: usize, to: usize) -> (r: String)
    requires
        from <= to <= v@.len(),
    ensures
        r@ == v@.subrange(from as int, to as int),
{
    let mut out = String::new();
    let mut k: usize = from;
    while k < to
        invariant
            from <= k <= to <= v@.len(),
            out@ == v@.subrange(from as int, k as int),
        decreases to - k,
    {
        push_char(&mut out, v[k]);
        assert(v@.subrange(from as int, k as int + 1) =~= v@.subrange(from as int, k as int).push(v@[k as int]));
        k = k + 1;
    }
    out
}

fn fits_prefix(s: &Vec<char>, p: &str) -> (r: bool)
    ensures
        r == prefix_fits(s@, p@),
{
    let pc = chars_of(p);
    let n = pc.len();
    if n >= s.len() {
        return false;
    }
    let mut k: usize = 0;
    while k < n
        invariant
            pc@ == p@,
            n == pc@.len(),
            n < s@.len(),
            k <= n,
            s@.take(k as int) == p@.take(k as int),
        decreases n - k,
    {
        if s[k] != pc[k] {
            assert(s@.take(n as int)[k as int] != p@[k as int]);
            return false;
        }
        assert(s@.take(k as int + 1) =~= s@.take(k as int).push(s@[k as int]));
        assert(p@.take(k as int + 1) =~= p@.take(k as int).push(p@[k as int]));
        k = k + 1;
    }
    assert(p@.take(n as int) =~= p@);
    s[n] == '@' || s[n] == ' '
}

fn fits_suffix(s: &Vec<char>, x: &str) -> (r: bool)
    ensures
        r == suffix_fits(s@, x@),
{
    let xc = chars_of(x);
    let n = xc.len();
    if n > s.len() {
        return false;
    }
    let base = s.len() - n;
    let mut k: usize = 0;
    while k < n
        invariant
            xc@ == x@,
            n == xc@.len(),
            base + n == s@.len(),
            s@.len() <= usize::MAX,
            k <= n,
            s@.skip(base as int).take(k as int) == x@.take(k as int),
        decreases n - k,
    {
        if s[base + k] != xc[k] {
            assert(s@.skip(base as int)[k as int] != x@[k as int]);
            return false;
        }
        assert(s@.skip(base as int).take(k as int + 1) =~= s@.skip(base as int).take(k as int).push(s@[base + k]));
        assert(x@.take(k as int + 1) =~= x@.take(k as int).push(x@[k as int]));
        k = k + 1;
    }
    assert(x@.take(n as int) =~= x@);
    assert(s@.skip(base as int).take(n as int) =~= s@.skip(base as int));
    true
}

fn strip_namespace(s: &Vec<char>, ns: Namespace) -> (r: Option<String>)
    ensures
        match r {
            Some(t) => ns_strip(s@, ns) == Some(t@),
            None => ns_strip(s@, ns) is None,
        },
{
    let slen: usize = s.len();
    assert(s@.len() == slen);
    let ps = prefixes_of(ns);
    let mut k: usize = 0;
    while k < ps.len()
        invariant
            ps@.len() == prefixes(ns).len(),
            forall|j: int| 0 <= j < ps@.len() ==> (#[trigger] ps@[j])@ == prefixes(ns)[j],
            k <= ps@.len(),
            s@.len() <= usize::MAX,
            first_prefix(s@, prefixes(ns), 0) == first_prefix(s@, prefixes(ns), k as int),
        decreases ps@.len() - k,
    {
        if fits_prefix(s, ps[k]) {
            let plen = chars_of(ps[k]).len();
            return Some(seq_to_string(s, plen + 1, s.len()));
        }
        k = k + 1;
    }
    let xs = suffixes_of(ns);
    let mut k: usize = 0;
    while k < xs.len()
        invariant
            xs@.len() == suffixes(ns).len(),
            forall|j: int| 0 <= j < xs@.len() ==> (#[trigger] xs@[j])@ == suffixes(ns)[j],
            k <= xs@.len(),
            first_prefix(s@, prefixes(ns), 0) is None,
            first_suffix(s@, suffixes(ns), 0) == first_suffix(s@, suffixes(ns), k as int),
        decreases xs@.len() - k,
    {
        if fits_suffix(s, xs[k]) {
            let xlen = chars_of(xs[k]).len();
            return Some(seq_to_string(s, 0, s.len() - xlen));
        }
        k = k + 1;
    }
    None
}

fn trim_backticks(raw: &str) -> (r: Vec<char>)
    ensures
        r@ == trim_ticks(raw@),
{
    let v = chars_of(raw);
    let n = v.len();
    let mut i: usize = 0;
    while i < n && v[i] == '`'
        invariant
            v@ == raw@,
            n == v@.len(),
            i <= n,
            lead_ticks(raw@, 0) == lead_ticks(raw@, i as int),
        decreases n - i,
    {
        i = i + 1;
    }
    if i >= n {
        return Vec::new();
    }
    let mut j: usize = n;
    while j > 0 && v[j - 1] == '`'
        invariant
            v@ == raw@,
            n == v@.len(),
            j <= n,
            trail_ticks(raw@, n as int) == trail_ticks(raw@, j as int),
        decreases j,
    {
        j = j - 1;
    }
    proof {
        lemma_trail_after_lead(raw@, n as int, i as int);
    }
    let mut out: Vec<char> = Vec::new();
    let mut k: usize = i;
    while k < j
        invariant
            v@ == raw@,
            n == v@.len(),
            i <= k <= j <= n,
            out@ == v@.subrange(i as int, k as int),
        decreases j - k,
    {
        out.push(v[k]);
        assert(v@.subrange(i as int, k as int + 1) =~= v@.subrange(i as int, k as int).push(v@[k as int]));
        k = k + 1;
    }
    out
}

proof fn lemma_trail_after_lead(s: Seq<char>, j: int, i: int)
    requires
        0 <= i < s.len(),
        s[i] != '`',
        i < j <= s.len(),
    ensures
        i < trail_ticks(s, j) <= j,
    decreases j,
{
    if s[j - 1] == '`' {
        lemma_trail_after_lead(s, j - 1, i);
    }
}

/// Reads the kind hint of an intra-documentation link: `struct MyStruct`
/// gives `MyStruct` in the type namespace, `panic!` gives `panic` in the
/// macro namespace, `fn@f` gives `f` in the value namespace.
pub fn parse_intra_doc_link(raw: &str) -> (r: (String, Option<Namespace>))
    ensures
        (r.0@, r.1) == parse_link_spec(raw@),
{
    let s = trim_backticks(raw);
    match strip_namespace(&s, Namespace::Types) {
        Some(t) => (t, Some(Namespace::Types)),
        None => match strip_namespace(&s, Namespace::Values) {
            Some(t) => (t, Some(Namespace::Values)),
            None => match strip_namespace(&s, Namespace::Macros) {
                Some(t) => (t, Some(Namespace::Macros)),
                None => (seq_to_string(&s, 0, s.len()), None),
            },
        },
    }
}

/// The position of the first `]` at or after `k`, or -1.
pub open spec fn close_from(s: Seq<char>, k: int) -> int
    decreases s.len() - k,
{
    if k < 0 || k >= s.len() {
        -1
    } else if s[k] == ']' {
        k
    } else {
        close_from(s, k + 1)
    }
}

/// A bracketed title `[...]` with at least one character opens at `i`.
pub open spec fn title_at(s: Seq<char>, i: int) -> bool {
    0 <= i < s.len() && s[i] == '[' && close_from(s, i + 1) > i + 1
}

/// The first bracketed title of a link span from position `i` on, or
/// `unknown` where it has none.
pub open spec fn title_from(s: Seq<char>, i: int) -> Seq<char>
    decreases s.len() - i,
{
    if i < 0 || i >= s.len() {
        "unknown"@
    } else if title_at(s, i) {
        s.subrange(i + 1, close_from(s, i + 1))
    } else {
        title_from(s, i + 1)
    }
}

/// How a character outside links is stored: `\`, `[` and `]` are escaped.
pub open spec fn doc_char(c: char) -> Seq<char> {
    if c == '\\' || c == '[' || c == ']' {
        seq!['\\', c]
    } else {
        seq![c]
    }
}

pub open spec fn sanitize(s: Seq<char>) -> Seq<char>
    decreases s.len(),
{
    if s.len() == 0 {
        Seq::empty()
    } else {
        sanitize(s.drop_last()) + doc_char(s.last())
    }
}

/// How a link is written: its title, bracketed where it resolved.
pub open spec fn link_text(span: Seq<char>, resolved: bool) -> Seq<char> {
    let t = title_from(span, 0);
    if resolved {
        seq!['['] + t + seq![']']
    } else {
        t
    }
}

/// A link that lies in the text after `cursor`.
pub open spec fn link_fits(s: Seq<char>, l: DocLink, cursor: int) -> bool {
    cursor <= l.start && l.start <= l.end && l.end <= s.len()
}

/// The stored text from link `k` and position `cursor` on. Links that do not
/// lie after the cursor are passed over.
pub open spec fn render_from(s: Seq<char>, links: Seq<DocLink>, k: int, cursor: int) -> Seq<char>
    decreases links.len() - k,
{
    if k < 0 || k >= links.len() {
        sanitize(s.subrange(cursor, s.len() as int))
    } else if link_fits(s, links[k], cursor) {
        sanitize(s.subrange(cursor, links[k].start as int)) + link_text(
            s.subrange(links[k].start as int, links[k].end as int),
            links[k].target is Some,
        ) + render_from(s, links, k + 1, links[k].end as int)
    } else {
        render_from(s, links, k + 1, cursor)
    }
}

/// A resolved link: where it stands in the source, and its target.
#[derive(Clone, Copy, Debug, PartialEq, Eq)]
pub struct DocReference {
    pub range: Option<(u32, u32)>,
    pub reference: usize,
}

/// The resolved links from link `k` and position `cursor` on, in order.
pub open spec fn refs_from(s: Seq<char>, links: Seq<DocLink>, k: int, cursor: int) -> Seq<DocReference>
    decreases links.len() - k,
{
    if k < 0 || k >= links.len() {
        Seq::empty()
    } else if link_fits(s, links[k], cursor) {
        match links[k].target {
            Some(t) => seq![DocReference { range: links[k].source_range, reference: t }] + refs_from(
                s,
                links,
                k + 1,
                links[k].end as int,
            ),
            None => refs_from(s, links, k + 1, links[k].end as int),
        }
    } else {
        refs_from(s, links, k + 1, cursor)
    }
}

fn append_sanitized(out: &mut String, v: &Vec<char>, from: usize, to: usize)
    requires
        from <= to <= v@.len(),
    ensures
        final(out)@ == old(out)@ + sanitize(v@.subrange(from as int, to as int)),
{
    let mut k: usize = from;
    while k < to
        invariant
            from <= k <= to <= v@.len(),
            out@ == old(out)@ + sanitize(v@.subrange(from as int, k as int)),
        decreases to - k,
    {
        let c = v[k];
        if c == '\\' || c == '[' || c == ']' {
            push_char(out, '\\');
        }
        push_char(out, c);
        proof {
            let t = v@.subrange(from as int, k as int + 1);
            assert(t.drop_last() =~= v@.subrange(from as int, k as int));
            assert(t.last() == c);
        }
        assert(out@ =~= old(out)@ + sanitize(v@.subrange(from as int, k as int + 1)));
        k = k + 1;
    }
}

/// The first bracketed title in `v[from..to]`, or `unknown`.
fn find_title(v: &Vec<char>, from: usize, to: usize) -> (r: String)
    requires
        from <= to <= v@.len(),
    ensures
        r@ == title_from(v@.subrange(from as int, to as int), 0),
{
    let ghost s = v@.subrange(from as int, to as int);
    let n: usize = to - from;
    let mut i: usize = 0;
    while i < n
        invariant
            s == v@.subrange(from as int, to as int),
            n == s.len(),
            from + n == to <= v@.len(),
            i <= n,
            title_from(s, 0) == title_from(s, i as int),
        decreases n - i,
    {
        if v[from + i] == '[' {
            let mut j: usize = i + 1;
            while j < n && v[from + j] != ']'
                invariant
                    s == v@.subrange(from as int, to as int),
                    n == s.len(),
                    from + n == to <= v@.len(),
                    i < n,
                    i + 1 <= j <= n,
                    close_from(s, i as int + 1) == close_from(s, j as int),
                decreases n - j,
            {
                j = j + 1;
            }
            if j < n && j > i + 1 {
                assert(close_from(s, i as int + 1) == j);
                let t = seq_to_string(v, from + i + 1, from + j);
                assert(t@ =~= s.subrange(i as int + 1, j as int));
                return t;
            }
            assert(!title_at(s, i as int));
        }
        i = i + 1;
    }
    proof {
        reveal_strlit("unknown");
    }
    String::from_str("unknown")
}

/// Re-writes documentation text for storage: text outside links has `\`,
/// `[` and `]` escaped; a resolved link is written `[title]` and listed in
/// the references, in order; an unresolved link is written as its title.
pub fn process_documentation(text: &str, links: &Vec<DocLink>) -> (r: (String, Vec<DocReference>))
    ensures
        r.0@ == render_from(text@, links@, 0, 0),
        r.1@ == refs_from(text@, links@, 0, 0),
{
    let v = chars_of(text);
    let n = v.len();
    let mut out = String::new();
    let mut refs: Vec<DocReference> = Vec::new();
    let mut cursor: usize = 0;
    let mut k: usize = 0;
    while k < links.len()
        invariant
            v@ == text@,
            n == v@.len(),
            cursor <= n,
            k <= links@.len(),
            out@ + render_from(text@, links@, k as int, cursor as int) == render_from(text@, links@, 0, 0),
            refs@ + refs_from(text@, links@, k as int, cursor as int) == refs_from(text@, links@, 0, 0),
        decreases links@.len() - k,
    {
        let l = &links[k];
        if cursor <= l.start && l.start <= l.end && l.end <= n {
            let ghost before = out@;
            let ghost refs_before = refs@;
            append_sanitized(&mut out, &v, cursor, l.start);
            let title = find_title(&v, l.start, l.end);
            match l.target {
                Some(t) => {
                    push_char(&mut out, '[');
                    out.append(title.as_str());
                    push_char(&mut out, ']');
                    refs.push(DocReference { range: l.source_range, reference: t });
                },
                None => {
                    out.append(title.as_str());
                },
            }
            assert(before + render_from(text@, links@, k as int, cursor as int) =~= out@ + render_from(
                text@,
                links@,
                k as int + 1,
                l.end as int,
            ));
            assert(refs_before + refs_from(text@, links@, k as int, cursor as int) =~= refs@ + refs_from(
                text@,
                links@,
                k as int + 1,
                l.end as int,
            ));
            cursor = l.end;
        }
        k = k + 1;
    }
    append_sanitized(&mut out, &v, cursor, n);
    assert(refs@ =~= refs@ + refs_from(text@, links@, k as int, cursor as int));
    (out, refs)
}

/// The links of a markdown text in document order: the byte range of each
/// link and its destination.
pub uninterp spec fn markdown_links(text: Seq<char>) -> Seq<(usize, usize, Seq<char>)>;

/// Relies on `pulldown_cmark::Parser` (footnotes, tables and task lists on;
/// a broken reference link is kept, with its reference as destination),
/// walked with `into_offset_iter`: the start of each link, with its byte
/// range and destination.
#[verifier::external_body]
fn markdown_link_spans<'a>(text: &'a str) -> (r: Vec<(usize, usize, String)>)
    ensures
        r@.len() == markdown_links(text@).len(),
        forall|k: int| 0 <= k < r@.len() ==> ((#[trigger] r@[k]).0, r@[k].1, r@[k].2@) == markdown_links(text@)[k],
{
    let options = Options::ENABLE_FOOTNOTES | Options::ENABLE_TABLES | Options::ENABLE_TASKLISTS;
    let mut keep_broken = |link: BrokenLink<'a>| -> Option<(CowStr<'a>, CowStr<'a>)> {
        Some((link.reference.clone(), link.reference))
    };
    Parser::new_with_broken_link_callback(text, options, Some(&mut keep_broken))
        .into_offset_iter()
        .filter_map(|(event, range)| match event {
            Event::Start(Tag::Link(_, dest, _)) => Some((range.start, range.end, dest.to_string())),
            _ => None,
        })
        .collect()
}

/// The number of bytes of a character in UTF-8.
pub open spec fn utf8_width(c: char) -> int {
    let v = c as u32;
    if v < 0x80 {
        1
    } else if v < 0x800 {
        2
    } else if v < 0x10000 {
        3
    } else {
        4
    }
}

/// The byte offset of character position `k`.
pub open spec fn byte_pos(s: Seq<char>, k: int) -> int
    decreases k,
{
    if k <= 0 || k > s.len() {
        0
    } else {
        byte_pos(s, k - 1) + utf8_width(s[k - 1])
    }
}

proof fn lemma_byte_pos_increasing(s: Seq<char>, j: int, k: int)
    requires
        0 <= j < k <= s.len(),
    ensures
        byte_pos(s, j) < byte_pos(s, k),
    decreases k - j,
{
    if j + 1 < k {
        lemma_byte_pos_increasing(s, j, k - 1);
    }
}

/// Whether byte offset `b` starts a character (or is the end) of `s`.
pub open spec fn is_boundary(s: Seq<char>, b: int) -> bool {
    exists|k: int| 0 <= k <= s.len() && byte_pos(s, k) == b
}

/// The character position at byte offset `b`.
pub open spec fn char_pos(s: Seq<char>, b: int) -> int {
    choose|k: int| 0 <= k <= s.len() && byte_pos(s, k) == b
}

fn char_width(c: char) -> (r: usize)
    ensures
        r == utf8_width(c),
{
    let v = c as u32;
    if v < 0x80 {
        1
    } else if v < 0x800 {
        2
    } else if v < 0x10000 {
        3
    } else {
        4
    }
}

/// The character position of byte offset `b`, where one starts there.
fn char_offset(v: &Vec<char>, b: usize) -> (r: Option<usize>)
    ensures
        r is Some <==> is_boundary(v@, b as int),
        r matches Some(k) ==> k == char_pos(v@, b as int) && k <= v@.len(),
{
    let n = v.len();
    let mut k: usize = 0;
    let mut acc: usize = 0;
    while k < n && acc < b
        invariant
            n == v@.len(),
            k <= n,
            acc == byte_pos(v@, k as int),
            forall|j: int| 0 <= j < k ==> byte_pos(v@, j) < b,
        decreases n - k,
    {
        let w = char_width(v[k]);
        match acc.checked_add(w) {
            Some(next) => {
                acc = next;
                k = k + 1;
            },
            None => {
                proof {
                    assert(byte_pos(v@, k as int + 1) == acc + w);
                    assert forall|j: int| 0 <= j <= v@.len() implies byte_pos(v@, j) != b by {
                        if j > k + 1 {
                            lemma_byte_pos_increasing(v@, k as int + 1, j);
                        }
                        if j < k {
                            assert(byte_pos(v@, j) < b);
                        }
                    }
                }
                return None;
            },
        }
    }
    if acc == b {
        proof {
            assert forall|j: int| 0 <= j <= v@.len() && byte_pos(v@, j) == b implies j == k by {
                if j < k {
                    lemma_byte_pos_increasing(v@, j, k as int);
                }
                if j > k {
                    lemma_byte_pos_increasing(v@, k as int, j);
                }
            }
        }
        Some(k)
    } else {
        proof {
            assert forall|j: int| 0 <= j <= v@.len() implies byte_pos(v@, j) != b by {
                if j > k {
                    lemma_byte_pos_increasing(v@, k as int, j);
                }
                if j < k {
                    assert(byte_pos(v@, j) < b);
                }
            }
        }
        None
    }
}

/// A link found in documentation: its span in characters, the target text
/// and the namespace its hint names.
#[derive(Clone, Debug)]
pub struct ExtractedLink {
    pub start: usize,
    pub end: usize,
    pub link: String,
    pub ns: Option<Namespace>,
}

/// The links of markdown text `s`, from span `k` on, that start and end on
/// character boundaries, with their hints read.
pub open spec fn extracted_from(s: Seq<char>, spans: Seq<(usize, usize, Seq<char>)>, k: int) -> Seq<(int, int, Seq<char>, Option<Namespace>)>
    decreases spans.len() - k,
{
    if k < 0 || k >= spans.len() {
        Seq::empty()
    } else if is_boundary(s, spans[k].0 as int) && is_boundary(s, spans[k].1 as int) {
        seq![(char_pos(s, spans[k].0 as int), char_pos(s, spans[k].1 as int), parse_link_spec(spans[k].2).0, parse_link_spec(spans[k].2).1)]
            + extracted_from(s, spans, k + 1)
    } else {
        extracted_from(s, spans, k + 1)
    }
}

pub open spec fn extracted_view(v: Seq<ExtractedLink>) -> Seq<(int, int, Seq<char>, Option<Namespace>)> {
    v.map_values(|l: ExtractedLink| (l.start as int, l.end as int, l.link@, l.ns))
}

/// Finds the links of markdown documentation text, with character spans and
/// the namespace hints read from their targets.
pub fn extract_links_from_docs(text: &str) -> (r: Vec<ExtractedLink>)
    ensures
        extracted_view(r@) == extracted_from(text@, markdown_links(text@), 0),
{
    let spans = markdown_link_spans(text);
    let v = chars_of(text);
    let mut out: Vec<ExtractedLink> = Vec::new();
    let mut k: usize = 0;
    while k < spans.len()
        invariant
            v@ == text@,
            spans@.len() == markdown_links(text@).len(),
            forall|j: int| 0 <= j < spans@.len() ==> ((#[trigger] spans@[j]).0, spans@[j].1, spans@[j].2@) == markdown_links(text@)[j],
            k <= spans@.len(),
            extracted_view(out@) + extracted_from(text@, markdown_links(text@), k as int) == extracted_from(text@, markdown_links(text@), 0),
        decreases spans@.len() - k,
    {
        let ghost before = extracted_view(out@);
        let sp = &spans[k];
        match (char_offset(&v, sp.0), char_offset(&v, sp.1)) {
            (Some(a), Some(b)) => {
                let (link, ns) = parse_intra_doc_link(sp.2.as_str());
                out.push(ExtractedLink { start: a, end: b, link, ns });
                assert(extracted_view(out@) =~= before.push((a as int, b as int, link@, ns)));
            },
            _ => {},
        }
        assert(before + extracted_from(text@, markdown_links(text@), k as int) =~= extracted_view(out@) + extracted_from(text@, markdown_links(text@), k as int + 1));
        k = k + 1;
    }
    assert(extracted_view(out@) + extracted_from(text@, markdown_links(text@), k as int) =~= extracted_view(out@));
    out
}

} // verus!
