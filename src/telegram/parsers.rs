//! Rendering of styled text into a marked-up string.

use vstd::prelude::*;
use crate::text::{chars_of, push_char};

verus! {

/// The style or meaning of a span of text.
#[derive(Debug, Clone, PartialEq, Eq)]
pub enum SpanKind {
    Bold,
    Italic,
    Code,
    Pre,
    PreCode,
    Strikethrough,
    Underline,
    Url,
    UrlWithHref(String),
    Hashtag,
    /// Marks a bot command such as `/start`; it carries no markup.
    BotCommand,
    /// A kind with no markup of its own (a mention, a phone number, ...).
    Unstyled,
}

/// A style annotation over the characters `start_offset .. end_offset` of a text.
#[derive(Debug, Clone, PartialEq, Eq)]
pub struct StyledSpan {
    pub start_offset: usize,
    pub end_offset: usize,
    pub kind: SpanKind,
}

/// A text together with its style annotations.
#[derive(Debug, Clone, PartialEq, Eq)]
pub struct FormattedText {
    pub text: String,
    pub entities: Vec<StyledSpan>,
}

/// What a message carries, as far as text is concerned.
#[derive(Debug, Clone, PartialEq, Eq)]
pub enum MessageBody {
    /// A text message.
    Text(FormattedText),
    /// Media with a caption.
    Caption(FormattedText),
    /// Content with no text or caption.
    NoText,
}

/// The markup inserted where a span of this kind starts.
pub open spec fn open_markup(k: SpanKind) -> Seq<char> {
    match k {
        SpanKind::Bold => "<b>"@,
        SpanKind::Italic => "<i>"@,
        SpanKind::Code => "<code>"@,
        SpanKind::Pre => "<pre>"@,
        SpanKind::PreCode => "<pre><code>"@,
        SpanKind::Strikethrough => "<strike>"@,
        SpanKind::Underline => "<u>"@,
        SpanKind::Url => "<a>"@,
        SpanKind::UrlWithHref(href) => "<a href=\""@ + href@ + "\">"@,
        SpanKind::Hashtag => "#"@,
        SpanKind::BotCommand => Seq::empty(),
        SpanKind::Unstyled => Seq::empty(),
    }
}

/// The markup inserted where a span of this kind ends.
pub open spec fn close_markup(k: SpanKind) -> Seq<char> {
    match k {
        SpanKind::Bold => "</b>"@,
        SpanKind::Italic => "</i>"@,
        SpanKind::Code => "</code>"@,
        SpanKind::Pre => "</pre>"@,
        SpanKind::PreCode => "</code></pre>"@,
        SpanKind::Strikethrough => "</strike>"@,
        SpanKind::Underline => "</u>"@,
        SpanKind::Url => "</a>"@,
        SpanKind::UrlWithHref(_) => "</a>"@,
        SpanKind::Hashtag => Seq::empty(),
        SpanKind::BotCommand => Seq::empty(),
        SpanKind::Unstyled => Seq::empty(),
    }
}

/// An offset moved into `0 ..= len`.
pub open spec fn clamp(o: usize, len: nat) -> nat {
    if o > len {
        len
    } else {
        o as nat
    }
}

/// The closing markup due at position `p`: spans ending there, the last one first.
pub open spec fn closes_at(spans: Seq<StyledSpan>, len: nat, p: nat) -> Seq<char>
    decreases spans.len(),
{
    if spans.len() == 0 {
        Seq::empty()
    } else {
        let s = spans.last();
        (if clamp(s.end_offset, len) == p {
            close_markup(s.kind)
        } else {
            Seq::empty()
        }) + closes_at(spans.drop_last(), len, p)
    }
}

/// The opening markup due at position `p`: spans starting there, in their order.
pub open spec fn opens_at(spans: Seq<StyledSpan>, len: nat, p: nat) -> Seq<char>
    decreases spans.len(),
{
    if spans.len() == 0 {
        Seq::empty()
    } else {
        let s = spans.last();
        opens_at(spans.drop_last(), len, p) + (if clamp(s.start_offset, len) == p {
            open_markup(s.kind)
        } else {
            Seq::empty()
        })
    }
}

/// All markup due at position `p`: closes before opens.
pub open spec fn markup_at(spans: Seq<StyledSpan>, len: nat, p: nat) -> Seq<char> {
    closes_at(spans, len, p) + opens_at(spans, len, p)
}

/// The output for the first `i` characters of `text`, each preceded by its markup.
pub open spec fn render_prefix(text: Seq<char>, spans: Seq<StyledSpan>, i: nat) -> Seq<char>
    decreases i,
{
    if i == 0 {
        Seq::empty()
    } else {
        let p = (i - 1) as nat;
        render_prefix(text, spans, p) + markup_at(spans, text.len(), p) + seq![text[p as int]]
    }
}

/// `text` with the markup of `spans` inserted; markup due past the end of
/// the text comes after it.
pub open spec fn rendered(text: Seq<char>, spans: Seq<StyledSpan>) -> Seq<char> {
    render_prefix(text, spans, text.len()) + markup_at(spans, text.len(), text.len())
}

fn open_tag(kind: &SpanKind) -> (r: String)
    ensures
        r@ == open_markup(*kind),
{
    match kind {
        SpanKind::Bold => String::from_str("<b>"),
        SpanKind::Italic => String::from_str("<i>"),
        SpanKind::Code => String::from_str("<code>"),
        SpanKind::Pre => String::from_str("<pre>"),
        SpanKind::PreCode => String::from_str("<pre><code>"),
        SpanKind::Strikethrough => String::from_str("<strike>"),
        SpanKind::Underline => String::from_str("<u>"),
        SpanKind::Url => String::from_str("<a>"),
        SpanKind::UrlWithHref(href) => {
            let mut r = String::from_str("<a href=\"");
            r.append(href.as_str());
            r.append("\">");
            r
        },
        SpanKind::Hashtag => String::from_str("#"),
        SpanKind::BotCommand => String::new(),
        SpanKind::Unstyled => String::new(),
    }
}

fn close_tag(kind: &SpanKind) -> (r: String)
    ensures
        r@ == close_markup(*kind),
{
    match kind {
        SpanKind::Bold => String::from_str("</b>"),
        SpanKind::Italic => String::from_str("</i>"),
        SpanKind::Code => String::from_str("</code>"),
        SpanKind::Pre => String::from_str("</pre>"),
        SpanKind::PreCode => String::from_str("</code></pre>"),
        SpanKind::Strikethrough => String::from_str("</strike>"),
        SpanKind::Underline => String::from_str("</u>"),
        SpanKind::Url => String::from_str("</a>"),
        SpanKind::UrlWithHref(_) => String::from_str("</a>"),
        SpanKind::Hashtag => String::new(),
        SpanKind::BotCommand => String::new(),
        SpanKind::Unstyled => String::new(),
    }
}

fn clamp_offset(o: usize, len: usize) -> (r: usize)
    ensures
        r == clamp(o, len as nat),
{
    if o > len {
        len
    } else {
        o
    }
}

/// Markup due at each position of a text of `n` characters: per position
/// before the end the closing and the opening markup, then those due at the end.
fn markup_by_position(spans: &Vec<StyledSpan>, n: usize) -> (r: (Vec<String>, Vec<String>, String, String))
    ensures
        r.0.len() == n,
        r.1.len() == n,
        forall|q: int| 0 <= q < n ==> #[trigger] r.0[q]@ == closes_at(spans@, n as nat, q as nat),
        forall|q: int| 0 <= q < n ==> #[trigger] r.1[q]@ == opens_at(spans@, n as nat, q as nat),
        r.2@ == closes_at(spans@, n as nat, n as nat),
        r.3@ == opens_at(spans@, n as nat, n as nat),
{
    let mut closes: Vec<String> = Vec::new();
    let mut opens: Vec<String> = Vec::new();
    for p in 0..n
        invariant
            closes.len() == p,
            opens.len() == p,
            forall|q: int| 0 <= q < p ==> #[trigger] closes[q]@ == Seq::<char>::empty(),
            forall|q: int| 0 <= q < p ==> #[trigger] opens[q]@ == Seq::<char>::empty(),
    {
        closes.push(String::new());
        opens.push(String::new());
    }
    let mut close_tail = String::new();
    let mut open_tail = String::new();
    let k = spans.len();
    assert(spans@.take(0) =~= Seq::<StyledSpan>::empty());
    for j in 0..k
        invariant
            k == spans@.len(),
            closes.len() == n,
            opens.len() == n,
            forall|q: int|
                0 <= q < n ==> #[trigger] closes[q]@ == closes_at(
                    spans@.take(j as int),
                    n as nat,
                    q as nat,
                ),
            forall|q: int|
                0 <= q < n ==> #[trigger] opens[q]@ == opens_at(
                    spans@.take(j as int),
                    n as nat,
                    q as nat,
                ),
            close_tail@ == closes_at(spans@.take(j as int), n as nat, n as nat),
            open_tail@ == opens_at(spans@.take(j as int), n as nat, n as nat),
    {
        let ghost before = spans@.take(j as int);
        let ghost after = spans@.take(j + 1);
        assert(after.drop_last() =~= before);
        assert(after.last() == spans@[j as int]);
        let s = &spans[j];
        let ps = clamp_offset(s.start_offset, n);
        let pe = clamp_offset(s.end_offset, n);
        let o = open_tag(&s.kind);
        if ps == n {
            open_tail.append(o.as_str());
        } else {
            let mut cur = opens[ps].clone();
            cur.append(o.as_str());
            opens.set(ps, cur);
        }
        let mut c = close_tag(&s.kind);
        if pe == n {
            c.append(close_tail.as_str());
            close_tail = c;
        } else {
            c.append(closes[pe].as_str());
            closes.set(pe, c);
        }
        assert forall|q: int| 0 <= q < n implies #[trigger] opens[q]@ == opens_at(
            after,
            n as nat,
            q as nat,
        ) by {
            if q != ps {
                assert(opens_at(after, n as nat, q as nat) =~= opens_at(before, n as nat, q as nat));
            }
        }
        assert forall|q: int| 0 <= q < n implies #[trigger] closes[q]@ == closes_at(
            after,
            n as nat,
            q as nat,
        ) by {
            if q != pe {
                assert(closes_at(after, n as nat, q as nat) =~= closes_at(before, n as nat, q as nat));
            }
        }
        assert(open_tail@ =~= opens_at(after, n as nat, n as nat));
        assert(close_tail@ =~= closes_at(after, n as nat, n as nat));
    }
    assert(spans@.take(k as int) =~= spans@);
    (closes, opens, close_tail, open_tail)
}

/// No span of `spans` has markup of its own (bot commands, mentions, ...).
pub open spec fn all_unmarked(spans: Seq<StyledSpan>) -> bool {
    forall|i: int|
        0 <= i < spans.len() ==> open_markup((#[trigger] spans[i]).kind).len() == 0
            && close_markup(spans[i].kind).len() == 0
}

proof fn lemma_unmarked_markup_at(spans: Seq<StyledSpan>, len: nat, p: nat)
    requires
        all_unmarked(spans),
    ensures
        markup_at(spans, len, p) == Seq::<char>::empty(),
    decreases spans.len(),
{
    if spans.len() > 0 {
        let rest = spans.drop_last();
        assert forall|i: int| 0 <= i < rest.len() implies open_markup((#[trigger] rest[i]).kind).len()
            == 0 && close_markup(rest[i].kind).len() == 0 by {
            assert(rest[i] == spans[i]);
        }
        lemma_unmarked_markup_at(rest, len, p);
        let last = spans[spans.len() - 1];
        assert(open_markup(last.kind).len() == 0 && close_markup(last.kind).len() == 0);
        assert(closes_at(rest, len, p) + opens_at(rest, len, p) == Seq::<char>::empty());
        assert(closes_at(rest, len, p) =~= Seq::<char>::empty());
        assert(opens_at(rest, len, p) =~= Seq::<char>::empty());
    }
    assert(markup_at(spans, len, p) =~= Seq::<char>::empty());
}

proof fn lemma_render_prefix_unmarked(text: Seq<char>, spans: Seq<StyledSpan>, i: nat)
    requires
        i <= text.len(),
        all_unmarked(spans),
    ensures
        render_prefix(text, spans, i) == text.take(i as int),
    decreases i,
{
    if i > 0 {
        lemma_render_prefix_unmarked(text, spans, (i - 1) as nat);
        lemma_unmarked_markup_at(spans, text.len(), (i - 1) as nat);
        assert(text.take(i as int) =~= text.take(i - 1) + seq![text[i - 1]]);
        assert(render_prefix(text, spans, i) =~= text.take(i as int));
    } else {
        assert(text.take(0) =~= Seq::<char>::empty());
    }
}

/// Spans whose kinds have no markup leave the text as it is.
pub proof fn lemma_render_unmarked(text: Seq<char>, spans: Seq<StyledSpan>)
    requires
        all_unmarked(spans),
    ensures
        rendered(text, spans) == text,
{
    lemma_render_prefix_unmarked(text, spans, text.len());
    lemma_unmarked_markup_at(spans, text.len(), text.len());
    assert(text.take(text.len() as int) =~= text);
    assert(rendered(text, spans) =~= text);
}

/// Rendering a text with no spans gives the text itself.
pub proof fn lemma_render_identity(text: Seq<char>)
    ensures
        rendered(text, Seq::empty()) == text,
{
    lemma_render_unmarked(text, Seq::empty());
}

proof fn lemma_bold_prefix(text: Seq<char>, b: StyledSpan, i: nat)
    requires
        text.len() > 0,
        1 <= i <= text.len(),
        b == (StyledSpan { start_offset: 0, end_offset: text.len() as usize, kind: SpanKind::Bold }),
        text.len() <= usize::MAX,
    ensures
        render_prefix(text, seq![b], i) == "<b>"@ + text.take(i as int),
    decreases i,
{
    let spans = seq![b];
    let n = text.len();
    assert(spans.drop_last() =~= Seq::<StyledSpan>::empty());
    assert(spans.last() == b);
    let p = (i - 1) as nat;
    assert(closes_at(Seq::empty(), n, p) =~= Seq::<char>::empty());
    assert(opens_at(Seq::empty(), n, p) =~= Seq::<char>::empty());
    if i == 1 {
        assert(markup_at(spans, n, 0) =~= "<b>"@);
        assert(render_prefix(text, spans, 0) =~= Seq::<char>::empty());
        assert(text.take(1) =~= seq![text[0]]);
        assert(render_prefix(text, spans, 1) =~= "<b>"@ + text.take(1));
    } else {
        lemma_bold_prefix(text, b, p);
        assert(markup_at(spans, n, p) =~= Seq::<char>::empty());
        assert(text.take(i as int) =~= text.take(p as int) + seq![text[p as int]]);
        assert(render_prefix(text, spans, i) =~= "<b>"@ + text.take(i as int));
    }
}

/// One bold span over a whole non-empty text wraps the text in `<b>` and `</b>`.
pub proof fn lemma_render_whole_bold(text: Seq<char>)
    requires
        text.len() > 0,
        text.len() <= usize::MAX,
    ensures
        rendered(
            text,
            seq![StyledSpan { start_offset: 0, end_offset: text.len() as usize, kind: SpanKind::Bold }],
        ) == "<b>"@ + text + "</b>"@,
{
    let b = StyledSpan { start_offset: 0, end_offset: text.len() as usize, kind: SpanKind::Bold };
    let spans = seq![b];
    let n = text.len();
    lemma_bold_prefix(text, b, n);
    assert(spans.drop_last() =~= Seq::<StyledSpan>::empty());
    assert(spans.last() == b);
    assert(text.take(n as int) =~= text);
    assert(closes_at(Seq::empty(), n, n) =~= Seq::<char>::empty());
    assert(opens_at(Seq::empty(), n, n) =~= Seq::<char>::empty());
    assert(markup_at(spans, n, n) =~= "</b>"@);
    assert(rendered(text, spans) =~= "<b>"@ + text + "</b>"@);
}

/// The output up to position `i`, with the markup due at `i`, begins the whole output.
pub proof fn lemma_render_prefix_begins_output(
    text: Seq<char>,
    spans: Seq<StyledSpan>,
    i: nat,
)
    requires
        i <= text.len(),
    ensures
        (render_prefix(text, spans, i) + markup_at(spans, text.len(), i)).is_prefix_of(
            rendered(text, spans),
        ),
    decreases text.len() - i,
{
    let n = text.len();
    let head = render_prefix(text, spans, i) + markup_at(spans, n, i);
    if i < n {
        lemma_render_prefix_begins_output(text, spans, i + 1);
        let next = render_prefix(text, spans, i + 1);
        assert(next == head + seq![text[i as int]]);
        assert(head.is_prefix_of(next + markup_at(spans, n, i + 1)));
        assert(rendered(text, spans).subrange(0, head.len() as int) =~= (next + markup_at(
            spans,
            n,
            i + 1,
        )).subrange(0, head.len() as int));
    } else {
        assert(head =~= rendered(text, spans));
    }
}

/// `x` stands in `s` from index `k` on.
pub open spec fn occurs_at(s: Seq<char>, x: Seq<char>, k: int) -> bool {
    &&& 0 <= k
    &&& k + x.len() <= s.len()
    &&& s.subrange(k, k + x.len()) == x
}

proof fn lemma_close_in_closes(spans: Seq<StyledSpan>, len: nat, p: nat, i: int) -> (k: int)
    requires
        0 <= i < spans.len(),
        clamp(spans[i].end_offset, len) == p,
    ensures
        occurs_at(closes_at(spans, len, p), close_markup(spans[i].kind), k),
    decreases spans.len(),
{
    let rest = spans.drop_last();
    let x = close_markup(spans[i].kind);
    let all = closes_at(spans, len, p);
    let head = if clamp(spans.last().end_offset, len) == p {
        close_markup(spans.last().kind)
    } else {
        Seq::<char>::empty()
    };
    assert(all == head + closes_at(rest, len, p));
    if i == spans.len() - 1 {
        assert(all.subrange(0, x.len() as int) =~= x);
        0
    } else {
        assert(rest[i] == spans[i]);
        let k2 = lemma_close_in_closes(rest, len, p, i);
        let k = head.len() + k2;
        assert(all.subrange(k, k + x.len()) =~= closes_at(rest, len, p).subrange(k2, k2 + x.len()));
        k
    }
}

proof fn lemma_open_in_opens(spans: Seq<StyledSpan>, len: nat, p: nat, i: int) -> (k: int)
    requires
        0 <= i < spans.len(),
        clamp(spans[i].start_offset, len) == p,
    ensures
        occurs_at(opens_at(spans, len, p), open_markup(spans[i].kind), k),
    decreases spans.len(),
{
    let rest = spans.drop_last();
    let x = open_markup(spans[i].kind);
    let all = opens_at(spans, len, p);
    let before = opens_at(rest, len, p);
    let tail = if clamp(spans.last().start_offset, len) == p {
        open_markup(spans.last().kind)
    } else {
        Seq::<char>::empty()
    };
    assert(all == before + tail);
    if i == spans.len() - 1 {
        assert(all.subrange(before.len() as int, before.len() + x.len() as int) =~= x);
        before.len() as int
    } else {
        assert(rest[i] == spans[i]);
        let k = lemma_open_in_opens(rest, len, p, i);
        assert(all.subrange(k, k + x.len()) =~= before.subrange(k, k + x.len()));
        k
    }
}

/// Where span `a` ends at the position at which span `b` starts, whatever the
/// other spans and whichever of the two comes first in `spans`, the closing
/// markup of `a` and the opening markup of `b` both stand in the output at
/// that position's insertion point, the closing markup first.
pub proof fn lemma_close_before_open(text: Seq<char>, spans: Seq<StyledSpan>, a: int, b: int, p: nat)
    requires
        p <= text.len(),
        0 <= a < spans.len(),
        0 <= b < spans.len(),
        clamp(spans[a].end_offset, text.len()) == p,
        clamp(spans[b].start_offset, text.len()) == p,
    ensures
        exists|i: int, j: int|
            {
                &&& render_prefix(text, spans, p).len() <= i
                &&& i + close_markup(spans[a].kind).len() <= j
                &&& j + open_markup(spans[b].kind).len() <= render_prefix(text, spans, p).len()
                    + markup_at(spans, text.len(), p).len()
                &&& occurs_at(rendered(text, spans), close_markup(spans[a].kind), i)
                &&& occurs_at(rendered(text, spans), open_markup(spans[b].kind), j)
            },
{
    let n = text.len();
    let out = rendered(text, spans);
    let pre = render_prefix(text, spans, p);
    let cl = closes_at(spans, n, p);
    let op = opens_at(spans, n, p);
    let xa = close_markup(spans[a].kind);
    let xb = open_markup(spans[b].kind);
    let head = pre + markup_at(spans, n, p);
    assert(head =~= pre + cl + op);
    lemma_render_prefix_begins_output(text, spans, p);
    assert(head =~= out.subrange(0, head.len() as int));
    let kc = lemma_close_in_closes(spans, n, p, a);
    let ko = lemma_open_in_opens(spans, n, p, b);
    let i = pre.len() + kc;
    let j = pre.len() + cl.len() + ko;
    assert(out.subrange(i, i + xa.len()) =~= head.subrange(i, i + xa.len()));
    assert(head.subrange(i, i + xa.len()) =~= cl.subrange(kc, kc + xa.len()));
    assert(out.subrange(j, j + xb.len()) =~= head.subrange(j, j + xb.len()));
    assert(head.subrange(j, j + xb.len()) =~= op.subrange(ko, ko + xb.len()));
    assert(occurs_at(out, xa, i));
    assert(occurs_at(out, xb, j));
}

/// `text` with the markup of `spans` inserted before the characters they
/// start and end at; offsets past the end of the text count as its end, and at
/// one position closing markup comes before opening markup.
pub fn render(text: &str, spans: &Vec<StyledSpan>) -> (r: String)
    ensures
        r@ == rendered(text@, spans@),
        spans@.len() == 0 ==> r@ == text@,
        all_unmarked(spans@) ==> r@ == text@,
{
    proof {
        lemma_render_identity(text@);
        if all_unmarked(spans@) {
            lemma_render_unmarked(text@, spans@);
        }
        if spans@.len() == 0 {
            assert(spans@ =~= Seq::<StyledSpan>::empty());
        }
    }
    if spans.len() == 0 {
        return String::from_str(text);
    }
    let cs = chars_of(text);
    let n = cs.len();
    let (closes, opens, close_tail, open_tail) = markup_by_position(spans, n);
    let mut out = String::new();
    for i in 0..n
        invariant
            n == text@.len(),
            cs@ == text@,
            closes.len() == n,
            opens.len() == n,
            forall|q: int| 0 <= q < n ==> #[trigger] closes[q]@ == closes_at(spans@, n as nat, q as nat),
            forall|q: int| 0 <= q < n ==> #[trigger] opens[q]@ == opens_at(spans@, n as nat, q as nat),
            out@ == render_prefix(text@, spans@, i as nat),
    {
        out.append(closes[i].as_str());
        out.append(opens[i].as_str());
        push_char(&mut out, cs[i]);
        assert(out@ =~= render_prefix(text@, spans@, (i + 1) as nat));
    }
    out.append(close_tail.as_str());
    out.append(open_tail.as_str());
    assert(out@ =~= rendered(text@, spans@));
    out
}

/// The marked-up string of a formatted text.
pub fn parse_formatted_text(formatted_text: &FormattedText) -> (r: String)
    ensures
        r@ == rendered(formatted_text.text@, formatted_text.entities@),
{
    render(formatted_text.text.as_str(), &formatted_text.entities)
}

/// The text that a message carries, rendered with its markup: a text message's
/// text or a media message's caption; nothing for content without text.
pub fn parse_message_content(message: &MessageBody) -> (r: Option<String>)
    ensures
        match message {
            MessageBody::Text(t) => r is Some && r->Some_0@ == rendered(t.text@, t.entities@),
            MessageBody::Caption(t) => r is Some && r->Some_0@ == rendered(t.text@, t.entities@),
            MessageBody::NoText => r is None,
        },
{
    match message {
        MessageBody::Text(text) => Some(parse_formatted_text(text)),
        MessageBody::Caption(caption) => Some(parse_formatted_text(caption)),
        MessageBody::NoText => None,
    }
}

} // verus!
