//! Styled terminal text: spans of converted page text carry positional style
//! hints (a link, a foreground colour, a background colour, or nothing), and
//! each hint maps to a pair of terminal escape sequences. For a span under
//! several hints at once, all start sequences are emitted in hint order before
//! the text and all end sequences in reverse order after it, so inner spans
//! close before outer ones.

use vstd::prelude::*;

use crate::text::dec_of;
use crate::text::dec_u16;

verus! {

/// A positional style hint attached to one span of converted text.
#[derive(Debug, PartialEq, Eq)]
pub enum Annot {
    /// The span is the text of a link; the payload is the link target.
    Link(String),
    /// An explicit foreground colour, as a red/green/blue triple.
    Foreground(u8, u8, u8),
    /// An explicit background colour, as a red/green/blue triple. Dropped on
    /// purpose when rendering: no escape sequences come from it.
    Background(u8, u8, u8),
    /// Any other hint: plain text, no escape sequences.
    Plain,
}

/// One span of converted text with the style hints active over it, the
/// outermost hint first.
pub struct RichSpan {
    pub text: String,
    pub tags: Vec<Annot>,
}

/// One line of converted text.
pub struct RichLine {
    pub spans: Vec<RichSpan>,
}

/// The mathematical value of a [`RichSpan`].
pub struct SpanView {
    pub text: Seq<char>,
    pub tags: Seq<Annot>,
}

impl View for RichSpan {
    type V = SpanView;

    open spec fn view(&self) -> SpanView {
        SpanView { text: self.text@, tags: self.tags@ }
    }
}

impl View for RichLine {
    type V = Seq<SpanView>;

    open spec fn view(&self) -> Seq<SpanView> {
        Seq::new(self.spans@.len(), |i: int| self.spans@[i]@)
    }
}

/// The escape sequence that opens a style hint: underline for a link, a
/// foreground-colour sequence carrying the literal colour triple for a
/// foreground colour, nothing for a background colour or a plain span.
pub open spec fn start_code(a: Annot) -> Seq<char> {
    match a {
        Annot::Link(_) => "\u{1b}[4m"@,
        Annot::Foreground(r, g, b) => "\u{1b}[38;2;"@ + dec_of(r as nat) + ";"@ + dec_of(
            g as nat,
        ) + ";"@ + dec_of(b as nat) + "m"@,
        Annot::Background(_, _, _) => Seq::empty(),
        Annot::Plain => Seq::empty(),
    }
}

/// The escape sequence that closes a style hint again.
pub open spec fn end_code(a: Annot) -> Seq<char> {
    match a {
        Annot::Link(_) => "\u{1b}[24m"@,
        Annot::Foreground(_, _, _) => "\u{1b}[39m"@,
        Annot::Background(_, _, _) => Seq::empty(),
        Annot::Plain => Seq::empty(),
    }
}

/// All start sequences of a list of hints, in hint order.
pub open spec fn start_codes(tags: Seq<Annot>) -> Seq<char>
    decreases tags.len(),
{
    if tags.len() == 0 {
        Seq::empty()
    } else {
        start_code(tags.first()) + start_codes(tags.drop_first())
    }
}

/// All end sequences of a list of hints, in reverse hint order.
pub open spec fn end_codes(tags: Seq<Annot>) -> Seq<char>
    decreases tags.len(),
{
    if tags.len() == 0 {
        Seq::empty()
    } else {
        end_codes(tags.drop_first()) + end_code(tags.first())
    }
}

/// One span, styled: start sequences in hint order, the text, end sequences
/// in reverse hint order.
pub open spec fn styled_span(s: SpanView) -> Seq<char> {
    start_codes(s.tags) + s.text + end_codes(s.tags)
}

/// One line, styled: its spans in order.
pub open spec fn styled_line(l: Seq<SpanView>) -> Seq<char>
    decreases l.len(),
{
    if l.len() == 0 {
        Seq::empty()
    } else {
        styled_span(l.first()) + styled_line(l.drop_first())
    }
}

/// The whole converted text, styled: each line followed by a line break.
pub open spec fn styled_text(ls: Seq<Seq<SpanView>>) -> Seq<char>
    decreases ls.len(),
{
    if ls.len() == 0 {
        Seq::empty()
    } else {
        styled_line(ls.first()) + seq!['\n'] + styled_text(ls.drop_first())
    }
}

/// The start sequence of one hint.
fn start_str(a: &Annot) -> (s: String)
    ensures
        s@ == start_code(*a),
{
    match a {
        Annot::Link(_) => String::from_str("\u{1b}[4m"),
        Annot::Foreground(r, g, b) => {
            let mut s = String::from_str("\u{1b}[38;2;");
            let rs = dec_u16(*r as u16);
            s.append(rs.as_str());
            s.append(";");
            let gs = dec_u16(*g as u16);
            s.append(gs.as_str());
            s.append(";");
            let bs = dec_u16(*b as u16);
            s.append(bs.as_str());
            s.append("m");
            proof {
                assert(s@ =~= start_code(*a));
            }
            s
        },
        Annot::Background(_, _, _) => String::new(),
        Annot::Plain => String::new(),
    }
}

/// The end sequence of one hint.
fn end_str(a: &Annot) -> (s: String)
    ensures
        s@ == end_code(*a),
{
    match a {
        Annot::Link(_) => String::from_str("\u{1b}[24m"),
        Annot::Foreground(_, _, _) => String::from_str("\u{1b}[39m"),
        Annot::Background(_, _, _) => String::new(),
        Annot::Plain => String::new(),
    }
}

/// The start sequences of the hints from position `i` on, in hint order.
fn start_codes_from(tags: &Vec<Annot>, i: usize) -> (s: String)
    requires
        i <= tags.len(),
    ensures
        s@ == start_codes(tags@.skip(i as int)),
    decreases tags.len() - i,
{
    if i == tags.len() {
        proof {
            assert(tags@.skip(i as int) =~= Seq::<Annot>::empty());
        }
        String::new()
    } else {
        let mut s = start_str(&tags[i]);
        let rest = start_codes_from(tags, i + 1);
        s.append(rest.as_str());
        proof {
            assert(tags@.skip(i as int).drop_first() =~= tags@.skip(i as int + 1));
            assert(s@ =~= start_codes(tags@.skip(i as int)));
        }
        s
    }
}

/// The end sequences of the hints from position `i` on, in reverse hint order.
fn end_codes_from(tags: &Vec<Annot>, i: usize) -> (s: String)
    requires
        i <= tags.len(),
    ensures
        s@ == end_codes(tags@.skip(i as int)),
    decreases tags.len() - i,
{
    if i == tags.len() {
        proof {
            assert(tags@.skip(i as int) =~= Seq::<Annot>::empty());
        }
        String::new()
    } else {
        let mut s = end_codes_from(tags, i + 1);
        let e = end_str(&tags[i]);
        s.append(e.as_str());
        proof {
            assert(tags@.skip(i as int).drop_first() =~= tags@.skip(i as int + 1));
            assert(s@ =~= end_codes(tags@.skip(i as int)));
        }
        s
    }
}

/// One span, styled.
pub fn style_span(span: &RichSpan) -> (s: String)
    ensures
        s@ == styled_span(span@),
{
    let mut s = start_codes_from(&span.tags, 0);
    s.append(span.text.as_str());
    let e = end_codes_from(&span.tags, 0);
    s.append(e.as_str());
    proof {
        assert(span.tags@.skip(0) =~= span.tags@);
        assert(s@ =~= styled_span(span@));
    }
    s
}

/// One line, styled: the spans from position `i` on.
fn style_line_from(line: &RichLine, i: usize) -> (s: String)
    requires
        i <= line.spans.len(),
    ensures
        s@ == styled_line(line@.skip(i as int)),
    decreases line.spans.len() - i,
{
    if i == line.spans.len() {
        proof {
            assert(line@.skip(i as int) =~= Seq::<SpanView>::empty());
        }
        String::new()
    } else {
        let mut s = style_span(&line.spans[i]);
        let rest = style_line_from(line, i + 1);
        s.append(rest.as_str());
        proof {
            assert(line@.skip(i as int).drop_first() =~= line@.skip(i as int + 1));
            assert(line@.skip(i as int).first() == line.spans@[i as int]@);
            assert(s@ =~= styled_line(line@.skip(i as int)));
        }
        s
    }
}

/// The view of a list of lines.
pub open spec fn lines_view(ls: Seq<RichLine>) -> Seq<Seq<SpanView>> {
    Seq::new(ls.len(), |i: int| ls[i]@)
}

/// The lines from position `i` on, styled.
fn style_lines_from(lines: &Vec<RichLine>, i: usize) -> (s: String)
    requires
        i <= lines.len(),
    ensures
        s@ == styled_text(lines_view(lines@).skip(i as int)),
    decreases lines.len() - i,
{
    if i == lines.len() {
        proof {
            assert(lines_view(lines@).skip(i as int) =~= Seq::<Seq<SpanView>>::empty());
        }
        String::new()
    } else {
        let mut s = style_line_from(&lines[i], 0);
        s.append("\n");
        let rest = style_lines_from(lines, i + 1);
        s.append(rest.as_str());
        proof {
            reveal_strlit("\n");
            assert("\n"@ =~= seq!['\n']);
            assert(lines[i as int]@.skip(0) =~= lines[i as int]@);
            assert(lines_view(lines@).skip(i as int).drop_first() =~= lines_view(lines@).skip(
                i as int + 1,
            ));
            assert(lines_view(lines@).skip(i as int).first() == lines[i as int]@);
            assert(s@ =~= styled_text(lines_view(lines@).skip(i as int)));
        }
        s
    }
}

/// The whole converted text, styled.
pub fn style_lines(lines: &Vec<RichLine>) -> (s: String)
    ensures
        s@ == styled_text(lines_view(lines@)),
{
    let s = style_lines_from(lines, 0);
    proof {
        assert(lines_view(lines@).skip(0) =~= lines_view(lines@));
    }
    s
}

/// Law: two overlapping style hints over one text span, `outer` listed before
/// `inner`, wrap the text as outer-start, inner-start, text, inner-end,
/// outer-end — the inner span closes before the outer one.
pub proof fn lemma_escape_nesting(outer: Annot, inner: Annot, text: Seq<char>)
    ensures
        styled_span((SpanView { text: text, tags: seq![outer, inner] })) == start_code(outer)
            + start_code(inner) + text + end_code(inner) + end_code(outer),
{
    let tags = seq![outer, inner];
    assert(tags.drop_first() =~= seq![inner]);
    assert(seq![inner].drop_first() =~= Seq::<Annot>::empty());
    assert(start_codes(Seq::<Annot>::empty()) == Seq::<char>::empty());
    assert(end_codes(Seq::<Annot>::empty()) == Seq::<char>::empty());
    assert(start_codes(seq![inner]) =~= start_code(inner));
    assert(end_codes(seq![inner]) =~= end_code(inner));
    assert(start_codes(tags) =~= start_code(outer) + start_code(inner));
    assert(end_codes(tags) =~= end_code(inner) + end_code(outer));
    assert(styled_span((SpanView { text: text, tags: tags })) =~= start_code(outer) + start_code(
        inner,
    ) + text + end_code(inner) + end_code(outer));
}

} // verus!
