//! The definition renderer: converts a definition subtree's inner markup into
//! styled text wrapped to the terminal's width. The conversion from markup to
//! wrapped, tagged lines is the rich-text collaborator's work; turning the
//! tags into escape sequences is this crate's, in [`crate::style`].

use html2text::render::RichAnnotation;
use vstd::prelude::*;

use crate::style::Annot;
use crate::style::RichLine;
use crate::style::RichSpan;
use crate::style::SpanView;
use crate::style::lines_view;
use crate::style::style_lines;
use crate::style::styled_text;

verus! {

/// What the rich-text conversion returns for given markup and width: the
/// wrapped lines of tagged spans, or nothing where the conversion fails. The
/// result is a function of the markup and the width alone.
pub uninterp spec fn rich_of(html: Seq<char>, width: int) -> Option<Seq<Seq<SpanView>>>;

/// The lines behind an optional conversion result.
pub open spec fn opt_lines_view(r: Option<Vec<RichLine>>) -> Option<Seq<Seq<SpanView>>> {
    match r {
        Some(v) => Some(lines_view(v@)),
        None => None,
    }
}

/// Relies on html2text: `config::rich().lines_from_read(markup, width)`
/// converts markup into text wrapped to `width` columns, as lines of tagged
/// spans with the outermost style hint first in each span's tag list, and
/// fails only on malformed input or an unusable width; the result depends on
/// the markup bytes and the width alone. Link, foreground-colour and
/// background-colour hints are told apart here; every other hint styles
/// nothing and becomes a plain span.
#[verifier::external_body]
fn rich_lines(html: &str, width: usize) -> (r: Option<Vec<RichLine>>)
    ensures
        opt_lines_view(r) == rich_of(html@, width as int),
{
    match html2text::config::rich().lines_from_read(html.as_bytes(), width) {
        Err(_) => None,
        Ok(ls) => Some(ls.iter().map(|l| RichLine {
            spans: l.tagged_strings().map(|t| RichSpan {
                text: t.s.clone(),
                tags: t.tag.iter().map(|a| match a {
                    RichAnnotation::Link(u) => Annot::Link(u.clone()),
                    RichAnnotation::Colour(c) => Annot::Foreground(c.r, c.g, c.b),
                    RichAnnotation::BgColour(c) => Annot::Background(c.r, c.g, c.b),
                    _ => Annot::Plain,
                }).collect(),
            }).collect(),
        }).collect()),
    }
}

/// The wrap width in use: the terminal's column count where one is known, a
/// fixed default of 80 columns where none is.
pub open spec fn width_of(cols: Option<u16>) -> int {
    match cols {
        Some(c) => c as int,
        None => 80,
    }
}

/// Picks the wrap width from the terminal's column count, if any.
pub fn resolve_width(cols: Option<u16>) -> (w: usize)
    ensures
        w as int == width_of(cols),
{
    match cols {
        Some(c) => c as usize,
        None => 80,
    }
}

/// Converts a definition subtree's inner markup into styled text wrapped to
/// the given terminal width (80 columns where none is known). `None` means
/// the rich-text conversion failed.
pub fn render_definition(markup: &str, cols: Option<u16>) -> (r: Option<String>)
    ensures
        r is Some <==> rich_of(markup@, width_of(cols)) is Some,
        r is Some ==> r.unwrap()@ == styled_text(rich_of(markup@, width_of(cols)).unwrap()),
{
    let w = resolve_width(cols);
    match rich_lines(markup, w) {
        Some(lines) => Some(style_lines(&lines)),
        None => None,
    }
}

/// Law: rendering is a pure function of the subtree and the width — two
/// renderings of the same definition markup at the same width are identical.
pub proof fn lemma_render_idempotent(
    markup: Seq<char>,
    cols: Option<u16>,
    a: Seq<char>,
    b: Seq<char>,
)
    requires
        rich_of(markup, width_of(cols)) is Some,
        a == styled_text(rich_of(markup, width_of(cols)).unwrap()),
        b == styled_text(rich_of(markup, width_of(cols)).unwrap()),
    ensures
        a == b,
{
}

} // verus!
