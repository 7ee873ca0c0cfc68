//! The result locator and classifier. A fetched page has at most one results
//! region (the element with id `resultados`); inside it, the first element
//! matching either the article marker or the suggestion-list marker decides
//! whether the page holds a direct definition, a list of related entries, or
//! neither. The structural queries are the HTML collaborator's work; the
//! decision on what they return is this crate's.

use vstd::prelude::*;

verus! {

/// What the results-region query returns: the inner markup of the first
/// element matching `div[id="resultados"]`, in document order, or nothing
/// where no element matches. A function of the page text alone.
pub uninterp spec fn region_of(page: Seq<char>) -> Option<Seq<char>>;

/// What the marker query returns: the element name of the first descendant of
/// the results region matching `article, div[class="item-list"]`, in document
/// order, or nothing where the region is absent or nothing in it matches. A
/// function of the page text alone.
pub uninterp spec fn marker_of(page: Seq<char>) -> Option<Seq<char>>;

/// What the anchor query returns: for each anchor element under the first
/// marker element, in document order, its first text node, or `None` for an
/// anchor with no text; empty where region or marker is absent. A function of
/// the page text alone.
pub uninterp spec fn links_of(page: Seq<char>) -> Seq<Option<Seq<char>>>;

/// Relies on scraper: `Html::parse_document` builds the page tree without
/// failing hard, `select` yields the elements matching the fixed selector
/// `div[id="resultados"]` in document order, and `inner_html` serialises the
/// children of the first one. The result depends on the page text alone.
#[verifier::external_body]
fn region_inner_html(page: &str) -> (r: Option<String>)
    ensures
        r.deep_view() == region_of(page@),
{
    let sel = scraper::Selector::parse("div[id=\"resultados\"]").unwrap();
    let doc = scraper::Html::parse_document(page);
    let region = doc.select(&sel).next()?;
    Some(region.inner_html())
}

/// Relies on scraper: `select` on the results region yields the descendants
/// matching the fixed selector `article, div[class="item-list"]` in document
/// order, and `Element::name` is the first one's element name. The result
/// depends on the page text alone.
#[verifier::external_body]
fn first_marker_name(page: &str) -> (r: Option<String>)
    ensures
        r.deep_view() == marker_of(page@),
{
    let sel_region = scraper::Selector::parse("div[id=\"resultados\"]").unwrap();
    let sel_marker = scraper::Selector::parse("article, div[class=\"item-list\"]").unwrap();
    let doc = scraper::Html::parse_document(page);
    let region = doc.select(&sel_region).next()?;
    let marker = region.select(&sel_marker).next()?;
    Some(marker.value().name().to_string())
}

/// Relies on scraper: `select` with the fixed selector `a` yields the anchor
/// elements under the first marker element in document order, and `text`
/// yields each one's text nodes in order, of which the first is taken. The
/// result depends on the page text alone.
#[verifier::external_body]
fn suggestion_link_texts(page: &str) -> (r: Vec<Option<String>>)
    ensures
        r.deep_view() == links_of(page@),
{
    let sel_region = scraper::Selector::parse("div[id=\"resultados\"]").unwrap();
    let sel_marker = scraper::Selector::parse("article, div[class=\"item-list\"]").unwrap();
    let sel_anchor = scraper::Selector::parse("a").unwrap();
    let doc = scraper::Html::parse_document(page);
    let marker = match doc.select(&sel_region).next() {
        Some(region) => region.select(&sel_marker).next(),
        None => None,
    };
    match marker {
        Some(node) => node.select(&sel_anchor).map(
            |a| a.text().next().map(|t| t.to_string()),
        ).collect(),
        None => Vec::new(),
    }
}

/// The extractable link texts, in order: entries with no text are dropped,
/// duplicates and empty texts pass through unfiltered.
pub open spec fn present_texts(ls: Seq<Option<Seq<char>>>) -> Seq<Seq<char>>
    decreases ls.len(),
{
    if ls.len() == 0 {
        Seq::empty()
    } else {
        match ls.first() {
            Some(t) => seq![t] + present_texts(ls.drop_first()),
            None => present_texts(ls.drop_first()),
        }
    }
}

/// Keeps the link texts that were extractable, in order.
fn extract_texts(ls: &Vec<Option<String>>) -> (r: Vec<String>)
    ensures
        r.deep_view() == present_texts(ls.deep_view()),
{
    let ghost all = ls.deep_view();
    let mut out: Vec<String> = Vec::new();
    let mut i: usize = 0;
    proof {
        assert(all.skip(0) =~= all);
        assert(out.deep_view() =~= Seq::<Seq<char>>::empty());
    }
    while i < ls.len()
        invariant
            i <= ls.len(),
            all == ls.deep_view(),
            all.len() == ls@.len(),
            present_texts(all) == out.deep_view() + present_texts(all.skip(i as int)),
        decreases ls.len() - i,
    {
        let ghost prev = out.deep_view();
        match &ls[i] {
            Some(t) => {
                out.push(t.clone());
                proof {
                    assert(out.deep_view() =~= prev + seq![t@]);
                }
            },
            None => {},
        }
        proof {
            assert(all.skip(i as int).drop_first() =~= all.skip(i as int + 1));
            assert(all.skip(i as int).first() == all[i as int]);
            assert(all[i as int] == ls@[i as int].deep_view());
            assert(present_texts(all) =~= out.deep_view() + present_texts(all.skip(i as int + 1)));
        }
        i += 1;
    }
    proof {
        assert(all.skip(ls@.len() as int) =~= Seq::<Option<Seq<char>>>::empty());
        assert(out.deep_view() =~= present_texts(all));
    }
    out
}

/// The classifier's verdict on one results region.
#[derive(Debug, PartialEq, Eq)]
pub enum Outcome {
    /// The region holds a direct definition; the payload is the whole
    /// region's inner markup, for the renderer.
    Definition(String),
    /// The region holds a list of related entries; the payload is their
    /// texts, in page order, never empty.
    Suggestions(Vec<String>),
    /// The region holds neither marker.
    NotFound,
}

/// The mathematical value of an [`Outcome`].
pub enum OutcomeView {
    Definition(Seq<char>),
    Suggestions(Seq<Seq<char>>),
    NotFound,
}

impl View for Outcome {
    type V = OutcomeView;

    open spec fn view(&self) -> OutcomeView {
        match self {
            Outcome::Definition(m) => OutcomeView::Definition(m@),
            Outcome::Suggestions(ts) => OutcomeView::Suggestions(ts.deep_view()),
            Outcome::NotFound => OutcomeView::NotFound,
        }
    }
}

/// The classifier's verdict on a page whose results region exists: the first
/// structural match decides, by its element name; an article means a
/// definition wrapping the whole region, the suggestion-list element means
/// the extractable link texts, anything else — or no match, or no extractable
/// text at all — means not-found.
pub open spec fn outcome_of(page: Seq<char>) -> OutcomeView
    recommends
        region_of(page) is Some,
{
    if marker_of(page) == Some("article"@) {
        OutcomeView::Definition(region_of(page).unwrap())
    } else if marker_of(page) == Some("div"@) {
        if present_texts(links_of(page)).len() == 0 {
            OutcomeView::NotFound
        } else {
            OutcomeView::Suggestions(present_texts(links_of(page)))
        }
    } else {
        OutcomeView::NotFound
    }
}

/// Locates the results region and classifies it. `None` means the region is
/// absent — a structural failure, not a negative result.
pub fn classify_page(page: &str) -> (r: Option<Outcome>)
    ensures
        r is Some <==> region_of(page@) is Some,
        r is Some ==> r.unwrap()@ == outcome_of(page@),
{
    let region = region_inner_html(page);
    match region {
        None => None,
        Some(markup) => {
            let marker = first_marker_name(page);
            match marker {
                Some(name) => {
                    let article = String::from_str("article");
                    let item_div = String::from_str("div");
                    if name == article {
                        Some(Outcome::Definition(markup))
                    } else if name == item_div {
                        let links = suggestion_link_texts(page);
                        let texts = extract_texts(&links);
                        proof {
                            assert(texts.deep_view().len() == texts@.len());
                        }
                        if texts.len() == 0 {
                            Some(Outcome::NotFound)
                        } else {
                            Some(Outcome::Suggestions(texts))
                        }
                    } else {
                        Some(Outcome::NotFound)
                    }
                },
                None => Some(Outcome::NotFound),
            }
        },
    }
}

/// Law: a page whose results region exists and whose first structural match
/// is the article marker classifies as a definition wrapping the whole
/// region, never as suggestions and never as not-found.
pub proof fn lemma_article_classifies_as_definition(page: Seq<char>)
    requires
        region_of(page) is Some,
        marker_of(page) == Some("article"@),
    ensures
        outcome_of(page) == OutcomeView::Definition(region_of(page).unwrap()),
{
}

/// Law: a page whose results region exists but matches neither marker
/// classifies as not-found.
pub proof fn lemma_unmarked_region_is_not_found(page: Seq<char>)
    requires
        region_of(page) is Some,
        marker_of(page) != Some("article"@),
        marker_of(page) != Some("div"@),
    ensures
        outcome_of(page) == OutcomeView::NotFound,
{
}

} // verus!
