//! The lookup orchestrator. One lookup runs fetch, locate, classify, then
//! either render or resolve the related entries; resolving may re-enter the
//! pipeline with a new term. The two blocking actions — fetching a page and
//! asking the user to pick an entry — are the caller's: the caller drives a
//! [`Lookup`] value, performs the action each [`Step`] asks for, and feeds the
//! result back. Every decision in between is made, and verified, here.
//!
//! A term is followed at most once per lookup: the attempted terms are
//! carried along, and a suggestion that leads back to one of them ends the
//! chain as a negative result instead of repeating itself. The term is used
//! verbatim as a URL path segment, without percent-encoding.

use vstd::prelude::*;

use crate::page::Outcome;
use crate::page::OutcomeView;
use crate::page::classify_page;
use crate::page::links_of;
use crate::page::marker_of;
use crate::page::outcome_of;
use crate::page::present_texts;
use crate::page::region_of;
use crate::render::render_definition;
use crate::render::rich_of;
use crate::render::width_of;
use crate::style::styled_text;
use crate::text::dec_of;
use crate::text::dec_u16;

verus! {

/// A failed lookup. Every kind is fatal for the whole chain; none is retried.
#[derive(Debug, PartialEq, Eq)]
pub enum RaeError {
    /// Transport-level failure reaching the service; the payload describes
    /// the cause.
    RequestError(String),
    /// The service was reached but answered with a non-success status.
    ResponseError(u16),
    /// The rich-text conversion of a definition failed.
    HtmlParseError,
    /// The interactive choice among related entries failed or was cancelled;
    /// the payload describes the cause.
    SelectError(String),
    /// The results region is absent from an otherwise successful response —
    /// the page's shape is not the expected one.
    UnexpectedSiteStructure,
}

/// The mathematical value of a [`RaeError`].
pub enum RaeErrorView {
    RequestError(Seq<char>),
    ResponseError(u16),
    HtmlParseError,
    SelectError(Seq<char>),
    UnexpectedSiteStructure,
}

impl View for RaeError {
    type V = RaeErrorView;

    open spec fn view(&self) -> RaeErrorView {
        match self {
            RaeError::RequestError(m) => RaeErrorView::RequestError(m@),
            RaeError::ResponseError(s) => RaeErrorView::ResponseError(*s),
            RaeError::HtmlParseError => RaeErrorView::HtmlParseError,
            RaeError::SelectError(m) => RaeErrorView::SelectError(m@),
            RaeError::UnexpectedSiteStructure => RaeErrorView::UnexpectedSiteStructure,
        }
    }
}

/// A completed lookup: rendered definition text, or a well-formed negative
/// result — the word has no entry.
#[derive(Debug, PartialEq, Eq)]
pub enum RaeSuccess {
    Definicion(String),
    NoEncontrado,
}

/// The mathematical value of a [`RaeSuccess`].
pub enum RaeSuccessView {
    Definicion(Seq<char>),
    NoEncontrado,
}

impl View for RaeSuccess {
    type V = RaeSuccessView;

    open spec fn view(&self) -> RaeSuccessView {
        match self {
            RaeSuccess::Definicion(d) => RaeSuccessView::Definicion(d@),
            RaeSuccess::NoEncontrado => RaeSuccessView::NoEncontrado,
        }
    }
}

/// What the caller's one fetch attempt produced.
pub enum FetchReply {
    /// Transport failure (no response at all); the payload describes the
    /// cause.
    Failed(String),
    /// The service answered: the HTTP status and the page text.
    Response(u16, String),
}

/// The mathematical value of a [`FetchReply`].
pub enum FetchReplyView {
    Failed(Seq<char>),
    Response(u16, Seq<char>),
}

impl View for FetchReply {
    type V = FetchReplyView;

    open spec fn view(&self) -> FetchReplyView {
        match self {
            FetchReply::Failed(m) => FetchReplyView::Failed(m@),
            FetchReply::Response(s, b) => FetchReplyView::Response(*s, b@),
        }
    }
}

/// What the caller's interactive prompt produced.
pub enum ChoiceReply {
    /// The user picked this entry.
    Chosen(String),
    /// The prompt failed or was cancelled; the payload describes the cause.
    Aborted(String),
}

/// The mathematical value of a [`ChoiceReply`].
pub enum ChoiceReplyView {
    Chosen(Seq<char>),
    Aborted(Seq<char>),
}

impl View for ChoiceReply {
    type V = ChoiceReplyView;

    open spec fn view(&self) -> ChoiceReplyView {
        match self {
            ChoiceReply::Chosen(t) => ChoiceReplyView::Chosen(t@),
            ChoiceReply::Aborted(m) => ChoiceReplyView::Aborted(m@),
        }
    }
}

/// What the orchestrator asks of its caller next.
#[derive(Debug, PartialEq, Eq)]
pub enum Step {
    /// Fetch the page for `term` (see [`url_for`]) and feed the reply to
    /// [`Lookup::on_page`]. `redirected` is true where the term is the single
    /// related entry of the page just classified: the caller reports the
    /// redirect (see [`redirect_notice`]) and follows it without asking.
    Fetch { term: String, redirected: bool },
    /// Present the entries, whole and in the given order, for the user to
    /// pick one, and feed the answer to [`Lookup::on_choice`].
    Choose(Vec<String>),
    /// The lookup is over.
    Finished(Result<RaeSuccess, RaeError>),
}

/// The mathematical value of a [`Step`].
pub enum StepView {
    Fetch { term: Seq<char>, redirected: bool },
    Choose(Seq<Seq<char>>),
    Finished(Result<RaeSuccessView, RaeErrorView>),
}

impl View for Step {
    type V = StepView;

    open spec fn view(&self) -> StepView {
        match self {
            Step::Fetch { term, redirected } => StepView::Fetch {
                term: term@,
                redirected: *redirected,
            },
            Step::Choose(ts) => StepView::Choose(ts.deep_view()),
            Step::Finished(r) => StepView::Finished(
                match r {
                    Ok(s) => Ok(s@),
                    Err(e) => Err(e@),
                },
            ),
        }
    }
}

/// Where a lookup stands: which event it owes its caller.
pub enum Phase {
    /// The last step asked for a fetch; [`Lookup::on_page`] is owed.
    AwaitingPage,
    /// The last step asked for a choice; [`Lookup::on_choice`] is owed.
    AwaitingChoice,
    /// The lookup is over.
    Settled,
}

/// One lookup in progress.
pub struct Lookup {
    /// Which event the lookup owes its caller.
    pub phase: Phase,
    /// Every term attempted in this lookup, the original first.
    pub visited: Vec<String>,
}

/// The mathematical value of a [`Lookup`].
pub struct LookupView {
    pub phase: Phase,
    pub visited: Seq<Seq<char>>,
}

impl View for Lookup {
    type V = LookupView;

    open spec fn view(&self) -> LookupView {
        LookupView { phase: self.phase, visited: self.visited.deep_view() }
    }
}

/// Whether an HTTP status is a success status.
pub open spec fn is_success_status(status: u16) -> bool {
    200 <= status < 300
}

/// Following an alternative term: a fresh fetch — unless the term was already
/// attempted in this lookup, in which case the chain ends as a negative
/// result instead of repeating itself.
pub open spec fn follow_step(
    visited: Seq<Seq<char>>,
    term: Seq<char>,
    redirected: bool,
) -> StepView {
    if visited.contains(term) {
        StepView::Finished(Ok(RaeSuccessView::NoEncontrado))
    } else {
        StepView::Fetch { term, redirected }
    }
}

/// What one fetched page (or one failed fetch) leads to.
pub open spec fn page_step(
    visited: Seq<Seq<char>>,
    reply: FetchReplyView,
    cols: Option<u16>,
) -> StepView {
    match reply {
        FetchReplyView::Failed(m) => StepView::Finished(Err(RaeErrorView::RequestError(m))),
        FetchReplyView::Response(status, body) => if !is_success_status(status) {
            StepView::Finished(Err(RaeErrorView::ResponseError(status)))
        } else if region_of(body) is None {
            StepView::Finished(Err(RaeErrorView::UnexpectedSiteStructure))
        } else {
            match outcome_of(body) {
                OutcomeView::Definition(markup) => match rich_of(markup, width_of(cols)) {
                    Some(lines) => StepView::Finished(
                        Ok(RaeSuccessView::Definicion(styled_text(lines))),
                    ),
                    None => StepView::Finished(Err(RaeErrorView::HtmlParseError)),
                },
                OutcomeView::Suggestions(terms) => if terms.len() == 1 {
                    follow_step(visited, terms[0], true)
                } else {
                    StepView::Choose(terms)
                },
                OutcomeView::NotFound => StepView::Finished(Ok(RaeSuccessView::NoEncontrado)),
            }
        },
    }
}

/// What one answer of the interactive prompt leads to.
pub open spec fn choice_step(visited: Seq<Seq<char>>, reply: ChoiceReplyView) -> StepView {
    match reply {
        ChoiceReplyView::Aborted(m) => StepView::Finished(Err(RaeErrorView::SelectError(m))),
        ChoiceReplyView::Chosen(t) => follow_step(visited, t, false),
    }
}

/// The attempted terms after a step: one more where the step fetches.
pub open spec fn visited_after(visited: Seq<Seq<char>>, step: StepView) -> Seq<Seq<char>> {
    match step {
        StepView::Fetch { term, redirected } => visited.push(term),
        StepView::Choose(_) => visited,
        StepView::Finished(_) => visited,
    }
}

/// The phase after a step.
pub open spec fn phase_after(step: StepView) -> Phase {
    match step {
        StepView::Fetch { term, redirected } => Phase::AwaitingPage,
        StepView::Choose(_) => Phase::AwaitingChoice,
        StepView::Finished(_) => Phase::Settled,
    }
}

/// Whether `term` is among `terms`.
fn contains_term(terms: &Vec<String>, term: &String) -> (b: bool)
    ensures
        b == terms.deep_view().contains(term@),
{
    let ghost all = terms.deep_view();
    proof {
        assert(all.len() == terms@.len());
    }
    let mut i: usize = 0;
    while i < terms.len()
        invariant
            i <= terms.len(),
            all == terms.deep_view(),
            all.len() == terms@.len(),
            forall|k: int| 0 <= k < i ==> all[k] != term@,
        decreases terms.len() - i,
    {
        proof {
            assert(all[i as int] == terms@[i as int]@);
        }
        if terms[i] == *term {
            proof {
                assert(all.contains(term@));
            }
            return true;
        }
        i += 1;
    }
    proof {
        assert(!all.contains(term@));
    }
    false
}

impl Lookup {
    /// Starts a lookup of `term`: the first step is to fetch its page.
    pub fn start(term: String) -> (r: (Lookup, Step))
        ensures
            r.0@.phase == Phase::AwaitingPage,
            r.0@.visited == seq![term@],
            r.1@ == (StepView::Fetch { term: term@, redirected: false }),
    {
        let first = term.clone();
        let mut visited: Vec<String> = Vec::new();
        visited.push(first);
        proof {
            assert(visited.deep_view() =~= seq![term@]);
        }
        (Lookup { phase: Phase::AwaitingPage, visited }, Step::Fetch { term, redirected: false })
    }

    /// Whether the event owed is a fetched page.
    pub fn expects_page(&self) -> (b: bool)
        ensures
            b == (self@.phase == Phase::AwaitingPage),
    {
        match self.phase {
            Phase::AwaitingPage => true,
            Phase::AwaitingChoice => false,
            Phase::Settled => false,
        }
    }

    /// Whether the event owed is the user's choice.
    pub fn expects_choice(&self) -> (b: bool)
        ensures
            b == (self@.phase == Phase::AwaitingChoice),
    {
        match self.phase {
            Phase::AwaitingPage => false,
            Phase::AwaitingChoice => true,
            Phase::Settled => false,
        }
    }

    /// Follows an alternative term, unless it was already attempted.
    fn follow(&mut self, term: String, redirected: bool) -> (r: Step)
        ensures
            r@ == follow_step(old(self)@.visited, term@, redirected),
            final(self)@.visited == visited_after(old(self)@.visited, r@),
            final(self)@.phase == phase_after(r@),
    {
        if contains_term(&self.visited, &term) {
            self.phase = Phase::Settled;
            Step::Finished(Ok(RaeSuccess::NoEncontrado))
        } else {
            self.phase = Phase::AwaitingPage;
            let followed = term.clone();
            self.visited.push(followed);
            proof {
                assert(self.visited.deep_view() =~= old(self)@.visited.push(term@));
            }
            Step::Fetch { term, redirected }
        }
    }

    /// Feeds back what the fetch the last step asked for produced. `cols` is
    /// the terminal's column count, if one is known; a definition is wrapped
    /// to it (or to 80 columns without one).
    pub fn on_page(&mut self, reply: FetchReply, cols: Option<u16>) -> (r: Step)
        requires
            old(self)@.phase == Phase::AwaitingPage,
        ensures
            r@ == page_step(old(self)@.visited, reply@, cols),
            final(self)@.visited == visited_after(old(self)@.visited, r@),
            final(self)@.phase == phase_after(r@),
    {
        match reply {
            FetchReply::Failed(m) => {
                self.phase = Phase::Settled;
                Step::Finished(Err(RaeError::RequestError(m)))
            },
            FetchReply::Response(status, body) => {
                if !(200 <= status && status < 300) {
                    self.phase = Phase::Settled;
                    Step::Finished(Err(RaeError::ResponseError(status)))
                } else {
                    match classify_page(body.as_str()) {
                        None => {
                            self.phase = Phase::Settled;
                            Step::Finished(Err(RaeError::UnexpectedSiteStructure))
                        },
                        Some(Outcome::Definition(markup)) => {
                            self.phase = Phase::Settled;
                            match render_definition(markup.as_str(), cols) {
                                Some(text) => Step::Finished(Ok(RaeSuccess::Definicion(text))),
                                None => Step::Finished(Err(RaeError::HtmlParseError)),
                            }
                        },
                        Some(Outcome::Suggestions(terms)) => {
                            proof {
                                assert(terms.deep_view().len() == terms@.len());
                            }
                            if terms.len() == 1 {
                                let term = terms[0].clone();
                                proof {
                                    assert(terms.deep_view()[0] == terms@[0]@);
                                }
                                self.follow(term, true)
                            } else {
                                self.phase = Phase::AwaitingChoice;
                                Step::Choose(terms)
                            }
                        },
                        Some(Outcome::NotFound) => {
                            self.phase = Phase::Settled;
                            Step::Finished(Ok(RaeSuccess::NoEncontrado))
                        },
                    }
                }
            },
        }
    }

    /// Feeds back what the prompt the last step asked for produced.
    pub fn on_choice(&mut self, reply: ChoiceReply) -> (r: Step)
        requires
            old(self)@.phase == Phase::AwaitingChoice,
        ensures
            r@ == choice_step(old(self)@.visited, reply@),
            final(self)@.visited == visited_after(old(self)@.visited, r@),
            final(self)@.phase == phase_after(r@),
    {
        match reply {
            ChoiceReply::Aborted(m) => {
                self.phase = Phase::Settled;
                Step::Finished(Err(RaeError::SelectError(m)))
            },
            ChoiceReply::Chosen(t) => self.follow(t, false),
        }
    }
}

/// The fixed endpoint with the term as a path segment, verbatim.
pub open spec fn url_of(term: Seq<char>) -> Seq<char> {
    "https://dle.rae.es/"@ + term
}

/// The request target for one term. The term is not percent-encoded: it
/// stands in the path verbatim.
pub fn url_for(term: &str) -> (r: String)
    ensures
        r@ == url_of(term@),
{
    let base = String::from_str("https://dle.rae.es/");
    base.concat(term)
}

/// The progress line naming the fetch target, printed before each request.
pub open spec fn progress_line_of(term: Seq<char>) -> Seq<char> {
    "Datos de: "@ + url_of(term)
}

/// The progress line for one term.
pub fn progress_line(term: &str) -> (r: String)
    ensures
        r@ == progress_line_of(term@),
{
    let mut s = String::from_str("Datos de: ");
    let url = url_for(term);
    s.append(url.as_str());
    proof {
        assert(s@ =~= progress_line_of(term@));
    }
    s
}

/// The line reporting a negative result for `term`.
pub open spec fn not_found_line_of(term: Seq<char>) -> Seq<char> {
    "La palabra "@ + term + " no está en el Diccionario."@
}

/// The negative-result line for one term.
pub fn not_found_line(term: &str) -> (r: String)
    ensures
        r@ == not_found_line_of(term@),
{
    let mut s = String::from_str("La palabra ");
    s.append(term);
    s.append(" no está en el Diccionario.");
    proof {
        assert(s@ =~= not_found_line_of(term@));
    }
    s
}

/// The notice naming the single related entry that is followed at once.
pub open spec fn redirect_notice_of(term: Seq<char>) -> Seq<char> {
    "La palabra no está en el Diccionario. Las entradas que se muestran a continuación podrían estar relacionadas: "@
        + term
}

/// The redirect notice for one term.
pub fn redirect_notice(term: &str) -> (r: String)
    ensures
        r@ == redirect_notice_of(term@),
{
    let mut s = String::from_str(
        "La palabra no está en el Diccionario. Las entradas que se muestran a continuación podrían estar relacionadas: ",
    );
    s.append(term);
    proof {
        assert(s@ =~= redirect_notice_of(term@));
    }
    s
}

/// The header of the interactive prompt among several related entries.
pub fn prompt_header() -> (r: String)
    ensures
        r@
            == "La palabra no está en el Diccionario. Las entradas que se muestran a continuación podrían estar relacionadas:"@,
{
    String::from_str(
        "La palabra no está en el Diccionario. Las entradas que se muestran a continuación podrían estar relacionadas:",
    )
}

/// The one-line report of a failed lookup.
pub open spec fn error_line_of(e: RaeErrorView) -> Seq<char> {
    match e {
        RaeErrorView::RequestError(m) => "[Error]: "@ + m + ", internet avialable? site down?"@,
        RaeErrorView::ResponseError(s) => "[Error]: "@ + dec_of(s as nat) + ", latest version?"@,
        RaeErrorView::HtmlParseError => "[Error]: the definition could not be converted to text"@,
        RaeErrorView::SelectError(m) => "[Error]: "@ + m,
        RaeErrorView::UnexpectedSiteStructure => "[Error]: Unexpected site structre. latest version? something changed? please report :/"@,
    }
}

impl RaeError {
    /// The one-line, human-readable report of this failure, for the error
    /// channel.
    pub fn message(&self) -> (r: String)
        ensures
            r@ == error_line_of(self@),
    {
        match self {
            RaeError::RequestError(m) => {
                let mut s = String::from_str("[Error]: ");
                s.append(m.as_str());
                s.append(", internet avialable? site down?");
                proof {
                    assert(s@ =~= error_line_of(self@));
                }
                s
            },
            RaeError::ResponseError(code) => {
                let mut s = String::from_str("[Error]: ");
                let num = dec_u16(*code);
                s.append(num.as_str());
                s.append(", latest version?");
                proof {
                    assert(s@ =~= error_line_of(self@));
                }
                s
            },
            RaeError::HtmlParseError => String::from_str(
                "[Error]: the definition could not be converted to text",
            ),
            RaeError::SelectError(m) => {
                let mut s = String::from_str("[Error]: ");
                s.append(m.as_str());
                proof {
                    assert(s@ =~= error_line_of(self@));
                }
                s
            },
            RaeError::UnexpectedSiteStructure => String::from_str(
                "[Error]: Unexpected site structre. latest version? something changed? please report :/",
            ),
        }
    }
}

/// Law: where the fetched page's results region holds the article marker
/// first, the lookup ends at once with a rendered definition of the whole
/// region — or with the conversion's failure — and never prompts, never
/// follows another term, and never reports a negative result.
pub proof fn lemma_article_never_prompts(
    visited: Seq<Seq<char>>,
    status: u16,
    body: Seq<char>,
    cols: Option<u16>,
)
    requires
        is_success_status(status),
        region_of(body) is Some,
        marker_of(body) == Some("article"@),
    ensures
        rich_of(region_of(body).unwrap(), width_of(cols)) is Some ==> page_step(
            visited,
            FetchReplyView::Response(status, body),
            cols,
        ) == StepView::Finished(
            Ok(
                RaeSuccessView::Definicion(
                    styled_text(rich_of(region_of(body).unwrap(), width_of(cols)).unwrap()),
                ),
            ),
        ),
        rich_of(region_of(body).unwrap(), width_of(cols)) is None ==> page_step(
            visited,
            FetchReplyView::Response(status, body),
            cols,
        ) == StepView::Finished(Err(RaeErrorView::HtmlParseError)),
{
}

/// Law: a results region that exists but matches neither marker ends the
/// lookup as a success carrying the negative result — not as an error.
pub proof fn lemma_not_found_is_success(
    visited: Seq<Seq<char>>,
    status: u16,
    body: Seq<char>,
    cols: Option<u16>,
)
    requires
        is_success_status(status),
        region_of(body) is Some,
        marker_of(body) != Some("article"@),
        marker_of(body) != Some("div"@),
    ensures
        page_step(visited, FetchReplyView::Response(status, body), cols) == StepView::Finished(
            Ok(RaeSuccessView::NoEncontrado),
        ),
{
}

/// Law: where the results region is absent, the lookup ends as a structural
/// failure, although the HTTP status was a success.
pub proof fn lemma_missing_region_is_structural_failure(
    visited: Seq<Seq<char>>,
    status: u16,
    body: Seq<char>,
    cols: Option<u16>,
)
    requires
        is_success_status(status),
        region_of(body) is None,
    ensures
        page_step(visited, FetchReplyView::Response(status, body), cols) == StepView::Finished(
            Err(RaeErrorView::UnexpectedSiteStructure),
        ),
{
}

/// Law: a page whose suggestion list holds exactly one extractable text is
/// followed at once and silently — the step is a fresh fetch of that text,
/// marked as a redirect, and no prompt is asked for. What follows is what a
/// fresh lookup of that term does on the same pages (see
/// [`lemma_page_step_depends_on_membership`]); the one exception is a chain
/// of suggestions that leads back to an already-attempted term, which this
/// lookup ends as a negative result.
pub proof fn lemma_singleton_suggestion_follows_silently(
    visited: Seq<Seq<char>>,
    status: u16,
    body: Seq<char>,
    cols: Option<u16>,
)
    requires
        is_success_status(status),
        region_of(body) is Some,
        marker_of(body) == Some("div"@),
        present_texts(links_of(body)).len() == 1,
        !visited.contains(present_texts(links_of(body))[0]),
    ensures
        page_step(visited, FetchReplyView::Response(status, body), cols) == (StepView::Fetch {
            term: present_texts(links_of(body))[0],
            redirected: true,
        }),
{
    reveal_strlit("article");
    reveal_strlit("div");
    assert("div"@.len() == 3);
    assert("article"@.len() == 7);
}

/// Law: a page whose suggestion list holds several extractable texts leads to
/// a prompt offering exactly those texts, whole and in page order; the chosen
/// entry is then fetched exactly as a fresh lookup of it would start — unless
/// it was already attempted in this lookup.
pub proof fn lemma_many_suggestions_prompt(
    visited: Seq<Seq<char>>,
    status: u16,
    body: Seq<char>,
    cols: Option<u16>,
    k: int,
)
    requires
        is_success_status(status),
        region_of(body) is Some,
        marker_of(body) == Some("div"@),
        present_texts(links_of(body)).len() > 1,
        0 <= k < present_texts(links_of(body)).len(),
        !visited.contains(present_texts(links_of(body))[k]),
    ensures
        page_step(visited, FetchReplyView::Response(status, body), cols) == StepView::Choose(
            present_texts(links_of(body)),
        ),
        choice_step(visited, ChoiceReplyView::Chosen(present_texts(links_of(body))[k]))
            == (StepView::Fetch { term: present_texts(links_of(body))[k], redirected: false }),
{
    reveal_strlit("article");
    reveal_strlit("div");
    assert("div"@.len() == 3);
    assert("article"@.len() == 7);
}

/// Law: what a page leads to depends on the terms attempted so far only
/// through membership — two lookups whose attempted sets hold the same terms
/// take the same step on the same page. With
/// [`lemma_singleton_suggestion_follows_silently`] and
/// [`lemma_many_suggestions_prompt`], a followed term's lookup proceeds as a
/// fresh lookup of it, as long as no page suggests an already-attempted term.
pub proof fn lemma_page_step_depends_on_membership(
    v1: Seq<Seq<char>>,
    v2: Seq<Seq<char>>,
    reply: FetchReplyView,
    cols: Option<u16>,
)
    requires
        forall|t: Seq<char>| v1.contains(t) == v2.contains(t),
    ensures
        page_step(v1, reply, cols) == page_step(v2, reply, cols),
{
    if let FetchReplyView::Response(status, body) = reply {
        if is_success_status(status) && region_of(body) is Some {
            if let OutcomeView::Suggestions(terms) = outcome_of(body) {
                if terms.len() == 1 {
                    assert(v1.contains(terms[0]) == v2.contains(terms[0]));
                }
            }
        }
    }
}

} // verus!
