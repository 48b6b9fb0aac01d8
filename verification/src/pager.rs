//! The pagination engine.
//!
//! A [`Pager`] decides; it does not fetch. It says which page to ask for
//! next, takes what came back, and ends either with every record of the
//! result in the server's order or with the failure that stopped it. The
//! program around it performs each [`Action`] and hands the answer back to
//! [`Pager::step`].

use vstd::prelude::*;
use crate::record::{Entry, Response, ResponseWithMetaData};
use crate::uri::{get_uri, uri_text};

verus! {

/// Why a page could not be had.
#[derive(Clone, Copy, Debug, PartialEq, Eq, Structural)]
pub enum Failure {
    /// The connection failed or the server answered with a status other than
    /// success.
    Transport,
    /// The body did not have the shape that was asked for.
    Deserialization,
}

/// The answer to one request.
#[derive(Clone, Debug, PartialEq, Eq)]
pub enum Fetched {
    /// A body with the metadata of the query.
    WithMetadata(ResponseWithMetaData),
    /// A body with entries alone.
    Plain(Response),
    /// No usable body.
    Failed(Failure),
}

/// Where a run stands.
#[derive(Clone, Copy, Debug, PartialEq, Eq, Structural)]
pub enum Phase {
    /// Page 0 is awaited; the size of the result is not known yet.
    First,
    /// Page `page` is awaited, and every page before it has been gathered.
    Later { page: usize },
    /// Every page has been gathered.
    Complete,
    /// A page failed; nothing further is asked for.
    Aborted(Failure),
}

/// One page to ask for.
#[derive(Clone, Debug, PartialEq, Eq)]
pub struct Request {
    pub uri: String,
    pub page: usize,
    pub metadata: bool,
}

/// What the driver is to do next.
#[derive(Clone, Debug, PartialEq, Eq)]
pub enum Action {
    /// Fetch this page and hand the answer to [`Pager::step`].
    Fetch(Request),
    /// All pages are in: the records can be exported.
    Export,
    /// Stop: the run failed and there is nothing to export.
    Abort(Failure),
}

/// How a run ended, as [`Pager::finish`] reports it.
#[derive(Clone, Debug, PartialEq, Eq)]
pub enum Outcome {
    /// Write these records, in this order, to `path`.
    Write { path: String, entries: Vec<Entry> },
    /// The run is complete and no destination is configured.
    Skip,
    /// The run failed; the destination is not to be touched.
    Abort(Failure),
    /// Pages are still outstanding; the destination is not to be touched.
    Unfinished,
}

/// The model of an [`Action`].
pub enum Ask {
    Fetch { uri: Seq<char>, page: nat, metadata: bool },
    Export,
    Abort(Failure),
}

/// The model of an [`Outcome`].
pub enum Verdict {
    Write { path: Seq<char>, entries: Seq<Entry> },
    Skip,
    Abort(Failure),
    Unfinished,
}

impl View for Action {
    type V = Ask;

    open spec fn view(&self) -> Ask {
        match *self {
            Action::Fetch(request) => Ask::Fetch {
                uri: request.uri@,
                page: request.page as nat,
                metadata: request.metadata,
            },
            Action::Export => Ask::Export,
            Action::Abort(failure) => Ask::Abort(failure),
        }
    }
}

impl View for Outcome {
    type V = Verdict;

    open spec fn view(&self) -> Verdict {
        match *self {
            Outcome::Write { path, entries } => Verdict::Write { path: path@, entries: entries@ },
            Outcome::Skip => Verdict::Skip,
            Outcome::Abort(failure) => Verdict::Abort(failure),
            Outcome::Unfinished => Verdict::Unfinished,
        }
    }
}

/// The entries that an answer carries; none where it failed.
pub open spec fn entries_of(event: Fetched) -> Seq<Entry> {
    match event {
        Fetched::WithMetadata(response) => response.fema_web_declaration_areas@,
        Fetched::Plain(response) => response.fema_web_declaration_areas@,
        Fetched::Failed(_) => Seq::empty(),
    }
}

/// The entries of a sequence of answers, one answer after the other.
pub open spec fn gathered(events: Seq<Fetched>) -> Seq<Entry>
    decreases events.len(),
{
    if events.len() == 0 {
        Seq::empty()
    } else {
        gathered(events.drop_last()) + entries_of(events.last())
    }
}

/// The number of pages that a result of `count` records takes at `size`
/// records a page. A count that is a multiple of the size takes one page more
/// than its records fill: the last page is then empty.
pub open spec fn pages_needed(count: int, size: int) -> int {
    count / size + 1
}

/// The model of a [`Pager`]: a run of the engine.
#[verifier::ext_equal]
pub struct Run {
    pub base: Seq<char>,
    pub query: Seq<char>,
    pub size: nat,
    pub phase: Phase,
    /// The size of the result as page 0 told it; 0 until then.
    pub count: int,
    /// The entries gathered so far, page by page.
    pub entries: Seq<Entry>,
}

impl Run {
    /// The run before any answer.
    pub open spec fn start(base: Seq<char>, query: Seq<char>, size: nat) -> Run {
        Run { base, query, size, phase: Phase::First, count: 0, entries: Seq::empty() }
    }

    /// The states that a run can be in.
    pub open spec fn wf(self) -> bool {
        &&& self.size > 0
        &&& 0 <= self.count <= i32::MAX
        &&& self.phase is First ==> self.count == 0 && self.entries.len() == 0
        &&& self.phase matches Phase::Later { page } ==> 1 <= page < pages_needed(
            self.count,
            self.size as int,
        )
    }

    /// Whether `event` can be taken in this state: a count that page 0 tells
    /// is not negative.
    pub open spec fn admits(self, event: Fetched) -> bool {
        self.phase is First ==> (event matches Fetched::WithMetadata(response)
            ==> response.metadata.count >= 0)
    }

    /// The run after the entries of page `page` have come in: they follow
    /// those of the pages before, and the next page is awaited if there is
    /// one.
    pub open spec fn gather(self, page: nat, entries: Seq<Entry>) -> Run {
        Run {
            entries: self.entries + entries,
            phase: if page + 1 < pages_needed(self.count, self.size as int) {
                Phase::Later { page: (page + 1) as usize }
            } else {
                Phase::Complete
            },
            ..self
        }
    }

    /// The run after a failure.
    pub open spec fn abort(self, failure: Failure) -> Run {
        Run { phase: Phase::Aborted(failure), ..self }
    }

    /// The run after one answer.
    ///
    /// Page 0 must carry metadata: its count fixes the number of pages. A body
    /// without it is a body of the wrong shape. A later page is read for its
    /// entries alone, whether it carries metadata or not. A failure aborts the
    /// run at any page. A run that is complete or aborted stays as it is.
    pub open spec fn step(self, event: Fetched) -> Run {
        match self.phase {
            Phase::First => match event {
                Fetched::WithMetadata(response) => Run {
                    count: response.metadata.count as int,
                    ..self
                }.gather(0, response.fema_web_declaration_areas@),
                Fetched::Plain(_) => self.abort(Failure::Deserialization),
                Fetched::Failed(failure) => self.abort(failure),
            },
            Phase::Later { page } => match event {
                Fetched::Failed(failure) => self.abort(failure),
                _ => self.gather(page as nat, entries_of(event)),
            },
            Phase::Complete => self,
            Phase::Aborted(_) => self,
        }
    }

    /// The run after a sequence of answers, taken in order.
    pub open spec fn feed(self, events: Seq<Fetched>) -> Run
        decreases events.len(),
    {
        if events.len() == 0 {
            self
        } else {
            self.feed(events.drop_last()).step(events.last())
        }
    }

    /// What the run asks of its driver.
    pub open spec fn pending(self) -> Ask {
        match self.phase {
            Phase::First => Ask::Fetch {
                uri: uri_text(true, self.base, self.query, 0, Some(self.size)),
                page: 0,
                metadata: true,
            },
            Phase::Later { page } => Ask::Fetch {
                uri: uri_text(false, self.base, self.query, page as nat, Some(self.size)),
                page: page as nat,
                metadata: false,
            },
            Phase::Complete => Ask::Export,
            Phase::Aborted(failure) => Ask::Abort(failure),
        }
    }

    /// The records that the awaited page is expected to hold: from which
    /// record of the result up to which, the second not included. Nothing is
    /// awaited of page 0, before the count is known, nor once the run is over.
    pub open spec fn span(self) -> Option<(int, int)> {
        match self.phase {
            Phase::Later { page } => Some(
                (
                    page * self.size,
                    if (page + 1) * self.size <= self.count {
                        (page + 1) * self.size
                    } else {
                        self.count
                    },
                ),
            ),
            _ => None,
        }
    }

    /// How the run ends for a given destination. Records leave a run only
    /// when it is complete, and then all of them.
    pub open spec fn verdict(self, destination: Option<Seq<char>>) -> Verdict {
        match self.phase {
            Phase::Complete => match destination {
                Some(path) => Verdict::Write { path, entries: self.entries },
                None => Verdict::Skip,
            },
            Phase::Aborted(failure) => Verdict::Abort(failure),
            _ => Verdict::Unfinished,
        }
    }
}

/// The number of pages of a result of `count` records at `size` records a
/// page.
pub fn total_pages(count: i32, size: usize) -> (total: usize)
    requires
        count >= 0,
        size > 0,
    ensures
        total == pages_needed(count as int, size as int),
        1 <= total <= count + 1,
{
    proof {
        vstd::arithmetic::div_mod::lemma_div_nonincreasing(count as int, size as int);
        vstd::arithmetic::div_mod::lemma_div_pos_is_pos(count as int, size as int);
    }
    count as usize / size + 1
}

/// The engine that gathers every page of one query.
pub struct Pager {
    base: String,
    query: String,
    size: usize,
    phase: Phase,
    count: i32,
    entries: Vec<Entry>,
}

impl View for Pager {
    type V = Run;

    closed spec fn view(&self) -> Run {
        Run {
            base: self.base@,
            query: self.query@,
            size: self.size as nat,
            phase: self.phase,
            count: self.count as int,
            entries: self.entries@,
        }
    }
}

impl Pager {
    /// A pager for `query` at `base`, in pages of `size` records. It awaits
    /// page 0.
    pub fn begin(base: String, query: String, size: usize) -> (pager: Pager)
        requires
            size > 0,
        ensures
            pager@ == Run::start(base@, query@, size as nat),
            pager@.wf(),
    {
        Pager { base, query, size, phase: Phase::First, count: 0, entries: Vec::new() }
    }

    /// Where the run stands.
    pub fn phase(&self) -> (phase: Phase)
        ensures
            phase == self@.phase,
    {
        self.phase
    }

    /// The size of the result as page 0 told it; 0 before that.
    pub fn count(&self) -> (count: i32)
        ensures
            count == self@.count,
    {
        self.count
    }

    /// The number of entries gathered so far.
    pub fn collected(&self) -> (n: usize)
        ensures
            n == self@.entries.len(),
    {
        self.entries.len()
    }

    /// What the driver is to do next.
    pub fn pending(&self) -> (action: Action)
        ensures
            action@ == self@.pending(),
    {
        match self.phase {
            Phase::First => Action::Fetch(
                Request {
                    uri: get_uri(true, self.base.as_str(), self.query.as_str(), 0, Some(self.size)),
                    page: 0,
                    metadata: true,
                },
            ),
            Phase::Later { page } => Action::Fetch(
                Request {
                    uri: get_uri(
                        false,
                        self.base.as_str(),
                        self.query.as_str(),
                        page,
                        Some(self.size),
                    ),
                    page,
                    metadata: false,
                },
            ),
            Phase::Complete => Action::Export,
            Phase::Aborted(failure) => Action::Abort(failure),
        }
    }

    /// The records that the awaited page is expected to hold: the index of
    /// its first record in the result and the index after its last.
    pub fn span(&self) -> (span: Option<(usize, usize)>)
        requires
            self@.wf(),
        ensures
            match span {
                Some((start, end)) => self@.span() == Some((start as int, end as int)),
                None => self@.span() is None,
            },
    {
        match self.phase {
            Phase::Later { page } => {
                let count: usize = self.count as usize;
                proof {
                    lemma_page_within_count(page as int, self.size as int, self.count as int);
                }
                let start: usize = page * self.size;
                let room: usize = count - start;
                let end: usize = if self.size <= room {
                    start + self.size
                } else {
                    count
                };
                assert((page + 1) * self.size == page * self.size + self.size)
                    by (nonlinear_arith);
                Some((start, end))
            },
            _ => None,
        }
    }

    /// Whether the pager can take `event` as the answer to the pending
    /// request.
    pub fn admits(&self, event: &Fetched) -> (ok: bool)
        ensures
            ok == self@.admits(*event),
    {
        match self.phase {
            Phase::First => match event {
                Fetched::WithMetadata(response) => response.metadata.count >= 0,
                _ => true,
            },
            _ => true,
        }
    }

    /// Takes the answer to the pending request and says what to do next.
    pub fn step(&mut self, event: Fetched) -> (action: Action)
        requires
            old(self)@.wf(),
            old(self)@.admits(event),
        ensures
            final(self)@ =~= old(self)@.step(event),
            final(self)@.wf(),
            action@ == final(self)@.pending(),
    {
        proof {
            lemma_step_wf(self@, event);
        }
        match self.phase {
            Phase::First => match event {
                Fetched::WithMetadata(response) => {
                    self.count = response.metadata.count;
                    self.gather(0, response.fema_web_declaration_areas);
                },
                Fetched::Plain(_) => {
                    self.phase = Phase::Aborted(Failure::Deserialization);
                },
                Fetched::Failed(failure) => {
                    self.phase = Phase::Aborted(failure);
                },
            },
            Phase::Later { page } => match event {
                Fetched::WithMetadata(response) => {
                    self.gather(page, response.fema_web_declaration_areas);
                },
                Fetched::Plain(response) => {
                    self.gather(page, response.fema_web_declaration_areas);
                },
                Fetched::Failed(failure) => {
                    self.phase = Phase::Aborted(failure);
                },
            },
            Phase::Complete => {},
            Phase::Aborted(_) => {},
        }
        self.pending()
    }

    /// Ends the run: hands out the records if, and only if, every page came
    /// in and there is a destination for them.
    pub fn finish(self, destination: Option<String>) -> (outcome: Outcome)
        ensures
            outcome@ == self@.verdict(destination.deep_view()),
    {
        match self.phase {
            Phase::Complete => match destination {
                Some(path) => Outcome::Write { path, entries: self.entries },
                None => Outcome::Skip,
            },
            Phase::Aborted(failure) => Outcome::Abort(failure),
            _ => Outcome::Unfinished,
        }
    }

    /// Adds the entries of page `page` and moves on to the next page, or to
    /// the end.
    fn gather(&mut self, page: usize, entries: Vec<Entry>)
        requires
            old(self).size > 0,
            old(self).count >= 0,
            page < pages_needed(old(self).count as int, old(self).size as int),
        ensures
            final(self)@ =~= old(self)@.gather(page as nat, entries@),
    {
        let mut entries = entries;
        self.entries.append(&mut entries);
        let total = total_pages(self.count, self.size);
        if page + 1 < total {
            self.phase = Phase::Later { page: page + 1 };
        } else {
            self.phase = Phase::Complete;
        }
    }
}

/// The records before page `page` are part of the result, for every page
/// that the result takes.
proof fn lemma_page_within_count(page: int, size: int, count: int)
    requires
        size > 0,
        count >= 0,
        0 <= page < pages_needed(count, size),
    ensures
        0 <= page * size <= count,
{
    vstd::arithmetic::div_mod::lemma_fundamental_div_mod(count, size);
    assert(page * size <= (count / size) * size) by (nonlinear_arith)
        requires
            0 <= page <= count / size,
            size > 0,
    ;
    assert(0 <= page * size) by (nonlinear_arith)
        requires
            0 <= page,
            size > 0,
    ;
    assert(size * (count / size) == (count / size) * size) by (nonlinear_arith);
}

/// An answer that a run admits leaves it in one of its states.
pub proof fn lemma_step_wf(run: Run, event: Fetched)
    requires
        run.wf(),
        run.admits(event),
    ensures
        run.step(event).wf(),
{
    vstd::arithmetic::div_mod::lemma_div_nonincreasing(run.count, run.size as int);
    vstd::arithmetic::div_mod::lemma_div_pos_is_pos(run.count, run.size as int);
    if let Fetched::WithMetadata(response) = event {
        let count = response.metadata.count as int;
        if count >= 0 {
            vstd::arithmetic::div_mod::lemma_div_nonincreasing(count, run.size as int);
            vstd::arithmetic::div_mod::lemma_div_pos_is_pos(count, run.size as int);
        }
    }
}

} // verus!
