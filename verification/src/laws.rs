//! What holds of every run of the pagination engine.

use vstd::prelude::*;
use crate::pager::{gathered, lemma_step_wf, pages_needed, Ask, Fetched, Phase, Run, Verdict};
use crate::record::ResponseWithMetaData;
use crate::uri::uri_text;

verus! {

/// Whether no answer in `events` is a failure.
pub open spec fn no_failure(events: Seq<Fetched>) -> bool {
    forall|i: int| 0 <= i < events.len() ==> !(#[trigger] events[i] is Failed)
}

/// A run that is over stays as it is, whatever is fed to it.
pub proof fn lemma_over_stays(run: Run, events: Seq<Fetched>)
    requires
        run.phase is Complete || run.phase is Aborted,
    ensures
        run.feed(events) == run,
    decreases events.len(),
{
    if events.len() > 0 {
        lemma_over_stays(run, events.drop_last());
    }
}

/// A result of `count` records takes `count / size + 1` pages, and the run
/// fetches the pages after page 0 one by one: `count / size` of them, no more
/// and no fewer.
///
/// Once page 0 has told the count, the run asks for page `n + 1` after `n`
/// further answers, as long as `n` is less than `count / size`, and is
/// complete after `count / size` of them. What it holds by then is the
/// entries of page 0 followed by those of the later pages, in the order the
/// pages came; a page without entries is a page like any other.
pub proof fn lemma_later_pages(start: Run, first: ResponseWithMetaData, later: Seq<Fetched>)
    requires
        start.wf(),
        start.phase is First,
        first.metadata.count >= 0,
        no_failure(later),
        later.len() < pages_needed(first.metadata.count as int, start.size as int),
    ensures
        ({
            let total = pages_needed(first.metadata.count as int, start.size as int);
            let run = start.step(Fetched::WithMetadata(first)).feed(later);
            &&& total == first.metadata.count as int / start.size as int + 1
            &&& run.wf()
            &&& run.base == start.base
            &&& run.query == start.query
            &&& run.size == start.size
            &&& run.count == first.metadata.count
            &&& run.entries == first.fema_web_declaration_areas@ + gathered(later)
            &&& later.len() + 1 < total ==> run.phase == (Phase::Later {
                page: (later.len() + 1) as usize,
            }) && run.pending() == (Ask::Fetch {
                uri: uri_text(
                    false,
                    start.base,
                    start.query,
                    later.len() + 1,
                    Some(start.size),
                ),
                page: later.len() + 1,
                metadata: false,
            })
            &&& later.len() + 1 == total ==> run.phase is Complete && run.pending() is Export
        }),
    decreases later.len(),
{
    let event = Fetched::WithMetadata(first);
    let after_first = start.step(event);
    lemma_step_wf(start, event);
    if later.len() == 0 {
        assert(after_first.entries =~= first.fema_web_declaration_areas@ + gathered(later));
    } else {
        let before = later.drop_last();
        assert(no_failure(before)) by {
            assert forall|i: int| 0 <= i < before.len() implies !(#[trigger] before[i] is Failed) by {
                assert(before[i] == later[i]);
            }
        }
        lemma_later_pages(start, first, before);
        let run = after_first.feed(before);
        assert(!(later.last() is Failed)) by {
            assert(later.last() == later[later.len() - 1]);
        }
        lemma_step_wf(run, later.last());
        assert(run.step(later.last()).entries =~= first.fema_web_declaration_areas@ + gathered(
            later,
        ));
    }
}

/// The number of pages that a run asks for from the state `run` on, while
/// `events` are fed to it: one for each moment, before the first answer and
/// after each one, at which a page is pending.
pub open spec fn fetches(run: Run, events: Seq<Fetched>) -> nat
    decreases events.len(),
{
    let pending: nat = if run.feed(events).pending() is Fetch {
        1
    } else {
        0
    };
    if events.len() == 0 {
        pending
    } else {
        fetches(run, events.drop_last()) + pending
    }
}

/// Of a result that takes `total` pages, the run fetches `total - 1` after
/// page 0: that many requests follow the answer to page 0 when that many
/// answers come in and none of them is a failure.
pub proof fn lemma_fetch_count(start: Run, first: ResponseWithMetaData, later: Seq<Fetched>)
    requires
        start.wf(),
        start.phase is First,
        first.metadata.count >= 0,
        no_failure(later),
        later.len() < pages_needed(first.metadata.count as int, start.size as int),
    ensures
        ({
            let total = pages_needed(first.metadata.count as int, start.size as int);
            let after_first = start.step(Fetched::WithMetadata(first));
            &&& later.len() + 1 < total ==> fetches(after_first, later) == later.len() + 1
            &&& later.len() + 1 == total ==> fetches(after_first, later) == total - 1
        }),
    decreases later.len(),
{
    lemma_later_pages(start, first, later);
    if later.len() > 0 {
        let before = later.drop_last();
        assert(no_failure(before)) by {
            assert forall|i: int| 0 <= i < before.len() implies !(#[trigger] before[i] is Failed) by {
                assert(before[i] == later[i]);
            }
        }
        lemma_fetch_count(start, first, before);
    }
}

/// A failure at any page aborts the run for good: whatever comes after it,
/// the run asks for nothing more, and no records leave it, whether a
/// destination is configured or not.
pub proof fn lemma_failure_is_final(start: Run, events: Seq<Fetched>, k: int)
    requires
        0 <= k < events.len(),
        events[k] is Failed,
        !(start.feed(events.take(k)).phase is Complete),
    ensures
        start.feed(events).phase is Aborted,
        start.feed(events).pending() is Abort,
        start.feed(events).entries == start.feed(events.take(k)).entries,
        forall|destination: Option<Seq<char>>|
            #[trigger] start.feed(events).verdict(destination) is Abort,
    decreases events.len(),
{
    let before = events.drop_last();
    if k == events.len() - 1 {
        assert(before =~= events.take(k));
    } else {
        assert(before.take(k) =~= events.take(k));
        lemma_failure_is_final(start, before, k);
    }
}

/// Records leave a run only when every page has come in: for any destination,
/// the run hands them out exactly when it is complete and a destination is
/// configured, and then it hands out all that it gathered.
pub proof fn lemma_write_only_when_complete(run: Run, destination: Option<Seq<char>>)
    ensures
        run.verdict(destination) is Write <==> run.phase is Complete && destination is Some,
        run.verdict(destination) matches Verdict::Write { path, entries } ==> Some(path)
            == destination && entries == run.entries,
        run.verdict(destination) is Skip <==> run.phase is Complete && destination is None,
{
}

} // verus!
