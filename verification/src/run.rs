//! Whole runs of the driver, and what holds of every one of them.
//!
//! A run is the driver's start state followed by the events that the caller
//! reports, one after the other.  Beside the driver's state a run keeps a
//! record of what has happened: which pages were asked for, which pages
//! arrived with products, which of them were written, and what the sink
//! holds.  A write that is reported as successful is taken to have had the
//! effect that [`crate::writer::extract_product_data`] promises.

use vstd::prelude::*;

use crate::catalog::ProductView;
use crate::driver::{ActionView, DriverStateView, DriverView, EventView};
use crate::errors::RunErrorView;
use crate::writer::{header_line, page_lines, sink_after_page};

verus! {

/// A run so far.
pub struct RunView {
    /// The state of the driver.
    pub driver: DriverView,
    /// The numbers of the pages asked for, in the order of the requests.
    pub requested: Seq<int>,
    /// The pages that arrived with products, in the order of their arrival.
    pub fetched: Seq<Seq<ProductView>>,
    /// The pages that were written, in the order of the writes.
    pub written: Seq<Seq<ProductView>>,
    /// What the sink holds.
    pub sink: Seq<u8>,
}

/// The beginning of a run against the storefront at `url_base`, with a sink
/// that holds `sink`: page 1 has been asked for, and nothing else has
/// happened.
pub open spec fn run_start(url_base: Seq<char>, sink: Seq<u8>) -> RunView {
    RunView {
        driver: DriverView::start(url_base),
        requested: seq![1int],
        fetched: Seq::empty(),
        written: Seq::empty(),
        sink,
    }
}

/// The run after one more event.
///
/// The driver moves as [`DriverView::step`] says.  A page that arrives with
/// products is recorded as fetched.  A successful write is recorded with its
/// page, changes the sink as the writer does for the flag of the driver's
/// write action, and is followed by the request for the next page.
pub open spec fn run_step(run: RunView, event: EventView) -> RunView {
    let next = run.driver.step(event);
    match (run.driver.state, run.driver.action(), event) {
        (DriverStateView::Fetching, _, EventView::Fetched(Ok(page))) => RunView {
            driver: next,
            requested: run.requested,
            fetched: if page.len() == 0 {
                run.fetched
            } else {
                run.fetched.push(page)
            },
            written: run.written,
            sink: run.sink,
        },
        (
            DriverStateView::Writing { page },
            ActionView::Write { is_first_page },
            EventView::Written(Ok(_)),
        ) => RunView {
            driver: next,
            requested: run.requested.push(next.page_number),
            fetched: run.fetched,
            written: run.written.push(page),
            sink: sink_after_page(run.sink, page, is_first_page),
        },
        _ => RunView {
            driver: next,
            requested: run.requested,
            fetched: run.fetched,
            written: run.written,
            sink: run.sink,
        },
    }
}

/// The run that `events` lead to from `start`.
pub open spec fn run_of(start: RunView, events: Seq<EventView>) -> RunView
    decreases events.len(),
{
    if events.len() == 0 {
        start
    } else {
        run_step(run_of(start, events.drop_last()), events.last())
    }
}

/// Whether every event of `events` answers what the driver was waiting for
/// when it arrived.
pub open spec fn in_turn(start: RunView, events: Seq<EventView>) -> bool
    decreases events.len(),
{
    events.len() == 0 || (in_turn(start, events.drop_last()) && run_of(
        start,
        events.drop_last(),
    ).driver.expects(events.last()))
}

/// The lines of a sequence of pages, one page after the other.
pub open spec fn pages_lines(pages: Seq<Seq<ProductView>>) -> Seq<u8> {
    pages.map_values(|page: Seq<ProductView>| page_lines(page)).flatten()
}

/// The number of products on a sequence of pages.
pub open spec fn product_total(pages: Seq<Seq<ProductView>>) -> nat
    decreases pages.len(),
{
    if pages.len() == 0 {
        0
    } else {
        product_total(pages.drop_last()) + pages.last().len()
    }
}

/// What the record of a run has to do with the state of its driver.
pub open spec fn consistent(initial_sink: Seq<u8>, run: RunView) -> bool {
    &&& run.requested.len() == run.written.len() + 1
    &&& forall|i: int| 0 <= i < run.requested.len() ==> run.requested[i] == i + 1
    &&& run.driver.page_number == run.requested.len()
    &&& run.written.len() <= run.fetched.len() <= run.written.len() + 1
    &&& run.written == run.fetched.take(run.written.len() as int)
    &&& forall|i: int| 0 <= i < run.fetched.len() ==> (#[trigger] run.fetched[i]).len() > 0
    &&& run.driver.total_products == product_total(run.fetched)
    &&& match run.driver.state {
        DriverStateView::Fetching => run.fetched.len() == run.written.len(),
        DriverStateView::Writing { page } => run.fetched.len() == run.written.len() + 1
            && run.fetched.last() == page,
        DriverStateView::Done => run.fetched.len() == run.written.len(),
        DriverStateView::Aborted { error: RunErrorView::Fetch(_) } => run.fetched.len()
            == run.written.len(),
        DriverStateView::Aborted { error: RunErrorView::Write(_) } => run.fetched.len()
            == run.written.len() + 1,
    }
    &&& run.sink == if run.written.len() == 0 {
        initial_sink
    } else {
        header_line() + pages_lines(run.written)
    }
}

proof fn lemma_step_keeps_consistent(initial_sink: Seq<u8>, run: RunView, event: EventView)
    requires
        consistent(initial_sink, run),
        run.driver.expects(event),
    ensures
        consistent(initial_sink, run_step(run, event)),
{
    let next = run_step(run, event);
    match (run.driver.state, event) {
        (DriverStateView::Fetching, EventView::Fetched(Ok(page))) => {
            if page.len() > 0 {
                assert(next.fetched.drop_last() =~= run.fetched);
                assert(next.written =~= next.fetched.take(next.written.len() as int));
            }
        },
        (DriverStateView::Writing { page }, EventView::Written(Ok(_))) => {
            assert(run.driver.action() == ActionView::Write {
                is_first_page: run.driver.page_number == 1,
            });
            assert(next.written =~= next.fetched.take(next.written.len() as int));
            let lines = run.written.map_values(|p: Seq<ProductView>| page_lines(p));
            assert(next.written.map_values(|p: Seq<ProductView>| page_lines(p)) =~= lines.push(
                page_lines(page),
            ));
            lines.lemma_flatten_push(page_lines(page));
            if run.written.len() > 0 {
                assert(next.sink =~= header_line() + pages_lines(next.written));
            }
        },
        _ => {},
    }
}

/// Every run whose events come in turn is consistent.
pub proof fn lemma_run_consistent(url_base: Seq<char>, sink: Seq<u8>, events: Seq<EventView>)
    requires
        in_turn(run_start(url_base, sink), events),
    ensures
        consistent(sink, run_of(run_start(url_base, sink), events)),
    decreases events.len(),
{
    if events.len() == 0 {
        let start = run_start(url_base, sink);
        assert(start.written =~= start.fetched.take(0));
    } else {
        lemma_run_consistent(url_base, sink, events.drop_last());
        lemma_step_keeps_consistent(
            sink,
            run_of(run_start(url_base, sink), events.drop_last()),
            events.last(),
        );
    }
}

/// Pages are asked for strictly in order, each only after the one before
/// it has been dealt with.
///
/// In every run the requests are for pages 1, 2, 3 and so on without gaps,
/// and there is exactly one request more than there are written pages: the
/// request for page `n + 1` is made when page `n` has been written, and not
/// before.  The pages are written in the order in which they arrived, and
/// at most one page that has arrived is still unwritten.
pub proof fn lemma_pages_in_strict_order(
    url_base: Seq<char>,
    sink: Seq<u8>,
    events: Seq<EventView>,
)
    requires
        in_turn(run_start(url_base, sink), events),
    ensures
        ({
            let run = run_of(run_start(url_base, sink), events);
            &&& forall|i: int| 0 <= i < run.requested.len() ==> run.requested[i] == i + 1
            &&& run.requested.len() == run.written.len() + 1
            &&& run.written.len() <= run.fetched.len() <= run.written.len() + 1
            &&& run.written == run.fetched.take(run.written.len() as int)
        }),
{
    lemma_run_consistent(url_base, sink, events);
}

/// The header line is written exactly once, in front of the first page.
///
/// In every run the sink is untouched as long as no page has been written;
/// from then on it holds the header line followed by the lines of the
/// written pages in order, and nothing else, however many pages follow.
pub proof fn lemma_header_written_once(url_base: Seq<char>, sink: Seq<u8>, events: Seq<EventView>)
    requires
        in_turn(run_start(url_base, sink), events),
    ensures
        ({
            let run = run_of(run_start(url_base, sink), events);
            run.sink == if run.written.len() == 0 {
                sink
            } else {
                header_line() + pages_lines(run.written)
            }
        }),
{
    lemma_run_consistent(url_base, sink, events);
}

/// The driver's total is the number of products on the pages that arrived.
pub proof fn lemma_total_counts_fetched_products(
    url_base: Seq<char>,
    sink: Seq<u8>,
    events: Seq<EventView>,
)
    requires
        in_turn(run_start(url_base, sink), events),
    ensures
        ({
            let run = run_of(run_start(url_base, sink), events);
            run.driver.total_products == product_total(run.fetched)
        }),
{
    lemma_run_consistent(url_base, sink, events);
}

/// A failed fetch ends the run and costs nothing that was written.
///
/// When the fetch of a page fails, the run is aborted with that failure,
/// every page that arrived before it has been written, and the sink holds
/// exactly what it held before the failure.
pub proof fn lemma_fetch_failure_keeps_written_pages(
    url_base: Seq<char>,
    sink: Seq<u8>,
    events: Seq<EventView>,
    cause: Seq<char>,
)
    requires
        in_turn(run_start(url_base, sink), events.push(EventView::Fetched(Err(cause)))),
    ensures
        ({
            let before = run_of(run_start(url_base, sink), events);
            let run = run_of(
                run_start(url_base, sink),
                events.push(EventView::Fetched(Err(cause))),
            );
            &&& run.driver.state == DriverStateView::Aborted { error: RunErrorView::Fetch(cause) }
            &&& run.written == run.fetched
            &&& run.sink == before.sink
            &&& run.sink == if run.written.len() == 0 {
                sink
            } else {
                header_line() + pages_lines(run.written)
            }
        }),
{
    let all = events.push(EventView::Fetched(Err(cause)));
    assert(all.drop_last() =~= events);
    lemma_run_consistent(url_base, sink, events);
    lemma_run_consistent(url_base, sink, all);
}

/// An empty page ends the run, and a run that is over stays as it is.
///
/// Once the driver is done or has aborted it expects no event, and no event
/// changes its state or asks for another page.
pub proof fn lemma_over_is_final(driver: DriverView, event: EventView)
    requires
        driver.is_over(),
    ensures
        !driver.expects(event),
        driver.step(event) == driver,
        !(driver.action() is Fetch),
{
}

} // verus!
