//! The pagination driver: a state machine that decides what a run does
//! next.
//!
//! The driver performs nothing itself.  It names the next action, the
//! caller performs it and reports what came of it, and the driver moves
//! on.  Pages are fetched and written strictly in turn: page 1 is fetched,
//! then written, then page 2 is fetched, and so on, until a page comes back
//! empty or something fails.

use vstd::prelude::*;

use crate::catalog::{ProductView, ProductsResponse};
use crate::errors::{FetchError, RunError, RunErrorView, WriteError};
use crate::request::{page_url, page_url_text};

verus! {

/// Where a run stands.
#[derive(Debug, PartialEq, Eq)]
pub enum DriverState {
    /// The current page has been asked for and not yet answered.
    Fetching,
    /// The current page has arrived with products and is being written.
    Writing { page: ProductsResponse },
    /// The catalog is exhausted: the current page came back empty.
    Done,
    /// The run has failed on the current page.
    Aborted { error: RunError },
}

/// The state of one run: which page it is at, how many products it has seen
/// and what it is waiting for.
#[derive(Debug, PartialEq, Eq)]
pub struct Driver {
    /// The address of the storefront.
    pub url_base: String,
    /// The page that is being fetched or written; once the run is over, the
    /// page at which it ended.  Pages are counted from 1.
    pub page_number: i32,
    /// The number of products on the pages fetched so far.
    pub total_products: usize,
    pub state: DriverState,
}

/// What the caller reports back to the driver.
#[derive(Debug, PartialEq, Eq)]
pub enum Event {
    /// The outcome of fetching the current page.
    Fetched(Result<ProductsResponse, FetchError>),
    /// The outcome of writing the current page.
    Written(Result<(), WriteError>),
}

/// What the driver asks the caller to do.
#[derive(Debug, PartialEq, Eq)]
pub enum Action {
    /// Fetch the page with this number from this address and report
    /// `Fetched`.
    Fetch { page_number: i32, url: String },
    /// Write the page that the driver holds and report `Written`.  The
    /// first page starts the output afresh, with the header line.
    Write { is_first_page: bool },
    /// Nothing is left to do: report the total and stop.
    Finish { total_products: usize },
    /// The run has failed: report the error that the driver holds and stop.
    Abort,
}

/// [`DriverState`] over mathematical values.
pub enum DriverStateView {
    Fetching,
    Writing { page: Seq<ProductView> },
    Done,
    Aborted { error: RunErrorView },
}

/// [`Driver`] over mathematical values.
pub struct DriverView {
    pub url_base: Seq<char>,
    pub page_number: int,
    pub total_products: nat,
    pub state: DriverStateView,
}

/// [`Event`] over mathematical values.
pub enum EventView {
    Fetched(Result<Seq<ProductView>, Seq<char>>),
    Written(Result<(), Seq<char>>),
}

/// [`Action`] over mathematical values.
pub enum ActionView {
    Fetch { page_number: int, url: Seq<char> },
    Write { is_first_page: bool },
    Finish { total_products: nat },
    Abort,
}

impl View for DriverState {
    type V = DriverStateView;

    open spec fn view(&self) -> DriverStateView {
        match *self {
            DriverState::Fetching => DriverStateView::Fetching,
            DriverState::Writing { page } => DriverStateView::Writing { page: page@ },
            DriverState::Done => DriverStateView::Done,
            DriverState::Aborted { error } => DriverStateView::Aborted { error: error@ },
        }
    }
}

impl View for Driver {
    type V = DriverView;

    open spec fn view(&self) -> DriverView {
        DriverView {
            url_base: self.url_base@,
            page_number: self.page_number as int,
            total_products: self.total_products as nat,
            state: self.state@,
        }
    }
}

impl View for Event {
    type V = EventView;

    open spec fn view(&self) -> EventView {
        match *self {
            Event::Fetched(Ok(page)) => EventView::Fetched(Ok(page@)),
            Event::Fetched(Err(e)) => EventView::Fetched(Err(e@)),
            Event::Written(Ok(_)) => EventView::Written(Ok(())),
            Event::Written(Err(e)) => EventView::Written(Err(e@)),
        }
    }
}

impl View for Action {
    type V = ActionView;

    open spec fn view(&self) -> ActionView {
        match *self {
            Action::Fetch { page_number, url } => ActionView::Fetch {
                page_number: page_number as int,
                url: url@,
            },
            Action::Write { is_first_page } => ActionView::Write { is_first_page },
            Action::Finish { total_products } => ActionView::Finish {
                total_products: total_products as nat,
            },
            Action::Abort => ActionView::Abort,
        }
    }
}

impl DriverView {
    /// The state in which every run begins: page 1 is being fetched and no
    /// product has been seen.
    pub open spec fn start(url_base: Seq<char>) -> DriverView {
        DriverView {
            url_base,
            page_number: 1,
            total_products: 0,
            state: DriverStateView::Fetching,
        }
    }

    /// Whether the run is over.
    pub open spec fn is_over(self) -> bool {
        self.state is Done || self.state is Aborted
    }

    /// Whether `event` answers what the driver is waiting for: the outcome
    /// of a fetch while it is fetching, the outcome of a write while it is
    /// writing.  A run that is over expects nothing.
    pub open spec fn expects(self, event: EventView) -> bool {
        match self.state {
            DriverStateView::Fetching => event is Fetched,
            DriverStateView::Writing { .. } => event is Written,
            DriverStateView::Done => false,
            DriverStateView::Aborted { .. } => false,
        }
    }

    /// The state after `event`.
    ///
    /// While fetching: an empty page ends the run; a page with products is
    /// counted into the total and goes on to be written; a failure aborts
    /// the run.  While writing: success moves on to fetching the next page;
    /// a failure aborts the run.  An event that the driver does not expect
    /// changes nothing.
    pub open spec fn step(self, event: EventView) -> DriverView {
        match (self.state, event) {
            (DriverStateView::Fetching, EventView::Fetched(Ok(page))) => {
                if page.len() == 0 {
                    DriverView {
                        url_base: self.url_base,
                        page_number: self.page_number,
                        total_products: self.total_products,
                        state: DriverStateView::Done,
                    }
                } else {
                    DriverView {
                        url_base: self.url_base,
                        page_number: self.page_number,
                        total_products: self.total_products + page.len(),
                        state: DriverStateView::Writing { page },
                    }
                }
            },
            (DriverStateView::Fetching, EventView::Fetched(Err(cause))) => DriverView {
                url_base: self.url_base,
                page_number: self.page_number,
                total_products: self.total_products,
                state: DriverStateView::Aborted { error: RunErrorView::Fetch(cause) },
            },
            (DriverStateView::Writing { .. }, EventView::Written(Ok(_))) => DriverView {
                url_base: self.url_base,
                page_number: self.page_number + 1,
                total_products: self.total_products,
                state: DriverStateView::Fetching,
            },
            (DriverStateView::Writing { .. }, EventView::Written(Err(cause))) => DriverView {
                url_base: self.url_base,
                page_number: self.page_number,
                total_products: self.total_products,
                state: DriverStateView::Aborted { error: RunErrorView::Write(cause) },
            },
            _ => self,
        }
    }

    /// What the driver asks for in this state.
    pub open spec fn action(self) -> ActionView {
        match self.state {
            DriverStateView::Fetching => ActionView::Fetch {
                page_number: self.page_number,
                url: page_url_text(self.url_base, self.page_number),
            },
            DriverStateView::Writing { .. } => ActionView::Write {
                is_first_page: self.page_number == 1,
            },
            DriverStateView::Done => ActionView::Finish { total_products: self.total_products },
            DriverStateView::Aborted { .. } => ActionView::Abort,
        }
    }

    /// Whether the state after `event` still fits the driver's counters.
    pub open spec fn fits(self, event: EventView) -> bool {
        &&& self.step(event).page_number <= i32::MAX
        &&& self.step(event).total_products <= usize::MAX
    }
}

impl Driver {
    /// Begins a run against the storefront at `url_base`.
    pub fn start(url_base: String) -> (driver: Driver)
        ensures
            driver@ == DriverView::start(url_base@),
    {
        Driver { url_base, page_number: 1, total_products: 0, state: DriverState::Fetching }
    }

    /// What the caller is to do next.
    pub fn action(&self) -> (action: Action)
        ensures
            action@ == self@.action(),
    {
        match &self.state {
            DriverState::Fetching => Action::Fetch {
                page_number: self.page_number,
                url: page_url(self.url_base.as_str(), self.page_number),
            },
            DriverState::Writing { .. } => Action::Write { is_first_page: self.page_number == 1 },
            DriverState::Done => Action::Finish { total_products: self.total_products },
            DriverState::Aborted { .. } => Action::Abort,
        }
    }

    /// Whether the run is over.
    pub fn is_over(&self) -> (over: bool)
        ensures
            over == self@.is_over(),
    {
        match &self.state {
            DriverState::Done => true,
            DriverState::Aborted { .. } => true,
            _ => false,
        }
    }

    /// Whether [`Driver::step`] can take `event`: the driver expects it,
    /// and the state after it fits the driver's counters.
    pub fn can_step(&self, event: &Event) -> (ok: bool)
        ensures
            ok == (self@.expects(event@) && self@.fits(event@)),
    {
        match (&self.state, event) {
            (DriverState::Fetching, Event::Fetched(Ok(page))) => page.len() <= usize::MAX
                - self.total_products,
            (DriverState::Fetching, Event::Fetched(Err(_))) => true,
            (DriverState::Writing { .. }, Event::Written(Ok(_))) => self.page_number < i32::MAX,
            (DriverState::Writing { .. }, Event::Written(Err(_))) => true,
            _ => false,
        }
    }

    /// Takes the outcome of the action that the driver asked for, and
    /// returns the driver in its next state together with the next action.
    pub fn step(self, event: Event) -> (next: (Driver, Action))
        requires
            self@.expects(event@),
            self@.fits(event@),
        ensures
            next.0@ == self@.step(event@),
            next.1@ == next.0@.action(),
    {
        let Driver { url_base, page_number, total_products, state } = self;
        let driver = match (state, event) {
            (DriverState::Fetching, Event::Fetched(Ok(page))) => {
                if page.is_empty() {
                    Driver { url_base, page_number, total_products, state: DriverState::Done }
                } else {
                    Driver {
                        url_base,
                        page_number,
                        total_products: total_products + page.len(),
                        state: DriverState::Writing { page },
                    }
                }
            },
            (DriverState::Fetching, Event::Fetched(Err(e))) => Driver {
                url_base,
                page_number,
                total_products,
                state: DriverState::Aborted { error: RunError::Fetch(e) },
            },
            (DriverState::Writing { .. }, Event::Written(Ok(_))) => Driver {
                url_base,
                page_number: page_number + 1,
                total_products,
                state: DriverState::Fetching,
            },
            (DriverState::Writing { .. }, Event::Written(Err(e))) => Driver {
                url_base,
                page_number,
                total_products,
                state: DriverState::Aborted { error: RunError::Write(e) },
            },
            (state, _) => Driver { url_base, page_number, total_products, state },
        };
        let action = driver.action();
        (driver, action)
    }
}

} // verus!
