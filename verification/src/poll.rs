//! A run over the holdings: one request after the other, one row for each.
//!
//! [`assemble`] builds the report from the outcomes of all requests.
//! [`Poller`] leads a caller through a run step by step: it says when to
//! wait and what to ask for next, and takes in what each request came to.

use crate::config::{held, ticker_views, Ticker, TickerView};
use crate::pacing::{wait_of, Pacer};
use crate::report::{
    build_row, row_of, row_quantity, row_ticker, sum_of_totals, totalled, Report, RowView,
};
use crate::yahoo::{outcome_view, Quote, QuoteView, YahooError, YahooErrorView};
use vstd::prelude::*;

verus! {

/// The views of a list of outcomes, in order.
pub open spec fn outcome_views(outcomes: Seq<Result<Quote, YahooError>>) -> Seq<
    Result<QuoteView, YahooErrorView>,
> {
    outcomes.map_values(|o: Result<Quote, YahooError>| outcome_view(o))
}

/// Whether a row is that of a holding: same symbol, and the quantity that
/// counts for it.
pub open spec fn row_matches(row: RowView, ticker: TickerView) -> bool {
    row_ticker(row) == ticker.id && row_quantity(row) == held(ticker)
}

/// Whether the rows are those of the first holdings, one each and in their
/// order.
pub open spec fn rows_follow(rows: Seq<RowView>, tickers: Seq<TickerView>) -> bool {
    rows.len() <= tickers.len() && forall|i: int|
        0 <= i < rows.len() ==> row_matches(#[trigger] rows[i], tickers[i])
}

/// The rows of a run: for each holding, in order, the row of its outcome.
/// `None` where the two lists differ in length, a row cannot be valued, or
/// the grand total overflows on the way.
pub open spec fn assembled(
    tickers: Seq<TickerView>,
    outcomes: Seq<Result<QuoteView, YahooErrorView>>,
) -> Option<Seq<RowView>>
    decreases tickers.len(),
{
    if tickers.len() != outcomes.len() {
        None
    } else if tickers.len() == 0 {
        Some(Seq::<RowView>::empty())
    } else {
        match (
            assembled(tickers.drop_last(), outcomes.drop_last()),
            row_of(tickers.last(), outcomes.last()),
        ) {
            (Some(rows), Some(row)) => if sum_of_totals(rows.push(row)) is Some {
                Some(rows.push(row))
            } else {
                None
            },
            _ => None,
        }
    }
}

/// The row of a holding is a row for that holding.
pub proof fn lemma_row_matches(ticker: TickerView, outcome: Result<QuoteView, YahooErrorView>)
    ensures
        row_of(ticker, outcome) matches Some(row) ==> row_matches(row, ticker),
{
}

/// A run gives every holding exactly one row, in the order of the holdings:
/// the rows are as many as the holdings, and the row at each place is the row
/// of the holding at that place and of its outcome.
pub proof fn lemma_one_row_per_holding(
    tickers: Seq<TickerView>,
    outcomes: Seq<Result<QuoteView, YahooErrorView>>,
)
    ensures
        assembled(tickers, outcomes) matches Some(rows) ==> {
            &&& rows.len() == tickers.len()
            &&& rows_follow(rows, tickers)
            &&& forall|i: int|
                0 <= i < rows.len() ==> row_of(tickers[i], outcomes[i]) == Some(#[trigger] rows[i])
        },
    decreases tickers.len(),
{
    if tickers.len() == outcomes.len() && tickers.len() > 0 {
        lemma_one_row_per_holding(tickers.drop_last(), outcomes.drop_last());
    }
}

/// The report of a run over `tickers` whose requests came to `outcomes`, in
/// the same order. `None` where the lists differ in length, a row cannot be
/// valued, or the grand total overflows.
pub fn assemble(tickers: &Vec<Ticker>, outcomes: Vec<Result<Quote, YahooError>>) -> (r: Option<
    Report,
>)
    ensures
        r is Some <==> assembled(ticker_views(tickers@), outcome_views(outcomes@)) is Some,
        r matches Some(report) ==> assembled(ticker_views(tickers@), outcome_views(outcomes@))
            == Some(report@.rows) && totalled(report@),
{
    let ghost holdings = ticker_views(tickers@);
    let ghost results = outcome_views(outcomes@);
    if tickers.len() != outcomes.len() {
        return None;
    }
    let mut report = Report::new();
    let mut i: usize = 0;
    for outcome in it: outcomes
        invariant
            it.seq() == outcomes@,
            i == it.index(),
            holdings == ticker_views(tickers@),
            results == outcome_views(outcomes@),
            tickers@.len() == outcomes@.len(),
            tickers@.len() <= usize::MAX,
            assembled(holdings.take(i as int), results.take(i as int)) == Some(report@.rows),
            totalled(report@),
    {
        proof {
            assert(holdings.take(i + 1).drop_last() =~= holdings.take(i as int));
            assert(results.take(i + 1).drop_last() =~= results.take(i as int));
            lemma_prefix_needed(holdings, results, i + 1);
        }
        let row = match build_row(tickers[i].duplicate(), outcome) {
            Some(row) => row,
            None => {
                return None;
            },
        };
        match report.push(row) {
            Ok(()) => {},
            Err(_) => {
                return None;
            },
        }
        i += 1;
    }
    proof {
        assert(holdings.take(i as int) =~= holdings);
        assert(results.take(i as int) =~= results);
    }
    Some(report)
}

/// A run that succeeds as a whole succeeds on each of its beginnings.
proof fn lemma_prefix_needed(
    tickers: Seq<TickerView>,
    outcomes: Seq<Result<QuoteView, YahooErrorView>>,
    n: int,
)
    requires
        tickers.len() == outcomes.len(),
        0 <= n <= tickers.len(),
    ensures
        assembled(tickers, outcomes) is Some ==> assembled(tickers.take(n), outcomes.take(n))
            is Some,
    decreases tickers.len(),
{
    if n == tickers.len() {
        assert(tickers.take(n) =~= tickers);
        assert(outcomes.take(n) =~= outcomes);
    } else {
        lemma_prefix_needed(tickers.drop_last(), outcomes.drop_last(), n);
        assert(tickers.drop_last().take(n) =~= tickers.take(n));
        assert(outcomes.drop_last().take(n) =~= outcomes.take(n));
    }
}

/// What the caller of a [`Poller`] does next.
#[derive(Clone, Copy, Debug, PartialEq, Eq)]
pub enum Step {
    /// Sleep for so many milliseconds, then ask again.
    Wait(u64),
    /// Request the quote of the holding at this place, and hand in what the
    /// request came to.
    Fetch(usize),
    /// Every holding has its row: take the report.
    Done,
}

/// Why a [`Poller`] did not take an outcome.
#[derive(Clone, Copy, Debug, PartialEq, Eq)]
pub enum Refusal {
    /// Every holding has its row already.
    Done,
    /// The row cannot be valued, or the grand total overflows with it.
    Overflow,
}

/// A run as a value: the holdings, the rows so far, the delay between two
/// requests, and when the last request returned.
pub struct PollerView {
    pub tickers: Seq<TickerView>,
    pub rows: Seq<RowView>,
    pub delay: u64,
    pub last_return: Option<u64>,
}

/// The next step of a run at `now`: done once every holding has its row, else
/// a wait while the delay since the last return has not passed, else the
/// request for the first holding without a row.
pub open spec fn step_of(run: PollerView, now: u64) -> Step {
    if run.rows.len() >= run.tickers.len() {
        Step::Done
    } else if wait_of(run.delay, run.last_return, now) > 0 {
        Step::Wait(wait_of(run.delay, run.last_return, now))
    } else {
        Step::Fetch(run.rows.len() as usize)
    }
}

/// The run after an outcome came in at `now`: the row of the first holding
/// without one is added and the return noted. The outcome is refused where no
/// holding is left, the row cannot be valued or the grand total overflows.
pub open spec fn recorded(
    run: PollerView,
    outcome: Result<QuoteView, YahooErrorView>,
    now: u64,
) -> Result<PollerView, Refusal> {
    if run.rows.len() >= run.tickers.len() {
        Err(Refusal::Done)
    } else {
        match row_of(run.tickers[run.rows.len() as int], outcome) {
            None => Err(Refusal::Overflow),
            Some(row) => if sum_of_totals(run.rows.push(row)) is Some {
                Ok(
                    PollerView {
                        tickers: run.tickers,
                        rows: run.rows.push(row),
                        delay: run.delay,
                        last_return: Some(now),
                    },
                )
            } else {
                Err(Refusal::Overflow)
            },
        }
    }
}

/// Between the return of one request and the start of the next lies at least
/// the delay: once an outcome came in at `returned`, no request is due at a
/// later reading `now` of the clock before `returned + delay`.
pub proof fn lemma_next_request_keeps_the_gap(
    run: PollerView,
    outcome: Result<QuoteView, YahooErrorView>,
    returned: u64,
    now: u64,
)
    requires
        returned <= now,
    ensures
        recorded(run, outcome, returned) matches Ok(next) ==> (step_of(next, now) is Fetch ==> now
            >= returned + run.delay),
{
}

/// A run is done exactly when every holding has its row, and until then asks
/// for the holdings in their order.
pub proof fn lemma_steps_in_order(run: PollerView, now: u64)
    requires
        rows_follow(run.rows, run.tickers),
        run.tickers.len() <= usize::MAX,
    ensures
        step_of(run, now) is Done <==> run.rows.len() == run.tickers.len(),
        step_of(run, now) matches Step::Fetch(index) ==> index == run.rows.len(),
{
}

/// An outcome that is taken adds the row of the holding whose turn it is, and
/// keeps the rows in the order of the holdings.
pub proof fn lemma_record_keeps_order(
    run: PollerView,
    outcome: Result<QuoteView, YahooErrorView>,
    now: u64,
)
    requires
        rows_follow(run.rows, run.tickers),
    ensures
        recorded(run, outcome, now) matches Ok(next) ==> {
            &&& rows_follow(next.rows, next.tickers)
            &&& next.tickers == run.tickers
            &&& next.rows.len() == run.rows.len() + 1
            &&& row_of(run.tickers[run.rows.len() as int], outcome) == Some(next.rows.last())
            &&& next.rows.drop_last() == run.rows
        },
{
}

/// The run over `tickers` before its first request.
pub open spec fn fresh(tickers: Seq<TickerView>, delay: u64) -> PollerView {
    PollerView { tickers, rows: Seq::<RowView>::empty(), delay, last_return: None }
}

/// The run after the outcomes came in one by one, each at its time; the
/// refusal of the first outcome that was refused.
pub open spec fn fed(
    run: PollerView,
    outcomes: Seq<Result<QuoteView, YahooErrorView>>,
    times: Seq<u64>,
) -> Result<PollerView, Refusal>
    recommends
        outcomes.len() == times.len(),
    decreases outcomes.len(),
{
    if outcomes.len() == 0 {
        Ok(run)
    } else {
        match fed(run, outcomes.drop_last(), times.drop_last()) {
            Ok(before) => recorded(before, outcomes.last(), times.last()),
            Err(why) => Err(why),
        }
    }
}

/// A run taken step by step comes to the rows of [`assembled`]: fed with the
/// outcomes for its first holdings, whenever they come in, it holds the rows
/// that those holdings and outcomes assemble to, and it refuses an outcome on
/// the way exactly where they assemble to nothing.
pub proof fn lemma_run_assembles(
    tickers: Seq<TickerView>,
    delay: u64,
    outcomes: Seq<Result<QuoteView, YahooErrorView>>,
    times: Seq<u64>,
)
    requires
        outcomes.len() == times.len(),
        outcomes.len() <= tickers.len(),
    ensures
        match fed(fresh(tickers, delay), outcomes, times) {
            Ok(run) => {
                &&& assembled(tickers.take(outcomes.len() as int), outcomes) == Some(run.rows)
                &&& run.tickers == tickers
                &&& run.delay == delay
                &&& run.rows.len() == outcomes.len()
            },
            Err(why) => why is Overflow && assembled(
                tickers.take(outcomes.len() as int),
                outcomes,
            ) is None,
        },
    decreases outcomes.len(),
{
    let n = outcomes.len() as int;
    if n == 0 {
        assert(tickers.take(0) =~= Seq::<TickerView>::empty());
    } else {
        lemma_run_assembles(tickers, delay, outcomes.drop_last(), times.drop_last());
        assert(tickers.take(n).drop_last() =~= tickers.take(n - 1));
        assert(tickers.take(n).last() == tickers[n - 1]);
    }
}

/// A run over a list of holdings, one request at a time.
#[derive(Debug)]
pub struct Poller {
    tickers: Vec<Ticker>,
    report: Report,
    pacer: Pacer,
}

impl View for Poller {
    type V = PollerView;

    closed spec fn view(&self) -> PollerView {
        PollerView {
            tickers: ticker_views(self.tickers@),
            rows: self.report@.rows,
            delay: self.pacer.delay,
            last_return: self.pacer.last_return,
        }
    }
}

impl Poller {
    #[verifier::type_invariant]
    spec fn in_order(self) -> bool {
        rows_follow(self.report@.rows, ticker_views(self.tickers@))
    }

    /// A run over `tickers` that keeps `delay` milliseconds between the return
    /// of one request and the start of the next.
    pub fn new(tickers: Vec<Ticker>, delay: u64) -> (r: Poller)
        ensures
            r@.tickers == ticker_views(tickers@),
            r@.rows == Seq::<RowView>::empty(),
            r@.delay == delay,
            r@.last_return is None,
    {
        Poller { tickers, report: Report::new(), pacer: Pacer::new(delay) }
    }

    /// What to do next at `now`. A request is never due before the delay
    /// since the last return has passed.
    pub fn step(&self, now: u64) -> (r: Step)
        ensures
            r == step_of(self@, now),
            rows_follow(self@.rows, self@.tickers),
            r is Done <==> self@.rows.len() == self@.tickers.len(),
            r is Fetch ==> wait_of(self@.delay, self@.last_return, now) == 0,
    {
        proof {
            use_type_invariant(self);
        }
        let wait: u64 = self.pacer.wait(now);
        if self.report.len() >= self.tickers.len() {
            Step::Done
        } else if wait > 0 {
            Step::Wait(wait)
        } else {
            Step::Fetch(self.report.len())
        }
    }

    /// The holding whose quote is to be requested next, if any is left.
    pub fn current(&self) -> (r: Option<&Ticker>)
        ensures
            r is Some <==> self@.rows.len() < self@.tickers.len(),
            r matches Some(t) ==> t@ == self@.tickers[self@.rows.len() as int],
    {
        let n: usize = self.report.len();
        if n < self.tickers.len() {
            Some(&self.tickers[n])
        } else {
            None
        }
    }

    /// Takes in what the request for the current holding came to, at `now`.
    /// A refused outcome leaves the run as it was.
    pub fn record(&mut self, outcome: Result<Quote, YahooError>, now: u64) -> (r: Result<
        (),
        Refusal,
    >)
        ensures
            match recorded(old(self)@, outcome_view(outcome), now) {
                Ok(run) => r is Ok && final(self)@ == run,
                Err(why) => r == Err::<(), Refusal>(why) && final(self)@ == old(self)@,
            },
    {
        proof {
            use_type_invariant(&*self);
        }
        let n: usize = self.report.len();
        if n >= self.tickers.len() {
            return Err(Refusal::Done);
        }
        let row = match build_row(self.tickers[n].duplicate(), outcome) {
            Some(row) => row,
            None => {
                return Err(Refusal::Overflow);
            },
        };
        let mut taken = Poller::new(Vec::new(), 0);
        core::mem::swap(self, &mut taken);
        let tickers = taken.tickers;
        let mut report = taken.report;
        let mut pacer = taken.pacer;
        let pushed = report.push(row);
        let r = match pushed {
            Ok(()) => {
                pacer.mark_return(now);
                Ok(())
            },
            Err(_) => Err(Refusal::Overflow),
        };
        *self = Poller { tickers, report, pacer };
        r
    }

    /// The report of the rows so far. Once the run is done it holds one row
    /// for every holding, in the order of the holdings.
    pub fn finish(self) -> (r: Report)
        ensures
            r@.rows == self@.rows,
            rows_follow(r@.rows, self@.tickers),
            totalled(r@),
    {
        proof {
            use_type_invariant(&self);
            use_type_invariant(&self.report);
            self.report.lemma_totalled();
        }
        self.report
    }
}

} // verus!
