//! Rows and the report: one row per holding, and the total of what the rows
//! are worth.

use crate::config::{held, Ticker, TickerView};
use crate::decimal::{
    dec, decimal_difference, decimal_product, decimal_sum, decimal_text, lemma_text_nonempty,
    rounded, Decimal, DecimalView,
};
use crate::text::{digits, u32_text};
use crate::yahoo::{description, outcome_view, Quote, QuoteView, YahooError, YahooErrorView};
use vstd::prelude::*;

verus! {

/// The number of decimal places that a row shows.
pub const PLACES: u32 = 2;

/// The number of columns of the spreadsheet.
pub const COLUMNS: usize = 6;

/// A row as a value.
pub enum RowView {
    Success {
        ticker: Seq<char>,
        price: DecimalView,
        change: DecimalView,
        quantity: u32,
        total: DecimalView,
        currency: Seq<char>,
    },
    Failure { ticker: Seq<char>, quantity: u32 },
}

/// One line of the report: a holding with its valuation, or a holding for
/// which no quote was had.
#[derive(Debug, PartialEq, Eq)]
pub enum Row {
    Success {
        ticker: String,
        price: Decimal,
        change: Decimal,
        quantity: u32,
        total: Decimal,
        currency: String,
    },
    Failure { ticker: String, quantity: u32 },
}

impl View for Row {
    type V = RowView;

    open spec fn view(&self) -> RowView {
        match *self {
            Row::Success { ticker, price, change, quantity, total, currency } => RowView::Success {
                ticker: ticker@,
                price: price@,
                change: change@,
                quantity,
                total: total@,
                currency: currency@,
            },
            Row::Failure { ticker, quantity } => RowView::Failure { ticker: ticker@, quantity },
        }
    }
}

/// The views of a list of rows, in order.
pub open spec fn row_views(rows: Seq<Row>) -> Seq<RowView> {
    rows.map_values(|r: Row| r@)
}

/// The symbol of a row.
pub open spec fn row_ticker(row: RowView) -> Seq<char> {
    match row {
        RowView::Success { ticker, .. } => ticker,
        RowView::Failure { ticker, .. } => ticker,
    }
}

/// The quantity of a row.
pub open spec fn row_quantity(row: RowView) -> u32 {
    match row {
        RowView::Success { quantity, .. } => quantity,
        RowView::Failure { quantity, .. } => quantity,
    }
}

/// The row of a holding without a quote.
pub open spec fn failure_view(ticker: TickerView) -> RowView {
    RowView::Failure { ticker: ticker.id, quantity: held(ticker) }
}

/// The row of a holding with its quote, the day's change and what the holding
/// is worth, each amount rounded to [`PLACES`].
pub open spec fn success_view(
    ticker: TickerView,
    quote: QuoteView,
    change: DecimalView,
    worth: DecimalView,
) -> RowView {
    RowView::Success {
        ticker: ticker.id,
        price: rounded(quote.price, PLACES as nat),
        change: rounded(change, PLACES as nat),
        quantity: held(ticker),
        total: rounded(worth, PLACES as nat),
        currency: quote.currency,
    }
}

/// The day's change of a quote: the price less the previous close.
pub open spec fn change_of(quote: QuoteView) -> Option<DecimalView> {
    decimal_difference(quote.price, quote.previous_close)
}

/// What `quantity` shares are worth at the price of a quote.
pub open spec fn worth_of(quote: QuoteView, quantity: u32) -> Option<DecimalView> {
    decimal_product(quote.price, dec(quantity as int, 0))
}

/// The row for a holding and the outcome of its request: a failure row for an
/// error; for a quote the success row, or none where the change or the worth
/// overflows.
pub open spec fn row_of(ticker: TickerView, outcome: Result<QuoteView, YahooErrorView>) -> Option<
    RowView,
> {
    match outcome {
        Err(_) => Some(failure_view(ticker)),
        Ok(quote) => match (change_of(quote), worth_of(quote, held(ticker))) {
            (Some(change), Some(worth)) => Some(success_view(ticker, quote, change, worth)),
            _ => None,
        },
    }
}

/// The row of a holding for which no quote was had.
pub fn failure_row(ticker: Ticker) -> (r: Row)
    ensures
        r@ == failure_view(ticker@),
{
    let quantity: u32 = ticker.held();
    Row::Failure { ticker: ticker.into_id(), quantity }
}

/// The row of a holding, from its quote, the day's change and what the
/// holding is worth.
pub fn success_row(ticker: Ticker, quote: Quote, change: Decimal, worth: Decimal) -> (r: Row)
    ensures
        r@ == success_view(ticker@, quote@, change@, worth@),
{
    let quantity: u32 = ticker.held();
    Row::Success {
        ticker: ticker.into_id(),
        price: quote.price.round_dp(PLACES),
        change: change.round_dp(PLACES),
        quantity,
        total: worth.round_dp(PLACES),
        currency: quote.currency,
    }
}

/// The view of a row that may be absent.
pub open spec fn optional_row_view(row: Option<Row>) -> Option<RowView> {
    match row {
        Some(r) => Some(r@),
        None => None,
    }
}

/// The row for a holding and the outcome of its request. `None` where the
/// quote's change or the holding's worth overflows.
pub fn build_row(ticker: Ticker, result: Result<Quote, YahooError>) -> (r: Option<Row>)
    ensures
        optional_row_view(r) == row_of(ticker@, outcome_view(result)),
{
    match result {
        Err(_) => Some(failure_row(ticker)),
        Ok(quote) => {
            let change = quote.price.checked_sub(&quote.previous_close);
            let worth = quote.price.checked_mul(&Decimal::from_u32(ticker.held()));
            match (change, worth) {
                (Some(c), Some(w)) => Some(success_row(ticker, quote, c, w)),
                _ => None,
            }
        },
    }
}

/// A quote gives a success row, or no row at all where its change or the
/// holding's worth overflows; it never gives a failure row. The total of the
/// row is what the holding is worth at the quote's price, rounded to two
/// places, and no amount of the row has more than two places.
pub proof fn lemma_total_is_rounded_worth(ticker: TickerView, quote: QuoteView)
    ensures
        row_of(ticker, Ok(quote)) is Some <==> change_of(quote) is Some && worth_of(
            quote,
            held(ticker),
        ) is Some,
        row_of(ticker, Ok(quote)) matches Some(row) ==> {
            &&& row matches RowView::Success { price, change, quantity, total, .. }
            &&& decimal_product(quote.price, dec(held(ticker) as int, 0)) matches Some(worth)
            &&& decimal_difference(quote.price, quote.previous_close) matches Some(diff)
            &&& quantity == held(ticker)
            &&& total == rounded(worth, 2)
            &&& price == rounded(quote.price, 2)
            &&& change == rounded(diff, 2)
            &&& total.scale <= 2 && price.scale <= 2 && change.scale <= 2
        },
{
}

/// An error gives a failure row, whatever the error: the row holds the symbol
/// and the quantity, and shows nothing for price, change, total and currency.
pub proof fn lemma_failure_shows_no_amounts(ticker: TickerView, error: YahooErrorView)
    ensures
        row_of(ticker, Err(error)) == Some(failure_view(ticker)),
        fields_of(failure_view(ticker)).len() == COLUMNS,
        fields_of(failure_view(ticker))[0] == ticker.id,
        fields_of(failure_view(ticker))[1].len() == 0,
        fields_of(failure_view(ticker))[2].len() == 0,
        fields_of(failure_view(ticker))[3] == digits(held(ticker) as nat),
        fields_of(failure_view(ticker))[4].len() == 0,
        fields_of(failure_view(ticker))[5].len() == 0,
{
}

/// A success row shows all three amounts: none of price, change and total is
/// blank. So a line of the spreadsheet holds either all of them or none.
pub proof fn lemma_success_shows_all_amounts(row: RowView)
    requires
        row is Success,
    ensures
        fields_of(row).len() == COLUMNS,
        fields_of(row)[0] == row_ticker(row),
        fields_of(row)[1].len() > 0,
        fields_of(row)[2].len() > 0,
        fields_of(row)[3] == digits(row_quantity(row) as nat),
        fields_of(row)[4].len() > 0,
{
    match row {
        RowView::Success { price, change, total, .. } => {
            lemma_text_nonempty(price);
            lemma_text_nonempty(change);
            lemma_text_nonempty(total);
        },
        RowView::Failure { .. } => {},
    }
}

/// The line to log for a holding whose request failed.
pub open spec fn notice_of(ticker: TickerView, error: YahooErrorView) -> Seq<char> {
    "Failed to get ticker "@ + ticker.id + ": "@ + description(error)
}

/// The line to log for a holding whose request failed: the symbol and what
/// went wrong.
pub fn failure_notice(ticker: &Ticker, error: &YahooError) -> (r: String)
    ensures
        r@ == notice_of(ticker@, error@),
{
    let mut line = String::from_str("Failed to get ticker ");
    line.append(ticker.id().as_str());
    line.append(": ");
    line.append(error.describe().as_str());
    line
}

/// The six fields of a row: symbol, price, change, quantity, total, currency.
/// A failure row leaves all but symbol and quantity empty.
pub open spec fn fields_of(row: RowView) -> Seq<Seq<char>> {
    match row {
        RowView::Success { ticker, price, change, quantity, total, currency } => seq![
            ticker,
            decimal_text(price),
            decimal_text(change),
            digits(quantity as nat),
            decimal_text(total),
            currency,
        ],
        RowView::Failure { ticker, quantity } => seq![
            ticker,
            Seq::<char>::empty(),
            Seq::<char>::empty(),
            digits(quantity as nat),
            Seq::<char>::empty(),
            Seq::<char>::empty(),
        ],
    }
}

/// The texts of a record, in order.
pub open spec fn texts(record: Seq<String>) -> Seq<Seq<char>> {
    record.map_values(|s: String| s@)
}

impl Row {
    /// The symbol.
    pub fn ticker(&self) -> (r: &String)
        ensures
            r@ == row_ticker(self@),
    {
        match self {
            Row::Success { ticker, .. } => ticker,
            Row::Failure { ticker, .. } => ticker,
        }
    }

    /// The quantity.
    pub fn quantity(&self) -> (r: u32)
        ensures
            r == row_quantity(self@),
    {
        match self {
            Row::Success { quantity, .. } => *quantity,
            Row::Failure { quantity, .. } => *quantity,
        }
    }

    /// Whether the row holds a valuation.
    pub fn is_success(&self) -> (r: bool)
        ensures
            r == (self@ is Success),
    {
        match self {
            Row::Success { .. } => true,
            Row::Failure { .. } => false,
        }
    }

    /// The fields of the row as they stand in the spreadsheet.
    pub fn fields(&self) -> (r: Vec<String>)
        ensures
            texts(r@) == fields_of(self@),
    {
        let mut out: Vec<String> = Vec::new();
        match self {
            Row::Success { ticker, price, change, quantity, total, currency } => {
                out.push(ticker.clone());
                out.push(price.to_text());
                out.push(change.to_text());
                out.push(u32_text(*quantity));
                out.push(total.to_text());
                out.push(currency.clone());
            },
            Row::Failure { ticker, quantity } => {
                out.push(ticker.clone());
                out.push(String::new());
                out.push(String::new());
                out.push(u32_text(*quantity));
                out.push(String::new());
                out.push(String::new());
            },
        }
        out
    }
}

/// The sum of the totals of the success rows, taken in order from zero; `None`
/// where a sum on the way overflows. A failure row adds nothing.
pub open spec fn sum_of_totals(rows: Seq<RowView>) -> Option<DecimalView>
    decreases rows.len(),
{
    if rows.len() == 0 {
        Some(dec(0, 0))
    } else {
        match sum_of_totals(rows.drop_last()) {
            None => None,
            Some(sum) => match rows.last() {
                RowView::Success { total, .. } => decimal_sum(sum, total),
                RowView::Failure { .. } => Some(sum),
            },
        }
    }
}

/// A report as a value: its rows in order, and its grand total.
pub struct ReportView {
    pub rows: Seq<RowView>,
    pub total: DecimalView,
}

/// Whether the total of a report is the sum of the totals of its rows.
pub open spec fn totalled(report: ReportView) -> bool {
    sum_of_totals(report.rows) == Some(report.total)
}

/// The first line of the spreadsheet.
pub open spec fn header() -> Seq<Seq<char>> {
    seq!["Ticker"@, "Price"@, "Change"@, "Quantity"@, "Total"@, "Currency"@]
}

/// The line of six empty fields that parts the rows from the total.
pub open spec fn blank_record() -> Seq<Seq<char>> {
    Seq::new(COLUMNS as nat, |i: int| Seq::<char>::empty())
}

/// The last line: the grand total in the column of the totals.
pub open spec fn total_record(total: DecimalView) -> Seq<Seq<char>> {
    blank_record().update(4, decimal_text(total))
}

/// The fields of each row, in order.
pub open spec fn all_fields(rows: Seq<RowView>) -> Seq<Seq<Seq<char>>> {
    rows.map_values(|r: RowView| fields_of(r))
}

/// The lines of the spreadsheet: the header, one line per row, the blank line
/// and the total.
pub open spec fn records_of(report: ReportView) -> Seq<Seq<Seq<char>>> {
    seq![header()] + all_fields(report.rows) + seq![blank_record(), total_record(report.total)]
}

/// The texts of a list of records, in order.
pub open spec fn record_views(records: Seq<Vec<String>>) -> Seq<Seq<Seq<char>>> {
    records.map_values(|r: Vec<String>| texts(r@))
}

/// The success rows among `rows`, in order.
pub open spec fn successes(rows: Seq<RowView>) -> Seq<RowView> {
    rows.filter(|r: RowView| r is Success)
}

/// Failure rows add nothing to the grand total: it is the sum of the totals
/// of the success rows alone.
pub proof fn lemma_failures_add_nothing(rows: Seq<RowView>)
    ensures
        sum_of_totals(rows) == sum_of_totals(successes(rows)),
    decreases rows.len(),
{
    reveal(Seq::filter);
    if rows.len() > 0 {
        lemma_failures_add_nothing(rows.drop_last());
        let kept = successes(rows.drop_last());
        if rows.last() is Success {
            assert(kept.push(rows.last()).drop_last() =~= kept);
        }
    }
}

/// A report of failure rows alone has the total zero.
pub proof fn lemma_no_success_no_total(rows: Seq<RowView>)
    requires
        forall|i: int| 0 <= i < rows.len() ==> rows[i] is Failure,
    ensures
        sum_of_totals(rows) == Some(dec(0, 0)),
    decreases rows.len(),
{
    if rows.len() > 0 {
        lemma_no_success_no_total(rows.drop_last());
    }
}

/// The layout of the spreadsheet: the header, then the rows in their order,
/// then the blank line and the total; three lines more than there are rows,
/// each of six fields.
pub proof fn lemma_layout(report: ReportView)
    ensures
        records_of(report).len() == report.rows.len() + 3,
        records_of(report)[0] == header(),
        forall|i: int|
            0 <= i < report.rows.len() ==> #[trigger] records_of(report)[i + 1] == fields_of(
                report.rows[i],
            ),
        records_of(report)[report.rows.len() as int + 1] == blank_record(),
        records_of(report)[report.rows.len() as int + 2] == total_record(report.total),
        forall|i: int|
            0 <= i < records_of(report).len() ==> (#[trigger] records_of(report)[i]).len()
                == COLUMNS,
{
}

/// The rows of a run in the order of the holdings, with their grand total.
#[derive(Debug)]
pub struct Report {
    rows: Vec<Row>,
    total: Decimal,
}

impl View for Report {
    type V = ReportView;

    closed spec fn view(&self) -> ReportView {
        ReportView { rows: row_views(self.rows@), total: self.total@ }
    }
}

/// A record of six empty fields.
fn blank_fields() -> (r: Vec<String>)
    ensures
        texts(r@) == blank_record(),
{
    let mut out: Vec<String> = Vec::new();
    let mut i: usize = 0;
    while i < COLUMNS
        invariant
            i <= COLUMNS,
            out@.len() == i,
            forall|j: int| 0 <= j < i ==> (#[trigger] out@[j])@ == Seq::<char>::empty(),
        decreases COLUMNS - i,
    {
        out.push(String::new());
        i += 1;
    }
    out
}

/// The header as a record.
fn header_fields() -> (r: Vec<String>)
    ensures
        texts(r@) == header(),
{
    let mut out: Vec<String> = Vec::new();
    out.push(String::from_str("Ticker"));
    out.push(String::from_str("Price"));
    out.push(String::from_str("Change"));
    out.push(String::from_str("Quantity"));
    out.push(String::from_str("Total"));
    out.push(String::from_str("Currency"));
    out
}

impl Report {
    /// What holds of every report: its total is the sum of the totals of its
    /// rows.
    #[verifier::type_invariant]
    pub closed spec fn sums_up(self) -> bool {
        sum_of_totals(row_views(self.rows@)) == Some(self.total@)
    }

    /// What [`Report::sums_up`] says of the view.
    pub proof fn lemma_totalled(self)
        requires
            self.sums_up(),
        ensures
            totalled(self@),
    {
    }

    /// The report without rows. Its total is zero.
    pub fn new() -> (r: Report)
        ensures
            r@.rows == Seq::<RowView>::empty(),
            r@.total == dec(0, 0),
    {
        let r = Report { rows: Vec::new(), total: Decimal::zero() };
        r
    }

    /// Adds `row` behind the others and its total to the grand total. Where
    /// the grand total would overflow, the report stays as it is and the row
    /// comes back.
    pub fn push(&mut self, row: Row) -> (r: Result<(), Row>)
        ensures
            r is Ok <==> sum_of_totals(old(self)@.rows.push(row@)) is Some,
            r is Ok ==> final(self)@.rows == old(self)@.rows.push(row@) && totalled(final(self)@),
            r matches Err(back) ==> back == row && final(self)@ == old(self)@,
    {
        proof {
            use_type_invariant(&*self);
            assert(old(self)@.rows.push(row@).drop_last() =~= old(self)@.rows);
        }
        let sum = match &row {
            Row::Success { total, .. } => self.total.checked_add(total),
            Row::Failure { .. } => Some(self.total),
        };
        match sum {
            None => Err(row),
            Some(total) => {
                let mut taken = Report::new();
                core::mem::swap(self, &mut taken);
                let mut rows = taken.rows;
                rows.push(row);
                assert(row_views(rows@) =~= old(self)@.rows.push(row@));
                *self = Report { rows, total };
                Ok(())
            },
        }
    }

    /// The number of rows.
    pub fn len(&self) -> (r: usize)
        ensures
            r == self@.rows.len(),
    {
        self.rows.len()
    }

    /// The rows, in the order in which they were added.
    pub fn rows(&self) -> (r: &Vec<Row>)
        ensures
            row_views(r@) == self@.rows,
    {
        &self.rows
    }

    /// The grand total: the sum of the totals of the success rows.
    pub fn grand_total(&self) -> (r: Decimal)
        ensures
            r@ == self@.total,
            sum_of_totals(self@.rows) == Some(r@),
    {
        proof {
            use_type_invariant(self);
        }
        self.total
    }

    /// The lines of the spreadsheet, each of six fields: the header, one line
    /// per row, a blank line, and the grand total under the totals.
    pub fn records(&self) -> (r: Vec<Vec<String>>)
        ensures
            record_views(r@) == records_of(self@),
    {
        let mut out: Vec<Vec<String>> = Vec::new();
        out.push(header_fields());
        let mut i: usize = 0;
        while i < self.rows.len()
            invariant
                i <= self.rows@.len(),
                record_views(out@) == seq![header()] + all_fields(self@.rows.take(i as int)),
            decreases self.rows@.len() - i,
        {
            let fields = self.rows[i].fields();
            let ghost lines = out@;
            out.push(fields);
            assert(record_views(out@) =~= record_views(lines).push(
                fields_of(self.rows@[i as int]@),
            ));
            i += 1;
        }
        assert(self@.rows.take(i as int) =~= self@.rows);
        out.push(blank_fields());
        let mut last = blank_fields();
        assert(last@.len() == texts(last@).len());
        last.set(4, self.total.to_text());
        assert(texts(last@) =~= total_record(self@.total));
        out.push(last);
        out
    }
}

} // verus!
