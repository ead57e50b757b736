use stock_spreadsheet_generator::config::Ticker;
use stock_spreadsheet_generator::decimal::Decimal;
use stock_spreadsheet_generator::report::{
    build_row, failure_notice, failure_row, success_row, Report, Row,
};
use stock_spreadsheet_generator::yahoo::{Quote, YahooError};

fn amount(mantissa: i128, scale: u32) -> Decimal {
    Decimal::new(mantissa, scale).unwrap()
}

fn holding(id: &str, quantity: Option<u32>) -> Ticker {
    Ticker::new(String::from(id), quantity).unwrap()
}

fn quote(price: Decimal, previous_close: Decimal) -> Quote {
    Quote { price, previous_close, currency: String::from("USD") }
}

fn success(id: &str, quantity: u32, price: Decimal, close: Decimal) -> Row {
    build_row(holding(id, Some(quantity)), Ok(quote(price, close))).unwrap()
}

fn texts(fields: &[&str]) -> Vec<String> {
    fields.iter().map(|f| String::from(*f)).collect()
}

#[test]
fn a_quote_of_100_for_two_shares_gives_the_row_of_200() {
    let row = build_row(
        holding("GOOG", Some(2)),
        Ok(quote(amount(10000, 2), amount(9800, 2))),
    )
    .unwrap();
    assert_eq!(
        row,
        Row::Success {
            ticker: String::from("GOOG"),
            price: amount(10000, 2),
            change: amount(200, 2),
            quantity: 2,
            total: amount(20000, 2),
            currency: String::from("USD"),
        }
    );
    assert_eq!(row.fields(), texts(&["GOOG", "100.00", "2.00", "2", "200.00", "USD"]));
}

#[test]
fn an_http_404_gives_the_row_of_blanks() {
    let row = build_row(holding("BAD", None), Err(YahooError::HttpError(404))).unwrap();
    assert_eq!(row, Row::Failure { ticker: String::from("BAD"), quantity: 0 });
    assert_eq!(row.fields(), texts(&["BAD", "", "", "0", "", ""]));
}

#[test]
fn every_error_gives_a_failure_row() {
    let errors = vec![
        YahooError::ConnectionError(String::from("refused")),
        YahooError::HttpError(500),
        YahooError::InvalidResponse("No data provided"),
        YahooError::MalformedJson(String::from("eof")),
    ];
    for e in errors {
        let row = build_row(holding("X", Some(9)), Err(e)).unwrap();
        assert_eq!(row, Row::Failure { ticker: String::from("X"), quantity: 9 });
        assert!(!row.is_success());
    }
}

#[test]
fn amounts_are_rounded_to_two_places_half_to_even() {
    let row = build_row(
        holding("T", Some(3)),
        Ok(quote(amount(1234567, 4), amount(1223317, 4))),
    )
    .unwrap();
    // price 123.4567, change 1.1250, worth 370.3701
    assert_eq!(
        row,
        Row::Success {
            ticker: String::from("T"),
            price: amount(12346, 2),
            change: amount(112, 2),
            quantity: 3,
            total: amount(37037, 2),
            currency: String::from("USD"),
        }
    );
    assert_eq!(row.fields(), texts(&["T", "123.46", "1.12", "3", "370.37", "USD"]));
}

#[test]
fn the_total_is_rounded_from_the_unrounded_price() {
    // 0.125 * 3 = 0.375 rounds to 0.38; the rounded price 0.12 * 3 would give 0.36.
    let row = success("P", 3, amount(125, 3), amount(0, 0));
    match row {
        Row::Success { price, total, .. } => {
            assert_eq!(price, amount(12, 2));
            assert_eq!(total, amount(38, 2));
        }
        Row::Failure { .. } => panic!("a quote gives a success row"),
    }
}

#[test]
fn a_price_written_without_places_is_shown_without_places() {
    let row = success("W", 2, amount(100, 0), amount(98, 0));
    assert_eq!(row.fields(), texts(&["W", "100", "2", "2", "200", "USD"]));
}

#[test]
fn a_falling_price_gives_a_negative_change() {
    let row = success("D", 1, amount(9800, 2), amount(10000, 2));
    assert_eq!(row.fields(), texts(&["D", "98.00", "-2.00", "1", "98.00", "USD"]));
}

#[test]
fn a_holding_without_quantity_is_worth_nothing() {
    let row = build_row(holding("Z", None), Ok(quote(amount(10000, 2), amount(9800, 2)))).unwrap();
    assert_eq!(row.fields(), texts(&["Z", "100.00", "2.00", "0", "0", "USD"]));
}

#[test]
fn a_worth_that_overflows_gives_no_row() {
    let max = amount(79228162514264337593543950335, 0);
    assert_eq!(build_row(holding("BIG", Some(2)), Ok(quote(max, amount(0, 0)))), None);
}

#[test]
fn a_change_that_overflows_gives_no_row() {
    let max = amount(79228162514264337593543950335, 0);
    let min = amount(-79228162514264337593543950335, 0);
    assert_eq!(build_row(holding("BIG", Some(1)), Ok(quote(max, min))), None);
}

#[test]
fn success_row_rounds_what_it_is_given() {
    let row = success_row(
        holding("S", Some(4)),
        quote(amount(10005, 3), amount(0, 0)),
        amount(-15, 3),
        amount(99995, 3),
    );
    assert_eq!(
        row,
        Row::Success {
            ticker: String::from("S"),
            price: amount(1000, 2),
            change: amount(-2, 2),
            quantity: 4,
            total: amount(10000, 2),
            currency: String::from("USD"),
        }
    );
}

#[test]
fn failure_row_keeps_symbol_and_quantity() {
    assert_eq!(
        failure_row(holding("F", Some(5))),
        Row::Failure { ticker: String::from("F"), quantity: 5 }
    );
}

#[test]
fn a_row_tells_its_symbol_and_quantity() {
    let good = success("A", 2, amount(100, 2), amount(100, 2));
    let bad = failure_row(holding("B", Some(3)));
    assert_eq!(good.ticker(), "A");
    assert_eq!(good.quantity(), 2);
    assert!(good.is_success());
    assert_eq!(bad.ticker(), "B");
    assert_eq!(bad.quantity(), 3);
    assert!(!bad.is_success());
}

#[test]
fn the_notice_names_the_symbol_and_the_error() {
    let t = holding("BAD", None);
    assert_eq!(
        failure_notice(&t, &YahooError::HttpError(404)),
        "Failed to get ticker BAD: yahoo responded with http code: 404"
    );
    assert_eq!(
        failure_notice(&t, &YahooError::ConnectionError(String::from("timed out"))),
        "Failed to get ticker BAD: failed to connect to yahoo api: timed out"
    );
}

#[test]
fn an_empty_report_totals_zero() {
    let report = Report::new();
    assert_eq!(report.len(), 0);
    assert_eq!(report.grand_total(), amount(0, 0));
    assert_eq!(
        report.records(),
        vec![
            texts(&["Ticker", "Price", "Change", "Quantity", "Total", "Currency"]),
            texts(&["", "", "", "", "", ""]),
            texts(&["", "", "", "", "0", ""]),
        ]
    );
}

#[test]
fn one_success_and_one_failure_total_the_success() {
    let mut report = Report::new();
    assert_eq!(report.push(success("A", 2, amount(2500, 2), amount(2400, 2))), Ok(()));
    assert_eq!(report.push(failure_row(holding("B", Some(4)))), Ok(()));
    assert_eq!(report.grand_total(), amount(5000, 2));
    let records = report.records();
    assert_eq!(records.len(), 5);
    assert_eq!(records[4], texts(&["", "", "", "", "50.00", ""]));
}

#[test]
fn the_grand_total_is_the_sum_of_the_rounded_totals() {
    let mut report = Report::new();
    // 0.125 * 1 rounds to 0.12, twice: 0.24, not the 0.25 of the unrounded sum.
    report.push(success("A", 1, amount(125, 3), amount(0, 0))).unwrap();
    report.push(failure_row(holding("B", None))).unwrap();
    report.push(success("C", 1, amount(125, 3), amount(0, 0))).unwrap();
    report.push(success("D", 3, amount(1000, 2), amount(0, 0))).unwrap();
    assert_eq!(report.grand_total(), amount(3024, 2));
    assert_eq!(report.len(), 4);
}

#[test]
fn failure_rows_alone_total_zero() {
    let mut report = Report::new();
    report.push(failure_row(holding("A", Some(1)))).unwrap();
    report.push(failure_row(holding("B", Some(2)))).unwrap();
    assert_eq!(report.grand_total(), amount(0, 0));
}

#[test]
fn rows_stay_in_the_order_in_which_they_came() {
    let mut report = Report::new();
    for id in ["C", "A", "B", "A"] {
        report.push(failure_row(holding(id, None))).unwrap();
    }
    let ids: Vec<&str> = report.rows().iter().map(|r| r.ticker().as_str()).collect();
    assert_eq!(ids, vec!["C", "A", "B", "A"]);
}

#[test]
fn a_grand_total_that_overflows_hands_the_row_back() {
    let max = amount(79228162514264337593543950335, 0);
    let mut report = Report::new();
    report.push(success("A", 1, max, amount(0, 0))).unwrap();
    let again = success("B", 1, max, amount(0, 0));
    let back = report.push(success("B", 1, max, amount(0, 0)));
    assert_eq!(back, Err(again));
    assert_eq!(report.len(), 1);
    assert_eq!(report.grand_total(), max);
    assert_eq!(report.push(failure_row(holding("C", None))), Ok(()));
    assert_eq!(report.len(), 2);
}

#[test]
fn the_records_are_header_rows_blank_line_and_total() {
    let mut report = Report::new();
    report.push(success("GOOG", 2, amount(10000, 2), amount(9800, 2))).unwrap();
    report.push(failure_row(holding("BAD", None))).unwrap();
    assert_eq!(
        report.records(),
        vec![
            texts(&["Ticker", "Price", "Change", "Quantity", "Total", "Currency"]),
            texts(&["GOOG", "100.00", "2.00", "2", "200.00", "USD"]),
            texts(&["BAD", "", "", "0", "", ""]),
            texts(&["", "", "", "", "", ""]),
            texts(&["", "", "", "", "200.00", ""]),
        ]
    );
}
