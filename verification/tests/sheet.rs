use stock_spreadsheet_generator::config::Ticker;
use stock_spreadsheet_generator::decimal::Decimal;
use stock_spreadsheet_generator::report::{build_row, failure_row, Report};
use stock_spreadsheet_generator::sheet::encode;
use stock_spreadsheet_generator::yahoo::{Quote, YahooError};

fn amount(mantissa: i128, scale: u32) -> Decimal {
    Decimal::new(mantissa, scale).unwrap()
}

fn holding(id: &str, quantity: Option<u32>) -> Ticker {
    Ticker::new(String::from(id), quantity).unwrap()
}

fn push_success(report: &mut Report, id: &str, quantity: u32, price: Decimal, close: Decimal) {
    let quote = Quote { price, previous_close: close, currency: String::from("USD") };
    let row = build_row(holding(id, Some(quantity)), Ok(quote)).unwrap();
    report.push(row).unwrap();
}

fn record(fields: &[&str]) -> Vec<String> {
    fields.iter().map(|f| String::from(*f)).collect()
}

fn text_of(bytes: Vec<u8>) -> String {
    String::from_utf8(bytes).unwrap()
}

#[test]
fn encode_writes_one_line_per_record() {
    let records = vec![record(&["a", "b", "c"]), record(&["x", "y", "z"])];
    assert_eq!(text_of(encode(&records).unwrap()), "a,b,c\nx,y,z\n");
}

#[test]
fn encode_of_no_records_is_empty() {
    assert_eq!(encode(&vec![]), Some(vec![]));
}

#[test]
fn encode_quotes_a_field_that_needs_it() {
    let records = vec![record(&["a,b", "say \"hi\"", "two\nlines", "plain"])];
    assert_eq!(
        text_of(encode(&records).unwrap()),
        "\"a,b\",\"say \"\"hi\"\"\",\"two\nlines\",plain\n"
    );
}

#[test]
fn encode_writes_a_lone_empty_field_as_quotes() {
    let records = vec![record(&[""]), record(&["x"])];
    assert_eq!(text_of(encode(&records).unwrap()), "\"\"\nx\n");
}

#[test]
fn encode_refuses_records_of_different_widths() {
    assert_eq!(encode(&vec![record(&["a", "b"]), record(&["c"])]), None);
    assert_eq!(encode(&vec![record(&["a"]), record(&["b"]), record(&["c", "d"])]), None);
    assert_eq!(encode(&vec![record(&[]), record(&["c"])]), None);
}

#[test]
fn encode_takes_records_of_one_width() {
    assert!(encode(&vec![record(&["a", "b"]), record(&["c", "d"]), record(&["", ""])]).is_some());
    assert_eq!(text_of(encode(&vec![record(&[]), record(&[])]).unwrap()), "\"\"\n\"\"\n");
}

#[test]
fn encode_writes_long_fields_whole() {
    let long = "x".repeat(100_000);
    let records = vec![record(&[long.as_str(), "b"]), record(&["c", long.as_str()])];
    let text = text_of(encode(&records).unwrap());
    assert_eq!(text, format!("{long},b\nc,{long}\n"));
}

#[test]
fn the_sheet_of_a_single_success() {
    let mut report = Report::new();
    push_success(&mut report, "GOOG", 2, amount(10000, 2), amount(9800, 2));
    assert_eq!(
        text_of(report.to_csv()),
        "Ticker,Price,Change,Quantity,Total,Currency\n\
         GOOG,100.00,2.00,2,200.00,USD\n\
         ,,,,,\n\
         ,,,,200.00,\n"
    );
}

#[test]
fn the_sheet_of_a_single_failure() {
    let mut report = Report::new();
    let row = build_row(holding("BAD", None), Err(YahooError::HttpError(404))).unwrap();
    report.push(row).unwrap();
    assert_eq!(
        text_of(report.to_csv()),
        "Ticker,Price,Change,Quantity,Total,Currency\n\
         BAD,,,0,,\n\
         ,,,,,\n\
         ,,,,0,\n"
    );
}

#[test]
fn the_sheet_of_a_mixed_batch_totals_the_success() {
    let mut report = Report::new();
    push_success(&mut report, "A", 2, amount(2500, 2), amount(2450, 2));
    report.push(failure_row(holding("B", Some(3)))).unwrap();
    assert_eq!(
        text_of(report.to_csv()),
        "Ticker,Price,Change,Quantity,Total,Currency\n\
         A,25.00,0.50,2,50.00,USD\n\
         B,,,3,,\n\
         ,,,,,\n\
         ,,,,50.00,\n"
    );
}

#[test]
fn the_sheet_of_an_empty_report() {
    assert_eq!(
        text_of(Report::new().to_csv()),
        "Ticker,Price,Change,Quantity,Total,Currency\n,,,,,\n,,,,0,\n"
    );
}

#[test]
fn the_sheet_quotes_a_symbol_with_a_comma() {
    let mut report = Report::new();
    report.push(failure_row(holding("A,B", Some(1)))).unwrap();
    let text = text_of(report.to_csv());
    assert_eq!(text.lines().nth(1), Some("\"A,B\",,,1,,"));
}

#[test]
fn the_sheet_reads_back_with_the_same_header_and_as_many_rows() {
    for n in [0usize, 1, 2, 5, 40] {
        let mut report = Report::new();
        for i in 0..n {
            if i % 3 == 1 {
                report.push(failure_row(holding("BAD", Some(i as u32)))).unwrap();
            } else {
                let id = format!("T{i},\"x\"");
                let price = amount(12345 + i as i128, 3);
                push_success(&mut report, &id, i as u32, price, amount(99, 1));
            }
        }
        let bytes = report.to_csv();
        let mut reader = csv::Reader::from_reader(bytes.as_slice());
        let header: Vec<String> =
            reader.headers().unwrap().iter().map(String::from).collect();
        assert_eq!(header, record(&["Ticker", "Price", "Change", "Quantity", "Total", "Currency"]));
        let mut lines: Vec<Vec<String>> = Vec::new();
        for r in reader.records() {
            lines.push(r.unwrap().iter().map(String::from).collect());
        }
        assert_eq!(lines.len(), n + 2);
        let mut expected = report.records();
        expected.remove(0);
        assert_eq!(lines, expected);
    }
}
