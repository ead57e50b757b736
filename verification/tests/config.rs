use stock_spreadsheet_generator::config::{
    default_config, has_config_suffix, output_path, Ticker,
};

#[test]
fn a_ticker_needs_a_symbol() {
    assert!(Ticker::new(String::new(), Some(3)).is_none());
    assert!(Ticker::new(String::from("X"), None).is_some());
}

#[test]
fn a_ticker_keeps_symbol_and_quantity() {
    let t = Ticker::new(String::from("MSFT"), Some(7)).unwrap();
    assert_eq!(t.id(), "MSFT");
    assert_eq!(t.quantity(), Some(7));
    assert_eq!(t.held(), 7);
}

#[test]
fn a_ticker_without_quantity_holds_nothing() {
    let t = Ticker::new(String::from("GOOG"), None).unwrap();
    assert_eq!(t.quantity(), None);
    assert_eq!(t.held(), 0);
}

#[test]
fn duplicate_copies_symbol_and_quantity() {
    let t = Ticker::new(String::from("AAPL"), Some(12)).unwrap();
    let u = t.duplicate();
    assert_eq!(u.id(), "AAPL");
    assert_eq!(u.quantity(), Some(12));
    assert_eq!(t.into_id(), "AAPL");
}

#[test]
fn the_default_config_names_two_holdings_and_output_csv() {
    let config = default_config();
    assert_eq!(config.output_file, Some(String::from("output.csv")));
    assert_eq!(config.tickers.len(), 2);
    assert_eq!(config.tickers[0].id(), "GOOG");
    assert_eq!(config.tickers[0].quantity(), None);
    assert_eq!(config.tickers[1].id(), "MSFT");
    assert_eq!(config.tickers[1].quantity(), Some(7));
}

#[test]
fn a_configured_output_path_is_taken_as_it_is() {
    assert_eq!(output_path(Some(String::from("out/sheet.csv")), "config.toml"), "out/sheet.csv");
    assert_eq!(output_path(Some(String::new()), "config.toml"), "");
}

#[test]
fn the_output_path_replaces_the_toml_extension() {
    assert_eq!(output_path(None, "config.toml"), "config.csv");
    assert_eq!(output_path(None, "dir/my.holdings.toml"), "dir/my.holdings.csv");
    assert_eq!(output_path(None, ".toml"), ".csv");
}

#[test]
fn the_output_path_extends_any_other_name() {
    assert_eq!(output_path(None, "holdings"), "holdings.csv");
    assert_eq!(output_path(None, "config.TOML"), "config.TOML.csv");
    assert_eq!(output_path(None, "config.toml.bak"), "config.toml.bak.csv");
    assert_eq!(output_path(None, "toml"), "toml.csv");
    assert_eq!(output_path(None, ""), ".csv");
}

#[test]
fn the_output_path_counts_characters_not_bytes() {
    assert_eq!(output_path(None, "dépôt.toml"), "dépôt.csv");
    assert_eq!(output_path(None, "株.toml"), "株.csv");
    assert_eq!(output_path(None, "é"), "é.csv");
}

#[test]
fn has_config_suffix_looks_at_the_end_only() {
    assert!(has_config_suffix("a.toml"));
    assert!(has_config_suffix(".toml"));
    assert!(!has_config_suffix("a.toml "));
    assert!(!has_config_suffix("toml"));
    assert!(!has_config_suffix(".toml.csv"));
}
