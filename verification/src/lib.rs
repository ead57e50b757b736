//! Valuation of a small share portfolio.
//!
//! For each holding of a list a quote is asked of the Yahoo chart service, one
//! request after the other with a pause between them. A quote becomes a row
//! with the price, the day's change and what the holding is worth; a request
//! that failed becomes a row of blanks, and the run goes on. The rows and
//! their grand total are laid out as a spreadsheet in CSV.
//!
//! Nothing here touches the network, the clock or the disk. The caller sends
//! the requests, reads the clock and writes the file; the modules decide:
//! - [`config`]: the holdings, the sample configuration, the path of the
//!   spreadsheet;
//! - [`yahoo`]: the address to ask, and what a reply amounts to;
//! - [`pacing`]: how long to wait before the next request;
//! - [`poll`]: a run, step by step;
//! - [`report`]: rows, the report and its lines;
//! - [`sheet`]: the lines as CSV text;
//! - [`decimal`] and [`text`]: the numbers and how they are written.

pub mod config;
pub mod decimal;
pub mod pacing;
pub mod poll;
pub mod report;
pub mod sheet;
pub mod text;
pub mod yahoo;
