//! The holdings to value and where the spreadsheet goes.

use vstd::prelude::*;

verus! {

/// A holding as a value: its symbol and, where one was given, the number of
/// shares held.
pub struct TickerView {
    pub id: Seq<char>,
    pub quantity: Option<u32>,
}

/// The holding with the given symbol and quantity.
pub open spec fn ticker_view(id: Seq<char>, quantity: Option<u32>) -> TickerView {
    TickerView { id, quantity }
}

/// The number of shares that count for a holding: none where none was given.
pub open spec fn held(t: TickerView) -> u32 {
    match t.quantity {
        Some(q) => q,
        None => 0,
    }
}

/// A holding. Its symbol is never empty.
#[derive(Debug)]
pub struct Ticker {
    id: String,
    quantity: Option<u32>,
}

impl View for Ticker {
    type V = TickerView;

    closed spec fn view(&self) -> TickerView {
        ticker_view(self.id@, self.quantity)
    }
}

impl Ticker {
    #[verifier::type_invariant]
    spec fn has_symbol(self) -> bool {
        self.id@.len() > 0
    }

    /// The holding of `quantity` shares of `id`, or `None` where `id` is empty.
    pub fn new(id: String, quantity: Option<u32>) -> (r: Option<Ticker>)
        ensures
            r is Some <==> id@.len() > 0,
            r matches Some(t) ==> t@ == ticker_view(id@, quantity),
    {
        if id.as_str().is_empty() {
            None
        } else {
            Some(Ticker { id, quantity })
        }
    }

    /// The symbol.
    pub fn id(&self) -> (r: &String)
        ensures
            r@ == self@.id,
            r@.len() > 0,
    {
        proof {
            use_type_invariant(self);
        }
        &self.id
    }

    /// The quantity as it was given.
    pub fn quantity(&self) -> (r: Option<u32>)
        ensures
            r == self@.quantity,
    {
        self.quantity
    }

    /// The number of shares that count: zero where none was given.
    pub fn held(&self) -> (r: u32)
        ensures
            r == held(self@),
    {
        match self.quantity {
            Some(q) => q,
            None => 0,
        }
    }

    /// The symbol, taken out of the holding.
    pub fn into_id(self) -> (r: String)
        ensures
            r@ == self@.id,
            r@.len() > 0,
    {
        proof {
            use_type_invariant(&self);
        }
        self.id
    }

    /// A second holding of the same symbol and quantity.
    pub fn duplicate(&self) -> (r: Ticker)
        ensures
            r@ == self@,
    {
        proof {
            use_type_invariant(self);
        }
        Ticker { id: self.id.clone(), quantity: self.quantity }
    }
}

/// The views of a list of holdings, in order.
pub open spec fn ticker_views(tickers: Seq<Ticker>) -> Seq<TickerView> {
    tickers.map_values(|t: Ticker| t@)
}

/// A configuration as a value.
pub struct ConfigView {
    pub output_file: Option<Seq<char>>,
    pub tickers: Seq<TickerView>,
}

/// What to value, and the file to write it to where one is named.
#[derive(Debug)]
pub struct Config {
    pub output_file: Option<String>,
    pub tickers: Vec<Ticker>,
}

impl View for Config {
    type V = ConfigView;

    open spec fn view(&self) -> ConfigView {
        ConfigView {
            output_file: match self.output_file {
                Some(p) => Some(p@),
                None => None,
            },
            tickers: ticker_views(self.tickers@),
        }
    }
}

/// The configuration that a first run starts from: `output.csv`, and two
/// sample holdings.
pub open spec fn default_view() -> ConfigView {
    ConfigView {
        output_file: Some("output.csv"@),
        tickers: seq![ticker_view("GOOG"@, None), ticker_view("MSFT"@, Some(7u32))],
    }
}

/// The configuration to write where none exists yet.
pub fn default_config() -> (r: Config)
    ensures
        r@ == default_view(),
{
    proof {
        reveal_strlit("GOOG");
        reveal_strlit("MSFT");
    }
    let goog = Ticker::new(String::from_str("GOOG"), None).unwrap();
    let msft = Ticker::new(String::from_str("MSFT"), Some(7)).unwrap();
    let mut tickers: Vec<Ticker> = Vec::new();
    tickers.push(goog);
    tickers.push(msft);
    let r = Config { output_file: Some(String::from_str("output.csv")), tickers };
    assert(r@.tickers =~= default_view().tickers);
    r
}

/// The extension of a configuration file.
pub open spec fn config_suffix() -> Seq<char> {
    ".toml"@
}

/// Whether `path` ends in `suffix`.
pub open spec fn ends_with(path: Seq<char>, suffix: Seq<char>) -> bool {
    path.len() >= suffix.len() && path.subrange(path.len() - suffix.len(), path.len() as int)
        == suffix
}

/// `path` without the extension of a configuration file, where it has it.
pub open spec fn stem(path: Seq<char>) -> Seq<char> {
    if ends_with(path, config_suffix()) {
        path.subrange(0, path.len() - config_suffix().len())
    } else {
        path
    }
}

/// Where the spreadsheet goes: to the configured file, else beside the
/// configuration, with `.csv` in place of `.toml`, or behind the whole name
/// where that does not end in `.toml`.
pub open spec fn output_path_of(configured: Option<Seq<char>>, config_path: Seq<char>) -> Seq<
    char,
> {
    match configured {
        Some(p) => p,
        None => stem(config_path) + ".csv"@,
    }
}

/// Whether `path` ends in `.toml`.
pub fn has_config_suffix(path: &str) -> (r: bool)
    ensures
        r == ends_with(path@, config_suffix()),
{
    proof {
        reveal_strlit(".toml");
    }
    let n: usize = path.unicode_len();
    if n < 5 {
        return false;
    }
    let tail = String::from_str(path.substring_char(n - 5, n));
    let suffix = String::from_str(".toml");
    tail == suffix
}

/// The path of the spreadsheet for a configuration read from `config_path`.
pub fn output_path(configured: Option<String>, config_path: &str) -> (r: String)
    ensures
        r@ == output_path_of(
            match configured {
                Some(p) => Some(p@),
                None => None,
            },
            config_path@,
        ),
{
    match configured {
        Some(p) => p,
        None => {
            proof {
                reveal_strlit(".toml");
            }
            let base = if has_config_suffix(config_path) {
                let n: usize = config_path.unicode_len();
                config_path.substring_char(0, n - 5)
            } else {
                config_path
            };
            String::from_str(base).concat(".csv")
        },
    }
}

} // verus!
