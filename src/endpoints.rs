//! The request paths of the IEX Stocks REST API.
use vstd::prelude::*;

verus! {

/// The character of the decimal digit `d`.
pub open spec fn digit_char(d: nat) -> char {
    (48 + d) as char
}

/// The decimal digits of `n`, most significant first, without leading zeros.
pub open spec fn decimal(n: nat) -> Seq<char>
    decreases n,
{
    if n < 10 {
        seq![digit_char(n)]
    } else {
        decimal(n / 10).push(digit_char(n % 10))
    }
}

/// The decimal form of `n`, with a leading `-` where it is negative.
pub open spec fn signed_decimal(n: int) -> Seq<char> {
    if n < 0 {
        seq!['-'].add(decimal((-n) as nat))
    } else {
        decimal(n as nat)
    }
}

/// The text of a boolean.
pub open spec fn bool_text(b: bool) -> Seq<char> {
    if b {
        "true"@
    } else {
        "false"@
    }
}

/// Relies on the `Display` of `usize`, through `ToString`: the decimal digits
/// of `n`, with no sign, padding or separator.
#[verifier::external_body]
fn usize_text(n: usize) -> (r: String)
    ensures
        r@ == decimal(n as nat),
{
    n.to_string()
}

/// Relies on the `Display` of `i32`, through `ToString`: the decimal digits of
/// `n`, after a `-` where `n` is negative, with no padding or separator.
#[verifier::external_body]
fn i32_text(n: i32) -> (r: String)
    ensures
        r@ == signed_decimal(n as int),
{
    n.to_string()
}

fn bool_string(b: bool) -> (r: String)
    ensures
        r@ == bool_text(b),
{
    if b {
        String::from_str("true")
    } else {
        String::from_str("false")
    }
}

/// A time range of the chart, dividends and splits endpoints.
#[derive(Clone, Copy, Debug, PartialEq, Eq)]
pub enum Duration<'a> {
    FiveYears,
    TwoYears,
    OneYear,
    YearToDate,
    SixMonths,
    ThreeMonths,
    OneMonth,
    OneDay,
    /// One day, written `YYYYMMDD`.
    Date(&'a str),
    Dynamic,
    /// No range: an empty path segment.
    Unspecified,
}

impl<'a> Duration<'a> {
    /// The path segment of the range.
    pub open spec fn text(self) -> Seq<char> {
        match self {
            Duration::FiveYears => "5y"@,
            Duration::TwoYears => "2y"@,
            Duration::OneYear => "1y"@,
            Duration::YearToDate => "ytd"@,
            Duration::SixMonths => "6m"@,
            Duration::ThreeMonths => "3m"@,
            Duration::OneMonth => "1m"@,
            Duration::OneDay => "1d"@,
            Duration::Date(date) => "date/"@ + date@,
            Duration::Dynamic => "dynamic"@,
            Duration::Unspecified => ""@,
        }
    }
}

impl<'a> ToString for Duration<'a> {
    /// The path segment of the range.
    fn to_string(&self) -> (r: String)
        ensures
            r@ == self.text(),
    {
        match self {
            Duration::FiveYears => String::from_str("5y"),
            Duration::TwoYears => String::from_str("2y"),
            Duration::OneYear => String::from_str("1y"),
            Duration::YearToDate => String::from_str("ytd"),
            Duration::SixMonths => String::from_str("6m"),
            Duration::ThreeMonths => String::from_str("3m"),
            Duration::OneMonth => String::from_str("1m"),
            Duration::OneDay => String::from_str("1d"),
            Duration::Date(date) => {
                let mut s = String::from_str("date/");
                s.append(date);
                s
            },
            Duration::Dynamic => String::from_str("dynamic"),
            Duration::Unspecified => String::from_str(""),
        }
    }
}

impl<'a> Default for Duration<'a> {
    /// The range used where none is given: one month.
    fn default() -> (r: Duration<'a>)
        ensures
            r == Duration::<'a>::OneMonth,
    {
        Duration::OneMonth
    }
}

/// The lists of the list endpoint.
#[derive(Clone, Copy, Debug, PartialEq, Eq)]
pub enum ListParam {
    MostActive,
    Gainers,
    Losers,
    IexVolume,
    IexPercent,
}

impl ListParam {
    /// The path segment of the list.
    pub open spec fn text(self) -> Seq<char> {
        match self {
            ListParam::MostActive => "mostactive"@,
            ListParam::Gainers => "gainers"@,
            ListParam::Losers => "losers"@,
            ListParam::IexVolume => "iexvolume"@,
            ListParam::IexPercent => "iexpercent"@,
        }
    }
}

impl ToString for ListParam {
    /// The path segment of the list.
    fn to_string(&self) -> (r: String)
        ensures
            r@ == self.text(),
    {
        match self {
            ListParam::MostActive => String::from_str("mostactive"),
            ListParam::Gainers => String::from_str("gainers"),
            ListParam::Losers => String::from_str("losers"),
            ListParam::IexVolume => String::from_str("iexvolume"),
            ListParam::IexPercent => String::from_str("iexpercent"),
        }
    }
}

/// The options of the chart endpoint.
#[derive(Clone, Copy, Debug, PartialEq, Eq)]
pub enum ChartParam {
    /// If true, 1d chart will reset at midnight instead of the default behavior
    /// of 9:30am ET.
    Reset(bool),
    /// If true, runs a polyline simplification using the Douglas-Peucker
    /// algorithm. This is useful if plotting sparkline charts.
    Simplify(bool),
    /// If passed, chart data will return every Nth element.
    Interval(usize),
    /// If true, changeOverTime and marketChangeOverTime will be relative to
    /// previous day close instead of the first value.
    ChangeFromClose(bool),
    /// If passed, chart data will return the last N elements.
    Last(usize),
}

impl ChartParam {
    /// The `name=value` text of the option.
    pub open spec fn text(self) -> Seq<char> {
        match self {
            ChartParam::Reset(b) => "chartReset="@ + bool_text(b),
            ChartParam::Simplify(b) => "chartSimplify="@ + bool_text(b),
            ChartParam::Interval(n) => "chartInterval="@ + decimal(n as nat),
            ChartParam::ChangeFromClose(b) => "changeFromClose="@ + bool_text(b),
            ChartParam::Last(n) => "chartLast="@ + decimal(n as nat),
        }
    }
}

impl ToString for ChartParam {
    /// The `name=value` text of the option.
    fn to_string(&self) -> (r: String)
        ensures
            r@ == self.text(),
    {
        let (mut s, value) = match self {
            ChartParam::Reset(b) => (String::from_str("chartReset="), bool_string(*b)),
            ChartParam::Simplify(b) => (String::from_str("chartSimplify="), bool_string(*b)),
            ChartParam::Interval(n) => (String::from_str("chartInterval="), usize_text(*n)),
            ChartParam::ChangeFromClose(b) => (
                String::from_str("changeFromClose="),
                bool_string(*b),
            ),
            ChartParam::Last(n) => (String::from_str("chartLast="), usize_text(*n)),
        };
        s.append(value.as_str());
        s
    }
}

/// The `name=value/` texts of the chart options `ps`, in order.
pub open spec fn chart_params_text(ps: Seq<ChartParam>) -> Seq<char>
    decreases ps.len(),
{
    if ps.len() == 0 {
        Seq::empty()
    } else {
        chart_params_text(ps.drop_last()) + ps.last().text() + "/"@
    }
}

/// A request of the IEX Stocks API, to be made for one symbol (or for the
/// market, where the endpoint covers it).
#[derive(Clone, Debug, PartialEq, Eq)]
pub enum StocksEndpoint<'a> {
    Book,
    Chart { duration: Duration<'a>, params: Option<Vec<ChartParam>> },
    Company,
    DelayedQuote,
    Dividends { duration: Duration<'a> },
    Earnings,
    EffectiveSpread,
    Financials,
    List { param: ListParam },
    Logo,
    News { range: Option<i32> },
    Ohlc,
    Peers,
    Previous,
    Price,
    Quote,
    Relevant,
    Splits { duration: Duration<'a> },
    Stats,
    TimeSeries,
    /// IEX Regulation SHO Threshold Securities List.
    ThresholdSecurities { date: Option<Duration<'a>> },
    VolumeByVenue,
}

/// A request that names its path below the symbol.
pub trait Endpoint: Sized {
    /// The path of the request, below the symbol.
    spec fn path(self) -> Seq<char>;

    /// The path of the request, below the symbol.
    fn to_endpoint(self) -> (r: String)
        ensures
            r@ == self.path(),
    ;
}

/// Appends the `name=value/` text of each of `ps` to `s`.
fn append_chart_params(s: &mut String, ps: &Vec<ChartParam>)
    ensures
        final(s)@ == old(s)@ + chart_params_text(ps@),
{
    let mut i: usize = 0;
    while i < ps.len()
        invariant
            i <= ps@.len(),
            s@ == old(s)@ + chart_params_text(ps@.subrange(0, i as int)),
        decreases ps@.len() - i,
    {
        let text = ps[i].to_string();
        s.append(text.as_str());
        s.append("/");
        proof {
            let next = ps@.subrange(0, i + 1);
            assert(next.drop_last() == ps@.subrange(0, i as int));
            assert(next.last() == ps@[i as int]);
        }
        i = i + 1;
    }
    proof {
        assert(ps@.subrange(0, ps@.len() as int) == ps@);
    }
}

impl<'a> Endpoint for StocksEndpoint<'a> {
    open spec fn path(self) -> Seq<char> {
        match self {
            StocksEndpoint::Book => "book"@,
            StocksEndpoint::Chart { duration, params } => "chart/"@ + duration.text() + "?"@
                + match params {
                Some(ps) => chart_params_text(ps@),
                None => ""@,
            },
            StocksEndpoint::Company => "company"@,
            StocksEndpoint::DelayedQuote => "delayed-quote"@,
            StocksEndpoint::Dividends { duration } => "dividends/"@ + duration.text(),
            StocksEndpoint::Earnings => "earnings"@,
            StocksEndpoint::EffectiveSpread => "effective-spread"@,
            StocksEndpoint::Financials => "financials"@,
            StocksEndpoint::List { param } => "list/"@ + param.text(),
            StocksEndpoint::Logo => "logo"@,
            StocksEndpoint::News { range } => "news/last/"@ + match range {
                Some(r) => signed_decimal(r as int),
                None => ""@,
            },
            StocksEndpoint::Ohlc => "ohlc"@,
            StocksEndpoint::Peers => "peers"@,
            StocksEndpoint::Previous => "previous"@,
            StocksEndpoint::Price => "price"@,
            StocksEndpoint::Quote => "quote"@,
            StocksEndpoint::Relevant => "relevant"@,
            StocksEndpoint::Splits { duration } => "splits/"@ + duration.text(),
            StocksEndpoint::Stats => "stats"@,
            StocksEndpoint::TimeSeries => "time-series"@,
            StocksEndpoint::ThresholdSecurities { date } => "threshold-securities/"@ + match date {
                Some(d) => d.text(),
                None => ""@,
            },
            StocksEndpoint::VolumeByVenue => "volume-by-venue"@,
        }
    }

    fn to_endpoint(self) -> (r: String) {
        match self {
            StocksEndpoint::Book => String::from_str("book"),
            StocksEndpoint::Chart { duration, params } => {
                let mut s = String::from_str("chart/");
                s.append(duration.to_string().as_str());
                s.append("?");
                match params {
                    Some(ps) => append_chart_params(&mut s, &ps),
                    None => s.append(""),
                }
                s
            },
            StocksEndpoint::Company => String::from_str("company"),
            StocksEndpoint::DelayedQuote => String::from_str("delayed-quote"),
            StocksEndpoint::Dividends { duration } => {
                let mut s = String::from_str("dividends/");
                s.append(duration.to_string().as_str());
                s
            },
            StocksEndpoint::Earnings => String::from_str("earnings"),
            StocksEndpoint::EffectiveSpread => String::from_str("effective-spread"),
            StocksEndpoint::Financials => String::from_str("financials"),
            StocksEndpoint::List { param } => {
                let mut s = String::from_str("list/");
                s.append(param.to_string().as_str());
                s
            },
            StocksEndpoint::Logo => String::from_str("logo"),
            StocksEndpoint::News { range } => {
                let mut s = String::from_str("news/last/");
                match range {
                    Some(r) => s.append(i32_text(r).as_str()),
                    None => s.append(""),
                }
                s
            },
            StocksEndpoint::Ohlc => String::from_str("ohlc"),
            StocksEndpoint::Peers => String::from_str("peers"),
            StocksEndpoint::Previous => String::from_str("previous"),
            StocksEndpoint::Price => String::from_str("price"),
            StocksEndpoint::Quote => String::from_str("quote"),
            StocksEndpoint::Relevant => String::from_str("relevant"),
            StocksEndpoint::Splits { duration } => {
                let mut s = String::from_str("splits/");
                s.append(duration.to_string().as_str());
                s
            },
            StocksEndpoint::Stats => String::from_str("stats"),
            StocksEndpoint::TimeSeries => String::from_str("time-series"),
            StocksEndpoint::ThresholdSecurities { date } => {
                let mut s = String::from_str("threshold-securities/");
                match date {
                    Some(d) => s.append(d.to_string().as_str()),
                    None => s.append(""),
                }
                s
            },
            StocksEndpoint::VolumeByVenue => String::from_str("volume-by-venue"),
        }
    }
}

} // verus!
