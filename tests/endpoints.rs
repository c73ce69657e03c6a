use iex::{ChartParam, Client, Duration, Endpoint, ListParam, StocksEndpoint, IEX_URL};

#[test]
fn plain_endpoint_paths() {
    let cases: Vec<(StocksEndpoint, &str)> = vec![
        (StocksEndpoint::Book, "book"),
        (StocksEndpoint::Company, "company"),
        (StocksEndpoint::DelayedQuote, "delayed-quote"),
        (StocksEndpoint::Earnings, "earnings"),
        (StocksEndpoint::EffectiveSpread, "effective-spread"),
        (StocksEndpoint::Financials, "financials"),
        (StocksEndpoint::Logo, "logo"),
        (StocksEndpoint::Ohlc, "ohlc"),
        (StocksEndpoint::Peers, "peers"),
        (StocksEndpoint::Previous, "previous"),
        (StocksEndpoint::Price, "price"),
        (StocksEndpoint::Quote, "quote"),
        (StocksEndpoint::Relevant, "relevant"),
        (StocksEndpoint::Stats, "stats"),
        (StocksEndpoint::TimeSeries, "time-series"),
        (StocksEndpoint::VolumeByVenue, "volume-by-venue"),
    ];
    for (endpoint, path) in cases {
        assert_eq!(endpoint.to_endpoint(), path);
    }
}

#[test]
fn chart_paths() {
    let plain = StocksEndpoint::Chart { duration: Duration::OneDay, params: None };
    assert_eq!(plain.to_endpoint(), "chart/1d?");
    let with_params = StocksEndpoint::Chart {
        duration: Duration::Date("20180129"),
        params: Some(vec![ChartParam::Reset(true), ChartParam::Interval(10), ChartParam::Last(0)]),
    };
    assert_eq!(
        with_params.to_endpoint(),
        "chart/date/20180129?chartReset=true/chartInterval=10/chartLast=0/"
    );
    let flags = StocksEndpoint::Chart {
        duration: Duration::FiveYears,
        params: Some(vec![ChartParam::Simplify(false), ChartParam::ChangeFromClose(true)]),
    };
    assert_eq!(flags.to_endpoint(), "chart/5y?chartSimplify=false/changeFromClose=true/");
}

#[test]
fn duration_paths() {
    let cases = [
        (Duration::FiveYears, "5y"),
        (Duration::TwoYears, "2y"),
        (Duration::OneYear, "1y"),
        (Duration::YearToDate, "ytd"),
        (Duration::SixMonths, "6m"),
        (Duration::ThreeMonths, "3m"),
        (Duration::OneMonth, "1m"),
        (Duration::OneDay, "1d"),
        (Duration::Date("20170417"), "date/20170417"),
        (Duration::Dynamic, "dynamic"),
        (Duration::Unspecified, ""),
    ];
    for (d, text) in cases.iter() {
        assert_eq!(d.to_string(), *text);
    }
    assert_eq!(Duration::default(), Duration::OneMonth);
    assert_eq!(
        StocksEndpoint::Dividends { duration: Duration::SixMonths }.to_endpoint(),
        "dividends/6m"
    );
    assert_eq!(
        StocksEndpoint::Splits { duration: Duration::YearToDate }.to_endpoint(),
        "splits/ytd"
    );
}

#[test]
fn list_news_and_threshold_paths() {
    assert_eq!(StocksEndpoint::List { param: ListParam::Gainers }.to_endpoint(), "list/gainers");
    assert_eq!(ListParam::MostActive.to_string(), "mostactive");
    assert_eq!(ListParam::Losers.to_string(), "losers");
    assert_eq!(ListParam::IexVolume.to_string(), "iexvolume");
    assert_eq!(ListParam::IexPercent.to_string(), "iexpercent");
    assert_eq!(StocksEndpoint::News { range: None }.to_endpoint(), "news/last/");
    assert_eq!(StocksEndpoint::News { range: Some(25) }.to_endpoint(), "news/last/25");
    assert_eq!(StocksEndpoint::News { range: Some(-3) }.to_endpoint(), "news/last/-3");
    assert_eq!(
        StocksEndpoint::ThresholdSecurities { date: None }.to_endpoint(),
        "threshold-securities/"
    );
    assert_eq!(
        StocksEndpoint::ThresholdSecurities { date: Some(Duration::Date("20180201")) }
            .to_endpoint(),
        "threshold-securities/date/20180201"
    );
}

#[test]
fn chart_param_text() {
    assert_eq!(ChartParam::Interval(12345).to_string(), "chartInterval=12345");
    assert_eq!(
        ChartParam::Last(usize::MAX).to_string(),
        format!("chartLast={}", usize::MAX)
    );
}

#[test]
fn stocks_url_of_a_request() {
    let client = Client::new();
    assert_eq!(
        client.stocks_url("aapl", StocksEndpoint::Book),
        "https://api.iextrading.com/1.0/stock/aapl/book"
    );
    assert_eq!(
        client.stocks_url("market", StocksEndpoint::List { param: ListParam::Gainers }),
        format!("{}/stock/market/list/gainers", IEX_URL)
    );
}
