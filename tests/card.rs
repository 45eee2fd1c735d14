use coin_bot::chart::{Candle, ChartColor};
use coin_bot::coin::{
    Amount, Coin, CoinInfo, Conversion, CurrencyConversions, Image, Links, Localization, MarketChange,
    MarketData, Sparkline,
};
use coin_bot::compose::{first_paragraph_of, homepage_link, starts_with_scheme};
use coin_bot::control::Phase;
use coin_bot::decimal::Dec;
use coin_bot::fulfill::{Action, Event, Fulfillment};
use coin_bot::gecko::{read_response, GeckoError};
use coin_bot::money::DisplayCurrency;
use coin_bot::reply::{build_message, BotError};
use coin_bot::request::{resolve_request, ChartStyle, Request};

fn d(negative: bool, mantissa: u128, scale: u32) -> Dec {
    Dec::new(negative, mantissa, scale)
}

fn localization(en: &str) -> Localization {
    Localization {
        en: en.to_string(),
        de: String::new(),
        es: String::new(),
        fr: String::new(),
        it: String::new(),
        pl: String::new(),
        ro: String::new(),
        hu: String::new(),
        nl: String::new(),
        pt: String::new(),
        sv: String::new(),
        vi: String::new(),
        tr: String::new(),
        ru: String::new(),
        ja: String::new(),
        zh: String::new(),
        zh_tw: String::new(),
        ko: String::new(),
        ar: String::new(),
        th: String::new(),
        id: String::new(),
        cs: String::new(),
        da: String::new(),
        el: String::new(),
        hi: String::new(),
        no: String::new(),
        sk: String::new(),
        uk: String::new(),
        he: String::new(),
        fi: String::new(),
        bg: String::new(),
        hr: String::new(),
        lt: String::new(),
        sl: String::new(),
    }
}

fn figures(usd: Dec) -> CurrencyConversions {
    CurrencyConversions {
        entries: vec![
            Conversion { code: "eur".to_string(), value: d(false, 1, 0) },
            Conversion { code: "usd".to_string(), value: usd },
        ],
    }
}

fn coin(id: &str, sparkline: Vec<Dec>) -> Coin {
    Coin {
        id: id.to_string(),
        symbol: "btc".to_string(),
        name: "Bitcoin".to_string(),
        hashing_algorithm: Some("SHA-256".to_string()),
        localization: localization("Bitcoin"),
        description: localization(
            "Bitcoin is <a href=\"https://bitcoin.org\">digital money</a>.\r\n\r\nMore text.",
        ),
        links: Links {
            homepage: vec!["bitcoin.org".to_string(), String::new()],
            blockchain_site: vec![],
            official_forum_url: vec![],
            chat_url: vec![],
            announcement_url: vec![],
            subreddit_url: None,
        },
        image: Image {
            thumb: "t.png".to_string(),
            small: "s.png".to_string(),
            large: "l.png".to_string(),
        },
        market_data: MarketData {
            current_price: figures(d(false, 50000123, 3)),
            market_cap: figures(d(false, 1000000, 0)),
            total_volume: figures(d(false, 25, 1)),
            price_change_percentage_1h_in_currency: figures(d(false, 314159, 5)),
            price_change_percentage_24h_in_currency: figures(d(true, 4, 2)),
            price_change_percentage_7d_in_currency: figures(d(false, 0, 0)),
            sparkline_7d: Sparkline { price: sparkline },
        },
    }
}

fn rising() -> Vec<Dec> {
    vec![d(false, 100, 0), d(false, 90, 0), d(false, 100, 0)]
}

fn candles() -> Vec<Candle> {
    vec![
        Candle {
            time_ms: 1_700_000_000_000,
            open: d(false, 10, 0),
            high: d(false, 12, 0),
            low: d(false, 9, 0),
            close: d(false, 11, 0),
        },
        Candle {
            time_ms: 1_700_014_400_000,
            open: d(false, 11, 0),
            high: d(false, 13, 0),
            low: d(false, 10, 0),
            close: d(false, 12, 0),
        },
    ]
}

#[test]
fn short_description_keeps_first_paragraph_with_links() {
    let c = coin("bitcoin", rising());
    assert_eq!(c.get_short_description(), "Bitcoin is [digital money](https://bitcoin.org).");
    assert_eq!(first_paragraph_of("one\r\n\r\ntwo"), "one");
    assert_eq!(first_paragraph_of("single"), "single");
}

#[test]
fn homepage_gets_a_scheme() {
    assert_eq!(homepage_link("bitcoin.org"), "https://bitcoin.org");
    assert_eq!(homepage_link("http://x.org"), "http://x.org");
    assert_eq!(homepage_link("https://y.org"), "https://y.org");
    assert_eq!(homepage_link("httpbin.org"), "https://httpbin.org");
    assert_eq!(homepage_link("ftp://x"), "ftp://x");
    assert_eq!(homepage_link("www.http-coin.io"), "https://www.http-coin.io");
    assert_eq!(homepage_link(""), "https://");
    assert!(starts_with_scheme("git+ssh://host"));
    assert!(!starts_with_scheme("1http://x"));
    assert!(!starts_with_scheme("://x"));
}

#[test]
fn formats_amounts_and_changes() {
    let c = coin("bitcoin", rising());
    let usd = DisplayCurrency::usd();
    assert_eq!(c.get_formatted_amount(Amount::CurrentPrice, &usd).unwrap(), "```$50,000.12```");
    assert_eq!(c.get_formatted_amount(Amount::MarketCap, &usd).unwrap(), "```$1,000,000```");
    assert_eq!(c.get_formatted_amount(Amount::Volume24h, &usd).unwrap(), "```$2.5```");
    assert_eq!(
        c.get_formatted_change(MarketChange::PercentageChange1h, &usd).unwrap(),
        "```diff\n+3.1%```"
    );
    assert_eq!(
        c.get_formatted_change(MarketChange::PercentageChange24h, &usd).unwrap(),
        "```diff\n-0.0%```"
    );
    assert_eq!(
        c.get_formatted_change(MarketChange::PercentageChange7d, &usd).unwrap(),
        "```diff\n+0.0%```"
    );
    let jpy = DisplayCurrency::from_code("JPY").unwrap();
    assert!(c.get_formatted_amount(Amount::CurrentPrice, &jpy).is_none());
    assert!(c.get_formatted_change(MarketChange::PercentageChange1h, &jpy).is_none());
    let eur = DisplayCurrency::from_code("EUR").unwrap();
    assert!(c.get_formatted_amount(Amount::CurrentPrice, &eur).is_some());
}

#[test]
fn card_has_six_fields_in_order() {
    let c = coin("bitcoin", rising());
    let card = build_message(&c, &DisplayCurrency::usd()).unwrap();
    assert_eq!(card.title, "Bitcoin");
    assert_eq!(card.title_url, "https://bitcoin.org");
    assert_eq!(card.thumbnail, "l.png");
    assert_eq!(card.description, "Bitcoin is [digital money](https://bitcoin.org).");
    let names: Vec<&str> = card.fields.iter().map(|f| f.name.as_str()).collect();
    assert_eq!(names, vec!["Price", "24h Volume", "Market Cap", "1h", "24h", "7d"]);
    assert!(card.fields.iter().all(|f| f.inline));
    assert_eq!(card.fields[0].value, "```$50,000.12```");
    assert_eq!(card.fields[3].value, "```diff\n+3.1%```");
}

#[test]
fn incomplete_snapshot_fails_to_format() {
    let mut c = coin("bitcoin", rising());
    c.links.homepage.clear();
    assert_eq!(build_message(&c, &DisplayCurrency::usd()).unwrap_err(), BotError::FormatFailed);
    let c = coin("bitcoin", rising());
    let gbp = DisplayCurrency::from_code("GBP").unwrap();
    assert_eq!(build_message(&c, &gbp).unwrap_err(), BotError::FormatFailed);
    assert_eq!(
        BotError::FormatFailed.message(),
        "Sorry, the market data for this coin is incomplete"
    );
    assert_eq!(BotError::RenderFailed.message(), "Sorry, the price chart could not be drawn");
    assert_eq!(
        BotError::Gecko(GeckoError::LimitError).message(),
        "Uh-oh! Seems like I've reached the API limit"
    );
}

fn line_request(id: &str) -> Request {
    resolve_request(id, None, None, None)
}

#[test]
fn bitcoin_line_chart_request() {
    let (mut f, actions) = Fulfillment::start_with_stamp(line_request("bitcoin"), "123");
    assert_eq!(f.request.currency.code, "USD");
    assert_eq!(f.request.style, ChartStyle::Line);
    assert_eq!(actions.len(), 1);
    assert!(matches!(&actions[0], Action::FetchSnapshot(id) if id == "bitcoin"));
    assert_eq!(f.path, "bitcoin_123.png");

    let plan = match f.step(Event::SnapshotFetched(Ok(coin("bitcoin", rising())))) {
        Action::DrawLine(plan) => plan,
        other => panic!("expected a line chart, got {:?}", other),
    };
    assert_eq!(plan.path, "bitcoin_123.png");
    assert_eq!(plan.color, ChartColor::Green);

    let (card, file) = match f.step(Event::ChartDrawn(true)) {
        Action::SendCard(card, file) => (card, file),
        other => panic!("expected the card, got {:?}", other),
    };
    assert_eq!(file, "bitcoin_123.png");
    let names: Vec<&str> = card.fields.iter().map(|f| f.name.as_str()).collect();
    assert_eq!(names, vec!["Price", "24h Volume", "Market Cap", "1h", "24h", "7d"]);

    assert!(matches!(f.step(Event::ReplySent), Action::DeleteFile(p) if p == "bitcoin_123.png"));
    assert!(matches!(f.step(Event::FileDeleted(true)), Action::Finish));
    assert_eq!(f.phase, Phase::Done);
    assert!(matches!(f.step(Event::FileDeleted(true)), Action::Wait));
}

#[test]
fn unknown_coin_request() {
    let (mut f, actions) = Fulfillment::start_with_stamp(line_request("doesnotexist123"), "1");
    assert_eq!(actions.len(), 1);
    let fetched = read_response::<Coin>(Some(404), None);
    assert_eq!(fetched.as_ref().unwrap_err(), &GeckoError::CoinNotFoundError);
    match f.step(Event::SnapshotFetched(fetched)) {
        Action::SendText(text) => {
            assert_eq!(text, GeckoError::CoinNotFoundError.message());
            assert_eq!(text, "Coin not found! Try its full name, eg. bitcoin");
        },
        other => panic!("expected the error text, got {:?}", other),
    }
    assert!(matches!(f.step(Event::ReplySent), Action::Finish));
    assert_eq!(f.phase, Phase::Done);
}

fn candle_request(id: &str) -> Request {
    resolve_request(id, None, None, Some(true))
}

#[test]
fn candlestick_request_in_either_order() {
    let (mut f, actions) = Fulfillment::start_with_stamp(candle_request("ethereum"), "9");
    assert_eq!(actions.len(), 2);
    assert!(matches!(&actions[0], Action::FetchSnapshot(id) if id == "ethereum"));
    assert!(matches!(&actions[1], Action::FetchOhlc(id) if id == "ethereum"));
    assert!(matches!(f.step(Event::OhlcFetched(Ok(candles()))), Action::DrawCandles(_)));
    assert!(matches!(f.step(Event::SnapshotFetched(Ok(coin("ethereum", rising())))), Action::Wait));
    assert!(matches!(f.step(Event::ChartDrawn(true)), Action::SendCard(_, _)));
    assert!(matches!(f.step(Event::ReplySent), Action::DeleteFile(_)));
    assert!(matches!(f.step(Event::FileDeleted(true)), Action::Finish));

    let (mut g, _) = Fulfillment::start_with_stamp(candle_request("ethereum"), "9");
    assert!(matches!(g.step(Event::SnapshotFetched(Ok(coin("ethereum", rising())))), Action::Wait));
    assert!(matches!(g.step(Event::OhlcFetched(Ok(candles()))), Action::DrawCandles(_)));
    assert!(matches!(g.step(Event::ChartDrawn(true)), Action::SendCard(_, _)));
}

#[test]
fn candlestick_ohlc_failure_is_an_error() {
    let (mut f, _) = Fulfillment::start_with_stamp(candle_request("ethereum"), "9");
    assert!(matches!(f.step(Event::SnapshotFetched(Ok(coin("ethereum", rising())))), Action::Wait));
    match f.step(Event::OhlcFetched(Err(GeckoError::LimitError))) {
        Action::SendText(text) => assert_eq!(text, GeckoError::LimitError.message()),
        other => panic!("expected the error text, got {:?}", other),
    }
    assert!(matches!(f.step(Event::ReplySent), Action::Finish));
}

#[test]
fn failed_drawing_still_deletes_the_file() {
    let (mut f, _) = Fulfillment::start_with_stamp(line_request("bitcoin"), "5");
    assert!(matches!(f.step(Event::SnapshotFetched(Ok(coin("bitcoin", rising())))), Action::DrawLine(_)));
    match f.step(Event::ChartDrawn(false)) {
        Action::SendText(text) => assert_eq!(text, BotError::RenderFailed.message()),
        other => panic!("expected the error text, got {:?}", other),
    }
    assert!(matches!(f.step(Event::ReplySent), Action::DeleteFile(p) if p == "bitcoin_5.png"));
    assert!(matches!(f.step(Event::ReplySent), Action::Wait));
    assert!(matches!(f.step(Event::FileDeleted(true)), Action::Finish));
}

#[test]
fn snapshot_failure_with_candle_drawn_deletes_the_file() {
    let (mut f, _) = Fulfillment::start_with_stamp(candle_request("ethereum"), "7");
    assert!(matches!(f.step(Event::OhlcFetched(Ok(candles()))), Action::DrawCandles(_)));
    assert!(matches!(f.step(Event::ChartDrawn(true)), Action::Wait));
    match f.step(Event::SnapshotFetched(Err(GeckoError::UnknownError))) {
        Action::SendText(text) => assert_eq!(text, "An unknown API error occured"),
        other => panic!("expected the error text, got {:?}", other),
    }
    assert!(matches!(f.step(Event::ReplySent), Action::DeleteFile(_)));
    assert!(matches!(f.step(Event::FileDeleted(true)), Action::Finish));
}

#[test]
fn flat_sparkline_is_green() {
    let (mut f, _) = Fulfillment::start_with_stamp(line_request("tether"), "2");
    let flat = vec![d(false, 1, 0), d(false, 2, 0), d(false, 100, 2)];
    match f.step(Event::SnapshotFetched(Ok(coin("tether", flat)))) {
        Action::DrawLine(plan) => assert_eq!(plan.color, ChartColor::Green),
        other => panic!("expected a line chart, got {:?}", other),
    }
}

#[test]
fn empty_sparkline_cannot_be_drawn() {
    let (mut f, _) = Fulfillment::start_with_stamp(line_request("newcoin"), "3");
    match f.step(Event::SnapshotFetched(Ok(coin("newcoin", vec![])))) {
        Action::SendText(text) => assert_eq!(text, BotError::RenderFailed.message()),
        other => panic!("expected the error text, got {:?}", other),
    }
    assert!(matches!(f.step(Event::ReplySent), Action::Finish));
}

#[test]
fn out_of_range_figures_are_a_parse_error() {
    let (mut f, _) = Fulfillment::start_with_stamp(line_request("bitcoin"), "4");
    let bad = coin("bitcoin", vec![d(false, 1, 40)]);
    match f.step(Event::SnapshotFetched(Ok(bad))) {
        Action::SendText(text) => assert_eq!(text, GeckoError::ParseError.message()),
        other => panic!("expected the error text, got {:?}", other),
    }
}

#[test]
fn start_stamps_the_file_with_the_coin() {
    let (f, actions) = Fulfillment::start(line_request("bitcoin"));
    assert_eq!(actions.len(), 1);
    assert!(f.path.starts_with("bitcoin_"));
    assert!(f.path.ends_with(".png"));
    assert!(f.path.len() > "bitcoin_.png".len());
}

#[test]
fn describes_coin_commands() {
    let info = CoinInfo {
        id: "bitcoin".to_string(),
        symbol: "btc".to_string(),
        name: "Bitcoin".to_string(),
    };
    assert_eq!(info.command_description(), "Fetch price info for Bitcoin (btc)");
}

#[test]
fn begins_from_command_arguments() {
    let (f, actions) = Fulfillment::begin("niche", Some(" wrapped bitcoin "), Some("EUR"), Some(true));
    assert_eq!(f.request.coin_id, "wrapped-bitcoin");
    assert_eq!(f.request.currency.code, "EUR");
    assert_eq!(f.request.style, ChartStyle::Candlestick);
    assert_eq!(actions.len(), 2);
    assert!(f.path.starts_with("wrapped-bitcoin_"));
    let (g, actions) = Fulfillment::begin("bitcoin", None, Some("???"), None);
    assert_eq!(g.request.coin_id, "bitcoin");
    assert_eq!(g.request.currency.code, "USD");
    assert_eq!(g.request.style, ChartStyle::Line);
    assert_eq!(actions.len(), 1);
}

#[test]
fn failed_removal_still_finishes() {
    let (mut f, _) = Fulfillment::start_with_stamp(line_request("bitcoin"), "6");
    assert!(matches!(f.step(Event::SnapshotFetched(Ok(coin("bitcoin", rising())))), Action::DrawLine(_)));
    assert!(matches!(f.step(Event::ChartDrawn(true)), Action::SendCard(_, _)));
    assert!(matches!(f.step(Event::ReplySent), Action::DeleteFile(_)));
    assert!(matches!(f.step(Event::FileDeleted(false)), Action::Finish));
    assert_eq!(f.phase, Phase::Done);
    assert!(matches!(f.step(Event::ReplySent), Action::Wait));
}

fn card_text(a: Action) -> String {
    match a {
        Action::SendCard(card, file) => format!("{:?} {}", card, file),
        other => panic!("expected the card, got {:?}", other),
    }
}

#[test]
fn candlestick_reply_does_not_depend_on_fetch_order() {
    let (mut f, _) = Fulfillment::start_with_stamp(candle_request("ethereum"), "8");
    f.step(Event::OhlcFetched(Ok(candles())));
    f.step(Event::SnapshotFetched(Ok(coin("ethereum", rising()))));
    let first = card_text(f.step(Event::ChartDrawn(true)));
    let (mut g, _) = Fulfillment::start_with_stamp(candle_request("ethereum"), "8");
    g.step(Event::SnapshotFetched(Ok(coin("ethereum", rising()))));
    g.step(Event::OhlcFetched(Ok(candles())));
    let second = card_text(g.step(Event::ChartDrawn(true)));
    assert_eq!(first, second);
}
