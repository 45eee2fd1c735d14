use coin_bot::chart::{
    candle_plan, chart_file, extremes, hours_back, line_plan, Candle, ChartColor,
};
use coin_bot::decimal::{dec_le, Dec};
use coin_bot::gecko::{
    coin_list_url, coin_url, ohlc_url, read_response, top_coins_url, GeckoError,
};
use coin_bot::money::{resolve_currency, DisplayCurrency};
use coin_bot::request::{coin_id_of_name, resolve_request, ChartStyle};
use coin_bot::text::{find_text, push_digits, signed_tenths, tenths};

fn d(negative: bool, mantissa: u128, scale: u32) -> Dec {
    Dec::new(negative, mantissa, scale)
}

#[test]
fn compares_decimals_by_value() {
    assert!(dec_le(&d(false, 15, 1), &d(false, 150, 2)));
    assert!(dec_le(&d(false, 150, 2), &d(false, 15, 1)));
    assert!(dec_le(&d(true, 1, 0), &d(false, 0, 0)));
    assert!(!dec_le(&d(false, 4, 1), &d(false, 4, 2)));
    assert!(dec_le(&d(true, 5, 0), &d(true, 4, 0)));
    assert!(!dec_le(&d(true, 4, 0), &d(true, 5, 0)));
    assert!(dec_le(&d(false, 0, 0), &d(true, 0, 3)));
}

#[test]
fn writes_digits() {
    let mut s = String::new();
    push_digits(&mut s, 0);
    assert_eq!(s, "0");
    let mut s = String::from("n=");
    push_digits(&mut s, 1234567);
    assert_eq!(s, "n=1234567");
}

#[test]
fn percentage_examples() {
    assert_eq!(signed_tenths(&d(false, 314159, 5)), "+3.1");
    assert_eq!(signed_tenths(&d(true, 4, 2)), "-0.0");
    assert_eq!(signed_tenths(&d(false, 0, 0)), "+0.0");
    assert_eq!(signed_tenths(&d(false, 5, 0)), "+5.0");
    assert_eq!(signed_tenths(&d(true, 1234, 1)), "-123.4");
}

#[test]
fn percentage_rounds_half_to_even() {
    assert_eq!(tenths(&d(false, 225, 2)), 22);
    assert_eq!(tenths(&d(false, 235, 2)), 24);
    assert_eq!(tenths(&d(false, 2251, 3)), 23);
    assert_eq!(signed_tenths(&d(false, 12345, 2)), "+123.4");
    assert_eq!(signed_tenths(&d(false, 96, 2)), "+1.0");
}

#[test]
fn percentage_sign_follows_value() {
    assert!(signed_tenths(&d(false, 0, 3)).starts_with('+'));
    assert!(signed_tenths(&d(true, 0, 3)).starts_with('+'));
    assert!(signed_tenths(&d(true, 1, 3)).starts_with('-'));
    assert!(signed_tenths(&d(false, 1, 3)).starts_with('+'));
    let s = signed_tenths(&d(false, 99999, 3));
    assert_eq!(s, "+100.0");
    assert_eq!(s.split('.').nth(1).unwrap().len(), 1);
}

#[test]
fn finds_text() {
    assert_eq!(find_text("a\r\n\r\nb\r\n\r\nc", "\r\n\r\n"), Some(1));
    assert_eq!(find_text("abc", "d"), None);
    assert_eq!(find_text("abc", ""), Some(0));
}

#[test]
fn reads_response_status() {
    assert_eq!(read_response(Some(200), Some(7u8)), Ok(7));
    assert_eq!(read_response::<u8>(Some(200), None), Err(GeckoError::ParseError));
    assert_eq!(read_response::<u8>(Some(404), None), Err(GeckoError::CoinNotFoundError));
    assert_eq!(read_response(Some(404), Some(1u8)), Err(GeckoError::CoinNotFoundError));
    assert_eq!(read_response::<u8>(Some(401), None), Err(GeckoError::LimitError));
    assert_eq!(read_response::<u8>(Some(500), None), Err(GeckoError::UnknownError));
    assert_eq!(read_response::<u8>(Some(429), None), Err(GeckoError::UnknownError));
    assert_eq!(read_response::<u8>(None, None), Err(GeckoError::UnknownError));
}

#[test]
fn unknown_coin_is_not_found() {
    for status in [Some(404u16)] {
        let r = read_response::<String>(status, None);
        assert_eq!(r, Err(GeckoError::CoinNotFoundError));
        assert_ne!(r, Err(GeckoError::UnknownError));
    }
}

#[test]
fn error_messages() {
    assert_eq!(
        GeckoError::CoinNotFoundError.message(),
        "Coin not found! Try its full name, eg. bitcoin"
    );
    assert_eq!(GeckoError::LimitError.message(), "Uh-oh! Seems like I've reached the API limit");
    assert_eq!(GeckoError::ParseError.message(), "Whoops! An expected parse error occured");
    assert_eq!(GeckoError::UnknownError.message(), "An unknown API error occured");
}

#[test]
fn builds_api_addresses() {
    assert_eq!(
        coin_url("Bitcoin"),
        "https://api.coingecko.com/api/v3/coins/bitcoin?sparkline=true"
    );
    assert_eq!(
        ohlc_url("ETHEREUM"),
        "https://api.coingecko.com/api/v3/coins/ethereum/ohlc?vs_currency=usd&days=7"
    );
    assert_eq!(
        top_coins_url(99),
        "https://api.coingecko.com/api/v3/coins/markets?vs_currency=usd&order=gecko_desc&per_page=99&page=1&sparkline=false"
    );
    assert_eq!(coin_list_url(), "https://api.coingecko.com/api/v3/coins/list");
}

#[test]
fn resolves_currencies() {
    assert_eq!(DisplayCurrency::usd().code, "USD");
    assert_eq!(DisplayCurrency::from_code("EUR").unwrap().code, "EUR");
    assert!(DisplayCurrency::from_code("eur").is_none());
    assert!(DisplayCurrency::from_code("XYZ").is_none());
    assert_eq!(resolve_currency(None).code, "USD");
    assert_eq!(resolve_currency(Some("JPY")).code, "JPY");
    assert_eq!(resolve_currency(Some("nope")).code, "USD");
}

#[test]
fn formats_money() {
    let usd = DisplayCurrency::usd();
    assert_eq!(usd.format(&d(false, 50000123, 3)), "$50,000.12");
    assert_eq!(usd.format(&d(false, 5, 0)), "$5");
    assert_eq!(usd.format(&d(true, 12345, 1)), "-$1,234.5");
}

#[test]
fn finds_extremes() {
    let v = vec![d(false, 5, 0), d(false, 12, 1), d(false, 90, 1), d(true, 1, 0)];
    let (low, high) = extremes(&v);
    assert_eq!(low, d(true, 1, 0));
    assert_eq!(high, d(false, 90, 1));
}

#[test]
fn line_color_and_range() {
    let up = vec![d(false, 100, 0), d(false, 80, 0), d(false, 100, 0)];
    let plan = line_plan(&up, String::from("a.png")).unwrap();
    assert_eq!(plan.color, ChartColor::Green);
    assert_eq!(plan.y_low, d(false, 80 * 95, 2));
    assert_eq!(plan.y_high, d(false, 10500, 2));
    assert_eq!(plan.points, up);
    assert_eq!(plan.path, "a.png");
    let down = vec![d(false, 100, 0), d(false, 999, 1)];
    assert_eq!(line_plan(&down, String::from("b.png")).unwrap().color, ChartColor::Red);
    let rise = vec![d(false, 1, 0), d(false, 2, 0)];
    assert_eq!(line_plan(&rise, String::from("c.png")).unwrap().color, ChartColor::Green);
    assert!(line_plan(&vec![], String::from("d.png")).is_none());
}

#[test]
fn line_hours_back() {
    let v = vec![d(false, 1, 0); 168];
    let plan = line_plan(&v, String::from("h.png")).unwrap();
    assert_eq!(hours_back(&plan, 167), 0);
    assert_eq!(hours_back(&plan, 0), 167);
    assert_eq!(hours_back(&plan, 169), -2);
}

#[test]
fn candle_plan_marks() {
    let series = vec![
        Candle {
            time_ms: 1_700_000_000_000,
            open: d(false, 10, 0),
            high: d(false, 12, 0),
            low: d(false, 9, 0),
            close: d(false, 11, 0),
        },
        Candle {
            time_ms: 1_700_014_400_000,
            open: d(false, 11, 0),
            high: d(false, 11, 0),
            low: d(false, 8, 0),
            close: d(false, 9, 0),
        },
        Candle {
            time_ms: 1_700_028_800_000,
            open: d(false, 9, 0),
            high: d(false, 9, 0),
            low: d(false, 9, 0),
            close: d(false, 9, 0),
        },
    ];
    let plan = candle_plan(&series, String::from("eth.png")).unwrap();
    assert_eq!(plan.candles.len(), 3);
    assert_eq!(plan.candles[0].color, ChartColor::Green);
    assert_eq!(plan.candles[1].color, ChartColor::Red);
    assert_eq!(plan.candles[2].color, ChartColor::Red);
    assert_eq!(plan.candles[0].time_secs, 1_700_000_000);
    assert_eq!(plan.from_secs, 1_700_000_000 - 8 * 3600);
    assert_eq!(plan.to_secs, 1_700_028_800 + 8 * 3600);
    assert_eq!(plan.y_low, d(false, 9 * 95, 2));
    assert_eq!(plan.y_high, d(false, 11 * 105, 2));
    assert!(candle_plan(&vec![], String::from("x.png")).is_none());
}

#[test]
fn names_chart_files() {
    assert_eq!(chart_file("bitcoin", "20240101120000123456789"), "bitcoin_20240101120000123456789.png");
}

#[test]
fn resolves_requests() {
    let r = resolve_request("bitcoin", None, None, None);
    assert_eq!(r.coin_id, "bitcoin");
    assert_eq!(r.currency.code, "USD");
    assert_eq!(r.style, ChartStyle::Line);
    let r = resolve_request("niche", Some("  shiba inu coin "), Some("EUR"), Some(true));
    assert_eq!(r.coin_id, "shiba-inu-coin");
    assert_eq!(r.currency.code, "EUR");
    assert_eq!(r.style, ChartStyle::Candlestick);
    let r = resolve_request("ethereum", Some("ignored"), Some("???"), Some(false));
    assert_eq!(r.coin_id, "ethereum");
    assert_eq!(r.currency.code, "USD");
    assert_eq!(r.style, ChartStyle::Line);
    assert_eq!(coin_id_of_name(" a b "), "a-b");
}
