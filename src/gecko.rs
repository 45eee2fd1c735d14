//! The price API: its error taxonomy, the reading of a response's status, and the
//! addresses of its endpoints.

use vstd::prelude::*;
use crate::text::{digits_of, push_digits};

verus! {

/// What can go wrong when asking the price API.
#[derive(Clone, Copy, Debug, PartialEq, Eq, Structural)]
pub enum GeckoError {
    CoinNotFoundError,
    LimitError,
    ParseError,
    UnknownError,
}

impl GeckoError {
    /// The sentence shown to the user for this error.
    pub open spec fn message_text(self) -> Seq<char> {
        match self {
            GeckoError::CoinNotFoundError => "Coin not found! Try its full name, eg. bitcoin"@,
            GeckoError::LimitError => "Uh-oh! Seems like I've reached the API limit"@,
            GeckoError::ParseError => "Whoops! An expected parse error occured"@,
            GeckoError::UnknownError => "An unknown API error occured"@,
        }
    }

    pub fn message(&self) -> (r: String)
        ensures
            r@ == self.message_text(),
    {
        match self {
            GeckoError::CoinNotFoundError => String::from_str(
                "Coin not found! Try its full name, eg. bitcoin",
            ),
            GeckoError::LimitError => String::from_str(
                "Uh-oh! Seems like I've reached the API limit",
            ),
            GeckoError::ParseError => String::from_str("Whoops! An expected parse error occured"),
            GeckoError::UnknownError => String::from_str("An unknown API error occured"),
        }
    }
}

/// What a response of the price API means: `status` is `None` when no response came
/// back at all, and `body` is `None` when the body did not have the expected shape.
pub open spec fn response_outcome<T>(status: Option<u16>, body: Option<T>) -> Result<T, GeckoError> {
    match status {
        Some(200) => match body {
            Some(t) => Ok(t),
            None => Err(GeckoError::ParseError),
        },
        Some(404) => Err(GeckoError::CoinNotFoundError),
        Some(401) => Err(GeckoError::LimitError),
        _ => Err(GeckoError::UnknownError),
    }
}

/// Reads a response of the price API. An unknown coin (404) is always reported as
/// not found, never as an unknown failure.
pub fn read_response<T>(status: Option<u16>, body: Option<T>) -> (r: Result<T, GeckoError>)
    ensures
        r == response_outcome(status, body),
        status == Some(404u16) ==> r == Err::<T, GeckoError>(GeckoError::CoinNotFoundError),
{
    match status {
        Some(200) => match body {
            Some(t) => Ok(t),
            None => Err(GeckoError::ParseError),
        },
        Some(404) => Err(GeckoError::CoinNotFoundError),
        Some(401) => Err(GeckoError::LimitError),
        _ => Err(GeckoError::UnknownError),
    }
}

/// What `str::to_lowercase` makes of a string.
pub uninterp spec fn lowercase_of(s: Seq<char>) -> Seq<char>;

/// Relies on `str::to_lowercase`: the lowercase form of `s`, which depends on its
/// characters alone.
#[verifier::external_body]
pub(crate) fn lowercase(s: &str) -> (r: String)
    ensures
        r@ == lowercase_of(s@),
{
    s.to_lowercase()
}

/// The address of a coin's snapshot, with its seven-day sparkline.
pub open spec fn coin_url_text(coin: Seq<char>) -> Seq<char> {
    "https://api.coingecko.com/api/v3/coins/"@ + lowercase_of(coin) + "?sparkline=true"@
}

/// The address of a coin's seven-day OHLC series, in US dollars.
pub open spec fn ohlc_url_text(coin: Seq<char>) -> Seq<char> {
    "https://api.coingecko.com/api/v3/coins/"@ + lowercase_of(coin)
        + "/ohlc?vs_currency=usd&days=7"@
}

/// The address of the first page of the most followed coins, `count` to a page.
pub open spec fn top_coins_url_text(count: nat) -> Seq<char> {
    "https://api.coingecko.com/api/v3/coins/markets?vs_currency=usd&order=gecko_desc&per_page="@
        + digits_of(count) + "&page=1&sparkline=false"@
}

/// The address of the list of every coin.
pub open spec fn coin_list_url_text() -> Seq<char> {
    "https://api.coingecko.com/api/v3/coins/list"@
}

pub fn coin_url(coin: &str) -> (r: String)
    ensures
        r@ == coin_url_text(coin@),
{
    let mut url = String::from_str("https://api.coingecko.com/api/v3/coins/");
    let id = lowercase(coin);
    url.append(id.as_str());
    url.append("?sparkline=true");
    url
}

pub fn ohlc_url(coin: &str) -> (r: String)
    ensures
        r@ == ohlc_url_text(coin@),
{
    let mut url = String::from_str("https://api.coingecko.com/api/v3/coins/");
    let id = lowercase(coin);
    url.append(id.as_str());
    url.append("/ohlc?vs_currency=usd&days=7");
    url
}

pub fn top_coins_url(count: u8) -> (r: String)
    ensures
        r@ == top_coins_url_text(count as nat),
{
    let mut url = String::from_str(
        "https://api.coingecko.com/api/v3/coins/markets?vs_currency=usd&order=gecko_desc&per_page=",
    );
    push_digits(&mut url, count as u128);
    url.append("&page=1&sparkline=false");
    url
}

pub fn coin_list_url() -> (r: String)
    ensures
        r@ == coin_list_url_text(),
{
    String::from_str("https://api.coingecko.com/api/v3/coins/list")
}

} // verus!
