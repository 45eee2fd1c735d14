//! What a command asks for: the coin, the display currency and the chart style.

use vstd::prelude::*;
use crate::money::{is_iso_code, resolve_currency, DisplayCurrency};

verus! {

/// How the price chart is drawn.
#[derive(Clone, Copy, Debug, PartialEq, Eq, Structural)]
pub enum ChartStyle {
    /// A filled line of the seven-day sparkline that comes with the snapshot.
    Line,
    /// Candles of a separately fetched seven-day OHLC series.
    Candlestick,
}

/// One price request.
#[derive(Clone, Debug)]
pub struct Request {
    pub coin_id: String,
    pub currency: DisplayCurrency,
    pub style: ChartStyle,
}

/// What `str::trim` makes of a string.
pub uninterp spec fn trimmed_of(s: Seq<char>) -> Seq<char>;

/// Relies on `str::trim`: `s` without leading and trailing white space, which depends on
/// its characters alone.
#[verifier::external_body]
fn trimmed(s: &str) -> (r: &str)
    ensures
        r@ == trimmed_of(s@),
{
    s.trim()
}

/// `s` with each space replaced by a dash.
pub open spec fn dashed(s: Seq<char>) -> Seq<char> {
    s.map_values(|c: char| if c == ' ' { '-' } else { c })
}

/// A coin name as a coin id: trimmed, with its spaces turned into dashes.
pub open spec fn coin_id_text(name: Seq<char>) -> Seq<char> {
    dashed(trimmed_of(name))
}

/// The coin id for a coin name typed by the user.
pub fn coin_id_of_name(name: &str) -> (r: String)
    ensures
        r@ == coin_id_text(name@),
{
    let t = trimmed(name);
    let n = t.unicode_len();
    let mut out = String::new();
    let mut i: usize = 0;
    while i < n
        invariant
            n == t@.len(),
            i <= n,
            out@ == dashed(t@.subrange(0, i as int)),
        decreases n - i,
    {
        let c = t.get_char(i);
        if c == ' ' {
            proof { reveal_strlit("-"); }
            out.append("-");
        } else {
            out.append(t.substring_char(i, i + 1));
        }
        proof {
            assert(out@ =~= dashed(t@.subrange(0, i + 1)));
        }
        i = i + 1;
    }
    proof {
        assert(t@.subrange(0, n as int) =~= t@);
    }
    out
}

/// The coin a command is about: the `coin` argument of the `niche` command, the
/// command's own name otherwise.
pub open spec fn command_coin(command: Seq<char>, coin_arg: Option<Seq<char>>) -> Seq<char> {
    if command == "niche"@ {
        match coin_arg {
            Some(name) => coin_id_text(name),
            None => coin_id_text(""@),
        }
    } else {
        command
    }
}

/// The request a command makes. The currency is the one its `currency` argument names
/// when that is an ISO code (else the US dollar), and the chart is a candlestick
/// chart only when its `is_ohlc` argument is true.
pub fn resolve_request(
    command: &str,
    coin_arg: Option<&str>,
    currency_arg: Option<&str>,
    ohlc_arg: Option<bool>,
) -> (r: Request)
    ensures
        r.coin_id@ == command_coin(
            command@,
            match coin_arg {
                Some(a) => Some(a@),
                None => None,
            },
        ),
        r.currency.wf(),
        r.currency.code@ == (match currency_arg {
            Some(code) => if is_iso_code(code@) {
                code@
            } else {
                "USD"@
            },
            None => "USD"@,
        }),
        r.style == (if ohlc_arg == Some(true) {
            ChartStyle::Candlestick
        } else {
            ChartStyle::Line
        }),
{
    let niche = String::from_str("niche");
    let name = String::from_str(command);
    let coin_id = if name == niche {
        match coin_arg {
            Some(a) => coin_id_of_name(a),
            None => coin_id_of_name(""),
        }
    } else {
        name
    };
    let style = match ohlc_arg {
        Some(true) => ChartStyle::Candlestick,
        _ => ChartStyle::Line,
    };
    Request { coin_id, currency: resolve_currency(currency_arg), style }
}

} // verus!
