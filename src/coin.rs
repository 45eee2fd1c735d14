//! The market data of one coin, as the price API describes it.

use vstd::prelude::*;
use crate::decimal::Dec;

verus! {

/// Links to a coin's pictures.
#[derive(Clone, Debug)]
pub struct Image {
    pub thumb: String,
    pub small: String,
    pub large: String,
}

/// A text in each language the price API offers.
#[derive(Clone, Debug)]
pub struct Localization {
    pub en: String,
    pub de: String,
    pub es: String,
    pub fr: String,
    pub it: String,
    pub pl: String,
    pub ro: String,
    pub hu: String,
    pub nl: String,
    pub pt: String,
    pub sv: String,
    pub vi: String,
    pub tr: String,
    pub ru: String,
    pub ja: String,
    pub zh: String,
    pub zh_tw: String,
    pub ko: String,
    pub ar: String,
    pub th: String,
    pub id: String,
    pub cs: String,
    pub da: String,
    pub el: String,
    pub hi: String,
    pub no: String,
    pub sk: String,
    pub uk: String,
    pub he: String,
    pub fi: String,
    pub bg: String,
    pub hr: String,
    pub lt: String,
    pub sl: String,
}

/// A coin's places on the web.
#[derive(Clone, Debug)]
pub struct Links {
    pub homepage: Vec<String>,
    pub blockchain_site: Vec<String>,
    pub official_forum_url: Vec<String>,
    pub chat_url: Vec<String>,
    pub announcement_url: Vec<String>,
    pub subreddit_url: Option<String>,
}

/// One figure in one currency, keyed by the currency's lowercase code (`usd`, `eur`).
#[derive(Clone, Debug)]
pub struct Conversion {
    pub code: String,
    pub value: Dec,
}

/// One figure in each currency the price API converts to.
#[derive(Clone, Debug)]
pub struct CurrencyConversions {
    pub entries: Vec<Conversion>,
}

/// The value of the first entry keyed by `key`, from position `i` on.
pub open spec fn first_value_from(entries: Seq<Conversion>, key: Seq<char>, i: int) -> Option<Dec>
    decreases entries.len() - i,
{
    if i < 0 || i >= entries.len() {
        None
    } else if entries[i].code@ == key {
        Some(entries[i].value)
    } else {
        first_value_from(entries, key, i + 1)
    }
}

impl CurrencyConversions {
    pub open spec fn wf(&self) -> bool {
        forall|i: int| 0 <= i < self.entries@.len() ==> (#[trigger] self.entries@[i]).value.wf()
    }

    pub fn in_range(&self) -> (r: bool)
        ensures
            r == self.wf(),
    {
        let mut i: usize = 0;
        while i < self.entries.len()
            invariant
                i <= self.entries@.len(),
                forall|j: int| 0 <= j < i ==> (#[trigger] self.entries@[j]).value.wf(),
            decreases self.entries@.len() - i,
        {
            if !self.entries[i].value.in_range() {
                return false;
            }
            i = i + 1;
        }
        true
    }

    /// The figure for the currency keyed by `key`: the first entry with that key.
    pub open spec fn value_for(&self, key: Seq<char>) -> Option<Dec> {
        first_value_from(self.entries@, key, 0)
    }

    pub fn get(&self, key: &String) -> (r: Option<Dec>)
        requires
            self.wf(),
        ensures
            r == self.value_for(key@),
            r is Some ==> r->0.wf(),
    {
        let mut i: usize = 0;
        while i < self.entries.len()
            invariant
                self.wf(),
                i <= self.entries@.len(),
                first_value_from(self.entries@, key@, 0) == first_value_from(
                    self.entries@,
                    key@,
                    i as int,
                ),
            decreases self.entries@.len() - i,
        {
            let entry = &self.entries[i];
            if entry.code == *key {
                return Some(entry.value);
            }
            i = i + 1;
        }
        None
    }
}

/// A price series.
#[derive(Clone, Debug)]
pub struct Sparkline {
    pub price: Vec<Dec>,
}

/// The market figures of a coin.
#[derive(Clone, Debug)]
pub struct MarketData {
    pub current_price: CurrencyConversions,
    pub market_cap: CurrencyConversions,
    pub total_volume: CurrencyConversions,
    pub price_change_percentage_1h_in_currency: CurrencyConversions,
    pub price_change_percentage_24h_in_currency: CurrencyConversions,
    pub price_change_percentage_7d_in_currency: CurrencyConversions,
    /// Hourly prices over the last seven days, in US dollars, oldest first.
    pub sparkline_7d: Sparkline,
}

/// A point-in-time snapshot of one coin.
#[derive(Clone, Debug)]
pub struct Coin {
    pub id: String,
    pub symbol: String,
    pub name: String,
    pub hashing_algorithm: Option<String>,
    pub localization: Localization,
    pub description: Localization,
    pub links: Links,
    pub image: Image,
    pub market_data: MarketData,
}

/// A coin as the coin lists name it.
#[derive(Clone, Debug)]
pub struct CoinInfo {
    pub id: String,
    pub symbol: String,
    pub name: String,
}

impl CoinInfo {
    /// The description of the slash command for this coin.
    pub open spec fn command_description_text(&self) -> Seq<char> {
        "Fetch price info for "@ + self.name@ + " ("@ + self.symbol@ + ")"@
    }

    pub fn command_description(&self) -> (r: String)
        ensures
            r@ == self.command_description_text(),
    {
        let mut s = String::from_str("Fetch price info for ");
        s.append(self.name.as_str());
        s.append(" (");
        s.append(self.symbol.as_str());
        s.append(")");
        s
    }
}

/// Which percentage change to show.
#[derive(Clone, Copy, Debug, PartialEq, Eq, Structural)]
pub enum MarketChange {
    PercentageChange1h,
    PercentageChange24h,
    PercentageChange7d,
}

/// Which amount to show.
#[derive(Clone, Copy, Debug, PartialEq, Eq, Structural)]
pub enum Amount {
    CurrentPrice,
    Volume24h,
    MarketCap,
}

impl MarketData {
    pub open spec fn wf(&self) -> bool {
        &&& self.current_price.wf()
        &&& self.market_cap.wf()
        &&& self.total_volume.wf()
        &&& self.price_change_percentage_1h_in_currency.wf()
        &&& self.price_change_percentage_24h_in_currency.wf()
        &&& self.price_change_percentage_7d_in_currency.wf()
        &&& forall|i: int|
            0 <= i < self.sparkline_7d.price@.len() ==> (#[trigger] self.sparkline_7d.price@[i]).wf()
    }

    pub fn in_range(&self) -> (r: bool)
        ensures
            r == self.wf(),
    {
        if !(self.current_price.in_range() && self.market_cap.in_range()
            && self.total_volume.in_range()
            && self.price_change_percentage_1h_in_currency.in_range()
            && self.price_change_percentage_24h_in_currency.in_range()
            && self.price_change_percentage_7d_in_currency.in_range()) {
            return false;
        }
        let prices = &self.sparkline_7d.price;
        let mut i: usize = 0;
        while i < prices.len()
            invariant
                prices == &self.sparkline_7d.price,
                i <= prices@.len(),
                forall|j: int| 0 <= j < i ==> (#[trigger] prices@[j]).wf(),
            decreases prices@.len() - i,
        {
            if !prices[i].in_range() {
                return false;
            }
            i = i + 1;
        }
        true
    }

    pub open spec fn amount_figures(&self, amount: Amount) -> CurrencyConversions {
        match amount {
            Amount::CurrentPrice => self.current_price,
            Amount::Volume24h => self.total_volume,
            Amount::MarketCap => self.market_cap,
        }
    }

    pub open spec fn change_figures(&self, change: MarketChange) -> CurrencyConversions {
        match change {
            MarketChange::PercentageChange1h => self.price_change_percentage_1h_in_currency,
            MarketChange::PercentageChange24h => self.price_change_percentage_24h_in_currency,
            MarketChange::PercentageChange7d => self.price_change_percentage_7d_in_currency,
        }
    }

    pub fn amounts(&self, amount: Amount) -> (r: &CurrencyConversions)
        ensures
            *r == self.amount_figures(amount),
    {
        match amount {
            Amount::CurrentPrice => &self.current_price,
            Amount::Volume24h => &self.total_volume,
            Amount::MarketCap => &self.market_cap,
        }
    }

    pub fn changes(&self, change: MarketChange) -> (r: &CurrencyConversions)
        ensures
            *r == self.change_figures(change),
    {
        match change {
            MarketChange::PercentageChange1h => &self.price_change_percentage_1h_in_currency,
            MarketChange::PercentageChange24h => &self.price_change_percentage_24h_in_currency,
            MarketChange::PercentageChange7d => &self.price_change_percentage_7d_in_currency,
        }
    }
}

impl Coin {
    pub open spec fn wf(&self) -> bool {
        self.market_data.wf()
    }

    /// Whether every figure of the snapshot is within decimal range.
    pub fn in_range(&self) -> (r: bool)
        ensures
            r == self.wf(),
    {
        self.market_data.in_range()
    }
}

} // verus!
