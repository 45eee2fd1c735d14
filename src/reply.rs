//! The reply to one price request: the card for a coin, or the error sentence.

use vstd::prelude::*;
use crate::coin::{Amount, Coin, MarketChange};
use crate::compose::{
    amount_text, change_text, homepage_link, homepage_link_text, short_description_text,
};
use crate::gecko::GeckoError;
use crate::money::DisplayCurrency;

verus! {

/// What can make a request fail.
#[derive(Clone, Copy, Debug, PartialEq, Eq, Structural)]
pub enum BotError {
    /// The price API failed.
    Gecko(GeckoError),
    /// The chart could not be drawn.
    RenderFailed,
    /// The snapshot lacks a figure that the card shows.
    FormatFailed,
}

impl BotError {
    /// The sentence sent back to the user in place of the card.
    pub open spec fn message_text(self) -> Seq<char> {
        match self {
            BotError::Gecko(e) => e.message_text(),
            BotError::RenderFailed => "Sorry, the price chart could not be drawn"@,
            BotError::FormatFailed => "Sorry, the market data for this coin is incomplete"@,
        }
    }

    pub fn message(&self) -> (r: String)
        ensures
            r@ == self.message_text(),
    {
        match self {
            BotError::Gecko(e) => e.message(),
            BotError::RenderFailed => String::from_str("Sorry, the price chart could not be drawn"),
            BotError::FormatFailed => String::from_str(
                "Sorry, the market data for this coin is incomplete",
            ),
        }
    }
}

/// One labelled field of the card.
#[derive(Clone, Debug)]
pub struct Field {
    pub name: String,
    pub value: String,
    pub inline: bool,
}

/// The card for a coin: a title linking to the homepage, a description, a thumbnail
/// and the labelled fields in order.
#[derive(Clone, Debug)]
pub struct Reply {
    pub title: String,
    pub title_url: String,
    pub description: String,
    pub thumbnail: String,
    pub fields: Vec<Field>,
}

/// The labels of the card's fields, in order.
pub open spec fn field_names() -> Seq<Seq<char>> {
    seq!["Price"@, "24h Volume"@, "Market Cap"@, "1h"@, "24h"@, "7d"@]
}

/// The texts of the card's fields, in order, as far as the snapshot has the figures.
pub open spec fn field_texts(coin: Coin, code: Seq<char>) -> Seq<Option<Seq<char>>> {
    seq![
        amount_text(coin, Amount::CurrentPrice, code),
        amount_text(coin, Amount::Volume24h, code),
        amount_text(coin, Amount::MarketCap, code),
        change_text(coin, MarketChange::PercentageChange1h, code),
        change_text(coin, MarketChange::PercentageChange24h, code),
        change_text(coin, MarketChange::PercentageChange7d, code),
    ]
}

/// The snapshot has all that the card shows: a homepage and every figure.
pub open spec fn card_complete(coin: Coin, code: Seq<char>) -> bool {
    &&& coin.links.homepage@.len() > 0
    &&& forall|k: int| 0 <= k < 6 ==> (#[trigger] field_texts(coin, code)[k]) is Some
}

/// `reply` is the card for `coin` in the currency with code `code`.
pub open spec fn is_card_for(reply: Reply, coin: Coin, code: Seq<char>) -> bool {
    &&& reply.title@ == coin.localization.en@
    &&& reply.title_url@ == homepage_link_text(coin.links.homepage@[0]@)
    &&& reply.description@ == short_description_text(coin.description.en@)
    &&& reply.thumbnail@ == coin.image.large@
    &&& reply.fields@.len() == 6
    &&& forall|k: int|
        0 <= k < 6 ==> {
            &&& (#[trigger] reply.fields@[k]).name@ == field_names()[k]
            &&& field_texts(coin, code)[k] == Some(reply.fields@[k].value@)
            &&& reply.fields@[k].inline
        }
}

fn field(name: &str, value: String) -> (r: Field)
    ensures
        r.name@ == name@,
        r.value@ == value@,
        r.inline,
{
    Field { name: String::from_str(name), value, inline: true }
}

/// Composes the card for `coin` in `currency`. It fails with `FormatFailed` exactly
/// when the snapshot lacks a homepage or one of the figures.
pub fn build_message(coin: &Coin, currency: &DisplayCurrency) -> (r: Result<Reply, BotError>)
    requires
        coin.wf(),
        currency.wf(),
    ensures
        r is Ok <==> card_complete(*coin, currency.code@),
        r is Ok ==> is_card_for(r->Ok_0, *coin, currency.code@),
        r is Err ==> r == Err::<Reply, BotError>(BotError::FormatFailed),
{
    let ghost texts = field_texts(*coin, currency.code@);
    if coin.links.homepage.len() == 0 {
        return Err(BotError::FormatFailed);
    }
    let price = match coin.get_formatted_amount(Amount::CurrentPrice, currency) {
        Some(v) => v,
        None => {
            assert(texts[0] is None);
            return Err(BotError::FormatFailed);
        },
    };
    let volume = match coin.get_formatted_amount(Amount::Volume24h, currency) {
        Some(v) => v,
        None => {
            assert(texts[1] is None);
            return Err(BotError::FormatFailed);
        },
    };
    let cap = match coin.get_formatted_amount(Amount::MarketCap, currency) {
        Some(v) => v,
        None => {
            assert(texts[2] is None);
            return Err(BotError::FormatFailed);
        },
    };
    let hour = match coin.get_formatted_change(MarketChange::PercentageChange1h, currency) {
        Some(v) => v,
        None => {
            assert(texts[3] is None);
            return Err(BotError::FormatFailed);
        },
    };
    let day = match coin.get_formatted_change(MarketChange::PercentageChange24h, currency) {
        Some(v) => v,
        None => {
            assert(texts[4] is None);
            return Err(BotError::FormatFailed);
        },
    };
    let week = match coin.get_formatted_change(MarketChange::PercentageChange7d, currency) {
        Some(v) => v,
        None => {
            assert(texts[5] is None);
            return Err(BotError::FormatFailed);
        },
    };
    let mut fields: Vec<Field> = Vec::new();
    fields.push(field("Price", price));
    fields.push(field("24h Volume", volume));
    fields.push(field("Market Cap", cap));
    fields.push(field("1h", hour));
    fields.push(field("24h", day));
    fields.push(field("7d", week));
    let reply = Reply {
        title: coin.localization.en.clone(),
        title_url: homepage_link(coin.links.homepage[0].as_str()),
        description: coin.get_short_description(),
        thumbnail: coin.image.large.clone(),
        fields,
    };
    proof {
        assert forall|k: int| 0 <= k < 6 implies (#[trigger] texts[k]) is Some by {
            if k == 0 {} else if k == 1 {} else if k == 2 {} else if k == 3 {} else if k == 4 {} else {}
        }
        assert(card_complete(*coin, currency.code@));
        assert forall|k: int|
            0 <= k < 6 implies {
                &&& (#[trigger] reply.fields@[k]).name@ == field_names()[k]
                &&& texts[k] == Some(reply.fields@[k].value@)
                &&& reply.fields@[k].inline
            } by {
            if k == 0 {} else if k == 1 {} else if k == 2 {} else if k == 3 {} else if k == 4 {} else {}
        }
    }
    Ok(reply)
}

} // verus!
