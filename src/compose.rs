//! Composition of the price card: the texts that a coin's snapshot shows in a
//! display currency.

use vstd::prelude::*;
use crate::coin::{Amount, Coin, CurrencyConversions, MarketChange};
use crate::decimal::Dec;
use crate::gecko::{lowercase, lowercase_of};
use crate::money::{money_text, DisplayCurrency};
use crate::text::{find_text, has_infix, occurs_at, signed_tenths, signed_tenths_text};

verus! {

/// What `regex` makes of `text` when every match of `pattern` is replaced by
/// `replacement` (`${n}` standing for the n-th group); `None` when the pattern does
/// not compile.
pub uninterp spec fn regex_replaced(
    pattern: Seq<char>,
    text: Seq<char>,
    replacement: Seq<char>,
) -> Option<Seq<char>>;

/// Relies on `regex::Regex::new`, which fails only on a pattern it cannot compile, and
/// on `Regex::replace_all` with a replacement string, which depend on their
/// arguments alone.
#[verifier::external_body]
fn replace_all_matches(pattern: &str, text: &str, replacement: &str) -> (r: Option<String>)
    ensures
        r is Some <==> regex_replaced(pattern@, text@, replacement@) is Some,
        r is Some ==> regex_replaced(pattern@, text@, replacement@) == Some(r->0@),
{
    match regex::Regex::new(pattern) {
        Ok(re) => Some(re.replace_all(text, replacement).into_owned()),
        Err(_) => None,
    }
}

/// An HTML anchor, with the link and the linked text as its two groups.
pub open spec fn anchor_pattern() -> Seq<char> {
    "<a href=\"(.+?)\">(.+?)</a>"@
}

/// A markdown link to the same place.
pub open spec fn link_template() -> Seq<char> {
    "[${2}](${1})"@
}

/// What separates paragraphs in a coin's description.
pub open spec fn paragraph_break() -> Seq<char> {
    "\r\n\r\n"@
}

/// `i` is the first position at which `pat` occurs in `s`.
pub open spec fn is_first_occurrence(s: Seq<char>, pat: Seq<char>, i: int) -> bool {
    occurs_at(s, pat, i) && forall|j: int| 0 <= j < i ==> !occurs_at(s, pat, j)
}

/// The text before the first paragraph break, or all of it.
pub open spec fn first_paragraph(s: Seq<char>) -> Seq<char> {
    if exists|i: int| is_first_occurrence(s, paragraph_break(), i) {
        s.subrange(0, choose|i: int| is_first_occurrence(s, paragraph_break(), i))
    } else {
        s
    }
}

/// The first paragraph with its HTML anchors written as markdown links.
pub open spec fn short_description_text(description: Seq<char>) -> Seq<char> {
    match regex_replaced(anchor_pattern(), first_paragraph(description), link_template()) {
        Some(t) => t,
        None => first_paragraph(description),
    }
}

pub open spec fn is_ascii_letter(c: char) -> bool {
    ('a' <= c && c <= 'z') || ('A' <= c && c <= 'Z')
}

/// A character that may follow the first letter of a URI scheme.
pub open spec fn is_scheme_char(c: char) -> bool {
    is_ascii_letter(c) || ('0' <= c && c <= '9') || c == '+' || c == '-' || c == '.'
}

/// `s` starts with a URI scheme whose `:` stands at `k`: a letter, then letters,
/// digits, `+`, `-` or `.`.
pub open spec fn scheme_ends_at(s: Seq<char>, k: int) -> bool {
    &&& 1 <= k < s.len()
    &&& s[k] == ':'
    &&& is_ascii_letter(s[0])
    &&& forall|i: int| 1 <= i < k ==> is_scheme_char(#[trigger] s[i])
}

/// `s` starts with a URI scheme (`https:`, `http:`, `ftp:`).
pub open spec fn has_scheme(s: Seq<char>) -> bool {
    exists|k: int| scheme_ends_at(s, k)
}

/// A homepage address as a link: with `https://` put before it when it lacks a scheme.
pub open spec fn homepage_link_text(homepage: Seq<char>) -> Seq<char> {
    if has_scheme(homepage) {
        homepage
    } else {
        "https://"@ + homepage
    }
}

/// The amount field's text: the figure in the currency, in a code block.
pub open spec fn amount_text(coin: Coin, amount: Amount, code: Seq<char>) -> Option<Seq<char>> {
    match coin.market_data.amount_figures(amount).value_for(lowercase_of(code)) {
        Some(v) => Some("```"@ + money_text(v.negative, v.mantissa, v.scale, code) + "```"@),
        None => None,
    }
}

/// The change field's text: the signed percentage with one decimal, in a diff block.
pub open spec fn change_text(coin: Coin, change: MarketChange, code: Seq<char>) -> Option<Seq<char>> {
    match coin.market_data.change_figures(change).value_for(lowercase_of(code)) {
        Some(v) => Some("```diff\n"@ + signed_tenths_text(v) + "%```"@),
        None => None,
    }
}

/// The first paragraph of `s`.
pub fn first_paragraph_of(s: &str) -> (r: &str)
    ensures
        r@ == first_paragraph(s@),
{
    match find_text(s, "\r\n\r\n") {
        Some(i) => {
            proof {
                assert(is_first_occurrence(s@, paragraph_break(), i as int));
                let k = choose|k: int| is_first_occurrence(s@, paragraph_break(), k);
                if k < i {
                    assert(!occurs_at(s@, paragraph_break(), k));
                } else if k > i {
                    assert(!occurs_at(s@, paragraph_break(), i as int));
                }
            }
            s.substring_char(0, i)
        },
        None => {
            proof {
                if exists|i: int| is_first_occurrence(s@, paragraph_break(), i) {
                    let k = choose|k: int| is_first_occurrence(s@, paragraph_break(), k);
                    assert(has_infix(s@, paragraph_break()));
                }
            }
            s
        },
    }
}

fn is_letter(c: char) -> (r: bool)
    ensures
        r == is_ascii_letter(c),
{
    ('a' <= c && c <= 'z') || ('A' <= c && c <= 'Z')
}

/// Whether `s` starts with a URI scheme.
pub fn starts_with_scheme(s: &str) -> (r: bool)
    ensures
        r == has_scheme(s@),
{
    let n = s.unicode_len();
    if n == 0 {
        return false;
    }
    if !is_letter(s.get_char(0)) {
        proof {
            assert forall|k: int| !scheme_ends_at(s@, k) by {}
        }
        return false;
    }
    let mut i: usize = 1;
    while i < n
        invariant
            n == s@.len(),
            1 <= i <= n,
            is_ascii_letter(s@[0]),
            forall|j: int| 1 <= j < i ==> is_scheme_char(#[trigger] s@[j]),
        decreases n - i,
    {
        let c = s.get_char(i);
        if c == ':' {
            assert(scheme_ends_at(s@, i as int));
            return true;
        }
        if !(is_letter(c) || ('0' <= c && c <= '9') || c == '+' || c == '-' || c == '.') {
            proof {
                assert forall|k: int| !scheme_ends_at(s@, k) by {
                    if scheme_ends_at(s@, k) {
                        if k > i {
                            assert(is_scheme_char(s@[i as int]));
                        } else if k < i {
                            assert(is_scheme_char(s@[k]));
                        }
                    }
                }
            }
            return false;
        }
        i = i + 1;
    }
    proof {
        assert forall|k: int| !scheme_ends_at(s@, k) by {
            if scheme_ends_at(s@, k) {
                assert(is_scheme_char(s@[k]));
            }
        }
    }
    false
}

/// The link for a homepage address.
pub fn homepage_link(homepage: &str) -> (r: String)
    ensures
        r@ == homepage_link_text(homepage@),
{
    if starts_with_scheme(homepage) {
        String::from_str(homepage)
    } else {
        let mut link = String::from_str("https://");
        link.append(homepage);
        link
    }
}

/// The figure in `conversions` for `currency`, looked up by its lowercase code.
fn figure_in(conversions: &CurrencyConversions, currency: &DisplayCurrency) -> (r: Option<Dec>)
    requires
        conversions.wf(),
    ensures
        r == conversions.value_for(lowercase_of(currency.code@)),
        r is Some ==> r->0.wf(),
{
    let key = lowercase(currency.code.as_str());
    conversions.get(&key)
}

impl Coin {
    /// The first paragraph of the English description, with links in markdown.
    pub fn get_short_description(&self) -> (r: String)
        ensures
            r@ == short_description_text(self.description.en@),
    {
        let paragraph = first_paragraph_of(self.description.en.as_str());
        match replace_all_matches("<a href=\"(.+?)\">(.+?)</a>", paragraph, "[${2}](${1})") {
            Some(t) => t,
            None => String::from_str(paragraph),
        }
    }

    /// An amount in `currency`; `None` when the snapshot has no figure in it.
    pub fn get_formatted_amount(&self, amount: Amount, currency: &DisplayCurrency) -> (r: Option<
        String,
    >)
        requires
            self.wf(),
            currency.wf(),
        ensures
            r is Some <==> amount_text(*self, amount, currency.code@) is Some,
            r is Some ==> amount_text(*self, amount, currency.code@) == Some(r->0@),
    {
        match figure_in(self.market_data.amounts(amount), currency) {
            Some(v) => {
                let mut s = String::from_str("```");
                let money = currency.format(&v);
                s.append(money.as_str());
                s.append("```");
                Some(s)
            },
            None => None,
        }
    }

    /// A percentage change in `currency`; `None` when the snapshot has no figure in it.
    pub fn get_formatted_change(&self, change: MarketChange, currency: &DisplayCurrency) -> (r:
        Option<String>)
        requires
            self.wf(),
        ensures
            r is Some <==> change_text(*self, change, currency.code@) is Some,
            r is Some ==> change_text(*self, change, currency.code@) == Some(r->0@),
    {
        match figure_in(self.market_data.changes(change), currency) {
            Some(v) => {
                let mut s = String::from_str("```diff\n");
                let pct = signed_tenths(&v);
                s.append(pct.as_str());
                s.append("%```");
                Some(s)
            },
            None => None,
        }
    }
}

} // verus!
