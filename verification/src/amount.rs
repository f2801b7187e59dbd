//! Taler amounts — fixed-precision currency strings, never binary floating
//! point.
//!
//! Wire format: `CURRENCY:VALUE` where:
//! - `CURRENCY` is 1–11 ASCII letters (`a-zA-Z`)
//! - integer part of `VALUE` is ≤ 2⁵²
//! - fractional part has at most 8 digits
//! - trailing/leading dots are rejected (`EUR:1.`, `EUR:.1`)

use crate::error::MerchantError;
use crate::text::{self, all_ascii_alpha, all_ascii_digits, digit_of, split_once_str, trim_str};
use vstd::prelude::*;

verus! {

/// Maximum integer units allowed in a Taler amount (`2^52`).
pub const MAX_AMOUNT_VALUE: u64 = 4503599627370496;

/// Maximum length of a currency code.
pub const MAX_CURRENCY_LEN: usize = 11;

/// Maximum fractional decimal digits.
pub const MAX_FRACTIONAL_DIGITS: usize = 8;

/// A currency code: 1 to 11 ASCII letters.
pub open spec fn valid_currency(c: Seq<char>) -> bool {
    &&& 1 <= c.len() <= MAX_CURRENCY_LEN
    &&& forall|i: int| 0 <= i < c.len() ==> text::is_ascii_alpha(#[trigger] c[i])
}

/// Integer part of an amount value: non-empty, decimal digits, at most 2^52.
pub open spec fn valid_integer_part(s: Seq<char>) -> bool {
    &&& s.len() >= 1
    &&& text::all_digits(s)
    &&& text::digits_value(s) <= MAX_AMOUNT_VALUE
}

/// Value part of an amount: `INT` or `INT.FRAC` with 1 to 8 fractional digits.
pub open spec fn valid_decimal(v: Seq<char>) -> bool {
    match text::split_once(v, '.') {
        None => valid_integer_part(v),
        Some((i, f)) => {
            &&& valid_integer_part(i)
            &&& 1 <= f.len() <= MAX_FRACTIONAL_DIGITS
            &&& text::all_digits(f)
        },
    }
}

/// What `Amount::parse` accepts: after trimming, `CURRENCY:VALUE` split at the
/// first `:`, both parts valid. Gives the two parts.
pub open spec fn amount_parts(s: Seq<char>) -> Option<(Seq<char>, Seq<char>)> {
    match text::split_once(text::trim(s), ':') {
        None => None,
        Some((c, v)) => if valid_currency(c) && valid_decimal(v) {
            Some((c, v))
        } else {
            None
        },
    }
}

/// Wire text `CURRENCY:VALUE` of the parts of an amount.
pub open spec fn amount_text(parts: (Seq<char>, Seq<char>)) -> Seq<char> {
    parts.0 + seq![':'] + parts.1
}

/// A monetary amount in Taler wire format.
///
/// Values are stored as validated strings so arithmetic never goes through
/// binary floating point.
#[derive(Debug, PartialEq, Eq, Hash)]
pub struct Amount {
    currency: String,
    /// Canonical value text without a leading `+`/`-` (unsigned amount).
    value: String,
}

impl View for Amount {
    type V = (Seq<char>, Seq<char>);

    /// Currency and value text.
    closed spec fn view(&self) -> (Seq<char>, Seq<char>) {
        (self.currency@, self.value@)
    }
}

impl Amount {
    #[verifier::type_invariant]
    spec fn wf(self) -> bool {
        valid_currency(self.currency@) && valid_decimal(self.value@)
    }

    /// Parse and validate a Taler amount string per the common API grammar.
    ///
    /// Fails with [`MerchantError::InvalidAmount`] carrying the input if the
    /// string is malformed.
    pub fn parse(s: &str) -> (r: Result<Amount, MerchantError>)
        ensures
            match r {
                Ok(a) => amount_parts(s@) == Some(a@),
                Err(e) => amount_parts(s@) is None && (e matches MerchantError::InvalidAmount(m)
                    && m@ == s@),
            },
    {
        let t = trim_str(s);
        match split_once_str(t, ':') {
            None => Err(MerchantError::InvalidAmount(String::from_str(s))),
            Some((currency, value)) => {
                if !is_valid_currency(currency) {
                    return Err(MerchantError::InvalidAmount(String::from_str(s)));
                }
                if !is_valid_unsigned_decimal(value) {
                    return Err(MerchantError::InvalidAmount(String::from_str(s)));
                }
                let a = Amount { currency: String::from_str(currency), value: String::from_str(value) };
                assert(a@ == (currency@, value@));
                Ok(a)
            },
        }
    }

    /// Currency code (e.g. `KUDOS` or `EUR`).
    pub fn currency(&self) -> (r: &str)
        ensures
            r@ == self@.0,
    {
        self.currency.as_str()
    }

    /// Decimal value portion (e.g. `10` or `1.50`).
    pub fn value(&self) -> (r: &str)
        ensures
            r@ == self@.1,
    {
        self.value.as_str()
    }

    /// Canonical wire form `CURRENCY:value`; parsing it gives this amount back.
    pub fn as_str(&self) -> (r: String)
        ensures
            r@ == amount_text(self@),
            amount_parts(r@) == Some(self@),
    {
        proof {
            use_type_invariant(self);
            lemma_amount_text_parses(self@);
        }
        let mut out = String::from_str(self.currency.as_str());
        out.append(":");
        out.append(self.value.as_str());
        proof {
            reveal_strlit(":");
        }
        assert(out@ =~= amount_text(self@));
        out
    }

    /// The wire form `CURRENCY:value` (what the amount displays as).
    pub fn to_string(&self) -> (r: String)
        ensures
            r@ == amount_text(self@),
    {
        self.as_str()
    }

    /// The debug form `Amount(CURRENCY:value)`.
    pub fn to_debug_string(&self) -> (r: String)
        ensures
            r@ == "Amount("@ + amount_text(self@) + ")"@,
    {
        let mut out = String::from_str("Amount(");
        let text = self.as_str();
        out.append(text.as_str());
        out.append(")");
        out
    }
}

impl std::str::FromStr for Amount {
    type Err = MerchantError;

    fn from_str(s: &str) -> (r: Result<Self, Self::Err>)
        ensures
            match r {
                Ok(a) => amount_parts(s@) == Some(a@),
                Err(e) => amount_parts(s@) is None && (e matches MerchantError::InvalidAmount(m)
                    && m@ == s@),
            },
    {
        Self::parse(s)
    }
}

impl Clone for Amount {
    fn clone(&self) -> (r: Self)
        ensures
            r@ == self@,
    {
        proof {
            use_type_invariant(self);
        }
        Amount { currency: self.currency.clone(), value: self.value.clone() }
    }
}

fn is_valid_currency(currency: &str) -> (b: bool)
    ensures
        b == valid_currency(currency@),
{
    let len = currency.unicode_len();
    if len < 1 || len > MAX_CURRENCY_LEN {
        return false;
    }
    all_ascii_alpha(currency)
}

fn is_valid_integer_part(s: &str) -> (b: bool)
    ensures
        b == valid_integer_part(s@),
{
    let n = s.unicode_len();
    if n == 0 || !all_ascii_digits(s) {
        return false;
    }
    let mut acc: u64 = 0;
    let mut i: usize = 0;
    while i < n
        invariant
            n == s@.len(),
            text::all_digits(s@),
            i <= n,
            acc == text::digits_value(s@.take(i as int)),
            acc <= MAX_AMOUNT_VALUE,
        decreases n - i,
    {
        let c = s.get_char(i);
        let d = digit_of(c);
        proof {
            text::lemma_digits_value_step(s@, i as int);
        }
        acc = acc * 10 + d;
        i = i + 1;
        if acc > MAX_AMOUNT_VALUE {
            proof {
                text::lemma_digits_value_grows(s@, i as int);
            }
            return false;
        }
    }
    assert(s@.take(n as int) =~= s@);
    true
}

fn is_valid_unsigned_decimal(value: &str) -> (b: bool)
    ensures
        b == valid_decimal(value@),
{
    match split_once_str(value, '.') {
        None => is_valid_integer_part(value),
        Some((int_part, frac_part)) => {
            if !is_valid_integer_part(int_part) {
                return false;
            }
            let flen = frac_part.unicode_len();
            flen >= 1 && flen <= MAX_FRACTIONAL_DIGITS && all_ascii_digits(frac_part)
        },
    }
}

/// Law: an accepted amount string is, up to surrounding whitespace, the wire
/// text of the amount it parses to.
pub proof fn law_parse_keeps_trimmed_text(s: Seq<char>)
    ensures
        amount_parts(s) matches Some(p) ==> amount_text(p) == text::trim(s),
{
    let t = text::trim(s);
    text::lemma_split_once_shape(t, ':');
    if let Some(p) = amount_parts(s) {
        let k = text::char_pos(t, ':').unwrap();
        assert(t =~= t.take(k) + seq![':'] + t.skip(k + 1));
    }
}

/// Law: rendering a parsed amount and parsing the text again gives the same
/// amount (parse after render is the identity on accepted values).
pub proof fn law_render_parse_roundtrip(s: Seq<char>)
    ensures
        amount_parts(s) matches Some(p) ==> amount_parts(amount_text(p)) == Some(p),
{
    if let Some(p) = amount_parts(s) {
        lemma_amount_text_parses(p);
    }
}

proof fn lemma_amount_text_parses(p: (Seq<char>, Seq<char>))
    requires
        valid_currency(p.0),
        valid_decimal(p.1),
    ensures
        amount_parts(amount_text(p)) == Some(p),
{
    let t = amount_text(p);
    assert forall|i: int| 0 <= i < t.len() implies !text::is_ws(#[trigger] t[i]) by {
        if i < p.0.len() {
            assert(t[i] == p.0[i]);
            assert(text::is_ascii_alpha(p.0[i]));
        } else if i == p.0.len() {
            assert(t[i] == ':');
        } else {
            assert(t[i] == p.1[i - p.0.len() - 1]);
            lemma_decimal_chars(p.1, i - p.0.len() - 1);
        }
    }
    text::lemma_trim_no_ws(t);
    assert forall|i: int| 0 <= i < p.0.len() implies t[i] != ':' by {
        assert(t[i] == p.0[i]);
        assert(text::is_ascii_alpha(p.0[i]));
    }
    assert(t[p.0.len() as int] == ':');
    text::lemma_split_once_at(t, ':', p.0.len() as int);
    assert(t.take(p.0.len() as int) =~= p.0);
    assert(t.skip(p.0.len() as int + 1) =~= p.1);
}

/// Every character of a valid amount value is a digit or `.`.
proof fn lemma_decimal_chars(v: Seq<char>, k: int)
    requires
        valid_decimal(v),
        0 <= k < v.len(),
    ensures
        text::is_ascii_digit(v[k]) || v[k] == '.',
{
    match text::split_once(v, '.') {
        None => {},
        Some((i, f)) => {
            text::lemma_split_once_shape(v, '.');
            let p = text::char_pos(v, '.').unwrap() as int;
            if k < p {
                assert(v[k] == i[k]);
            } else if k > p {
                assert(v[k] == f[k - p - 1]);
            }
        },
    }
}

/// Law: every value made of an integer part (1 or more decimal digits worth
/// at most 2^52) and, optionally, a dot followed by 1 to 8 decimal digits —
/// any digits, zeros included — is accepted; with a currency of 1 to 11 ASCII
/// letters, the amount text parses to exactly that currency and value.
pub proof fn law_digit_values_accepted(c: Seq<char>, i: Seq<char>, f: Seq<char>)
    requires
        1 <= c.len() <= 11,
        forall|k: int| 0 <= k < c.len() ==> ('a' <= #[trigger] c[k] && c[k] <= 'z') || ('A' <= c[k] && c[k] <= 'Z'),
        1 <= i.len(),
        forall|k: int| 0 <= k < i.len() ==> '0' <= #[trigger] i[k] && i[k] <= '9',
        text::digits_value(i) <= 4503599627370496,
        1 <= f.len() <= 8,
        forall|k: int| 0 <= k < f.len() ==> '0' <= #[trigger] f[k] && f[k] <= '9',
    ensures
        valid_decimal(i),
        amount_parts(c + seq![':'] + i) == Some((c, i)),
        valid_decimal(i + seq!['.'] + f),
        amount_parts(c + seq![':'] + i + seq!['.'] + f) == Some((c, i + seq!['.'] + f)),
{
    text::lemma_char_pos(i, '.', i.len() as int);
    assert(valid_decimal(i));
    let v = i + seq!['.'] + f;
    assert(v[i.len() as int] == '.');
    assert forall|k: int| 0 <= k < i.len() implies #[trigger] v[k] != '.' by {
        assert(v[k] == i[k]);
    }
    text::lemma_split_once_at(v, '.', i.len() as int);
    assert(v.take(i.len() as int) =~= i);
    assert(v.skip(i.len() as int + 1) =~= f);
    assert(valid_decimal(v));
    lemma_amount_text_parses((c, i));
    lemma_amount_text_parses((c, v));
    assert(amount_text((c, i)) =~= c + seq![':'] + i);
    assert(amount_text((c, v)) =~= c + seq![':'] + i + seq!['.'] + f);
}

} // verus!
