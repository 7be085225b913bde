//! Codecs for the bank's locale-specific value formats, the closed set of
//! transaction types, and the typed transaction record.
//!
//! The bank writes amounts with a decimal comma and dates as
//! `DD.MM.YYYY`; both codecs are strict: any deviation from the
//! documented pattern is a decode failure, never a silent default.

use vstd::prelude::*;
use vstd::string::*;

use crate::error::FioError;
use crate::text::all_digits;
use crate::text::digits_val;
use crate::text::lemma_digits_val_nonneg;
use crate::text::lemma_digits_val_upper;
use crate::text::parse_u16;
use crate::text::parse_u64;
use crate::text::parse_u8;
use crate::text::pow10;
use crate::text::spec_find;
use crate::text::spec_pad_zeros;
use crate::text::spec_u64_str;
use crate::text::u64_to_string;
use crate::text::u64_to_string_pad;
use crate::text::find_char_from;
use crate::text::str_eq;
use crate::text::u64_text_ok;
use crate::text::views_of;

verus! {

/// A calendar date, held as plain year, month and day.
#[derive(Debug, Clone, Copy, PartialEq, Eq, Structural)]
pub struct FioDate {
    pub year: u16,
    pub month: u8,
    pub day: u8,
}

/// A year with 366 days.
pub open spec fn is_leap_year(y: int) -> bool {
    y % 4 == 0 && (y % 100 != 0 || y % 400 == 0)
}

/// Number of days of month `m` in year `y`.
pub open spec fn days_in_month(y: int, m: int) -> int {
    if m == 2 {
        if is_leap_year(y) {
            29
        } else {
            28
        }
    } else if m == 4 || m == 6 || m == 9 || m == 11 {
        30
    } else {
        31
    }
}

/// A month and day that exist in year `y`.
pub open spec fn is_valid_ymd(y: int, m: int, d: int) -> bool {
    1 <= m <= 12 && 1 <= d <= days_in_month(y, m)
}

/// A date rendered as year, month and day separated by dashes, each
/// part zero-padded: the shape the remote service reads in URLs and
/// payment orders.
pub open spec fn spec_date_iso(d: FioDate) -> Seq<char> {
    spec_pad_zeros(spec_u64_str(d.year as int), 4).add(seq!['-']).add(
        spec_pad_zeros(spec_u64_str(d.month as int), 2),
    ).add(seq!['-']).add(spec_pad_zeros(spec_u64_str(d.day as int), 2))
}

impl FioDate {
    /// The date denotes an existing calendar day.
    pub open spec fn valid(self) -> bool {
        is_valid_ymd(self.year as int, self.month as int, self.day as int)
    }

    /// Renders the date as zero-padded year-month-day with dashes.
    pub fn render_iso(&self) -> (r: String)
        ensures
            r@ == spec_date_iso(*self),
    {
        let mut s = u64_to_string_pad(self.year as u64, 4);
        s.append("-");
        let m = u64_to_string_pad(self.month as u64, 2);
        s.append(m.as_str());
        s.append("-");
        let d = u64_to_string_pad(self.day as u64, 2);
        s.append(d.as_str());
        proof {
            reveal_strlit("-");
            assert(s@ =~= spec_date_iso(*self));
        }
        s
    }

    /// Builds a date from its parts, which must denote an existing
    /// calendar day.
    pub fn from_ymd(year: u16, month: u8, day: u8) -> (d: FioDate)
        requires
            is_valid_ymd(year as int, month as int, day as int),
        ensures
            d == (FioDate { year, month, day }),
            d.valid(),
    {
        FioDate { year, month, day }
    }
}

/// Whether year `y` is a leap year.
pub fn leap_year(y: u16) -> (r: bool)
    ensures
        r == is_leap_year(y as int),
{
    y % 4 == 0 && (y % 100 != 0 || y % 400 == 0)
}

/// Number of days of month `m` in year `y`.
pub fn month_days(y: u16, m: u8) -> (r: u8)
    ensures
        r == days_in_month(y as int, m as int),
{
    if m == 2 {
        if leap_year(y) {
            29
        } else {
            28
        }
    } else if m == 4 || m == 6 || m == 9 || m == 11 {
        30
    } else {
        31
    }
}

/// The text has the exact shape `DD.MM.YYYY`: two digits, a dot, two
/// digits, a dot, four digits.
pub open spec fn date_text_ok(s: Seq<char>) -> bool {
    &&& s.len() == 10
    &&& s[2] == '.'
    &&& s[5] == '.'
    &&& all_digits(s.subrange(0, 2))
    &&& all_digits(s.subrange(3, 5))
    &&& all_digits(s.subrange(6, 10))
}

/// The day written in a `DD.MM.YYYY` text.
pub open spec fn date_day(s: Seq<char>) -> int {
    digits_val(s.subrange(0, 2))
}

/// The month written in a `DD.MM.YYYY` text.
pub open spec fn date_month(s: Seq<char>) -> int {
    digits_val(s.subrange(3, 5))
}

/// The year written in a `DD.MM.YYYY` text.
pub open spec fn date_year(s: Seq<char>) -> int {
    digits_val(s.subrange(6, 10))
}

/// Parses the bank's date format: strictly `DD.MM.YYYY`, and the parts
/// must denote an existing calendar day.  Any deviation fails with a
/// decode error carrying the offending text.
pub fn parse_fio_date(s: &str) -> (r: Result<FioDate, FioError>)
    ensures
        r is Ok <==> date_text_ok(s@) && is_valid_ymd(date_year(s@), date_month(s@), date_day(s@)),
        r matches Ok(d) ==> d.year == date_year(s@) && d.month == date_month(s@) && d.day
            == date_day(s@) && d.valid(),
        r matches Err(e) ==> e matches FioError::DecodeError(m) && m@ == s@,
{
    let len = s.unicode_len();
    if len != 10 {
        return Err(FioError::DecodeError(s.to_owned()));
    }
    if s.get_char(2) != '.' || s.get_char(5) != '.' {
        return Err(FioError::DecodeError(s.to_owned()));
    }
    let day_txt = s.substring_char(0, 2);
    let month_txt = s.substring_char(3, 5);
    let year_txt = s.substring_char(6, 10);
    proof {
        assert(pow10(0) == 1);
        assert(pow10(1) == 10);
        assert(pow10(2) == 100);
        assert(pow10(3) == 1000);
        assert(pow10(4) == 10000);
        if all_digits(s@.subrange(0, 2)) {
            lemma_digits_val_upper(s@.subrange(0, 2));
            lemma_digits_val_nonneg(s@.subrange(0, 2));
        }
        if all_digits(s@.subrange(3, 5)) {
            lemma_digits_val_upper(s@.subrange(3, 5));
            lemma_digits_val_nonneg(s@.subrange(3, 5));
        }
        if all_digits(s@.subrange(6, 10)) {
            lemma_digits_val_upper(s@.subrange(6, 10));
            lemma_digits_val_nonneg(s@.subrange(6, 10));
        }
    }
    let day = match parse_u8(day_txt) {
        Some(d) => d,
        None => {
            return Err(FioError::DecodeError(s.to_owned()));
        }
    };
    let month = match parse_u8(month_txt) {
        Some(m) => m,
        None => {
            return Err(FioError::DecodeError(s.to_owned()));
        }
    };
    let year = match parse_u16(year_txt) {
        Some(y) => y,
        None => {
            return Err(FioError::DecodeError(s.to_owned()));
        }
    };
    if 1 <= month && month <= 12 && 1 <= day && day <= month_days(year, month) {
        Ok(FioDate { year, month, day })
    } else {
        Err(FioError::DecodeError(s.to_owned()))
    }
}

/// A signed decimal amount, held exactly: a sign, the digits before the
/// comma, and the digits after it together with their count.
#[derive(Debug, Clone, Copy, PartialEq, Eq, Structural)]
pub struct FioDecimal {
    pub negative: bool,
    pub int_part: u64,
    pub frac_part: u64,
    pub frac_len: usize,
}

/// A decimal amount rendered with a dot separator, the fractional
/// digits zero-padded back to their written width: the shape payment
/// orders carry.
pub open spec fn spec_dec_render(d: FioDecimal) -> Seq<char> {
    (if d.negative {
        seq!['-']
    } else {
        Seq::<char>::empty()
    }).add(spec_u64_str(d.int_part as int)).add(
        if d.frac_len > 0 {
            seq!['.'].add(spec_pad_zeros(spec_u64_str(d.frac_part as int), d.frac_len as int))
        } else {
            Seq::<char>::empty()
        },
    )
}

impl FioDecimal {
    /// Renders the amount with a dot separator.
    pub fn render(&self) -> (r: String)
        ensures
            r@ == spec_dec_render(*self),
    {
        let mut s = String::new();
        if self.negative {
            s.append("-");
        }
        let ip = u64_to_string(self.int_part);
        s.append(ip.as_str());
        if self.frac_len > 0 {
            s.append(".");
            let fp = u64_to_string_pad(self.frac_part, self.frac_len);
            s.append(fp.as_str());
        }
        proof {
            reveal_strlit("-");
            reveal_strlit(".");
            assert(s@ =~= spec_dec_render(*self));
        }
        s
    }
}

/// Length of the sign prefix of a decimal text: one for a leading `-` or
/// `+`, else zero.
pub open spec fn dec_sign_len(s: Seq<char>) -> int {
    if s.len() > 0 && (s[0] == '-' || s[0] == '+') {
        1
    } else {
        0
    }
}

/// Position of the decimal comma, or the text's length if there is none.
pub open spec fn dec_comma_pos(s: Seq<char>) -> int {
    spec_find(s, ',', dec_sign_len(s))
}

/// The digits before the comma.
pub open spec fn dec_int_digits(s: Seq<char>) -> Seq<char> {
    s.subrange(dec_sign_len(s), dec_comma_pos(s))
}

/// The digits after the comma; empty if there is no comma.
pub open spec fn dec_frac_digits(s: Seq<char>) -> Seq<char> {
    if dec_comma_pos(s) < s.len() {
        s.subrange(dec_comma_pos(s) + 1, s.len() as int)
    } else {
        Seq::empty()
    }
}

/// The text is a decimal amount in the bank's locale: an optional sign,
/// at least one digit, and optionally a comma followed by at least one
/// digit.  The decimal separator is the comma alone; a dot anywhere makes
/// the text invalid.
pub open spec fn dec_text_ok(s: Seq<char>) -> bool {
    &&& dec_int_digits(s).len() > 0
    &&& all_digits(dec_int_digits(s))
    &&& (dec_comma_pos(s) < s.len() ==> dec_frac_digits(s).len() > 0 && all_digits(
        dec_frac_digits(s),
    ))
}

/// Both digit runs of the text fit in a `u64`.
pub open spec fn dec_fits(s: Seq<char>) -> bool {
    digits_val(dec_int_digits(s)) <= u64::MAX && digits_val(dec_frac_digits(s)) <= u64::MAX
}

/// Parses the bank's amount format: a decimal number whose integer and
/// fractional parts are separated by a comma.  Any other shape — a dot
/// separator, a second comma, a stray character — fails with a decode
/// error carrying the offending text.
pub fn parse_fio_decimal(s: &str) -> (r: Result<FioDecimal, FioError>)
    ensures
        r is Ok <==> dec_text_ok(s@) && dec_fits(s@),
        r matches Ok(d) ==> {
            &&& d.negative == (s@.len() > 0 && s@[0] == '-')
            &&& d.int_part == digits_val(dec_int_digits(s@))
            &&& d.frac_part == digits_val(dec_frac_digits(s@))
            &&& d.frac_len == dec_frac_digits(s@).len()
        },
        r matches Err(e) ==> e matches FioError::DecodeError(m) && m@ == s@,
{
    let len = s.unicode_len();
    let signed = len > 0 && {
        let c = s.get_char(0);
        c == '-' || c == '+'
    };
    let negative = len > 0 && s.get_char(0) == '-';
    let b: usize = if signed {
        1
    } else {
        0
    };
    let comma = find_char_from(s, ',', b);
    let int_txt = s.substring_char(b, comma);
    let int_part = match parse_u64(int_txt) {
        Some(v) => {
            proof {
                lemma_digits_val_nonneg(int_txt@);
            }
            v
        }
        None => {
            return Err(FioError::DecodeError(s.to_owned()));
        }
    };
    if comma < len {
        let frac_txt = s.substring_char(comma + 1, len);
        match parse_u64(frac_txt) {
            Some(frac_part) => {
                proof {
                    lemma_digits_val_nonneg(frac_txt@);
                }
                Ok(FioDecimal { negative, int_part, frac_part, frac_len: len - comma - 1 })
            }
            None => Err(FioError::DecodeError(s.to_owned())),
        }
    } else {
        assert(dec_frac_digits(s@) =~= Seq::<char>::empty());
        Ok(FioDecimal { negative, int_part, frac_part: 0, frac_len: 0 })
    }
}

/// The closed set of transaction types, each bound to the exact label the
/// bank writes in the type column.  A label outside the set decodes to
/// [`TxType::Other`] carrying the label verbatim, never to an error, so
/// the decoder stays forward-compatible with types the bank adds later.
///
/// Known collision: the bank's own documentation lists a second code for
/// the label of `X09` and a second code for the label of `X21`; neither
/// duplicate can ever be produced by an exact-match decoder, so the first
/// code wins and the duplicates are left out.
#[derive(Debug, Clone, PartialEq, Eq)]
pub enum TxType {
    FioIncome,
    X02,
    X03,
    X04,
    X05,
    X06,
    X07,
    CardPayment,
    X09,
    X10,
    X11,
    X13,
    X14,
    X15,
    X16,
    X17,
    X18,
    X19,
    X20,
    X21,
    X22,
    X23,
    X24,
    X25,
    X26,
    X27,
    X28,
    X29,
    X30,
    X31,
    X32,
    X33,
    X34,
    X35,
    X36,
    X37,
    X38,
    X39,
    X41,
    X42,
    X43,
    /// A label outside the closed set, kept verbatim.
    Other(String),
}

/// The transaction type bound to a label of the closed set, or `None`
/// for any other label.
pub open spec fn spec_tx_of_label(s: Seq<char>) -> Option<TxType> {
    if s == "Příjem převodem uvnitř banky"@ {
        Some(TxType::FioIncome)
    } else if s == "Platba převodem uvnitř banky"@ {
        Some(TxType::X02)
    } else if s == "Vklad pokladnou"@ {
        Some(TxType::X03)
    } else if s == "Výběr pokladnou"@ {
        Some(TxType::X04)
    } else if s == "Vklad v hotovosti"@ {
        Some(TxType::X05)
    } else if s == "Výběr v hotovosti"@ {
        Some(TxType::X06)
    } else if s == "Platba"@ {
        Some(TxType::X07)
    } else if s == "Příjem"@ {
        Some(TxType::CardPayment)
    } else if s == "Bezhotovostní platba"@ {
        Some(TxType::X09)
    } else if s == "Bezhotovostní příjem"@ {
        Some(TxType::X10)
    } else if s == "Platba kartou"@ {
        Some(TxType::X11)
    } else if s == "Úrok z úvěru"@ {
        Some(TxType::X13)
    } else if s == "Sankční poplatek"@ {
        Some(TxType::X14)
    } else if s == "Posel – předání"@ {
        Some(TxType::X15)
    } else if s == "Posel – příjem"@ {
        Some(TxType::X16)
    } else if s == "Převod uvnitř konta"@ {
        Some(TxType::X17)
    } else if s == "Připsaný úrok"@ {
        Some(TxType::X18)
    } else if s == "Vyplacený úrok"@ {
        Some(TxType::X19)
    } else if s == "Odvod daně z úroků"@ {
        Some(TxType::X20)
    } else if s == "Evidovaný úrok"@ {
        Some(TxType::X21)
    } else if s == "Poplatek"@ {
        Some(TxType::X22)
    } else if s == "Evidovaný poplatek"@ {
        Some(TxType::X23)
    } else if s == "Převod mezi bankovními konty (platba)"@ {
        Some(TxType::X24)
    } else if s == "Převod mezi bankovními konty (příjem)"@ {
        Some(TxType::X25)
    } else if s == "Neidentifikovaná platba z bankovního konta"@ {
        Some(TxType::X26)
    } else if s == "Neidentifikovaný příjem na bankovní konto"@ {
        Some(TxType::X27)
    } else if s == "Vlastní platba z bankovního konta"@ {
        Some(TxType::X28)
    } else if s == "Vlastní příjem na bankovní konto"@ {
        Some(TxType::X29)
    } else if s == "Vlastní platba pokladnou"@ {
        Some(TxType::X30)
    } else if s == "Vlastní příjem pokladnou"@ {
        Some(TxType::X31)
    } else if s == "Opravný pohyb"@ {
        Some(TxType::X32)
    } else if s == "Přijatý poplatek"@ {
        Some(TxType::X33)
    } else if s == "Platba v jiné měně"@ {
        Some(TxType::X34)
    } else if s == "Poplatek – platební karta"@ {
        Some(TxType::X35)
    } else if s == "Inkaso"@ {
        Some(TxType::X36)
    } else if s == "Inkaso ve prospěch účtu"@ {
        Some(TxType::X37)
    } else if s == "Inkaso z účtu"@ {
        Some(TxType::X38)
    } else if s == "Příjem inkasa z cizí banky"@ {
        Some(TxType::X39)
    } else if s == "Okamžitá příchozí platba"@ {
        Some(TxType::X41)
    } else if s == "Okamžitá odchozí platba"@ {
        Some(TxType::X42)
    } else if s == "Poplatek - pojištění hypotéky"@ {
        Some(TxType::X43)
    } else {
        None
    }
}

impl TxType {
    /// Decodes the type column: an exact match against the closed label
    /// set, and any unmatched label is preserved verbatim in
    /// [`TxType::Other`] — never a decode error.
    pub fn from_label(s: &str) -> (t: TxType)
        ensures
            spec_tx_of_label(s@) matches Some(k) ==> t == k,
            spec_tx_of_label(s@) is None ==> (t matches TxType::Other(l) && l@ == s@),
    {
        if str_eq(s, "Příjem převodem uvnitř banky") {
            TxType::FioIncome
        } else if str_eq(s, "Platba převodem uvnitř banky") {
            TxType::X02
        } else if str_eq(s, "Vklad pokladnou") {
            TxType::X03
        } else if str_eq(s, "Výběr pokladnou") {
            TxType::X04
        } else if str_eq(s, "Vklad v hotovosti") {
            TxType::X05
        } else if str_eq(s, "Výběr v hotovosti") {
            TxType::X06
        } else if str_eq(s, "Platba") {
            TxType::X07
        } else if str_eq(s, "Příjem") {
            TxType::CardPayment
        } else if str_eq(s, "Bezhotovostní platba") {
            TxType::X09
        } else if str_eq(s, "Bezhotovostní příjem") {
            TxType::X10
        } else if str_eq(s, "Platba kartou") {
            TxType::X11
        } else if str_eq(s, "Úrok z úvěru") {
            TxType::X13
        } else if str_eq(s, "Sankční poplatek") {
            TxType::X14
        } else if str_eq(s, "Posel – předání") {
            TxType::X15
        } else if str_eq(s, "Posel – příjem") {
            TxType::X16
        } else if str_eq(s, "Převod uvnitř konta") {
            TxType::X17
        } else if str_eq(s, "Připsaný úrok") {
            TxType::X18
        } else if str_eq(s, "Vyplacený úrok") {
            TxType::X19
        } else if str_eq(s, "Odvod daně z úroků") {
            TxType::X20
        } else if str_eq(s, "Evidovaný úrok") {
            TxType::X21
        } else if str_eq(s, "Poplatek") {
            TxType::X22
        } else if str_eq(s, "Evidovaný poplatek") {
            TxType::X23
        } else if str_eq(s, "Převod mezi bankovními konty (platba)") {
            TxType::X24
        } else if str_eq(s, "Převod mezi bankovními konty (příjem)") {
            TxType::X25
        } else if str_eq(s, "Neidentifikovaná platba z bankovního konta") {
            TxType::X26
        } else if str_eq(s, "Neidentifikovaný příjem na bankovní konto") {
            TxType::X27
        } else if str_eq(s, "Vlastní platba z bankovního konta") {
            TxType::X28
        } else if str_eq(s, "Vlastní příjem na bankovní konto") {
            TxType::X29
        } else if str_eq(s, "Vlastní platba pokladnou") {
            TxType::X30
        } else if str_eq(s, "Vlastní příjem pokladnou") {
            TxType::X31
        } else if str_eq(s, "Opravný pohyb") {
            TxType::X32
        } else if str_eq(s, "Přijatý poplatek") {
            TxType::X33
        } else if str_eq(s, "Platba v jiné měně") {
            TxType::X34
        } else if str_eq(s, "Poplatek – platební karta") {
            TxType::X35
        } else if str_eq(s, "Inkaso") {
            TxType::X36
        } else if str_eq(s, "Inkaso ve prospěch účtu") {
            TxType::X37
        } else if str_eq(s, "Inkaso z účtu") {
            TxType::X38
        } else if str_eq(s, "Příjem inkasa z cizí banky") {
            TxType::X39
        } else if str_eq(s, "Okamžitá příchozí platba") {
            TxType::X41
        } else if str_eq(s, "Okamžitá odchozí platba") {
            TxType::X42
        } else if str_eq(s, "Poplatek - pojištění hypotéky") {
            TxType::X43
        } else {
            TxType::Other(s.to_owned())
        }
    }
}

/// Index of the first column of `h` named `name`, searching from
/// `from`; `h.len()` if there is none.
pub open spec fn spec_col_idx(h: Seq<Seq<char>>, name: Seq<char>, from: int) -> int
    decreases h.len() - from when 0 <= from <= h.len()
{
    if from >= h.len() {
        h.len() as int
    } else if h[from] == name {
        from
    } else {
        spec_col_idx(h, name, from + 1)
    }
}

/// The cell of row `c` under the column of `h` named `name`, or `None`
/// when the header has no such column or the row is too short to reach
/// it.
pub open spec fn spec_col(h: Seq<Seq<char>>, c: Seq<Seq<char>>, name: Seq<char>) -> Option<Seq<char>> {
    let i = spec_col_idx(h, name, 0);
    if i < h.len() && i < c.len() {
        Some(c[i])
    } else {
        None
    }
}

/// The named cell is there.
pub open spec fn col_present(h: Seq<Seq<char>>, c: Seq<Seq<char>>, name: Seq<char>) -> bool {
    spec_col(h, c, name) is Some
}

/// The named cell's text, or empty when it is missing.
pub open spec fn col_text(h: Seq<Seq<char>>, c: Seq<Seq<char>>, name: Seq<char>) -> Seq<char> {
    if spec_col(h, c, name) is Some {
        spec_col(h, c, name)->Some_0
    } else {
        Seq::empty()
    }
}

/// The text decodes as a date column.
pub open spec fn date_ok(s: Seq<char>) -> bool {
    date_text_ok(s) && is_valid_ymd(date_year(s), date_month(s), date_day(s))
}

/// The text decodes as an amount column.
pub open spec fn dec_ok(s: Seq<char>) -> bool {
    dec_text_ok(s) && dec_fits(s)
}

/// Index of the first column of `header` named `name`, or
/// `header.len()` if there is none.
fn find_col(header: &Vec<String>, name: &str) -> (r: usize)
    ensures
        r == spec_col_idx(views_of(header@), name@, 0),
        r <= header@.len(),
{
    let mut i: usize = 0;
    while i < header.len()
        invariant
            0 <= i <= header@.len(),
            spec_col_idx(views_of(header@), name@, 0) == spec_col_idx(views_of(header@), name@, i as int),
        decreases header@.len() - i,
    {
        if str_eq(header[i].as_str(), name) {
            return i;
        }
        i += 1;
    }
    i
}

/// The cell of `cells` under the column of `header` named `name`.
fn get_col(header: &Vec<String>, cells: &Vec<String>, name: &str) -> (r: Option<String>)
    ensures
        r matches Some(v) ==> spec_col(views_of(header@), views_of(cells@), name@) == Some(v@),
        r is None ==> spec_col(views_of(header@), views_of(cells@), name@) is None,
{
    let i = find_col(header, name);
    if i < header.len() && i < cells.len() {
        Some(cells[i].clone())
    } else {
        None
    }
}

/// One row of the data section, fully typed.
#[derive(Debug, Clone, PartialEq, Eq)]
pub struct FioTransactionsRecord {
    pub id_tx: u64,
    pub date: FioDate,
    pub value: FioDecimal,
    pub currency: String,
    pub b_account: String,
    pub b_account_name: String,
    pub b_bankid: String,
    pub b_bank_name: Option<String>,
    pub ks: String,
    pub vs: String,
    pub ss: String,
    pub custom_id: String,
    pub message: String,
    pub tx_type: TxType,
    pub who: String,
    pub note: String,
    pub comment: String,
    pub bic: String,
    pub id_command: u64,
}

/// The row decodes cleanly against the header: every required column is
/// present and its cell parses.
pub open spec fn rec_ok(h: Seq<Seq<char>>, c: Seq<Seq<char>>) -> bool {
    &&& col_present(h, c, "ID pohybu"@) && u64_text_ok(col_text(h, c, "ID pohybu"@))
    &&& col_present(h, c, "Datum"@) && date_ok(col_text(h, c, "Datum"@))
    &&& col_present(h, c, "Objem"@) && dec_ok(col_text(h, c, "Objem"@))
    &&& col_present(h, c, "Měna"@)
    &&& col_present(h, c, "Protiúčet"@)
    &&& col_present(h, c, "Název protiúčtu"@)
    &&& col_present(h, c, "Kód banky"@)
    &&& col_present(h, c, "KS"@)
    &&& col_present(h, c, "VS"@)
    &&& col_present(h, c, "SS"@)
    &&& col_present(h, c, "Uživatelská identifikace"@)
    &&& col_present(h, c, "Zpráva pro příjemce"@)
    &&& col_present(h, c, "Typ"@)
    &&& col_present(h, c, "Provedl"@)
    &&& col_present(h, c, "Upřesnění"@)
    &&& col_present(h, c, "Komentář"@)
    &&& col_present(h, c, "BIC"@)
    &&& col_present(h, c, "ID pokynu"@) && u64_text_ok(col_text(h, c, "ID pokynu"@))
}

/// The typed record `rec` holds exactly what the row's cells say.
pub open spec fn rec_matches(h: Seq<Seq<char>>, c: Seq<Seq<char>>, rec: FioTransactionsRecord) -> bool {
    &&& rec.id_tx == digits_val(col_text(h, c, "ID pohybu"@))
    &&& rec.date.year == date_year(col_text(h, c, "Datum"@))
    &&& rec.date.month == date_month(col_text(h, c, "Datum"@))
    &&& rec.date.day == date_day(col_text(h, c, "Datum"@))
    &&& rec.value.negative == (col_text(h, c, "Objem"@).len() > 0 && col_text(h, c, "Objem"@)[0]
        == '-')
    &&& rec.value.int_part == digits_val(dec_int_digits(col_text(h, c, "Objem"@)))
    &&& rec.value.frac_part == digits_val(dec_frac_digits(col_text(h, c, "Objem"@)))
    &&& rec.value.frac_len == dec_frac_digits(col_text(h, c, "Objem"@)).len()
    &&& rec.currency@ == col_text(h, c, "Měna"@)
    &&& rec.b_account@ == col_text(h, c, "Protiúčet"@)
    &&& rec.b_account_name@ == col_text(h, c, "Název protiúčtu"@)
    &&& rec.b_bankid@ == col_text(h, c, "Kód banky"@)
    &&& (match spec_col(h, c, "Název banky"@) {
        Some(v) => if v.len() > 0 {
            rec.b_bank_name matches Some(b) && b@ == v
        } else {
            rec.b_bank_name is None
        },
        None => rec.b_bank_name is None,
    })
    &&& rec.ks@ == col_text(h, c, "KS"@)
    &&& rec.vs@ == col_text(h, c, "VS"@)
    &&& rec.ss@ == col_text(h, c, "SS"@)
    &&& rec.custom_id@ == col_text(h, c, "Uživatelská identifikace"@)
    &&& rec.message@ == col_text(h, c, "Zpráva pro příjemce"@)
    &&& (spec_tx_of_label(col_text(h, c, "Typ"@)) matches Some(k) ==> rec.tx_type == k)
    &&& (spec_tx_of_label(col_text(h, c, "Typ"@)) is None ==> (rec.tx_type matches TxType::Other(l)
        && l@ == col_text(h, c, "Typ"@)))
    &&& rec.who@ == col_text(h, c, "Provedl"@)
    &&& rec.note@ == col_text(h, c, "Upřesnění"@)
    &&& rec.comment@ == col_text(h, c, "Komentář"@)
    &&& rec.bic@ == col_text(h, c, "BIC"@)
    &&& rec.id_command == digits_val(col_text(h, c, "ID pokynu"@))
}

/// Maps one delimited row to a typed record, looking each field up under
/// the bank's native-language column headers.  A row that fails any
/// field fails as a whole with a decode error; the optional bank-name
/// column decodes an absent or empty cell to `None`.
pub fn decode_record(header: &Vec<String>, cells: &Vec<String>) -> (r: Result<
    FioTransactionsRecord,
    FioError,
>)
    ensures
        r is Ok <==> rec_ok(views_of(header@), views_of(cells@)),
        r matches Ok(rec) ==> rec_matches(views_of(header@), views_of(cells@), rec),
        r matches Err(e) ==> e is DecodeError,
{
    let id_txt = match get_col(header, cells, "ID pohybu") {
        Some(v) => v,
        None => {
            return Err(FioError::DecodeError("ID pohybu".to_owned()));
        }
    };
    let id_tx = match parse_u64(id_txt.as_str()) {
        Some(v) => {
            proof {
                lemma_digits_val_nonneg(id_txt@);
            }
            v
        }
        None => {
            return Err(FioError::DecodeError(id_txt));
        }
    };
    let date_txt = match get_col(header, cells, "Datum") {
        Some(v) => v,
        None => {
            return Err(FioError::DecodeError("Datum".to_owned()));
        }
    };
    let date = match parse_fio_date(date_txt.as_str()) {
        Ok(d) => d,
        Err(e) => {
            return Err(e);
        }
    };
    let value_txt = match get_col(header, cells, "Objem") {
        Some(v) => v,
        None => {
            return Err(FioError::DecodeError("Objem".to_owned()));
        }
    };
    let value = match parse_fio_decimal(value_txt.as_str()) {
        Ok(d) => d,
        Err(e) => {
            return Err(e);
        }
    };
    let currency = match get_col(header, cells, "Měna") {
        Some(v) => v,
        None => {
            return Err(FioError::DecodeError("Měna".to_owned()));
        }
    };
    let b_account = match get_col(header, cells, "Protiúčet") {
        Some(v) => v,
        None => {
            return Err(FioError::DecodeError("Protiúčet".to_owned()));
        }
    };
    let b_account_name = match get_col(header, cells, "Název protiúčtu") {
        Some(v) => v,
        None => {
            return Err(FioError::DecodeError("Název protiúčtu".to_owned()));
        }
    };
    let b_bankid = match get_col(header, cells, "Kód banky") {
        Some(v) => v,
        None => {
            return Err(FioError::DecodeError("Kód banky".to_owned()));
        }
    };
    let b_bank_name = match get_col(header, cells, "Název banky") {
        Some(v) => {
            if v.as_str().unicode_len() > 0 {
                Some(v)
            } else {
                None
            }
        }
        None => None,
    };
    let ks = match get_col(header, cells, "KS") {
        Some(v) => v,
        None => {
            return Err(FioError::DecodeError("KS".to_owned()));
        }
    };
    let vs = match get_col(header, cells, "VS") {
        Some(v) => v,
        None => {
            return Err(FioError::DecodeError("VS".to_owned()));
        }
    };
    let ss = match get_col(header, cells, "SS") {
        Some(v) => v,
        None => {
            return Err(FioError::DecodeError("SS".to_owned()));
        }
    };
    let custom_id = match get_col(header, cells, "Uživatelská identifikace") {
        Some(v) => v,
        None => {
            return Err(FioError::DecodeError("Uživatelská identifikace".to_owned()));
        }
    };
    let message = match get_col(header, cells, "Zpráva pro příjemce") {
        Some(v) => v,
        None => {
            return Err(FioError::DecodeError("Zpráva pro příjemce".to_owned()));
        }
    };
    let typ_txt = match get_col(header, cells, "Typ") {
        Some(v) => v,
        None => {
            return Err(FioError::DecodeError("Typ".to_owned()));
        }
    };
    let tx_type = TxType::from_label(typ_txt.as_str());
    let who = match get_col(header, cells, "Provedl") {
        Some(v) => v,
        None => {
            return Err(FioError::DecodeError("Provedl".to_owned()));
        }
    };
    let note = match get_col(header, cells, "Upřesnění") {
        Some(v) => v,
        None => {
            return Err(FioError::DecodeError("Upřesnění".to_owned()));
        }
    };
    let comment = match get_col(header, cells, "Komentář") {
        Some(v) => v,
        None => {
            return Err(FioError::DecodeError("Komentář".to_owned()));
        }
    };
    let bic = match get_col(header, cells, "BIC") {
        Some(v) => v,
        None => {
            return Err(FioError::DecodeError("BIC".to_owned()));
        }
    };
    let id_command_txt = match get_col(header, cells, "ID pokynu") {
        Some(v) => v,
        None => {
            return Err(FioError::DecodeError("ID pokynu".to_owned()));
        }
    };
    let id_command = match parse_u64(id_command_txt.as_str()) {
        Some(v) => {
            proof {
                lemma_digits_val_nonneg(id_command_txt@);
            }
            v
        }
        None => {
            return Err(FioError::DecodeError(id_command_txt));
        }
    };
    Ok(
        FioTransactionsRecord {
            id_tx,
            date,
            value,
            currency,
            b_account,
            b_account_name,
            b_bankid,
            b_bank_name,
            ks,
            vs,
            ss,
            custom_id,
            message,
            tx_type,
            who,
            note,
            comment,
            bic,
            id_command,
        },
    )
}

} // verus!
