//! A year/month period, as the bank's statement listings use it.

use vstd::prelude::*;
use vstd::string::*;

use crate::error::FioError;
use crate::text::digits_val;
use crate::text::find_char_from;
use crate::text::lemma_digits_val_nonneg;
use crate::text::parse_u16;
use crate::text::parse_u8;
use crate::text::spec_find;
use crate::text::spec_u64_str;
use crate::text::u16_text_ok;
use crate::text::u8_text_ok;
use crate::text::u64_to_string;

verus! {

/// A calendar month of a calendar year.
#[derive(Debug, Clone, Copy, PartialEq, Eq, Structural)]
pub struct FioPeriod {
    pub year: u16,
    /// Month of the year: 1 is January, 12 is December.
    pub month: u8,
}

impl FioPeriod {
    /// Builds a period from its parts.
    pub fn new(year: u16, month: u8) -> (p: FioPeriod)
        ensures
            p == (FioPeriod { year, month }),
    {
        FioPeriod { year, month }
    }

    /// Parses a period written as year and month separated by a comma,
    /// like `2019,10`: digits, one comma, digits.  Anything else fails
    /// with a decode error carrying the offending text.
    pub fn parse(text: &str) -> (r: Result<FioPeriod, FioError>)
        ensures
            r is Ok <==> ({
                let n = spec_find(text@, ',', 0);
                &&& n < text@.len()
                &&& u16_text_ok(text@.subrange(0, n))
                &&& u8_text_ok(text@.subrange(n + 1, text@.len() as int))
            }),
            r matches Ok(p) ==> ({
                let n = spec_find(text@, ',', 0);
                &&& p.year == digits_val(text@.subrange(0, n))
                &&& p.month == digits_val(text@.subrange(n + 1, text@.len() as int))
            }),
            r matches Err(e) ==> e is DecodeError,
    {
        let len = text.unicode_len();
        let n = find_char_from(text, ',', 0);
        if n >= len {
            return Err(FioError::DecodeError(text.to_owned()));
        }
        let year_txt = text.substring_char(0, n);
        let year = match parse_u16(year_txt) {
            Some(y) => {
                proof {
                    lemma_digits_val_nonneg(year_txt@);
                }
                y
            }
            None => {
                return Err(FioError::DecodeError(text.to_owned()));
            }
        };
        let month_txt = text.substring_char(n + 1, len);
        let month = match parse_u8(month_txt) {
            Some(m) => {
                proof {
                    lemma_digits_val_nonneg(month_txt@);
                }
                m
            }
            None => {
                return Err(FioError::DecodeError(text.to_owned()));
            }
        };
        Ok(FioPeriod { year, month })
    }

    /// The period one month earlier.  January steps back to December of
    /// the year before; the month must be a real one, and January of
    /// the very first year has no predecessor.
    pub fn previous(&self) -> (p: FioPeriod)
        requires
            self.month >= 1,
            !(self.year == 0 && self.month == 1),
        ensures
            self.month == 1 ==> p == (FioPeriod { year: (self.year - 1) as u16, month: 12u8 }),
            self.month != 1 ==> p == (FioPeriod { year: self.year, month: (self.month - 1) as u8 }),
    {
        if self.month == 1 {
            FioPeriod { year: self.year - 1, month: 12 }
        } else {
            FioPeriod { year: self.year, month: self.month - 1 }
        }
    }

    /// Renders the period as year and month separated by a comma, the
    /// same shape that [`FioPeriod::parse`] reads.
    pub fn to_string(&self) -> (r: String)
        ensures
            r@ == spec_u64_str(self.year as int).add(seq![',']).add(
                spec_u64_str(self.month as int),
            ),
    {
        let mut s = u64_to_string(self.year as u64);
        s.append(",");
        let m = u64_to_string(self.month as u64);
        s.append(m.as_str());
        proof {
            reveal_strlit(",");
            assert(s@ =~= spec_u64_str(self.year as int).add(seq![',']).add(
                spec_u64_str(self.month as int),
            ));
        }
        s
    }
}

} // verus!
