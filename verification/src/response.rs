//! The two-phase response decoder.
//!
//! A response is one undifferentiated character stream: first an "info"
//! section of `key;value` lines, then a boundary, then one header row
//! naming the columns, then the data rows.  The boundary carries no
//! marker of its own: a line that is not a two-column pair ends the info
//! section — a line without the delimiter is consumed as a separator
//! (and so are any further delimiter-less lines), while a line with two
//! or more delimiters is left in place as the start of the header row.
//! A byte-order mark at the very start of the stream is stripped before
//! any parsing.

use vstd::prelude::*;
use vstd::string::*;
use vstd::map::*;

use crate::csvdata::FioDate;
use crate::csvdata::FioDecimal;
use crate::csvdata::FioTransactionsRecord;
use crate::csvdata::dec_frac_digits;
use crate::csvdata::dec_int_digits;
use crate::csvdata::dec_ok;
use crate::csvdata::date_ok;
use crate::csvdata::date_day;
use crate::csvdata::date_month;
use crate::csvdata::date_year;
use crate::csvdata::decode_record;
use crate::csvdata::parse_fio_date;
use crate::csvdata::parse_fio_decimal;
use crate::csvdata::rec_matches;
use crate::csvdata::rec_ok;
use crate::error::FioError;
use crate::text::digits_val;
use crate::text::find_char_from;
use crate::text::lemma_spec_find;
use crate::text::spec_find;
use crate::text::str_eq;
use crate::text::trim_end_blanks;
use crate::text::trim_end_index;
use crate::text::views_of;
use crate::text::assoc_map;
use crate::text::lemma_assoc_found;
use crate::text::lemma_assoc_absent;

verus! {

/// Index of the end of the row starting at `p`: the first line feed at
/// or after `p`, or the end of the stream.
pub open spec fn row_end(s: Seq<char>, p: int) -> int {
    spec_find(s, '\n', p)
}

/// Start of the row after the one starting at `p`.
pub open spec fn next_row(s: Seq<char>, p: int) -> int {
    if row_end(s, p) < s.len() {
        row_end(s, p) + 1
    } else {
        s.len() as int
    }
}

/// The row starting at `p`, without its line feed.
pub open spec fn row_text(s: Seq<char>, p: int) -> Seq<char> {
    s.subrange(p, row_end(s, p))
}

/// A row without its trailing carriage return, if it has one.
pub open spec fn strip_cr(t: Seq<char>) -> Seq<char> {
    if t.len() > 0 && t.last() == '\r' {
        t.drop_last()
    } else {
        t
    }
}

/// Position of the first delimiter of a row, or its length.
pub open spec fn row_semi(t: Seq<char>) -> int {
    spec_find(t, ';', 0)
}

/// The row is a two-column `key;value` pair: exactly one delimiter.
pub open spec fn is_pair_row(t: Seq<char>) -> bool {
    row_semi(t) < t.len() && spec_find(t, ';', row_semi(t) + 1) == t.len()
}

/// The row holds no delimiter at all: a blank or separator line.
pub open spec fn is_sep_row(t: Seq<char>) -> bool {
    row_semi(t) == t.len()
}

/// The key of a pair row: everything before the delimiter.
pub open spec fn pair_key(t: Seq<char>) -> Seq<char> {
    t.subrange(0, row_semi(t))
}

/// The value of a pair row: everything after the delimiter, with
/// trailing blanks removed.
pub open spec fn pair_val(t: Seq<char>) -> Seq<char> {
    trim_end_blanks(t.subrange(row_semi(t) + 1, t.len() as int))
}

/// Where parsing starts: past a byte-order mark, if the stream opens
/// with one.
pub open spec fn start_of(s: Seq<char>) -> int {
    if s.len() > 0 && s[0] == '\u{feff}' {
        1
    } else {
        0
    }
}

/// Position after the run of pair rows starting at `p`.
pub open spec fn pairs_end(s: Seq<char>, p: int) -> int
    decreases s.len() - p when 0 <= p <= s.len() via pairs_end_dec
{
    if p >= s.len() {
        p
    } else if is_pair_row(row_text(s, p)) {
        pairs_end(s, next_row(s, p))
    } else {
        p
    }
}

#[via_fn]
proof fn pairs_end_dec(s: Seq<char>, p: int) {
    if p < s.len() {
        lemma_spec_find(s, '\n', p);
    }
}

/// Position after the run of separator rows starting at `p`.
pub open spec fn seps_end(s: Seq<char>, p: int) -> int
    decreases s.len() - p when 0 <= p <= s.len() via seps_end_dec
{
    if p >= s.len() {
        p
    } else if is_sep_row(row_text(s, p)) {
        seps_end(s, next_row(s, p))
    } else {
        p
    }
}

#[via_fn]
proof fn seps_end_dec(s: Seq<char>, p: int) {
    if p < s.len() {
        lemma_spec_find(s, '\n', p);
    }
}

/// Position of the boundary: the pair rows of the info section, then
/// any separator rows, are consumed; what follows is the header row.
pub open spec fn info_end(s: Seq<char>, p: int) -> int {
    seps_end(s, pairs_end(s, p))
}

/// The key/value pairs of the info section starting at `p`.  A key
/// written twice keeps its later value.
pub open spec fn info_map(s: Seq<char>, p: int) -> Map<Seq<char>, Seq<char>>
    decreases s.len() - p when 0 <= p <= s.len() via info_map_dec
{
    if p >= s.len() {
        Map::empty()
    } else if is_pair_row(row_text(s, p)) {
        map![pair_key(row_text(s, p)) => pair_val(row_text(s, p))].union_prefer_right(
            info_map(s, next_row(s, p)),
        )
    } else {
        Map::empty()
    }
}

#[via_fn]
proof fn info_map_dec(s: Seq<char>, p: int) {
    if p < s.len() {
        lemma_spec_find(s, '\n', p);
    }
}

/// The cells of the text `t`, split at every delimiter, starting at
/// `from`; always at least one cell.
pub open spec fn spec_split_from(t: Seq<char>, from: int) -> Seq<Seq<char>>
    decreases t.len() - from when 0 <= from <= t.len() via spec_split_from_dec
{
    let n = spec_find(t, ';', from);
    if n == t.len() {
        seq![t.subrange(from, t.len() as int)]
    } else {
        seq![t.subrange(from, n)].add(spec_split_from(t, n + 1))
    }
}

#[via_fn]
proof fn spec_split_from_dec(t: Seq<char>, from: int) {
    lemma_spec_find(t, ';', from);
}

/// The cells of the row starting at `p`: the row without its line feed
/// and carriage return, split at every delimiter.
pub open spec fn row_cells(s: Seq<char>, p: int) -> Seq<Seq<char>> {
    spec_split_from(strip_cr(row_text(s, p)), 0)
}

/// The row starting at `p` is blank: empty but for a carriage return.
pub open spec fn is_blank_row(s: Seq<char>, p: int) -> bool {
    strip_cr(row_text(s, p)).len() == 0
}

/// Position of the first non-blank row at or after `p`.
pub open spec fn data_skip(s: Seq<char>, p: int) -> int
    decreases s.len() - p when 0 <= p <= s.len() via data_skip_dec
{
    if p >= s.len() {
        p
    } else if is_blank_row(s, p) {
        data_skip(s, next_row(s, p))
    } else {
        p
    }
}

#[via_fn]
proof fn data_skip_dec(s: Seq<char>, p: int) {
    if p < s.len() {
        lemma_spec_find(s, '\n', p);
    }
}

/// `q` is the start of a line in the run of pair rows beginning at `p`.
pub open spec fn in_pair_run(s: Seq<char>, p: int, q: int) -> bool
    decreases s.len() - p when 0 <= p <= s.len() via in_pair_run_dec
{
    p == q || (p < s.len() && is_pair_row(row_text(s, p)) && in_pair_run(s, next_row(s, p), q))
}

#[via_fn]
proof fn in_pair_run_dec(s: Seq<char>, p: int, q: int) {
    if p < s.len() {
        lemma_spec_find(s, '\n', p);
    }
}

/// Every `key;value` line of the info section is retrievable: if the
/// line at `q` lies in the run of pair rows that begins at `p`, and no
/// later line of the section carries the same key, then the info map
/// read from `p` holds exactly that line's value under that line's key.
pub proof fn lemma_info_pair_retrieved(s: Seq<char>, p: int, q: int)
    requires
        0 <= p <= s.len(),
        in_pair_run(s, p, q),
        q < s.len(),
        is_pair_row(row_text(s, q)),
        !info_map(s, next_row(s, q)).contains_key(pair_key(row_text(s, q))),
    ensures
        info_map(s, p).contains_key(pair_key(row_text(s, q))),
        info_map(s, p)[pair_key(row_text(s, q))] == pair_val(row_text(s, q)),
    decreases s.len() - p,
{
    if p == q {
        lemma_spec_find(s, '\n', q);
        let row = row_text(s, q);
        let k = pair_key(row);
        let v = pair_val(row);
        let rest = info_map(s, next_row(s, q));
        let m = map![k => v];
        assert(info_map(s, q) == m.union_prefer_right(rest));
        assert(!rest.dom().contains(k));
        assert(m.union_prefer_right(rest)[k] == m[k]);
        assert(m[k] == v);
    } else {
        lemma_spec_find(s, '\n', p);
        let np = next_row(s, p);
        lemma_info_pair_retrieved(s, np, q);
        let k = pair_key(row_text(s, q));
        let rest = info_map(s, np);
        let rowp = row_text(s, p);
        let m = map![pair_key(rowp) => pair_val(rowp)];
        assert(rest.dom().contains(k));
        assert(info_map(s, p) == m.union_prefer_right(rest));
        assert(m.union_prefer_right(rest)[k] == rest[k]);
    }
}

/// A key that no `key;value` line of the info section carries is
/// absent from the info map: it never maps to a default.
pub proof fn lemma_info_key_absent(s: Seq<char>, p: int, k: Seq<char>)
    requires
        0 <= p <= s.len(),
        forall|q: int| (#[trigger] in_pair_run(s, p, q)) && q < s.len() && is_pair_row(
            row_text(s, q),
        ) ==> pair_key(row_text(s, q)) != k,
    ensures
        !info_map(s, p).contains_key(k),
    decreases s.len() - p,
{
    if p < s.len() && is_pair_row(row_text(s, p)) {
        lemma_spec_find(s, '\n', p);
        assert(in_pair_run(s, p, p));
        let np = next_row(s, p);
        assert forall|q: int|
            (#[trigger] in_pair_run(s, np, q)) && q < s.len() && is_pair_row(
                row_text(s, q),
            ) implies pair_key(row_text(s, q)) != k by {
            assert(in_pair_run(s, p, q));
        };
        lemma_info_key_absent(s, np, k);
    }
}

/// Splits a text at every delimiter.
fn split_semicolons(t: &str) -> (r: Vec<String>)
    ensures
        views_of(r@) == spec_split_from(t@, 0),
{
    let len = t.unicode_len();
    let mut cells: Vec<String> = Vec::new();
    let mut cur: usize = 0;
    let mut done = false;
    while !done
        invariant
            0 <= cur <= len,
            len == t@.len(),
            !done ==> spec_split_from(t@, 0) == views_of(cells@).add(spec_split_from(t@, cur as int)),
            done ==> spec_split_from(t@, 0) == views_of(cells@),
        decreases len - cur, (if done { 0int } else { 1int }),
    {
        let n = find_char_from(t, ';', cur);
        let cell = t.substring_char(cur, n).to_owned();
        proof {
            assert(views_of(cells@.push(cell)) =~= views_of(cells@).push(cell@));
        }
        cells.push(cell);
        if n < len {
            proof {
                assert(views_of(cells@).add(spec_split_from(t@, n + 1)) =~= spec_split_from(
                    t@,
                    0,
                ));
            }
            cur = n + 1;
        } else {
            proof {
                assert(views_of(cells@) =~= spec_split_from(t@, 0));
            }
            done = true;
        }
    }
    cells
}

/// The info section of a response: an order-irrelevant mapping from
/// header key to raw value.  Absence of a key is a normal condition;
/// consumers see a typed missing-field failure only at the point of
/// typed access.
#[derive(Debug)]
pub struct FioResponseInfo {
    entries: Vec<(String, String)>,
}

impl View for FioResponseInfo {
    type V = Map<Seq<char>, Seq<char>>;

    closed spec fn view(&self) -> Map<Seq<char>, Seq<char>> {
        assoc_map(self.entries@)
    }
}

impl FioResponseInfo {
    /// The raw value under `key`, or a missing-field failure naming the
    /// key — never a default.
    pub fn get_info(&self, key: &str) -> (r: Result<String, FioError>)
        ensures
            self@.contains_key(key@) ==> (r matches Ok(v) && v@ == self@[key@]),
            !self@.contains_key(key@) ==> (r matches Err(e) && e matches
                FioError::MissingInfoField(k) && k@ == key@),
    {
        let mut i = self.entries.len();
        while i > 0
            invariant
                0 <= i <= self.entries@.len(),
                forall|j: int| i <= j < self.entries@.len() ==> #[trigger] self.entries@[j].0@
                    != key@,
            decreases i,
        {
            i = i - 1;
            if str_eq(self.entries[i].0.as_str(), key) {
                proof {
                    lemma_assoc_found(self.entries@, key@, i as int);
                }
                return Ok(self.entries[i].1.clone());
            }
        }
        proof {
            lemma_assoc_absent(self.entries@, key@);
        }
        Err(FioError::MissingInfoField(key.to_owned()))
    }

    /// Consumes the info section, returning the raw key/value pairs in
    /// the order they were read.
    pub fn into_inner(self) -> (r: Vec<(String, String)>)
        ensures
            assoc_map(r@) == self@,
    {
        self.entries
    }

    /// The raw key/value pairs, in the order they were read.
    pub fn get_ref(&self) -> (r: &Vec<(String, String)>)
        ensures
            assoc_map(r@) == self@,
    {
        &self.entries
    }

    /// The account number.
    pub fn account_id(&self) -> (r: Result<String, FioError>)
        ensures
            self@.contains_key("accountId"@) ==> (r matches Ok(v) && v@ == self@["accountId"@]),
            !self@.contains_key("accountId"@) ==> (r matches Err(e) && e matches
                FioError::MissingInfoField(k) && k@ == "accountId"@),
    {
        self.get_info("accountId")
    }

    /// The bank code.
    pub fn bank_id(&self) -> (r: Result<String, FioError>)
        ensures
            self@.contains_key("bankId"@) ==> (r matches Ok(v) && v@ == self@["bankId"@]),
            !self@.contains_key("bankId"@) ==> (r matches Err(e) && e matches
                FioError::MissingInfoField(k) && k@ == "bankId"@),
    {
        self.get_info("bankId")
    }

    /// The account currency.
    pub fn currency(&self) -> (r: Result<String, FioError>)
        ensures
            self@.contains_key("currency"@) ==> (r matches Ok(v) && v@ == self@["currency"@]),
            !self@.contains_key("currency"@) ==> (r matches Err(e) && e matches
                FioError::MissingInfoField(k) && k@ == "currency"@),
    {
        self.get_info("currency")
    }

    /// The account's IBAN.
    pub fn iban(&self) -> (r: Result<String, FioError>)
        ensures
            self@.contains_key("iban"@) ==> (r matches Ok(v) && v@ == self@["iban"@]),
            !self@.contains_key("iban"@) ==> (r matches Err(e) && e matches
                FioError::MissingInfoField(k) && k@ == "iban"@),
    {
        self.get_info("iban")
    }

    /// The bank's BIC.
    pub fn bic(&self) -> (r: Result<String, FioError>)
        ensures
            self@.contains_key("bic"@) ==> (r matches Ok(v) && v@ == self@["bic"@]),
            !self@.contains_key("bic"@) ==> (r matches Err(e) && e matches
                FioError::MissingInfoField(k) && k@ == "bic"@),
    {
        self.get_info("bic")
    }

    /// First transaction id of the report.
    pub fn id_from(&self) -> (r: Result<String, FioError>)
        ensures
            self@.contains_key("idFrom"@) ==> (r matches Ok(v) && v@ == self@["idFrom"@]),
            !self@.contains_key("idFrom"@) ==> (r matches Err(e) && e matches
                FioError::MissingInfoField(k) && k@ == "idFrom"@),
    {
        self.get_info("idFrom")
    }

    /// Last transaction id of the report.
    pub fn id_to(&self) -> (r: Result<String, FioError>)
        ensures
            self@.contains_key("idTo"@) ==> (r matches Ok(v) && v@ == self@["idTo"@]),
            !self@.contains_key("idTo"@) ==> (r matches Err(e) && e matches
                FioError::MissingInfoField(k) && k@ == "idTo"@),
    {
        self.get_info("idTo")
    }

    /// The balance at the start of the report's range, decoded from the
    /// bank's decimal-comma format.
    pub fn opening_balance(&self) -> (r: Result<FioDecimal, FioError>)
        ensures
            r is Ok <==> self@.contains_key("openingBalance"@) && dec_ok(
                self@["openingBalance"@],
            ),
            r matches Ok(d) ==> {
                let t = self@["openingBalance"@];
                &&& d.negative == (t.len() > 0 && t[0] == '-')
                &&& d.int_part == digits_val(dec_int_digits(t))
                &&& d.frac_part == digits_val(dec_frac_digits(t))
                &&& d.frac_len == dec_frac_digits(t).len()
            },
    {
        match self.get_info("openingBalance") {
            Ok(s) => parse_fio_decimal(s.as_str()),
            Err(e) => Err(e),
        }
    }

    /// The balance at the end of the report's range, decoded from the
    /// bank's decimal-comma format.
    pub fn closing_balance(&self) -> (r: Result<FioDecimal, FioError>)
        ensures
            r is Ok <==> self@.contains_key("closingBalance"@) && dec_ok(
                self@["closingBalance"@],
            ),
            r matches Ok(d) ==> {
                let t = self@["closingBalance"@];
                &&& d.negative == (t.len() > 0 && t[0] == '-')
                &&& d.int_part == digits_val(dec_int_digits(t))
                &&& d.frac_part == digits_val(dec_frac_digits(t))
                &&& d.frac_len == dec_frac_digits(t).len()
            },
    {
        match self.get_info("closingBalance") {
            Ok(s) => parse_fio_decimal(s.as_str()),
            Err(e) => Err(e),
        }
    }

    /// First day of the report's range, decoded from the bank's
    /// `DD.MM.YYYY` format.
    pub fn date_start(&self) -> (r: Result<FioDate, FioError>)
        ensures
            r is Ok <==> self@.contains_key("dateStart"@) && date_ok(self@["dateStart"@]),
            r matches Ok(d) ==> {
                let t = self@["dateStart"@];
                &&& d.year == date_year(t)
                &&& d.month == date_month(t)
                &&& d.day == date_day(t)
            },
    {
        match self.get_info("dateStart") {
            Ok(s) => parse_fio_date(s.as_str()),
            Err(e) => Err(e),
        }
    }

    /// Last day of the report's range, decoded from the bank's
    /// `DD.MM.YYYY` format.
    pub fn date_end(&self) -> (r: Result<FioDate, FioError>)
        ensures
            r is Ok <==> self@.contains_key("dateEnd"@) && date_ok(self@["dateEnd"@]),
            r matches Ok(d) ==> {
                let t = self@["dateEnd"@];
                &&& d.year == date_year(t)
                &&& d.month == date_month(t)
                &&& d.day == date_day(t)
            },
    {
        match self.get_info("dateEnd") {
            Ok(s) => parse_fio_date(s.as_str()),
            Err(e) => Err(e),
        }
    }
}

/// Where a single-pass reader stands in the stream.
#[derive(Debug, Clone, Copy, PartialEq, Eq, Structural)]
pub enum ReaderState {
    /// Nothing consumed yet.
    Fresh,
    /// The info section was consumed; the header row is next.
    InfoRead,
    /// The header row was consumed; data rows are being yielded.
    Data,
    /// The stream is drained.
    Exhausted,
}

/// A response, consumed in one pass: the info section at most once,
/// then the header row, then the data rows one by one.
pub struct FioResponse {
    content: String,
    pos: usize,
    state: ReaderState,
    header: Vec<String>,
}

impl FioResponse {
    /// The whole character stream.
    pub closed spec fn contents(&self) -> Seq<char> {
        self.content@
    }

    /// The reading position, as a character index.
    pub closed spec fn pos(&self) -> int {
        self.pos as int
    }

    /// Where the reader stands.
    pub closed spec fn state(&self) -> ReaderState {
        self.state
    }

    /// The cells of the header row, once the reader is in the data
    /// phase.
    pub closed spec fn header_cells(&self) -> Seq<Seq<char>> {
        views_of(self.header@)
    }

    /// The position lies within the stream.
    pub open spec fn wf(&self) -> bool {
        0 <= self.pos() <= self.contents().len()
    }

    /// Wraps a character stream for reading; a leading byte-order mark
    /// is stripped here, before any parsing.
    pub fn new(content: String) -> (r: FioResponse)
        ensures
            r.contents() == content@,
            r.pos() == start_of(content@),
            r.state() == ReaderState::Fresh,
            r.header_cells() == Seq::<Seq<char>>::empty(),
            r.wf(),
    {
        let pos: usize = if content.as_str().unicode_len() > 0 && content.as_str().get_char(0)
            == '\u{feff}' {
            1
        } else {
            0
        };
        let r = FioResponse { content, pos, state: ReaderState::Fresh, header: Vec::new() };
        proof {
            assert(r.header_cells() =~= Seq::<Seq<char>>::empty());
        }
        r
    }

    /// Reads the info section; single-shot.  See
    /// [`FioResponseInfo::read`].
    pub fn info(&mut self) -> (r: Result<FioResponseInfo, FioError>)
        requires
            old(self).wf(),
        ensures
            final(self).wf(),
            final(self).contents() == old(self).contents(),
            old(self).state() == ReaderState::Fresh ==> (r matches Ok(i) && i@ == info_map(
                old(self).contents(),
                old(self).pos(),
            ) && final(self).pos() == info_end(old(self).contents(), old(self).pos()) && final(self).state() == ReaderState::InfoRead && final(self).header_cells() == old(self).header_cells()),
            old(self).state() != ReaderState::Fresh ==> (*final(self) == *old(self) && (r
                matches Err(e) && e matches FioError::OtherError { code, message } && code@
                == "already_consumed"@)),
    {
        FioResponseInfo::read(self)
    }

    /// Hands back the raw stream.
    pub fn into_inner(self) -> (r: String)
        ensures
            r@ == self.contents(),
    {
        self.content
    }

    /// The raw stream.
    pub fn get_ref(&self) -> (r: &String)
        ensures
            r@ == self.contents(),
    {
        &self.content
    }

    /// Enters the data phase: consumes the info section by the boundary
    /// rule if it was never read, then consumes the header row, whose
    /// cells validate column presence and are not yielded as data.
    /// Idempotent: in the data phase or on a drained stream it changes
    /// nothing.
    pub fn begin_data(&mut self)
        requires
            old(self).wf(),
        ensures
            final(self).wf(),
            final(self).contents() == old(self).contents(),
            (old(self).state() == ReaderState::Data || old(self).state()
                == ReaderState::Exhausted) ==> *final(self) == *old(self),
            (old(self).state() == ReaderState::Fresh || old(self).state()
                == ReaderState::InfoRead) ==> ({
                let s = old(self).contents();
                let p = if old(self).state() == ReaderState::Fresh {
                    info_end(s, old(self).pos())
                } else {
                    old(self).pos()
                };
                if p >= s.len() {
                    final(self).state() == ReaderState::Exhausted && final(self).pos() == p
                        && final(self).header_cells() == old(self).header_cells()
                } else {
                    final(self).state() == ReaderState::Data && final(self).header_cells()
                        == row_cells(s, p) && final(self).pos() == next_row(s, p)
                }
            }),
    {
        if self.state == ReaderState::Data || self.state == ReaderState::Exhausted {
            return ;
        }
        if self.state == ReaderState::Fresh {
            FioResponseInfo::skip(self);
        }
        let len = self.content.as_str().unicode_len();
        if self.pos >= len {
            self.state = ReaderState::Exhausted;
            return ;
        }
        let e = find_char_from(self.content.as_str(), '\n', self.pos);
        let row = self.content.as_str().substring_char(self.pos, e);
        let rlen = row.unicode_len();
        let rend: usize = if rlen > 0 && row.get_char(rlen - 1) == '\r' {
            rlen - 1
        } else {
            rlen
        };
        let row2 = row.substring_char(0, rend);
        proof {
            if rlen > 0 && row@.last() == '\r' {
                assert(row2@ =~= strip_cr(row@));
            } else {
                assert(row2@ =~= strip_cr(row@));
            }
        }
        let cells = split_semicolons(row2);
        self.header = cells;
        self.pos = if e < len {
            e + 1
        } else {
            len
        };
        self.state = ReaderState::Data;
    }

    /// Yields the next data row, decoded: `None` once the stream is
    /// drained.  Blank rows are skipped.  A row whose cell count differs
    /// from the header's is malformed framing: it ends the stream with
    /// one final error.  A row that merely fails to decode is yielded as
    /// a per-row error and the stream goes on.
    pub fn next_record(&mut self) -> (r: Option<Result<FioTransactionsRecord, FioError>>)
        requires
            old(self).wf(),
        ensures
            final(self).wf(),
            final(self).contents() == old(self).contents(),
            old(self).state() != ReaderState::Data ==> (r is None && *final(self) == *old(self)),
            old(self).state() == ReaderState::Data ==> final(self).header_cells() == old(self).header_cells(),
            (old(self).state() == ReaderState::Data && data_skip(
                old(self).contents(),
                old(self).pos(),
            ) >= old(self).contents().len()) ==> (r is None && final(self).state()
                == ReaderState::Exhausted && final(self).pos() == data_skip(
                old(self).contents(),
                old(self).pos(),
            )),
            (old(self).state() == ReaderState::Data && data_skip(
                old(self).contents(),
                old(self).pos(),
            ) < old(self).contents().len()) ==> ({
                let s = old(self).contents();
                let p = data_skip(s, old(self).pos());
                let cells = row_cells(s, p);
                let hc = old(self).header_cells();
                &&& final(self).pos() == next_row(s, p)
                &&& (cells.len() != hc.len() ==> (r matches Some(res) && res matches Err(e) && e
                    matches FioError::OtherError { code, message } && code@ == "framing"@ && final(self).state() == ReaderState::Exhausted))
                &&& (cells.len() == hc.len() ==> (final(self).state() == ReaderState::Data && (r
                    matches Some(res) && (res is Ok <==> rec_ok(hc, cells)) && (res matches Ok(rec)
                    ==> rec_matches(hc, cells, rec)) && (res matches Err(e) ==> e is DecodeError))))
            }),
    {
        if !(self.state == ReaderState::Data) {
            return None;
        }
        let ghost s = self.content@;
        let ghost p0 = self.pos as int;
        let len = self.content.as_str().unicode_len();
        let mut pos = self.pos;
        let mut done = false;
        while !done
            invariant
                0 <= pos <= len,
                len == s.len(),
                s == self.content@,
                data_skip(s, p0) == data_skip(s, pos as int),
                done ==> data_skip(s, pos as int) == pos as int,
            decreases len - pos, (if done {
                0int
            } else {
                1int
            }),
        {
            if pos >= len {
                done = true;
            } else {
                let e = find_char_from(self.content.as_str(), '\n', pos);
                let row = self.content.as_str().substring_char(pos, e);
                let rlen = row.unicode_len();
                let blank = rlen == 0 || (rlen == 1 && row.get_char(0) == '\r');
                proof {
                    assert(row@ == row_text(s, pos as int));
                    if rlen > 0 && row@.last() == '\r' {
                        assert(strip_cr(row@) == row@.drop_last());
                    }
                }
                if blank {
                    pos = if e < len {
                        e + 1
                    } else {
                        len
                    };
                } else {
                    assert(!is_blank_row(s, pos as int));
                    done = true;
                }
            }
        }
        if pos >= len {
            self.pos = pos;
            self.state = ReaderState::Exhausted;
            return None;
        }
        let e = find_char_from(self.content.as_str(), '\n', pos);
        let row = self.content.as_str().substring_char(pos, e);
        let rlen = row.unicode_len();
        let rend: usize = if rlen > 0 && row.get_char(rlen - 1) == '\r' {
            rlen - 1
        } else {
            rlen
        };
        let row2 = row.substring_char(0, rend);
        proof {
            assert(row2@ =~= strip_cr(row@));
        }
        let cells = split_semicolons(row2);
        self.pos = if e < len {
            e + 1
        } else {
            len
        };
        if cells.len() != self.header.len() {
            self.state = ReaderState::Exhausted;
            return Some(
                Err(
                    FioError::OtherError {
                        code: "framing".to_owned(),
                        message: "row and header column counts differ".to_owned(),
                    },
                ),
            );
        }
        let res = decode_record(&self.header, &cells);
        Some(res)
    }
}

impl FioResponseInfo {
    /// Reads the info section from the start of the stream: each
    /// two-column line is split at its delimiter into key and value;
    /// the first line that is no such pair ends the section.  The
    /// section is single-shot: once anything was consumed, reading it
    /// again fails with an already-consumed condition.
    pub fn read(r: &mut FioResponse) -> (ret: Result<FioResponseInfo, FioError>)
        requires
            old(r).wf(),
        ensures
            final(r).wf(),
            final(r).contents() == old(r).contents(),
            old(r).state() == ReaderState::Fresh ==> (ret matches Ok(i) && i@ == info_map(
                old(r).contents(),
                old(r).pos(),
            ) && final(r).pos() == info_end(old(r).contents(), old(r).pos()) && final(r).state()
                == ReaderState::InfoRead && final(r).header_cells() == old(r).header_cells()),
            old(r).state() != ReaderState::Fresh ==> (*final(r) == *old(r) && (ret matches Err(e)
                && e matches FioError::OtherError { code, message } && code@
                == "already_consumed"@)),
    {
        if !(r.state == ReaderState::Fresh) {
            return Err(
                FioError::OtherError {
                    code: "already_consumed".to_owned(),
                    message: "the info section was already read from the stream".to_owned(),
                },
            );
        }
        let ghost s = r.content@;
        let ghost p0 = r.pos as int;
        let len = r.content.as_str().unicode_len();
        let mut pos = r.pos;
        let mut entries: Vec<(String, String)> = Vec::new();
        let mut done = false;
        while !done
            invariant
                0 <= pos <= len,
                len == s.len(),
                s == r.content@,
                pairs_end(s, p0) == pairs_end(s, pos as int),
                info_map(s, p0) == assoc_map(entries@).union_prefer_right(
                    info_map(s, pos as int),
                ),
                done ==> (pairs_end(s, pos as int) == pos as int && info_map(s, pos as int)
                    =~= Map::<Seq<char>, Seq<char>>::empty()),
            decreases len - pos, (if done {
                0int
            } else {
                1int
            }),
        {
            if pos >= len {
                done = true;
            } else {
                let e = find_char_from(r.content.as_str(), '\n', pos);
                let row = r.content.as_str().substring_char(pos, e);
                let rlen = row.unicode_len();
                proof {
                    assert(row@ == row_text(s, pos as int));
                }
                let n1 = find_char_from(row, ';', 0);
                if n1 >= rlen {
                    assert(!is_pair_row(row@));
                    done = true;
                } else {
                    let n2 = find_char_from(row, ';', n1 + 1);
                    if n2 < rlen {
                        assert(!is_pair_row(row@));
                        done = true;
                    } else {
                        assert(is_pair_row(row@));
                        let key = row.substring_char(0, n1).to_owned();
                        let vend = trim_end_index(row, n1 + 1, rlen);
                        let val = row.substring_char(n1 + 1, vend).to_owned();
                        proof {
                            assert(key@ == pair_key(row@));
                            assert(val@ == pair_val(row@));
                            let es2 = entries@.push((key, val));
                            assert(es2.drop_last() =~= entries@);
                            assert(assoc_map(es2) == assoc_map(entries@).insert(key@, val@));
                            let rest = info_map(s, next_row(s, pos as int));
                            assert(info_map(s, pos as int) == map![pair_key(row@) => pair_val(
                                row@,
                            )].union_prefer_right(rest));
                            assert(assoc_map(entries@).insert(key@, val@).union_prefer_right(rest)
                                =~= assoc_map(entries@).union_prefer_right(
                                map![key@ => val@].union_prefer_right(rest),
                            ));
                        }
                        entries.push((key, val));
                        pos = if e < len {
                            e + 1
                        } else {
                            len
                        };
                    }
                }
            }
        }
        proof {
            assert(info_map(s, p0) =~= assoc_map(entries@));
        }
        let ghost pa = pairs_end(s, p0);
        let mut done2 = false;
        while !done2
            invariant
                0 <= pos <= len,
                len == s.len(),
                s == r.content@,
                seps_end(s, pa) == seps_end(s, pos as int),
                done2 ==> seps_end(s, pos as int) == pos as int,
            decreases len - pos, (if done2 {
                0int
            } else {
                1int
            }),
        {
            if pos >= len {
                done2 = true;
            } else {
                let e = find_char_from(r.content.as_str(), '\n', pos);
                let row = r.content.as_str().substring_char(pos, e);
                let rlen = row.unicode_len();
                proof {
                    assert(row@ == row_text(s, pos as int));
                }
                let n1 = find_char_from(row, ';', 0);
                if n1 < rlen {
                    assert(!is_sep_row(row@));
                    done2 = true;
                } else {
                    assert(is_sep_row(row@));
                    pos = if e < len {
                        e + 1
                    } else {
                        len
                    };
                }
            }
        }
        r.pos = pos;
        r.state = ReaderState::InfoRead;
        Ok(FioResponseInfo { entries })
    }

    /// Advances a fresh reader past the info section, by the same
    /// boundary rule as [`FioResponseInfo::read`], without keeping the
    /// pairs.  On a reader that already consumed anything it changes
    /// nothing.
    pub fn skip(r: &mut FioResponse)
        requires
            old(r).wf(),
        ensures
            final(r).wf(),
            final(r).contents() == old(r).contents(),
            old(r).state() == ReaderState::Fresh ==> (final(r).pos() == info_end(
                old(r).contents(),
                old(r).pos(),
            ) && final(r).state() == ReaderState::InfoRead && final(r).header_cells() == old(r).header_cells()),
            old(r).state() != ReaderState::Fresh ==> *final(r) == *old(r),
    {
        let _info = FioResponseInfo::read(r);
    }
}

} // verus!
