//! The read commands of the remote service and their URLs.
//!
//! Each command is one URL of the shape `{base}/{command}/{token}/{params}`.
//! Which output formats a command may ask for differs: the plain
//! transaction commands take [`TxFormat`], while the official statement
//! command also accepts the report-only formats of [`ReportFormat`] —
//! the split is enforced here, at construction, not left to the server.

use vstd::prelude::*;
use vstd::string::*;

use crate::csvdata::FioDate;
use crate::csvdata::spec_date_iso;
use crate::text::spec_u64_str;
use crate::text::u64_to_string;

verus! {

/// Output formats of the plain transaction-list commands.
#[derive(Debug, Clone, Copy, PartialEq, Eq, Structural)]
pub enum TxFormat {
    Csv,
    Gpc,
    Html,
    Json,
    Ofx,
    FioXml,
}

/// Output formats of the official statement command: the transaction
/// formats plus the report-only ones.
#[derive(Debug, Clone, Copy, PartialEq, Eq, Structural)]
pub enum ReportFormat {
    Csv,
    Gpc,
    Html,
    Json,
    Ofx,
    FioXml,
    Pdf,
    Mt940,
    /// `CAMT.053`
    CbaXml,
    /// `CAMT.053`
    SbaXml,
}

/// The file-name extension of a transaction format.
pub open spec fn spec_tx_format(f: TxFormat) -> Seq<char> {
    match f {
        TxFormat::Csv => "csv"@,
        TxFormat::Gpc => "gpc"@,
        TxFormat::Html => "html"@,
        TxFormat::Json => "json"@,
        TxFormat::Ofx => "ofx"@,
        TxFormat::FioXml => "xml"@,
    }
}

/// The file-name extension of a report format.
pub open spec fn spec_report_format(f: ReportFormat) -> Seq<char> {
    match f {
        ReportFormat::Csv => "csv"@,
        ReportFormat::Gpc => "gpc"@,
        ReportFormat::Html => "html"@,
        ReportFormat::Json => "json"@,
        ReportFormat::Ofx => "ofx"@,
        ReportFormat::FioXml => "xml"@,
        ReportFormat::Pdf => "pdf"@,
        ReportFormat::Mt940 => "sta"@,
        ReportFormat::CbaXml => "cba_xml"@,
        ReportFormat::SbaXml => "sba_xml"@,
    }
}

impl TxFormat {
    /// The format's file-name extension.
    pub fn as_str(&self) -> (r: &'static str)
        ensures
            r@ == spec_tx_format(*self),
    {
        match self {
            TxFormat::Csv => "csv",
            TxFormat::Gpc => "gpc",
            TxFormat::Html => "html",
            TxFormat::Json => "json",
            TxFormat::Ofx => "ofx",
            TxFormat::FioXml => "xml",
        }
    }
}

impl ReportFormat {
    /// The format's file-name extension.
    pub fn as_str(&self) -> (r: &'static str)
        ensures
            r@ == spec_report_format(*self),
    {
        match self {
            ReportFormat::Csv => "csv",
            ReportFormat::Gpc => "gpc",
            ReportFormat::Html => "html",
            ReportFormat::Json => "json",
            ReportFormat::Ofx => "ofx",
            ReportFormat::FioXml => "xml",
            ReportFormat::Pdf => "pdf",
            ReportFormat::Mt940 => "sta",
            ReportFormat::CbaXml => "cba_xml",
            ReportFormat::SbaXml => "sba_xml",
        }
    }
}

/// One read command, carrying only the parameters that command needs.
/// The report-only formats can only be asked for by `ById`, whose field
/// is the wider [`ReportFormat`]; every other command carries a
/// [`TxFormat`].
pub enum FioExportReq {
    /// Transactions of the account over a date range.
    Periods { date_start: FioDate, date_end: FioDate, format: TxFormat },
    /// One official statement, by year and number.
    ById { year: u16, id: u8, format: ReportFormat },
    /// Transactions since the last download.
    Last { format: TxFormat },
    /// Sets the download cursor to a transaction id.
    SetLastId { id: String },
    /// Sets the download cursor to a date.
    SetLastDate { date: String },
    /// Card transactions of a merchant over a date range.
    Merchant { date_start: FioDate, date_end: FioDate, format: TxFormat },
    /// Year and number of the last official statement.
    LastStatement,
}

/// The command segment of a request's URL.
pub open spec fn spec_command(req: FioExportReq) -> Seq<char> {
    match req {
        FioExportReq::Periods { .. } => "periods"@,
        FioExportReq::ById { .. } => "by-id"@,
        FioExportReq::Last { .. } => "last"@,
        FioExportReq::SetLastId { .. } => "set-last-id"@,
        FioExportReq::SetLastDate { .. } => "set-last-date"@,
        FioExportReq::Merchant { .. } => "merchant"@,
        FioExportReq::LastStatement => "lastStatement"@,
    }
}

/// The parameter segments of a request's URL.
pub open spec fn spec_params(req: FioExportReq) -> Seq<char> {
    match req {
        FioExportReq::Periods { date_start, date_end, format } => spec_date_iso(date_start).add(
            "/"@,
        ).add(spec_date_iso(date_end)).add("/transactions."@).add(spec_tx_format(format)),
        FioExportReq::ById { year, id, format } => spec_u64_str(year as int).add("/"@).add(
            spec_u64_str(id as int),
        ).add("/transactions."@).add(spec_report_format(format)),
        FioExportReq::Last { format } => "transactions."@.add(spec_tx_format(format)),
        FioExportReq::SetLastId { id } => id@,
        FioExportReq::SetLastDate { date } => date@,
        FioExportReq::Merchant { date_start, date_end, format } => spec_date_iso(date_start).add(
            "/"@,
        ).add(spec_date_iso(date_end)).add("/transactions."@).add(spec_tx_format(format)),
        FioExportReq::LastStatement => "statement"@,
    }
}

/// The whole URL of a request: base, command, token and parameters,
/// separated by slashes.
pub open spec fn spec_url(req: FioExportReq, token: Seq<char>) -> Seq<char> {
    "https://www.fio.cz/ib_api/rest"@.add("/"@).add(spec_command(req)).add("/"@).add(token).add(
        "/"@,
    ).add(spec_params(req))
}

impl FioExportReq {
    /// Renders the command's URL with the given access token.
    pub fn build_url(&self, token: &str) -> (r: String)
        ensures
            r@ == spec_url(*self, token@),
    {
        let mut s = String::new();
        s.append("https://www.fio.cz/ib_api/rest");
        s.append("/");
        match self {
            FioExportReq::Periods { .. } => s.append("periods"),
            FioExportReq::ById { .. } => s.append("by-id"),
            FioExportReq::Last { .. } => s.append("last"),
            FioExportReq::SetLastId { .. } => s.append("set-last-id"),
            FioExportReq::SetLastDate { .. } => s.append("set-last-date"),
            FioExportReq::Merchant { .. } => s.append("merchant"),
            FioExportReq::LastStatement => s.append("lastStatement"),
        }
        s.append("/");
        s.append(token);
        s.append("/");
        match self {
            FioExportReq::Periods { date_start, date_end, format } => {
                let ds = date_start.render_iso();
                s.append(ds.as_str());
                s.append("/");
                let de = date_end.render_iso();
                s.append(de.as_str());
                s.append("/transactions.");
                s.append(format.as_str());
            }
            FioExportReq::ById { year, id, format } => {
                let y = u64_to_string(*year as u64);
                s.append(y.as_str());
                s.append("/");
                let i = u64_to_string(*id as u64);
                s.append(i.as_str());
                s.append("/transactions.");
                s.append(format.as_str());
            }
            FioExportReq::Last { format } => {
                s.append("transactions.");
                s.append(format.as_str());
            }
            FioExportReq::SetLastId { id } => {
                s.append(id.as_str());
            }
            FioExportReq::SetLastDate { date } => {
                s.append(date.as_str());
            }
            FioExportReq::Merchant { date_start, date_end, format } => {
                let ds = date_start.render_iso();
                s.append(ds.as_str());
                s.append("/");
                let de = date_end.render_iso();
                s.append(de.as_str());
                s.append("/transactions.");
                s.append(format.as_str());
            }
            FioExportReq::LastStatement => {
                s.append("statement");
            }
        }
        assert(s@ =~= spec_url(*self, token@));
        s
    }
}

} // verus!
