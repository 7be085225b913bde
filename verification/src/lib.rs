//! Client-side logic for a bank's REST export/import API: codecs for the
//! bank's locale-specific number and date formats, a decoder for the
//! two-part responses (a key/value info block followed by delimited
//! transaction rows), builders for payment-order XML documents, and the
//! pacing gate that keeps consecutive calls a minimum interval apart.

mod csvdata;
mod error;
mod export;
mod import;
mod pacer;
mod period;
mod response;
mod text;
mod tiny_xml;

pub use csvdata::FioDate;
pub use csvdata::FioDecimal;
pub use csvdata::parse_fio_date;
pub use csvdata::parse_fio_decimal;
pub use csvdata::TxType;
pub use csvdata::FioTransactionsRecord;
pub use csvdata::decode_record;
pub use csvdata::month_days;
pub use csvdata::leap_year;
pub use export::FioExportReq;
pub use export::ReportFormat;
pub use export::TxFormat;
pub use error::FioError;
pub use error::StatusOutcome;
pub use error::classify_status;
pub use error::parse_xml_error;
pub use response::FioResponse;
pub use response::FioResponseInfo;
pub use response::ReaderState;
pub use response::in_pair_run;
pub use response::lemma_info_pair_retrieved;
pub use response::lemma_info_key_absent;
pub use import::AbroadTransaction;
pub use import::DetailsOfCharges;
pub use import::DomesticPayment;
pub use import::DomesticSymbolsBuilder;
pub use import::DomesticTransaction;
pub use import::ForeignPayment;
pub use import::ForeignTransaction;
pub use import::Payment;
pub use import::PaymentBuilder;
pub use import::T2Payment;
pub use import::T2Transaction;
pub use import::ToPaymentXml;
pub use period::FioPeriod;
pub use tiny_xml::Attribute;
pub use tiny_xml::escape_attr;
pub use tiny_xml::escape_textcontent;
pub use tiny_xml::DirtyXml;
pub use pacer::MIN_INTERVAL_MS;
pub use pacer::Pacer;
pub use pacer::STATUS_TOO_SOON;
pub use pacer::PacerAction;
