//! The closed error taxonomy of the library, and the classifier that maps
//! a transport status to it.
//!
//! The classifier never looks at a connection itself: the caller hands it
//! the numeric status (and, for a server-side rejection, the content type
//! and body of the response), and receives a typed error back.

use vstd::prelude::*;
use vstd::string::*;

use crate::text::digits_val;
use crate::text::find_sub;
use crate::text::lemma_digits_val_nonneg;
use crate::text::parse_u16;
use crate::text::spec_find_sub;
use crate::text::str_eq;
use crate::text::u16_text_ok;

verus! {

/// Every failure the library reports.
#[derive(Debug, Clone, PartialEq, Eq)]
pub enum FioError {
    /// The transport could not build or send the request; carries the
    /// transport's own description.
    ReqwestError(String),
    /// The server encountered an internal error that prevented it from
    /// fulfilling the request.
    ServerError,
    /// The server could not answer the query as sent; the URL parameters
    /// are wrong.
    BadRequest,
    /// The minimum interval between two calls with one token was not
    /// kept; the pacer recovers from this internally.
    InvalidTiming,
    /// A server-side rejection, decoded from the XML body of the
    /// response.
    InternalServerError { code: u16, message: String },
    /// The certificate check during an import failed.
    SslCertProblem,
    /// The result set exceeds the server's row limit; the caller must
    /// narrow the date range.
    TooManyRows,
    /// The requested report does not exist.
    ReportDoesNotExist,
    /// A typed accessor found no such key in the info block; carries the
    /// key that was asked for.
    MissingInfoField(String),
    /// A malformed amount, date or other value; carries the text that
    /// failed to decode.
    DecodeError(String),
    /// Anything else; preserves a short code and the diagnostic text.
    OtherError { code: String, message: String },
}

/// What the caller must do with a response of a given status.
#[derive(Debug, Clone, PartialEq, Eq)]
pub enum StatusOutcome {
    /// A success status: the body is the requested export.
    Success,
    /// A server-side rejection: the body carries an XML error document
    /// that `parse_xml_error` decodes.
    NeedsXmlError,
    /// A failure that the status alone determines.
    Fail(FioError),
}

/// Maps a transport status to the error taxonomy.  `reason` is the
/// transport's own phrase for an unrecognized status and is preserved in
/// the catch-all error.
pub fn classify_status(status: u16, reason: &str) -> (r: StatusOutcome)
    ensures
        200 <= status <= 299 ==> r == StatusOutcome::Success,
        status == 404 ==> r == StatusOutcome::Fail(FioError::BadRequest),
        status == 409 ==> r == StatusOutcome::Fail(FioError::InvalidTiming),
        status == 413 ==> r == StatusOutcome::Fail(FioError::TooManyRows),
        status == 500 ==> r == StatusOutcome::NeedsXmlError,
        !(200 <= status <= 299) && status != 404 && status != 409 && status != 413 && status
            != 500 ==> (r matches StatusOutcome::Fail(e) && e matches FioError::OtherError {
            code,
            message,
        } && code@ == "other"@ && message@ == reason@),
{
    if 200 <= status && status <= 299 {
        StatusOutcome::Success
    } else if status == 404 {
        StatusOutcome::Fail(FioError::BadRequest)
    } else if status == 409 {
        StatusOutcome::Fail(FioError::InvalidTiming)
    } else if status == 413 {
        StatusOutcome::Fail(FioError::TooManyRows)
    } else if status == 500 {
        StatusOutcome::NeedsXmlError
    } else {
        StatusOutcome::Fail(
            FioError::OtherError {
                code: "other".to_owned(),
                message: reason.to_owned(),
            },
        )
    }
}

/// The text enclosed between the first occurrence of `open` and the
/// next occurrence of `close` after it, or `None` when either tag is
/// missing.
pub open spec fn spec_tag_value(s: Seq<char>, open_tag: Seq<char>, close_tag: Seq<char>) -> Option<
    Seq<char>,
> {
    let a = spec_find_sub(s, open_tag, 0);
    if a < 0 {
        None
    } else {
        let st = a + open_tag.len();
        let b = spec_find_sub(s, close_tag, st);
        if b < 0 {
            None
        } else {
            Some(s.subrange(st, b))
        }
    }
}

/// The text enclosed by a pair of tags.
fn tag_value(s: &str, open_tag: &str, close_tag: &str) -> (r: Option<String>)
    ensures
        r matches Some(v) ==> spec_tag_value(s@, open_tag@, close_tag@) == Some(v@),
        r is None ==> spec_tag_value(s@, open_tag@, close_tag@) is None,
{
    let slen = s.unicode_len();
    let a = match find_sub(s, open_tag, 0) {
        Some(a) => a,
        None => {
            return None;
        }
    };
    let st = a + open_tag.unicode_len();
    let b = match find_sub(s, close_tag, st) {
        Some(b) => b,
        None => {
            return None;
        }
    };
    Some(s.substring_char(st, b).to_owned())
}

/// The error document's code is readable and small enough to be one.
pub open spec fn xml_error_code_ok(body: Seq<char>) -> bool {
    spec_tag_value(body, "<errorCode>"@, "</errorCode>"@) matches Some(c) && u16_text_ok(c)
}

/// The numeric code of the error document.
pub open spec fn xml_error_code(body: Seq<char>) -> int {
    digits_val(spec_tag_value(body, "<errorCode>"@, "</errorCode>"@)->Some_0)
}

/// The message of the error document.
pub open spec fn xml_error_message(body: Seq<char>) -> Option<Seq<char>> {
    spec_tag_value(body, "<message>"@, "</message>"@)
}

/// The content type under which the remote serves its error documents.
pub open spec fn spec_xml_content_type() -> Seq<char> {
    "text/xml;charset=UTF-8"@
}

/// Decodes the XML error document of a server-side rejection into the
/// taxonomy.  This fails closed: a missing or unexpected content type,
/// or a body without a readable numeric code and message, becomes a
/// catch-all error, never a propagated parse failure.  One specific
/// code means the requested report does not exist and gets its own
/// variant; every other code is carried as an internal server error
/// with its message.
pub fn parse_xml_error(content_type: Option<&str>, body: &str) -> (e: FioError)
    ensures
        content_type is None ==> (e matches FioError::OtherError { code, message } && code@
            == "missing_header"@ && message@ == "content_type"@),
        content_type matches Some(ct) ==> (ct@ != spec_xml_content_type() ==> (e matches
            FioError::OtherError { code, message } && code@ == "bad_content_type"@ && message@
            == ct@)),
        content_type matches Some(ct) ==> ct@ == spec_xml_content_type() ==> {
            let code_ok = xml_error_code_ok(body@);
            let msg = xml_error_message(body@);
            &&& (!(code_ok && msg is Some) ==> (e matches FioError::OtherError { code, message }
                && code@ == "xml-error"@))
            &&& ((code_ok && msg is Some && xml_error_code(body@) == 21) ==> e
                == FioError::ReportDoesNotExist)
            &&& ((code_ok && msg is Some && xml_error_code(body@) != 21) ==> (e matches
                FioError::InternalServerError { code, message } && code == xml_error_code(body@)
                && message@ == msg->Some_0))
        },
{
    let ct = match content_type {
        None => {
            return FioError::OtherError {
                code: "missing_header".to_owned(),
                message: "content_type".to_owned(),
            };
        }
        Some(ct) => ct,
    };
    if !str_eq(ct, "text/xml;charset=UTF-8") {
        return FioError::OtherError {
            code: "bad_content_type".to_owned(),
            message: ct.to_owned(),
        };
    }
    let code_txt = match tag_value(body, "<errorCode>", "</errorCode>") {
        Some(c) => c,
        None => {
            return FioError::OtherError {
                code: "xml-error".to_owned(),
                message: "no readable error code in the response body".to_owned(),
            };
        }
    };
    let code = match parse_u16(code_txt.as_str()) {
        Some(c) => {
            proof {
                lemma_digits_val_nonneg(code_txt@);
            }
            c
        }
        None => {
            return FioError::OtherError {
                code: "xml-error".to_owned(),
                message: "no readable error code in the response body".to_owned(),
            };
        }
    };
    let message = match tag_value(body, "<message>", "</message>") {
        Some(m) => m,
        None => {
            return FioError::OtherError {
                code: "xml-error".to_owned(),
                message: "no readable message in the response body".to_owned(),
            };
        }
    };
    if code == 21 {
        FioError::ReportDoesNotExist
    } else {
        FioError::InternalServerError { code, message }
    }
}

} // verus!
