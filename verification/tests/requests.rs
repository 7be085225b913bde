//! Export request URLs, periods, the status classifier and the pacer.

use fio_api_rs::FioDate;
use fio_api_rs::FioError;
use fio_api_rs::FioExportReq;
use fio_api_rs::FioPeriod;
use fio_api_rs::Pacer;
use fio_api_rs::PacerAction;
use fio_api_rs::ReportFormat;
use fio_api_rs::StatusOutcome;
use fio_api_rs::TxFormat;
use fio_api_rs::classify_status;
use fio_api_rs::parse_xml_error;

#[test]
fn test_build_url_by_id() {
    let req = FioExportReq::ById { year: 2021, id: 6, format: ReportFormat::Csv };
    assert_eq!(
        "https://www.fio.cz/ib_api/rest/by-id/TOKEN/2021/6/transactions.csv",
        req.build_url("TOKEN").as_str()
    );
}

#[test]
fn test_build_url_periods() {
    let req = FioExportReq::Periods {
        date_start: FioDate::from_ymd(2021, 6, 1),
        date_end: FioDate::from_ymd(2021, 6, 30),
        format: TxFormat::Csv,
    };
    assert_eq!(
        "https://www.fio.cz/ib_api/rest/periods/TOKEN/2021-06-01/2021-06-30/transactions.csv",
        req.build_url("TOKEN").as_str()
    );
}

#[test]
fn test_build_url_other_commands() {
    let req = FioExportReq::Last { format: TxFormat::Json };
    assert_eq!(
        "https://www.fio.cz/ib_api/rest/last/T/transactions.json",
        req.build_url("T").as_str()
    );
    let req = FioExportReq::SetLastId { id: "23794028126".to_string() };
    assert_eq!(
        "https://www.fio.cz/ib_api/rest/set-last-id/T/23794028126",
        req.build_url("T").as_str()
    );
    let req = FioExportReq::SetLastDate { date: "2021-06-30".to_string() };
    assert_eq!(
        "https://www.fio.cz/ib_api/rest/set-last-date/T/2021-06-30",
        req.build_url("T").as_str()
    );
    let req = FioExportReq::Merchant {
        date_start: FioDate::from_ymd(2020, 12, 5),
        date_end: FioDate::from_ymd(2021, 1, 7),
        format: TxFormat::FioXml,
    };
    assert_eq!(
        "https://www.fio.cz/ib_api/rest/merchant/T/2020-12-05/2021-01-07/transactions.xml",
        req.build_url("T").as_str()
    );
    let req = FioExportReq::LastStatement;
    assert_eq!(
        "https://www.fio.cz/ib_api/rest/lastStatement/T/statement",
        req.build_url("T").as_str()
    );
    let req = FioExportReq::ById { year: 2022, id: 1, format: ReportFormat::Pdf };
    assert_eq!(
        "https://www.fio.cz/ib_api/rest/by-id/T/2022/1/transactions.pdf",
        req.build_url("T").as_str()
    );
    let req = FioExportReq::ById { year: 2022, id: 2, format: ReportFormat::Mt940 };
    assert_eq!(
        "https://www.fio.cz/ib_api/rest/by-id/T/2022/2/transactions.sta",
        req.build_url("T").as_str()
    );
}

#[test]
fn test_parse_period() {
    assert_eq!(
        FioPeriod::parse("2019,3").unwrap().to_string(),
        FioPeriod::new(2019, 3).to_string()
    );
}

#[test]
fn test_period_previous() {
    assert_eq!(
        FioPeriod::new(2019, 1).previous().to_string(),
        FioPeriod::new(2018, 12).to_string()
    );
    assert_eq!(
        FioPeriod::new(2019, 2).previous().to_string(),
        FioPeriod::new(2019, 1).to_string()
    );
}

#[test]
fn test_parse_period_rejects_bad_text() {
    assert!(FioPeriod::parse("2019").is_err());
    assert!(FioPeriod::parse("2019,").is_err());
    assert!(FioPeriod::parse(",3").is_err());
    assert!(FioPeriod::parse("abc,3").is_err());
}

#[test]
fn test_pacer_keeps_minimum_interval() {
    let mut p = Pacer::new(100_000);
    let t1 = p.plan_dispatch(100_000);
    assert_eq!(100_000, t1);
    // A second call right away is pushed one full interval after the first.
    let t2 = p.plan_dispatch(100_500);
    assert_eq!(130_000, t2);
    assert!(t2 - t1 >= 30_000);
    // A call long after the interval goes out at once.
    let t3 = p.plan_dispatch(500_000);
    assert_eq!(500_000, t3);
    assert!(t3 - t2 >= 30_000);
}

#[test]
fn test_pacer_too_soon_retries_with_fresh_stamp() {
    let mut p = Pacer::new(100_000);
    let t1 = p.plan_dispatch(100_000);
    assert_eq!(100_000, t1);
    // The remote signals "too soon": retry, with the stamp reset to now.
    let a = p.after_dispatch(101_000, 409);
    assert_eq!(PacerAction::Retry, a);
    let t2 = p.plan_dispatch(101_000);
    assert_eq!(131_000, t2);
    // Any other status is surfaced and leaves the pacer alone.
    let a = p.after_dispatch(131_000, 200);
    assert_eq!(PacerAction::Surface, a);
}

#[test]
fn test_classify_status() {
    assert_eq!(StatusOutcome::Success, classify_status(200, "OK"));
    assert_eq!(StatusOutcome::Success, classify_status(299, ""));
    assert_eq!(StatusOutcome::Fail(FioError::BadRequest), classify_status(404, "Not Found"));
    assert_eq!(StatusOutcome::Fail(FioError::InvalidTiming), classify_status(409, "Conflict"));
    assert_eq!(StatusOutcome::Fail(FioError::TooManyRows), classify_status(413, ""));
    assert_eq!(StatusOutcome::NeedsXmlError, classify_status(500, ""));
    match classify_status(418, "I'm a teapot") {
        StatusOutcome::Fail(FioError::OtherError { code, message }) => {
            assert_eq!("other", code.as_str());
            assert_eq!("I'm a teapot", message.as_str());
        }
        other => panic!("expected the catch-all failure, got {:?}", other),
    }
}

const ERROR_XML: &str = "<response xmlns:xsi=\"http://www.w3.org/2001/XMLSchema-instance\" xsi:noNamespaceSchemaLocation=\"https://www.fio.cz/schema/response.xsd\">\n\t<result>\n\t\t<errorCode>21</errorCode>\n\t\t<status>error</status>\n\t\t<message>Výpis neexistuje</message>\n\t\t<detail></detail>\n\t</result>\n</response>";

#[test]
fn test_xml_error_report_does_not_exist() {
    let e = parse_xml_error(Some("text/xml;charset=UTF-8"), ERROR_XML);
    assert_eq!(FioError::ReportDoesNotExist, e);
}

#[test]
fn test_xml_error_other_code() {
    let body = ERROR_XML.replace("21", "5");
    let e = parse_xml_error(Some("text/xml;charset=UTF-8"), body.as_str());
    match e {
        FioError::InternalServerError { code, message } => {
            assert_eq!(5, code);
            assert_eq!("Výpis neexistuje", message.as_str());
        }
        other => panic!("expected an internal server error, got {:?}", other),
    }
}

#[test]
fn test_xml_error_fails_closed() {
    match parse_xml_error(None, ERROR_XML) {
        FioError::OtherError { code, message } => {
            assert_eq!("missing_header", code.as_str());
            assert_eq!("content_type", message.as_str());
        }
        other => panic!("expected the missing-header failure, got {:?}", other),
    }
    match parse_xml_error(Some("text/html"), ERROR_XML) {
        FioError::OtherError { code, message } => {
            assert_eq!("bad_content_type", code.as_str());
            assert_eq!("text/html", message.as_str());
        }
        other => panic!("expected the content-type failure, got {:?}", other),
    }
    match parse_xml_error(Some("text/xml;charset=UTF-8"), "not xml at all") {
        FioError::OtherError { code, .. } => assert_eq!("xml-error", code.as_str()),
        other => panic!("expected the fail-closed catch-all, got {:?}", other),
    }
}
