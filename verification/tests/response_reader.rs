//! The two-phase response reader: info section, boundary, header row
//! and data rows.

use fio_api_rs::FioDate;
use fio_api_rs::FioError;
use fio_api_rs::FioResponse;
use fio_api_rs::FioResponseInfo;
use fio_api_rs::TxType;

const SAMPLE1: &str = "accountId;2345678901
bankId;2010
currency;CZK
iban;CZ6220100000002345678901
bic;FIOBCZPPXXX
openingBalance;4789,51
closingBalance;19753,26
dateStart;01.06.2021
dateEnd;30.06.2021
yearList;2021
idList;6
idFrom;23771345451
idTo;23794028126

ID pohybu;Datum;Objem;Měna;Protiúčet;Název protiúčtu;Kód banky;Název banky;KS;VS;SS;Uživatelská identifikace;Zpráva pro příjemce;Typ;Provedl;Upřesnění;Komentář;BIC;ID pokynu
";

fn sample1() -> FioResponseInfo {
    let mut r = FioResponse::new(SAMPLE1.to_string());
    r.info().unwrap()
}

#[test]
fn test_parse_balance() {
    let info = sample1();
    let balance = info.opening_balance().unwrap();
    println!("balance = {:?}", balance);
    assert_eq!(4789.51_f64, balance.int_part as f64 + balance.frac_part as f64 / 100.0);
    assert!(!balance.negative);
}

#[test]
fn test_parse_date() {
    let info = sample1();
    let date = info.date_end().unwrap();
    println!("date = {:?}", date);
    assert_eq!(FioDate::from_ymd(2021, 6, 30), date);
}

#[test]
fn test_info_values_returned_exactly() {
    let info = sample1();
    assert_eq!("2345678901", info.account_id().unwrap().as_str());
    assert_eq!("2010", info.bank_id().unwrap().as_str());
    assert_eq!("CZK", info.currency().unwrap().as_str());
    assert_eq!("CZ6220100000002345678901", info.iban().unwrap().as_str());
    assert_eq!("FIOBCZPPXXX", info.bic().unwrap().as_str());
    assert_eq!("23771345451", info.id_from().unwrap().as_str());
    assert_eq!("23794028126", info.id_to().unwrap().as_str());
    assert_eq!("2021", info.get_info("yearList").unwrap().as_str());
}

#[test]
fn test_missing_info_key_is_typed_failure() {
    let info = sample1();
    match info.get_info("somethingElse") {
        Err(FioError::MissingInfoField(k)) => assert_eq!("somethingElse", k.as_str()),
        other => panic!("expected a missing-field failure, got {:?}", other),
    }
}

#[test]
fn test_info_is_single_shot() {
    let mut r = FioResponse::new(SAMPLE1.to_string());
    r.info().unwrap();
    match r.info() {
        Err(FioError::OtherError { code, .. }) => assert_eq!("already_consumed", code.as_str()),
        other => panic!("expected the already-consumed condition, got {:?}", other),
    }
}

#[test]
fn test_info_then_zero_records() {
    let mut r = FioResponse::new(SAMPLE1.to_string());
    let info = r.info().unwrap();
    assert_eq!("2345678901", info.account_id().unwrap().as_str());
    r.begin_data();
    assert!(r.next_record().is_none());
    assert!(r.next_record().is_none());
}

#[test]
fn test_data_without_reading_info() {
    let content = format!(
        "{}{}\n",
        SAMPLE1,
        "1;30.06.2021;100,00;CZK;123456;Jan Novák;0800;;;;;;;Platba;;;;;2"
    );
    let mut r = FioResponse::new(content);
    r.begin_data();
    let rec = r.next_record().unwrap().unwrap();
    assert_eq!(1, rec.id_tx);
    assert_eq!(FioDate::from_ymd(2021, 6, 30), rec.date);
    assert_eq!(100, rec.value.int_part);
    assert_eq!(0, rec.value.frac_part);
    assert_eq!("CZK", rec.currency.as_str());
    assert_eq!("123456", rec.b_account.as_str());
    assert_eq!("Jan Novák", rec.b_account_name.as_str());
    assert_eq!("0800", rec.b_bankid.as_str());
    assert_eq!(None, rec.b_bank_name);
    assert_eq!(TxType::X07, rec.tx_type);
    assert_eq!(2, rec.id_command);
    assert!(r.next_record().is_none());
}

#[test]
fn test_bom_is_stripped() {
    let content = "\u{feff}accountId;42\n";
    let mut r = FioResponse::new(content.to_string());
    let info = r.info().unwrap();
    assert_eq!("42", info.account_id().unwrap().as_str());
}

#[test]
fn test_empty_stream() {
    let mut r = FioResponse::new(String::new());
    let info = r.info().unwrap();
    assert!(info.account_id().is_err());
    r.begin_data();
    assert!(r.next_record().is_none());
}

#[test]
fn test_info_only_response() {
    let mut r = FioResponse::new("accountId;7\n".to_string());
    let info = r.info().unwrap();
    assert_eq!("7", info.account_id().unwrap().as_str());
    r.begin_data();
    assert!(r.next_record().is_none());
}

#[test]
fn test_boundary_without_blank_line() {
    // The header row itself (many delimiters) ends the info section;
    // no separator line is needed.
    let content = "accountId;9\nID pohybu;Datum;Objem;Měna;Protiúčet;Název protiúčtu;Kód banky;Název banky;KS;VS;SS;Uživatelská identifikace;Zpráva pro příjemce;Typ;Provedl;Upřesnění;Komentář;BIC;ID pokynu\n1;01.06.2021;5,50;CZK;;;;;;;;;;Platba;;;;;3\n";
    let mut r = FioResponse::new(content.to_string());
    let info = r.info().unwrap();
    assert_eq!("9", info.account_id().unwrap().as_str());
    r.begin_data();
    let rec = r.next_record().unwrap().unwrap();
    assert_eq!(1, rec.id_tx);
    assert_eq!(3, rec.id_command);
    assert!(r.next_record().is_none());
}

#[test]
fn test_crlf_line_endings() {
    let content = "accountId;11\r\n\r\nID pohybu;Datum;Objem;Měna;Protiúčet;Název protiúčtu;Kód banky;Název banky;KS;VS;SS;Uživatelská identifikace;Zpráva pro příjemce;Typ;Provedl;Upřesnění;Komentář;BIC;ID pokynu\r\n4;02.06.2021;1,00;CZK;;;;;;;;;;Platba;;;;;5\r\n";
    let mut r = FioResponse::new(content.to_string());
    let info = r.info().unwrap();
    assert_eq!("11", info.account_id().unwrap().as_str());
    r.begin_data();
    let rec = r.next_record().unwrap().unwrap();
    assert_eq!(4, rec.id_tx);
    assert!(r.next_record().is_none());
}

#[test]
fn test_record_decode_failure_does_not_end_stream() {
    let content = "\nID pohybu;Datum;Objem;Měna;Protiúčet;Název protiúčtu;Kód banky;Název banky;KS;VS;SS;Uživatelská identifikace;Zpráva pro příjemce;Typ;Provedl;Upřesnění;Komentář;BIC;ID pokynu\nbad;30.06.2021;1,00;CZK;;;;;;;;;;Platba;;;;;1\n2;30.06.2021;2,00;CZK;;;;;;;;;;Platba;;;;;2\n";
    let mut r = FioResponse::new(content.to_string());
    r.begin_data();
    let first = r.next_record().unwrap();
    assert!(matches!(first, Err(FioError::DecodeError(_))));
    let second = r.next_record().unwrap().unwrap();
    assert_eq!(2, second.id_tx);
    assert!(r.next_record().is_none());
}

#[test]
fn test_framing_error_ends_stream() {
    let content = "\nID pohybu;Datum;Objem;Měna;Protiúčet;Název protiúčtu;Kód banky;Název banky;KS;VS;SS;Uživatelská identifikace;Zpráva pro příjemce;Typ;Provedl;Upřesnění;Komentář;BIC;ID pokynu\n1;2\n3;30.06.2021;1,00;CZK;;;;;;;;;;Platba;;;;;1\n";
    let mut r = FioResponse::new(content.to_string());
    r.begin_data();
    match r.next_record().unwrap() {
        Err(FioError::OtherError { code, .. }) => assert_eq!("framing", code.as_str()),
        other => panic!("expected a framing failure, got {:?}", other),
    }
    assert!(r.next_record().is_none());
}

#[test]
fn test_unknown_tx_label_in_record() {
    let content = "\nID pohybu;Datum;Objem;Měna;Protiúčet;Název protiúčtu;Kód banky;Název banky;KS;VS;SS;Uživatelská identifikace;Zpráva pro příjemce;Typ;Provedl;Upřesnění;Komentář;BIC;ID pokynu\n7;30.06.2021;1,00;CZK;;;;;;;;;;Úplně nový pohyb;;;;;1\n";
    let mut r = FioResponse::new(content.to_string());
    r.begin_data();
    let rec = r.next_record().unwrap().unwrap();
    match rec.tx_type {
        TxType::Other(l) => assert_eq!("Úplně nový pohyb", l.as_str()),
        other => panic!("expected the fallback variant, got {:?}", other),
    }
}

#[test]
fn test_duplicate_info_key_keeps_later_value() {
    let mut r = FioResponse::new("accountId;1\naccountId;2\n".to_string());
    let info = r.info().unwrap();
    assert_eq!("2", info.account_id().unwrap().as_str());
}

#[test]
fn test_info_value_trailing_blanks_trimmed() {
    let mut r = FioResponse::new("accountId;77  \t\n".to_string());
    let info = r.info().unwrap();
    assert_eq!("77", info.account_id().unwrap().as_str());
}

#[test]
fn test_read_and_skip_standalone() {
    let mut r = FioResponse::new(SAMPLE1.to_string());
    let info = FioResponseInfo::read(&mut r).unwrap();
    assert_eq!("CZK", info.currency().unwrap().as_str());
    let mut r2 = FioResponse::new(SAMPLE1.to_string());
    FioResponseInfo::skip(&mut r2);
    r2.begin_data();
    assert!(r2.next_record().is_none());
    let pairs = info.into_inner();
    assert_eq!(13, pairs.len());
}
