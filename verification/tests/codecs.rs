//! The amount and date codecs, and the transaction-type decoder.

use fio_api_rs::FioDate;
use fio_api_rs::FioDecimal;
use fio_api_rs::TxType;
use fio_api_rs::parse_fio_date;
use fio_api_rs::parse_fio_decimal;

#[test]
fn test() {
    assert_eq!(2, 1 + 1, "it works")
}

#[test]
fn csvdata_test_parse_fio_date() {
    let date = parse_fio_date("30.06.2021").unwrap();
    println!("date = {:?}", date);
    assert_eq!(FioDate::from_ymd(2021, 6, 30), date);
}

#[test]
fn response_test_parse_fio_date() {
    let date = parse_fio_date("30.06.2021").unwrap();
    println!("date = {:?}", date);
    assert_eq!(FioDate::from_ymd(2021, 6, 30), date);
}

#[test]
fn test_decode_date_iso_shape_fails() {
    assert!(parse_fio_date("2021-06-30").is_err());
}

#[test]
fn test_decode_date_rejects_deviations() {
    assert!(parse_fio_date("1.6.2021").is_err());
    assert!(parse_fio_date("31.02.2021").is_err());
    assert!(parse_fio_date("00.06.2021").is_err());
    assert!(parse_fio_date("30.13.2021").is_err());
    assert!(parse_fio_date("30.06.21").is_err());
    assert!(parse_fio_date("").is_err());
}

#[test]
fn test_decode_date_leap_years() {
    assert_eq!(FioDate::from_ymd(2020, 2, 29), parse_fio_date("29.02.2020").unwrap());
    assert!(parse_fio_date("29.02.2021").is_err());
    assert!(parse_fio_date("29.02.1900").is_err());
    assert_eq!(FioDate::from_ymd(2000, 2, 29), parse_fio_date("29.02.2000").unwrap());
}

#[test]
fn test_decode_amount_comma() {
    let d = parse_fio_decimal("4789,51").unwrap();
    assert_eq!(
        FioDecimal { negative: false, int_part: 4789, frac_part: 51, frac_len: 2 },
        d
    );
    assert_eq!(4789.51_f64, d.int_part as f64 + d.frac_part as f64 / 100.0);
}

#[test]
fn test_decode_amount_dot_fails() {
    assert!(parse_fio_decimal("4789.51").is_err());
}

#[test]
fn test_decode_amount_two_commas_fail() {
    assert!(parse_fio_decimal("1,2,3").is_err());
}

#[test]
fn test_decode_amount_signs_and_integers() {
    let d = parse_fio_decimal("-123,45").unwrap();
    assert_eq!(
        FioDecimal { negative: true, int_part: 123, frac_part: 45, frac_len: 2 },
        d
    );
    let d = parse_fio_decimal("2010").unwrap();
    assert_eq!(
        FioDecimal { negative: false, int_part: 2010, frac_part: 0, frac_len: 0 },
        d
    );
    let d = parse_fio_decimal("+7,005").unwrap();
    assert_eq!(
        FioDecimal { negative: false, int_part: 7, frac_part: 5, frac_len: 3 },
        d
    );
    assert!(parse_fio_decimal("").is_err());
    assert!(parse_fio_decimal(",5").is_err());
    assert!(parse_fio_decimal("5,").is_err());
    assert!(parse_fio_decimal("abc").is_err());
}

#[test]
fn test_decode_amount_render_round_trip() {
    let d = parse_fio_decimal("-123,05").unwrap();
    assert_eq!("-123.05", d.render().as_str());
    let d = parse_fio_decimal("34,1").unwrap();
    assert_eq!("34.1", d.render().as_str());
    let d = parse_fio_decimal("7").unwrap();
    assert_eq!("7", d.render().as_str());
}

#[test]
fn test_tx_type_known_labels() {
    assert_eq!(TxType::X07, TxType::from_label("Platba"));
    assert_eq!(TxType::CardPayment, TxType::from_label("Příjem"));
    assert_eq!(TxType::FioIncome, TxType::from_label("Příjem převodem uvnitř banky"));
    assert_eq!(TxType::X11, TxType::from_label("Platba kartou"));
    assert_eq!(TxType::X43, TxType::from_label("Poplatek - pojištění hypotéky"));
}

#[test]
fn test_tx_type_collision_first_wins() {
    assert_eq!(TxType::X09, TxType::from_label("Bezhotovostní platba"));
    assert_eq!(TxType::X21, TxType::from_label("Evidovaný úrok"));
}

#[test]
fn test_tx_type_unknown_label_is_preserved() {
    let label = "Zbrusu nový typ pohybu";
    match TxType::from_label(label) {
        TxType::Other(l) => assert_eq!(label, l.as_str()),
        other => panic!("expected the fallback variant, got {:?}", other),
    }
}
