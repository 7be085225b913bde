//! The XML writer and the payment builders.

use fio_api_rs::AbroadTransaction;
use fio_api_rs::DirtyXml;
use fio_api_rs::DomesticPayment;
use fio_api_rs::DomesticSymbolsBuilder;
use fio_api_rs::DomesticTransaction;
use fio_api_rs::FioDate;
use fio_api_rs::FioError;
use fio_api_rs::ForeignPayment;
use fio_api_rs::Payment;
use fio_api_rs::PaymentBuilder;
use fio_api_rs::T2Payment;
use fio_api_rs::ToPaymentXml;
use fio_api_rs::parse_fio_decimal;

#[test]
fn test_doc() {
    let mut doc = DirtyXml::new();
    doc.open_attrs("Import", &[
        ("xmlns:xsi", "http://www.w3.org/2001/XMLSchema-instance"),
        ("xsi:noNamespaceSchemaLocation", "http://www.fio.cz/schema/importIB.xsd"),
    ]);
    doc.open("Orders");
    doc.open("DomesticTransaction");
    doc.simple("accountFrom", "1234562");
    doc.simple("currency", "CZK");
    doc.simple("comment", r#""Vaše" označení & naše <po>kusy"#);
    doc.open_attrs("test", &[("hello", r#""earth" & <M>ars"#)]);
    let xml_string = doc.into_xml();
    let expected_xml = r#"<?xml version="1.0" encoding="UTF-8" standalone="yes"?>
<Import xmlns:xsi="http://www.w3.org/2001/XMLSchema-instance" xsi:noNamespaceSchemaLocation="http://www.fio.cz/schema/importIB.xsd">
 <Orders>
  <DomesticTransaction>
   <accountFrom>1234562</accountFrom>
   <currency>CZK</currency>
   <comment>"Vaše" označení &amp; naše &lt;po&gt;kusy</comment>
   <test hello="&quot;earth&quot; &amp; &lt;M&gt;ars">
   </test>
  </DomesticTransaction>
 </Orders>
</Import>
"#;
    assert_eq!(expected_xml, xml_string);
}

#[test]
fn xyz() {
    let czpayment = Payment::from(
        DomesticPayment::new("a", "CZK")
            .date(FioDate::from_ymd(2021, 6, 30))
            .amount(parse_fio_decimal("3,4").unwrap())
            .account_to("1234567890", "1234")
            .ks("a")
            .vs("adsf"),
    );
    println!("czpayment: {:?}", czpayment);

    let t2: Payment = T2Payment::new("dsaf", "EUR")
        .date(FioDate::from_ymd(2021, 6, 30))
        .amount(parse_fio_decimal("34,1").unwrap())
        .account_to("fsdafs")
        .bic("dfas")
        .into();
    println!("t2: {:?}", t2);

    let fp = ForeignPayment::new("a", "USD")
        .date(FioDate::from_ymd(2021, 6, 30))
        .amount(parse_fio_decimal("43,1").unwrap())
        .account_to("fadfa")
        .bic("fasdfa");
    println!("fp: {:?}", Payment::from(fp));
}

#[test]
fn test_domestic_payment_xml() {
    let payment = DomesticPayment::new("123", "CZK")
        .amount(parse_fio_decimal("3,4").unwrap())
        .account_to("1234567890", "1234")
        .date(FioDate::from_ymd(2021, 6, 30));
    let xml = payment.to_payment_xml().unwrap();
    let expected = r#"<?xml version="1.0" encoding="UTF-8" standalone="yes"?>
<Import xmlns:xsi="http://www.w3.org/2001/XMLSchema-instance" xsi:noNamespaceSchemaLocation="http://www.fio.cz/schema/importIB.xsd">
 <Orders>
  <DomesticTransaction>
   <accountFrom>123</accountFrom>
   <currency>CZK</currency>
   <amount>3.4</amount>
   <accountTo>1234567890</accountTo>
   <bankCode>1234</bankCode>
   <date>2021-06-30</date>
  </DomesticTransaction>
 </Orders>
</Import>
"#;
    assert_eq!(expected, xml.as_str());
}

#[test]
fn test_empty_fields_are_not_emitted() {
    let payment = DomesticPayment::new("123", "CZK")
        .date(FioDate::from_ymd(2021, 6, 30))
        .ks("")
        .comment("");
    let xml = payment.to_payment_xml().unwrap();
    assert!(!xml.contains("<ks>"));
    assert!(!xml.contains("<comment>"));
    assert!(xml.contains("<accountFrom>123</accountFrom>"));
}

#[test]
fn test_setting_a_field_twice_keeps_later_value() {
    let payment = DomesticPayment::new("123", "CZK")
        .date(FioDate::from_ymd(2021, 6, 30))
        .comment("first")
        .comment("second");
    let xml = payment.to_payment_xml().unwrap();
    assert!(xml.contains("<comment>second</comment>"));
    assert!(!xml.contains("first"));
}

#[test]
fn test_payment_without_kind_fails_to_render() {
    let payments: Vec<Payment> = vec![Payment::default()];
    match (&payments[..]).to_payment_xml() {
        Err(FioError::OtherError { code, .. }) => {
            assert_eq!("missing_transaction_type", code.as_str())
        }
        other => panic!("expected the missing-kind failure, got {:?}", other),
    }
}

#[test]
fn test_payment_array_xml() {
    let a = Payment::from(
        DomesticPayment::new("1", "CZK").date(FioDate::from_ymd(2021, 6, 30)),
    );
    let b = Payment::from(
        DomesticPayment::new("2", "CZK").date(FioDate::from_ymd(2021, 7, 1)),
    );
    let payments = vec![a, b];
    let xml = (&payments[..]).to_payment_xml().unwrap();
    assert!(xml.contains("<accountFrom>1</accountFrom>"));
    assert!(xml.contains("<accountFrom>2</accountFrom>"));
    assert_eq!(2, xml.matches("<DomesticTransaction>").count());
}
