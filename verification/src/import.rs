//! Payment orders for upload, and the builders that assemble them.
//!
//! A payment is a bag of named fields; the builders chain field
//! setters, and rendering walks a fixed, ordered field list, emitting
//! only the fields that were set and are non-empty, inside an
//! `Import/Orders/<kind>` document.

use vstd::prelude::*;
use vstd::string::*;

use crate::csvdata::FioDate;
use crate::csvdata::FioDecimal;
use crate::csvdata::spec_date_iso;
use crate::csvdata::spec_dec_render;
use crate::error::FioError;
use crate::text::assoc_map;
use crate::text::lemma_assoc_absent;
use crate::text::lemma_assoc_found;
use crate::text::spec_u64_str;
use crate::text::str_eq;
use crate::text::u64_to_string;
use crate::tiny_xml::DirtyXml;
use crate::tiny_xml::spaces;
use crate::tiny_xml::spec_attr;
use crate::tiny_xml::spec_attrs_from;
use crate::tiny_xml::spec_close_all;
use crate::tiny_xml::spec_escape_text;

verus! {

/// The name of the field that records the XML element of the
/// transaction kind.
pub open spec fn tx_kind_key() -> Seq<char> {
    ".xml_transaction_type"@
}

/// The field name at position `i` of the fixed field order.
pub open spec fn spec_payment_field(i: int) -> Seq<char> {
    if i == 0 {
        "accountFrom"@
    } else if i == 1 {
        "currency"@
    } else if i == 2 {
        "amount"@
    } else if i == 3 {
        "accountTo"@
    } else if i == 4 {
        "bankCode"@
    } else if i == 5 {
        "ks"@
    } else if i == 6 {
        "vs"@
    } else if i == 7 {
        "ss"@
    } else if i == 8 {
        "bic"@
    } else if i == 9 {
        "date"@
    } else if i == 10 {
        "messageForRecipient"@
    } else if i == 11 {
        "comment"@
    } else if i == 12 {
        "benefName"@
    } else if i == 13 {
        "benefStreet"@
    } else if i == 14 {
        "benefCity"@
    } else if i == 15 {
        "benefCountry"@
    } else if i == 16 {
        "remittanceInfo1"@
    } else if i == 17 {
        "remittanceInfo2"@
    } else if i == 18 {
        "remittanceInfo3"@
    } else if i == 19 {
        "remittanceInfo4"@
    } else if i == 20 {
        "detailsOfCharges"@
    } else if i == 21 {
        "paymentReason"@
    } else {
        "paymentType"@
    }
}

/// What one field contributes to an order element at nesting depth
/// `depth`: one line with the escaped value if the field is set and
/// non-empty, nothing otherwise.
pub open spec fn spec_field_xml(
    props: Map<Seq<char>, Seq<char>>,
    name: Seq<char>,
    depth: int,
) -> Seq<char> {
    if props.contains_key(name) && props[name].len() > 0 {
        spaces(depth).add("<"@).add(name).add(">"@).add(spec_escape_text(props[name])).add(
            "</"@,
        ).add(name).add(">\n"@)
    } else {
        Seq::empty()
    }
}

/// What the fields from position `i` of the fixed order on contribute
/// to an order element.
pub open spec fn spec_fields_xml(props: Map<Seq<char>, Seq<char>>, depth: int, i: int) -> Seq<
    char,
>
    decreases 23 - i when i <= 23
{
    if i >= 23 {
        Seq::empty()
    } else {
        spec_field_xml(props, spec_payment_field(i), depth).add(
            spec_fields_xml(props, depth, i + 1),
        )
    }
}

/// One whole order element at nesting depth `depth`: the transaction
/// kind wrapping the set fields, in the fixed order.
pub open spec fn spec_order_xml(props: Map<Seq<char>, Seq<char>>, depth: int) -> Seq<char> {
    spaces(depth).add("<"@).add(props[tx_kind_key()]).add(">\n"@).add(
        spec_fields_xml(props, depth + 1, 0),
    ).add(spaces(depth)).add("</"@).add(props[tx_kind_key()]).add(">\n"@)
}

/// The order elements of a document, one per payment.
pub open spec fn spec_orders_xml(orders: Seq<Map<Seq<char>, Seq<char>>>, i: int) -> Seq<char>
    decreases orders.len() - i when 0 <= i
{
    if i >= orders.len() {
        Seq::empty()
    } else {
        spec_order_xml(orders[i], 2).add(spec_orders_xml(orders, i + 1))
    }
}

/// The document head that every order document opens with: the XML
/// declaration, the import root with its schema attributes, and the
/// orders list.
pub open spec fn spec_orders_prefix() -> Seq<char> {
    "<?xml version=\"1.0\" encoding=\"UTF-8\" standalone=\"yes\"?>\n"@.add("<"@).add(
        "Import"@,
    ).add(spec_attr(("xmlns:xsi", "http://www.w3.org/2001/XMLSchema-instance"))).add(
        spec_attr(("xsi:noNamespaceSchemaLocation", "http://www.fio.cz/schema/importIB.xsd")),
    ).add(">\n"@).add(spaces(1)).add("<"@).add("Orders"@).add(">\n"@)
}

/// A whole payment-order document: the head, one element per order,
/// and the closing tags.
pub open spec fn spec_payment_doc(orders: Seq<Map<Seq<char>, Seq<char>>>) -> Seq<char> {
    spec_close_all(
        spec_orders_prefix().add(spec_orders_xml(orders, 0)),
        seq!["Import"@, "Orders"@],
    )
}

/// Renders a value as payment-order XML.
pub trait ToPaymentXml {
    /// The payments to render, as their field bags, in order.
    spec fn orders(&self) -> Seq<Map<Seq<char>, Seq<char>>>;

    /// The whole XML document for this value: the fixed head, then one
    /// element per payment holding its non-empty fields in the fixed
    /// order, escaped.  Rendering succeeds exactly when every payment
    /// has a transaction kind recorded.
    fn to_payment_xml(&self) -> (r: Result<String, FioError>)
        ensures
            r is Ok <==> (forall|i: int|
                0 <= i < self.orders().len() ==> (#[trigger] self.orders()[i]).contains_key(
                    tx_kind_key(),
                )),
            r matches Ok(x) ==> x@ == spec_payment_doc(self.orders()),
    ;
}

/// A generalized payment: named fields, set by the builders, emitted
/// in the fixed field order.
#[derive(Debug)]
pub struct Payment {
    properties: Vec<(String, String)>,
}

impl View for Payment {
    type V = Map<Seq<char>, Seq<char>>;

    closed spec fn view(&self) -> Map<Seq<char>, Seq<char>> {
        assoc_map(self.properties@)
    }
}

impl Default for Payment {
    /// A payment with no field set.
    fn default() -> (r: Payment)
        ensures
            r@ == Map::<Seq<char>, Seq<char>>::empty(),
    {
        let r = Payment { properties: Vec::new() };
        proof {
            assert(r@ =~= Map::<Seq<char>, Seq<char>>::empty());
        }
        r
    }
}

impl Payment {
    /// Sets one field, replacing any earlier value under the same name.
    fn set(&mut self, key: &str, value: &str)
        ensures
            final(self)@ == old(self)@.insert(key@, value@),
    {
        let entry = (key.to_owned(), value.to_owned());
        proof {
            let es2 = self.properties@.push(entry);
            assert(es2.drop_last() =~= self.properties@);
        }
        self.properties.push(entry);
    }

    /// The value of one field, if it was set.
    fn get_prop(&self, key: &str) -> (r: Option<String>)
        ensures
            self@.contains_key(key@) ==> (r matches Some(v) && v@ == self@[key@]),
            !self@.contains_key(key@) ==> r is None,
    {
        let mut i = self.properties.len();
        while i > 0
            invariant
                0 <= i <= self.properties@.len(),
                forall|j: int| i <= j < self.properties@.len() ==> #[trigger] self
                    .properties@[j].0@ != key@,
            decreases i,
        {
            i = i - 1;
            if str_eq(self.properties[i].0.as_str(), key) {
                proof {
                    lemma_assoc_found(self.properties@, key@, i as int);
                }
                return Some(self.properties[i].1.clone());
            }
        }
        proof {
            lemma_assoc_absent(self.properties@, key@);
        }
        None
    }

    /// Writes this payment as one order element into the document: the
    /// element is the transaction kind the builder recorded, and the
    /// fields follow in the fixed order, non-empty ones only.  Without
    /// a recorded kind nothing is written and the render fails.
    fn add_to(&self, doc: &mut DirtyXml) -> (r: Result<(), FioError>)
        ensures
            r is Ok <==> self@.contains_key(tx_kind_key()),
            r is Ok ==> final(doc).stack() == old(doc).stack() && final(doc).out() == old(
                doc,
            ).out().add(spec_order_xml(self@, old(doc).stack().len() as int)),
            r is Err ==> *final(doc) == *old(doc),
    {
        let kind = match self.get_prop(".xml_transaction_type") {
            Some(k) => k,
            None => {
                return Err(
                    FioError::OtherError {
                        code: "missing_transaction_type".to_owned(),
                        message: "payment has no transaction kind recorded".to_owned(),
                    },
                );
            }
        };
        let ghost d = old(doc).stack().len() as int;
        let ghost base = old(doc).out().add(spaces(d)).add("<"@).add(kind@).add(">\n"@);
        doc.open(kind.as_str());
        let mut i: usize = 0;
        while i < 23
            invariant
                0 <= i <= 23,
                kind@ == self@[tx_kind_key()],
                doc.stack() == old(doc).stack().push(kind@),
                d == old(doc).stack().len(),
                base == old(doc).out().add(spaces(d)).add("<"@).add(kind@).add(">\n"@),
                doc.out().add(spec_fields_xml(self@, d + 1, i as int)) == base.add(
                    spec_fields_xml(self@, d + 1, 0),
                ),
            decreases 23 - i,
        {
            let name = payment_field(i);
            match self.get_prop(name) {
                Some(value) => {
                    if !value.as_str().is_empty() {
                        doc.simple(name, value.as_str());
                        proof {
                            assert(spec_fields_xml(self@, d + 1, i as int) == spec_field_xml(
                                self@,
                                spec_payment_field(i as int),
                                d + 1,
                            ).add(spec_fields_xml(self@, d + 1, i + 1)));
                            assert(doc.out().add(spec_fields_xml(self@, d + 1, i + 1)) =~= base
                                .add(spec_fields_xml(self@, d + 1, 0)));
                        }
                    } else {
                        proof {
                            assert(spec_fields_xml(self@, d + 1, i as int) == spec_field_xml(
                                self@,
                                spec_payment_field(i as int),
                                d + 1,
                            ).add(spec_fields_xml(self@, d + 1, i + 1)));
                            assert(spec_field_xml(self@, name@, d + 1) =~= Seq::<char>::empty());
                            assert(doc.out().add(spec_fields_xml(self@, d + 1, i + 1)) =~= base
                                .add(spec_fields_xml(self@, d + 1, 0)));
                        }
                    }
                }
                None => {
                    proof {
                        assert(spec_fields_xml(self@, d + 1, i as int) == spec_field_xml(
                            self@,
                            spec_payment_field(i as int),
                            d + 1,
                        ).add(spec_fields_xml(self@, d + 1, i + 1)));
                        assert(spec_field_xml(self@, name@, d + 1) =~= Seq::<char>::empty());
                        assert(doc.out().add(spec_fields_xml(self@, d + 1, i + 1)) =~= base.add(
                            spec_fields_xml(self@, d + 1, 0),
                        ));
                    }
                }
            }
            i += 1;
        }
        proof {
            assert(spec_fields_xml(self@, d + 1, 23) == Seq::<char>::empty());
            assert(doc.out() =~= base.add(spec_fields_xml(self@, d + 1, 0)));
        }
        let _closed = doc.close();
        proof {
            assert(old(doc).stack().push(kind@).drop_last() =~= old(doc).stack());
            assert(final(doc).out() =~= old(doc).out().add(spec_order_xml(self@, d)));
        }
        Ok(())
    }
}

/// The valid fields, in their required order within the XML document.
fn payment_field(i: usize) -> (r: &'static str)
    requires
        i < 23,
    ensures
        r@ == spec_payment_field(i as int),
{
    match i {
        0 => "accountFrom",
        1 => "currency",
        2 => "amount",
        3 => "accountTo",
        4 => "bankCode",
        5 => "ks",
        6 => "vs",
        7 => "ss",
        8 => "bic",
        9 => "date",
        10 => "messageForRecipient",
        11 => "comment",
        12 => "benefName",
        13 => "benefStreet",
        14 => "benefCity",
        15 => "benefCountry",
        16 => "remittanceInfo1",
        17 => "remittanceInfo2",
        18 => "remittanceInfo3",
        19 => "remittanceInfo4",
        20 => "detailsOfCharges",
        21 => "paymentReason",
        _ => "paymentType",
    }
}

/// Opens a fresh order document: the import root and the orders list.
fn new_orders_doc() -> (doc: DirtyXml)
    ensures
        doc.stack() =~= seq!["Import"@, "Orders"@],
        doc.out() == spec_orders_prefix(),
{
    let mut doc = DirtyXml::new();
    let mut attrs: Vec<(&str, &str)> = Vec::new();
    attrs.push(("xmlns:xsi", "http://www.w3.org/2001/XMLSchema-instance"));
    attrs.push(("xsi:noNamespaceSchemaLocation", "http://www.fio.cz/schema/importIB.xsd"));
    let attrs_slice = attrs.as_slice();
    doc.open_attrs("Import", attrs_slice);
    proof {
        assert(spec_attr(attrs_slice@[0]) == spec_attr(
            ("xmlns:xsi", "http://www.w3.org/2001/XMLSchema-instance"),
        ));
        assert(spec_attr(attrs_slice@[1]) == spec_attr(
            ("xsi:noNamespaceSchemaLocation", "http://www.fio.cz/schema/importIB.xsd"),
        ));
        assert(spec_attrs_from(attrs_slice@, 2) =~= Seq::<char>::empty());
        assert(spec_attrs_from(attrs_slice@, 1) =~= spec_attr(attrs_slice@[1]));
        assert(spec_attrs_from(attrs_slice@, 0) =~= spec_attr(attrs_slice@[0]).add(
            spec_attr(attrs_slice@[1]),
        ));
    }
    doc.open("Orders");
    proof {
        assert(doc.out() =~= spec_orders_prefix());
    }
    doc
}

impl ToPaymentXml for DomesticPayment {
    closed spec fn orders(&self) -> Seq<Map<Seq<char>, Seq<char>>> {
        seq![self.payment@]
    }

    /// One domestic payment as a whole order document.
    fn to_payment_xml(&self) -> (r: Result<String, FioError>) {
        proof {
            assert(self.orders().len() == 1);
            assert(self.orders()[0] == self.payment@);
        }
        let mut doc = new_orders_doc();
        match self.payment.add_to(&mut doc) {
            Ok(()) => {
                proof {
                    assert(spec_orders_xml(self.orders(), 1) =~= Seq::<char>::empty());
                    assert(doc.out() =~= spec_orders_prefix().add(
                        spec_orders_xml(self.orders(), 0),
                    ));
                }
                Ok(doc.into_xml())
            }
            Err(e) => {
                proof {
                    assert(!self.orders()[0].contains_key(tx_kind_key()));
                }
                Err(e)
            }
        }
    }
}

impl ToPaymentXml for &[Payment] {
    closed spec fn orders(&self) -> Seq<Map<Seq<char>, Seq<char>>> {
        self@.map_values(|p: Payment| p@)
    }

    /// An array of payments as one order document.
    fn to_payment_xml(&self) -> (r: Result<String, FioError>) {
        let mut doc = new_orders_doc();
        let ghost os = self.orders();
        let mut i: usize = 0;
        while i < self.len()
            invariant
                0 <= i <= self@.len(),
                os == self.orders(),
                os.len() == self@.len(),
                forall|j: int| 0 <= j < self@.len() ==> os[j] == #[trigger] self@[j]@,
                doc.stack() =~= seq!["Import"@, "Orders"@],
                forall|j: int| 0 <= j < i ==> (#[trigger] os[j]).contains_key(tx_kind_key()),
                doc.out().add(spec_orders_xml(os, i as int)) == spec_orders_prefix().add(
                    spec_orders_xml(os, 0),
                ),
            decreases self@.len() - i,
        {
            match self[i].add_to(&mut doc) {
                Ok(()) => {
                    proof {
                        assert(doc.out().add(spec_orders_xml(os, i + 1)) =~= spec_orders_prefix()
                            .add(spec_orders_xml(os, 0)));
                    }
                }
                Err(e) => {
                    return Err(e);
                }
            }
            i += 1;
        }
        proof {
            assert(spec_orders_xml(os, self@.len() as int) =~= Seq::<char>::empty());
            assert(doc.out() =~= spec_orders_prefix().add(spec_orders_xml(os, 0)));
        }
        Ok(doc.into_xml())
    }
}

/// Chainable setters shared by every payment kind.
pub trait PaymentBuilder: Sized {
    /// The fields recorded so far.
    spec fn props(&self) -> Map<Seq<char>, Seq<char>>;

    /// Records one field, replacing any earlier value under the same
    /// name.
    fn set(self, key: &str, value: &str) -> (r: Self)
        ensures
            r.props() == self.props().insert(key@, value@),
    ;

    /// Records the XML element name of the transaction kind.
    fn xml_transaction_type(self, transaction_type: &str) -> (r: Self)
        ensures
            r.props() == self.props().insert(".xml_transaction_type"@, transaction_type@),
    {
        self.set(".xml_transaction_type", transaction_type)
    }

    /// The ordering account number.
    fn account_from(self, value: &str) -> (r: Self)
        ensures
            r.props() == self.props().insert("accountFrom"@, value@),
    {
        self.set("accountFrom", value)
    }

    /// The account currency, as an ISO 4217 code.
    fn currency(self, value: &str) -> (r: Self)
        ensures
            r.props() == self.props().insert("currency"@, value@),
    {
        self.set("currency", value)
    }

    /// The ordered amount.
    fn amount(self, value: FioDecimal) -> (r: Self)
        ensures
            r.props() == self.props().insert("amount"@, spec_dec_render(value)),
    {
        let s = value.render();
        self.set("amount", s.as_str())
    }

    /// The order date.
    fn date(self, value: FioDate) -> (r: Self)
        ensures
            r.props() == self.props().insert("date"@, spec_date_iso(value)),
    {
        let s = value.render_iso();
        self.set("date", s.as_str())
    }

    /// The orderer's own note.
    fn comment(self, value: &str) -> (r: Self)
        ensures
            r.props() == self.props().insert("comment"@, value@),
    {
        self.set("comment", value)
    }

    /// The payment reason code.
    fn payment_reason(self, value: u16) -> (r: Self)
        ensures
            r.props() == self.props().insert("paymentReason"@, spec_u64_str(value as int)),
    {
        let s = u64_to_string(value as u64);
        self.set("paymentReason", s.as_str())
    }

    /// The payment type code.
    fn payment_type(self, value: u32) -> (r: Self)
        ensures
            r.props() == self.props().insert("paymentType"@, spec_u64_str(value as int)),
    {
        let s = u64_to_string(value as u64);
        self.set("paymentType", s.as_str())
    }
}

/// The constant, variable and specific symbols of domestic payments.
pub trait DomesticSymbolsBuilder: PaymentBuilder {
    /// The constant symbol.
    fn ks(self, value: &str) -> (r: Self)
        ensures
            r.props() == self.props().insert("ks"@, value@),
    {
        self.set("ks", value)
    }

    /// The variable symbol.
    fn vs(self, value: &str) -> (r: Self)
        ensures
            r.props() == self.props().insert("vs"@, value@),
    {
        self.set("vs", value)
    }

    /// The specific symbol.
    fn ss(self, value: &str) -> (r: Self)
        ensures
            r.props() == self.props().insert("ss"@, value@),
    {
        self.set("ss", value)
    }
}

/// Setters specific to payments within the country.
pub trait DomesticTransaction: PaymentBuilder + DomesticSymbolsBuilder {
    /// The receiving account and its bank code.
    fn account_to(self, account_number: &str, bank_code: &str) -> (r: Self)
        ensures
            r.props() == self.props().insert("accountTo"@, account_number@).insert(
                "bankCode"@,
                bank_code@,
            ),
    {
        self.set("accountTo", account_number).set("bankCode", bank_code)
    }

    /// The message shown to the recipient.
    fn message_for_recipient(self, value: &str) -> (r: Self)
        ensures
            r.props() == self.props().insert("messageForRecipient"@, value@),
    {
        self.set("messageForRecipient", value)
    }
}

/// Setters shared by payments leaving the country.
pub trait AbroadTransaction: PaymentBuilder {
    /// The receiving account, as an IBAN.
    fn account_to(self, value: &str) -> (r: Self)
        ensures
            r.props() == self.props().insert("accountTo"@, value@),
    {
        self.set("accountTo", value)
    }

    /// The receiving bank, as a BIC.
    fn bic(self, value: &str) -> (r: Self)
        ensures
            r.props() == self.props().insert("bic"@, value@),
    {
        self.set("bic", value)
    }

    /// The beneficiary's name.
    fn benef_name(self, value: &str) -> (r: Self)
        ensures
            r.props() == self.props().insert("benefName"@, value@),
    {
        self.set("benefName", value)
    }

    /// The beneficiary's street.
    fn benef_street(self, value: &str) -> (r: Self)
        ensures
            r.props() == self.props().insert("benefStreet"@, value@),
    {
        self.set("benefStreet", value)
    }

    /// The beneficiary's city.
    fn benef_city(self, value: &str) -> (r: Self)
        ensures
            r.props() == self.props().insert("benefCity"@, value@),
    {
        self.set("benefCity", value)
    }

    /// The beneficiary's country.
    fn benef_country(self, value: &str) -> (r: Self)
        ensures
            r.props() == self.props().insert("benefCountry"@, value@),
    {
        self.set("benefCountry", value)
    }

    /// First remittance information line.
    fn remittance_info_1(self, value: &str) -> (r: Self)
        ensures
            r.props() == self.props().insert("remittanceInfo1"@, value@),
    {
        self.set("remittanceInfo1", value)
    }

    /// Second remittance information line.
    fn remittance_info_2(self, value: &str) -> (r: Self)
        ensures
            r.props() == self.props().insert("remittanceInfo2"@, value@),
    {
        self.set("remittanceInfo2", value)
    }

    /// Third remittance information line.
    fn remittance_info_3(self, value: &str) -> (r: Self)
        ensures
            r.props() == self.props().insert("remittanceInfo3"@, value@),
    {
        self.set("remittanceInfo3", value)
    }
}

/// Marker for European-area payments: abroad setters plus the domestic
/// symbols.
pub trait T2Transaction: AbroadTransaction + DomesticSymbolsBuilder {

}

/// Who carries the charges of a foreign payment.
pub enum DetailsOfCharges {
    /// The orderer carries everything.
    OUR,
    /// The beneficiary carries everything.
    BEN,
    /// Each side carries its own.
    SHA,
}

/// Setters specific to foreign payments.
pub trait ForeignTransaction: AbroadTransaction {
    /// Fourth remittance information line.
    fn remittance_info_4(self, value: &str) -> (r: Self)
        ensures
            r.props() == self.props().insert("remittanceInfo4"@, value@),
    {
        self.set("remittanceInfo4", value)
    }

    /// Who carries the charges.
    fn details_of_charges(self, value: &str) -> (r: Self)
        ensures
            r.props() == self.props().insert("detailsOfCharges"@, value@),
    {
        self.set("detailsOfCharges", value)
    }
}

/// A payment within the country; also usable to move foreign currency
/// between accounts of the same bank.
pub struct DomesticPayment {
    payment: Payment,
}

impl DomesticPayment {
    /// A domestic payment with the kind, ordering account and currency
    /// recorded; the caller chains the remaining fields, the date among
    /// them.
    pub fn new(account_from: &str, currency: &str) -> (r: DomesticPayment)
        ensures
            r.props() == Map::<Seq<char>, Seq<char>>::empty().insert(
                ".xml_transaction_type"@,
                "DomesticTransaction"@,
            ).insert("accountFrom"@, account_from@).insert("currency"@, currency@),
    {
        DomesticPayment { payment: Payment::default() }.xml_transaction_type(
            "DomesticTransaction",
        ).account_from(account_from).currency(currency)
    }
}

impl PaymentBuilder for DomesticPayment {
    closed spec fn props(&self) -> Map<Seq<char>, Seq<char>> {
        self.payment@
    }

    fn set(self, key: &str, value: &str) -> (r: Self) {
        let mut p = self;
        p.payment.set(key, value);
        p
    }
}

impl DomesticSymbolsBuilder for DomesticPayment {

}

impl DomesticTransaction for DomesticPayment {

}

impl From<DomesticPayment> for Payment {
    /// Hands out the assembled field bag.
    fn from(dp: DomesticPayment) -> (r: Payment) {
        dp.payment
    }
}

impl vstd::std_specs::convert::FromSpecImpl<DomesticPayment> for Payment {
    open spec fn obeys_from_spec() -> bool {
        true
    }

    closed spec fn from_spec(dp: DomesticPayment) -> Payment {
        dp.payment
    }
}

/// A European-area payment.
pub struct T2Payment {
    payment: Payment,
}

impl T2Payment {
    /// A European-area payment with the kind, ordering account and
    /// currency recorded.
    pub fn new(account_from: &str, currency: &str) -> (r: T2Payment)
        ensures
            r.props() == Map::<Seq<char>, Seq<char>>::empty().insert(
                ".xml_transaction_type"@,
                "T2Transaction"@,
            ).insert("accountFrom"@, account_from@).insert("currency"@, currency@),
    {
        T2Payment { payment: Payment::default() }.xml_transaction_type(
            "T2Transaction",
        ).account_from(account_from).currency(currency)
    }
}

impl PaymentBuilder for T2Payment {
    closed spec fn props(&self) -> Map<Seq<char>, Seq<char>> {
        self.payment@
    }

    fn set(self, key: &str, value: &str) -> (r: Self) {
        let mut p = self;
        p.payment.set(key, value);
        p
    }
}

impl AbroadTransaction for T2Payment {

}

impl DomesticSymbolsBuilder for T2Payment {

}

impl T2Transaction for T2Payment {

}

impl From<T2Payment> for Payment {
    /// Hands out the assembled field bag.
    fn from(p: T2Payment) -> (r: Payment) {
        p.payment
    }
}

impl vstd::std_specs::convert::FromSpecImpl<T2Payment> for Payment {
    open spec fn obeys_from_spec() -> bool {
        true
    }

    closed spec fn from_spec(p: T2Payment) -> Payment {
        p.payment
    }
}

/// A payment outside the European area.
pub struct ForeignPayment {
    payment: Payment,
}

impl ForeignPayment {
    /// A foreign payment with the kind, ordering account and currency
    /// recorded.
    pub fn new(account_from: &str, currency: &str) -> (r: ForeignPayment)
        ensures
            r.props() == Map::<Seq<char>, Seq<char>>::empty().insert(
                ".xml_transaction_type"@,
                "ForeignTransaction"@,
            ).insert("accountFrom"@, account_from@).insert("currency"@, currency@),
    {
        ForeignPayment { payment: Payment::default() }.xml_transaction_type(
            "ForeignTransaction",
        ).account_from(account_from).currency(currency)
    }
}

impl PaymentBuilder for ForeignPayment {
    closed spec fn props(&self) -> Map<Seq<char>, Seq<char>> {
        self.payment@
    }

    fn set(self, key: &str, value: &str) -> (r: Self) {
        let mut p = self;
        p.payment.set(key, value);
        p
    }
}

impl AbroadTransaction for ForeignPayment {

}

impl ForeignTransaction for ForeignPayment {

}

impl From<ForeignPayment> for Payment {
    /// Hands out the assembled field bag.
    fn from(p: ForeignPayment) -> (r: Payment) {
        p.payment
    }
}

impl vstd::std_specs::convert::FromSpecImpl<ForeignPayment> for Payment {
    open spec fn obeys_from_spec() -> bool {
        true
    }

    closed spec fn from_spec(p: ForeignPayment) -> Payment {
        p.payment
    }
}

} // verus!
