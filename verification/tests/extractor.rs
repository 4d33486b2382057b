use revfeed::{parse_document, Record};

fn fields_of(r: &Record) -> Vec<(&'static str, String)> {
    vec![
        ("issue_date", r.issue_date.clone()),
        ("validating_carrier", r.validating_carrier.clone()),
        ("document_status", r.document_status.clone()),
        ("currency", r.currency.clone()),
        ("tour_code", r.tour_code.clone()),
        ("pnr_no", r.pnr_no.clone()),
        ("primary_ticket_no", r.primary_ticket_no.clone()),
        ("ticket_no", r.ticket_no.clone()),
        ("coupon_no", r.coupon_no.clone()),
        ("coupon_status", r.coupon_status.clone()),
        ("marketting_carrier", r.marketting_carrier.clone()),
        ("operating_carrier", r.operating_carrier.clone()),
        ("fare_basis", r.fare_basis.clone()),
        ("exchange_rate", r.exchange_rate.clone()),
        (
            "net_fare_amount_accounting_currency",
            r.net_fare_amount_accounting_currency.clone(),
        ),
        (
            "pub_fare_amount_accounting_currency",
            r.pub_fare_amount_accounting_currency.clone(),
        ),
        (
            "bal_exchange_additional_collected_fare_amount_accounting_currency",
            r.bal_exchange_additional_collected_fare_amount_accounting_currency
                .clone(),
        ),
        (
            "cpn_far_fare_amount_accounting_currency",
            r.cpn_far_fare_amount_accounting_currency.clone(),
        ),
        (
            "cpn_txo_tax_amount_accounting_currency_yq",
            r.cpn_txo_tax_amount_accounting_currency_yq.clone(),
        ),
        (
            "cpn_std_commission_amount_accounting_currency",
            r.cpn_std_commission_amount_accounting_currency.clone(),
        ),
        (
            "std_commission_amount_accounting_currency",
            r.std_commission_amount_accounting_currency.clone(),
        ),
        (
            "sup_commision_amount_accounting_currency",
            r.sup_commision_amount_accounting_currency.clone(),
        ),
        ("pos", r.pos.clone()),
        ("iata", r.iata.clone()),
        ("distribution_channel", r.distribution_channel.clone()),
        (
            "trx_revenue_attributable_iata_number",
            r.trx_revenue_attributable_iata_number.clone(),
        ),
        ("segment", r.segment.clone()),
        ("dep_date_time", r.dep_date_time.clone()),
        ("arr_date_time", r.arr_date_time.clone()),
        ("rbd", r.rbd.clone()),
        ("cabin", r.cabin.clone()),
        ("flight_nr", r.flight_nr.clone()),
        (
            "sum_cpn_txo_tax_amount_accounting_currency",
            r.sum_cpn_txo_tax_amount_accounting_currency.clone(),
        ),
        ("revenue", r.revenue.clone()),
    ]
}

fn feed(body: &str) -> Vec<u8> {
    format!("<AMA_REV.Feed>{}</AMA_REV.Feed>", body).into_bytes()
}

fn accounted_amount(value: &str) -> String {
    format!(
        "<AccountableEntity><Amount><AmountType>ACCOUNTED</AmountType><Amount Amount=\"{}\"/></Amount></AccountableEntity>",
        value
    )
}

#[test]
fn net_fare_is_captured() {
    // one transaction, one coupon, one fare marked NET with accounted amount
    let body = format!(
        "<Transaction><Document DateOfIssuance=\"20240101\" ValidatingCarrier=\"XX\">\
         <Fares><Fare FareDescription=\"NET\">{}</Fare></Fares>\
         <Coupon DocumentNbr=\"0811234567890\" Number=\"1\" Status=\"F\"></Coupon>\
         </Document></Transaction>",
        accounted_amount("123.45")
    );
    let rows = parse_document(feed(&body)).expect("well-formed feed");
    assert_eq!(rows.len(), 1);
    assert_eq!(rows[0].net_fare_amount_accounting_currency, "123.45");
    assert_eq!(rows[0].pub_fare_amount_accounting_currency, "");
    assert_eq!(
        rows[0].bal_exchange_additional_collected_fare_amount_accounting_currency,
        ""
    );
    assert_eq!(rows[0].issue_date, "20240101");
    assert_eq!(rows[0].validating_carrier, "XX");
    assert_eq!(rows[0].primary_ticket_no, "0811234567890");
}

#[test]
fn published_fare_goes_to_its_own_field() {
    let body = format!(
        "<Transaction><Document><Fares><Fare FareDescription=\"PUBLISHED\">{}</Fare></Fares></Document></Transaction>",
        accounted_amount("55.00")
    );
    let rows = parse_document(feed(&body)).expect("well-formed feed");
    assert_eq!(rows.len(), 1);
    assert_eq!(rows[0].pub_fare_amount_accounting_currency, "55.00");
    assert_eq!(rows[0].net_fare_amount_accounting_currency, "");
}

#[test]
fn unmarked_fare_amount_is_dropped() {
    // a marker outside the three known ones: the amount is read but stored nowhere
    let body = format!(
        "<Transaction><Document><Fares><Fare FareDescription=\"OTHER\">{}</Fare></Fares></Document></Transaction>",
        accounted_amount("55.00")
    );
    let rows = parse_document(feed(&body)).expect("well-formed feed");
    assert_eq!(rows.len(), 1);
    assert_eq!(rows[0].net_fare_amount_accounting_currency, "");
    assert_eq!(rows[0].pub_fare_amount_accounting_currency, "");
    assert_eq!(
        rows[0].bal_exchange_additional_collected_fare_amount_accounting_currency,
        ""
    );
}

#[test]
fn revenue_is_prorated_fare_plus_qualifying_tax() {
    // prorated fare 90.00 and a qualifying AC/YQ non-refundable tax 10.00
    let body = format!(
        "<Transaction><Document><Coupon><CalculatedAmounts>\
         <CouponProratedFare>{}</CouponProratedFare>\
         <CouponTaxes><CollectedTaxesCpnLvl>\
         <Tax NatureCode=\"AC\" ISOCode=\"YQ\" IsRefundable=\"N\">{}</Tax>\
         </CollectedTaxesCpnLvl></CouponTaxes>\
         </CalculatedAmounts></Coupon></Document></Transaction>",
        accounted_amount("90.00"),
        accounted_amount("10.00")
    );
    let rows = parse_document(feed(&body)).expect("well-formed feed");
    assert_eq!(rows.len(), 1);
    assert_eq!(rows[0].cpn_far_fare_amount_accounting_currency, "90.00");
    assert_eq!(rows[0].cpn_txo_tax_amount_accounting_currency_yq, "10.00");
    assert_eq!(rows[0].revenue, "100");
    assert_eq!(rows[0].sum_cpn_txo_tax_amount_accounting_currency, "10");
}

#[test]
fn non_qualifying_tax_is_not_captured() {
    // a refundable tax arms nothing: no tax field, revenue from the fare alone
    let body = format!(
        "<Transaction><Document><Coupon><CalculatedAmounts>\
         <CouponProratedFare>{}</CouponProratedFare>\
         <CouponTaxes><CollectedTaxesCpnLvl>\
         <Tax NatureCode=\"AC\" ISOCode=\"YQ\" IsRefundable=\"Y\">{}</Tax>\
         </CollectedTaxesCpnLvl></CouponTaxes>\
         </CalculatedAmounts></Coupon></Document></Transaction>",
        accounted_amount("90.00"),
        accounted_amount("10.00")
    );
    let rows = parse_document(feed(&body)).expect("well-formed feed");
    assert_eq!(rows.len(), 1);
    assert_eq!(rows[0].cpn_txo_tax_amount_accounting_currency_yq, "");
    assert_eq!(rows[0].revenue, "90");
}

#[test]
fn one_record_per_transaction_close() {
    let body = "<Transaction><Document></Document></Transaction>\
                <Transaction><Document></Document></Transaction>\
                <Transaction><Document></Document></Transaction>";
    let rows = parse_document(feed(body)).expect("well-formed feed");
    assert_eq!(rows.len(), 3);
}

#[test]
fn text_fields_are_captured() {
    let body = "<Transaction><Event><EntityStatus>ISSUED</EntityStatus></Event>\
        <Document><PricingDetails><CurrencyOfPayment>EUR</CurrencyOfPayment>\
        <TourCode>TC9</TourCode>\
        <RevenueAttributableAgent AgencyNumber=\"7777777\"/></PricingDetails>\
        <BookingInformation><PNRIdentification><AmadeusRecordLocator><ID>ABC123</ID>\
        </AmadeusRecordLocator></PNRIdentification></BookingInformation>\
        <IssuanceDetails CityPOS=\"PAR\" Iata=\"20212345\" OfficeId=\"PAR1A0980\"/>\
        <Coupon><SegmentInfo OriginAirportCode=\"CDG\" DestinationAirportCode=\"JFK\" \
        DepartureDate=\"2024-02-01T10:00\" ArrivalDate=\"2024-02-01T13:00\">\
        <CompanyDetails><MarketingCarrier>AF</MarketingCarrier>\
        <OperatingCarrier>DL</OperatingCarrier></CompanyDetails>\
        <ClassDetails><BookingClass>Y</BookingClass>\
        <OperatingCabinClass>M</OperatingCabinClass></ClassDetails>\
        <FlightIdentification><OperatingFlightNumber><FlightNumber>0123</FlightNumber>\
        </OperatingFlightNumber></FlightIdentification></SegmentInfo>\
        <CouponDetails><FareBasisCode>YFLEX</FareBasisCode></CouponDetails></Coupon>\
        </Document></Transaction>";
    let rows = parse_document(feed(body)).expect("well-formed feed");
    assert_eq!(rows.len(), 1);
    let r = &rows[0];
    assert_eq!(r.document_status, "ISSUED");
    assert_eq!(r.currency, "EUR");
    assert_eq!(r.tour_code, "TC9");
    assert_eq!(r.trx_revenue_attributable_iata_number, "7777777");
    assert_eq!(r.pnr_no, "ABC123");
    assert_eq!(r.pos, "PAR");
    assert_eq!(r.iata, "20212345");
    assert_eq!(r.distribution_channel, "PAR1A0980");
    assert_eq!(r.segment, "CDGJFK");
    assert_eq!(r.dep_date_time, "2024-02-01T10:00");
    assert_eq!(r.arr_date_time, "2024-02-01T13:00");
    assert_eq!(r.marketting_carrier, "AF");
    assert_eq!(r.operating_carrier, "DL");
    assert_eq!(r.rbd, "Y");
    assert_eq!(r.cabin, "M");
    assert_eq!(r.flight_nr, "0123");
    assert_eq!(r.fare_basis, "YFLEX");
}

#[test]
fn commissions_are_captured() {
    let body = format!(
        "<Transaction><Document>\
         <StandardCommission><Commission>{}</Commission></StandardCommission>\
         <SupplementaryCommission><Commission>{}</Commission></SupplementaryCommission>\
         <Coupon><CalculatedAmounts><CouponStandardCommission><Commission>{}</Commission>\
         </CouponStandardCommission></CalculatedAmounts></Coupon>\
         </Document></Transaction>",
        accounted_amount("5.00"),
        accounted_amount("2.50"),
        accounted_amount("1.25")
    );
    let rows = parse_document(feed(&body)).expect("well-formed feed");
    assert_eq!(rows.len(), 1);
    assert_eq!(rows[0].std_commission_amount_accounting_currency, "5.00");
    assert_eq!(rows[0].sup_commision_amount_accounting_currency, "2.50");
    assert_eq!(
        rows[0].cpn_std_commission_amount_accounting_currency,
        "1.25"
    );
}

#[test]
fn exchange_rate_is_captured_after_accounted_marker() {
    let body = "<Transaction><Document><Fares><Fare FareDescription=\"NET\">\
        <AccountableEntity><Amount><AmountType>ACCOUNTED</AmountType>\
        <ROE>1.0635</ROE><Amount Amount=\"123.45\"/></Amount></AccountableEntity>\
        </Fare></Fares></Document></Transaction>";
    let rows = parse_document(feed(body)).expect("well-formed feed");
    assert_eq!(rows.len(), 1);
    assert_eq!(rows[0].exchange_rate, "1.0635");
    assert_eq!(rows[0].net_fare_amount_accounting_currency, "123.45");
}

#[test]
fn running_tax_sum_grows_across_coupons() {
    // the summed-tax field carries the document-wide running sum, not the
    // current coupon's alone
    let coupon = |amt: &str| {
        format!(
            "<Coupon><CalculatedAmounts><CouponTaxes><CollectedTaxesCpnLvl>\
             <Tax NatureCode=\"AC\" ISOCode=\"YQ\" IsRefundable=\"N\">{}</Tax>\
             </CollectedTaxesCpnLvl></CouponTaxes></CalculatedAmounts></Coupon>",
            accounted_amount(amt)
        )
    };
    let body = format!(
        "<Transaction><Document>{}{}</Document></Transaction>",
        coupon("10.00"),
        coupon("2.50")
    );
    let rows = parse_document(feed(&body)).expect("well-formed feed");
    assert_eq!(rows.len(), 1);
    assert_eq!(rows[0].sum_cpn_txo_tax_amount_accounting_currency, "12.5");
}

#[test]
fn parsing_twice_gives_identical_rows() {
    let body = format!(
        "<Transaction><Document DateOfIssuance=\"20240101\">\
         <Fares><Fare FareDescription=\"NET\">{}</Fare></Fares>\
         <Coupon Number=\"1\"><CalculatedAmounts><CouponProratedFare>{}</CouponProratedFare>\
         </CalculatedAmounts></Coupon></Document></Transaction>",
        accounted_amount("123.45"),
        accounted_amount("90.00")
    );
    let bytes = feed(&body);
    let first = parse_document(bytes.clone()).expect("well-formed feed");
    let second = parse_document(bytes).expect("well-formed feed");
    assert_eq!(first.len(), second.len());
    for (a, b) in first.iter().zip(second.iter()) {
        assert_eq!(fields_of(a), fields_of(b));
    }
}

#[test]
fn unknown_elements_change_nothing() {
    let known = format!(
        "<Transaction><Document DateOfIssuance=\"20240101\">\
         <Fares><Fare FareDescription=\"NET\">{}</Fare></Fares>\
         </Document></Transaction>",
        accounted_amount("123.45")
    );
    let noisy = format!(
        "<Future/><Transaction><Extra a=\"1\"/><Document DateOfIssuance=\"20240101\">\
         <Unknown><Deep>text</Deep></Unknown>\
         <Fares><Padding/><Fare FareDescription=\"NET\">{}</Fare></Fares>\
         <Trailer/></Document></Transaction><Residue/>",
        accounted_amount("123.45")
    );
    let plain = parse_document(feed(&known)).expect("well-formed feed");
    let wrapped = parse_document(feed(&noisy)).expect("well-formed feed");
    assert_eq!(plain.len(), 1);
    assert_eq!(wrapped.len(), 1);
    assert_eq!(fields_of(&plain[0]), fields_of(&wrapped[0]));
}

#[test]
fn malformed_markup_is_an_error() {
    let rows = parse_document(b"<a><b></a></b>".to_vec());
    assert!(rows.is_err());
}

#[test]
fn missing_attribute_reads_as_empty() {
    let body = "<Transaction><Document><Coupon Number=\"2\"></Coupon></Document></Transaction>";
    let rows = parse_document(feed(body)).expect("well-formed feed");
    assert_eq!(rows.len(), 1);
    assert_eq!(rows[0].coupon_no, "2");
    assert_eq!(rows[0].primary_ticket_no, "");
    assert_eq!(rows[0].coupon_status, "");
}

#[test]
fn non_numeric_amount_counts_as_zero_but_is_stored() {
    let body = format!(
        "<Transaction><Document><Coupon><CalculatedAmounts>\
         <CouponProratedFare>{}</CouponProratedFare>\
         </CalculatedAmounts></Coupon></Document></Transaction>",
        accounted_amount("n/a")
    );
    let rows = parse_document(feed(&body)).expect("well-formed feed");
    assert_eq!(rows.len(), 1);
    assert_eq!(rows[0].cpn_far_fare_amount_accounting_currency, "n/a");
    assert_eq!(rows[0].revenue, "0");
}
