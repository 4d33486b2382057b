use vstd::prelude::*;

verus! {

/// One output row: every field holds the decoded text captured for it, and
/// stays empty when the document never supplies it. Two fields, the summed
/// tax and the derived revenue, are instead computed from the numeric
/// accumulators and written at each calculated-amounts close.
pub struct Record {
    /// date the document was issued
    pub issue_date: String,
    /// carrier that validated the document
    pub validating_carrier: String,
    /// status of the transaction's document
    pub document_status: String,
    /// currency of payment
    pub currency: String,
    /// tour code of the pricing details
    pub tour_code: String,
    /// record locator of the booking
    pub pnr_no: String,
    /// primary ticket number of the coupon
    pub primary_ticket_no: String,
    /// conjunctive ticket number of the coupon
    pub ticket_no: String,
    /// coupon number
    pub coupon_no: String,
    /// coupon status
    pub coupon_status: String,
    /// marketing carrier of the segment
    pub marketting_carrier: String,
    /// operating carrier of the segment
    pub operating_carrier: String,
    /// fare basis code of the coupon
    pub fare_basis: String,
    /// rate of exchange of the accounted fare
    pub exchange_rate: String,
    /// accounted fare amount marked NET
    pub net_fare_amount_accounting_currency: String,
    /// accounted fare amount marked PUBLISHED
    pub pub_fare_amount_accounting_currency: String,
    /// accounted fare amount marked ADDITIONAL_COLLECTION
    pub bal_exchange_additional_collected_fare_amount_accounting_currency: String,
    /// accounted prorated fare of the coupon
    pub cpn_far_fare_amount_accounting_currency: String,
    /// accounted amount of the qualifying coupon tax
    pub cpn_txo_tax_amount_accounting_currency_yq: String,
    /// accounted standard commission of the coupon
    pub cpn_std_commission_amount_accounting_currency: String,
    /// accounted standard commission of the document
    pub std_commission_amount_accounting_currency: String,
    /// accounted supplementary commission of the document
    pub sup_commision_amount_accounting_currency: String,
    /// city of sale
    pub pos: String,
    /// IATA number of the issuing office
    pub iata: String,
    /// office identifier of the distribution channel
    pub distribution_channel: String,
    /// agency number revenue is attributed to
    pub trx_revenue_attributable_iata_number: String,
    /// origin and destination airport codes, concatenated
    pub segment: String,
    /// departure date of the segment
    pub dep_date_time: String,
    /// arrival date of the segment
    pub arr_date_time: String,
    /// booking class of the segment
    pub rbd: String,
    /// operating cabin class of the segment
    pub cabin: String,
    /// operating flight number of the segment
    pub flight_nr: String,
    /// running sum of accounted coupon taxes, written at each calculated-amounts close
    pub sum_cpn_txo_tax_amount_accounting_currency: String,
    /// prorated fare plus qualifying tax, written at each calculated-amounts close
    pub revenue: String,
}

/// Mathematical image of one output row.
pub struct RecordModel {
    pub issue_date: Seq<char>,
    pub validating_carrier: Seq<char>,
    pub document_status: Seq<char>,
    pub currency: Seq<char>,
    pub tour_code: Seq<char>,
    pub pnr_no: Seq<char>,
    pub primary_ticket_no: Seq<char>,
    pub ticket_no: Seq<char>,
    pub coupon_no: Seq<char>,
    pub coupon_status: Seq<char>,
    pub marketting_carrier: Seq<char>,
    pub operating_carrier: Seq<char>,
    pub fare_basis: Seq<char>,
    pub exchange_rate: Seq<char>,
    pub net_fare_amount_accounting_currency: Seq<char>,
    pub pub_fare_amount_accounting_currency: Seq<char>,
    pub bal_exchange_additional_collected_fare_amount_accounting_currency: Seq<char>,
    pub cpn_far_fare_amount_accounting_currency: Seq<char>,
    pub cpn_txo_tax_amount_accounting_currency_yq: Seq<char>,
    pub cpn_std_commission_amount_accounting_currency: Seq<char>,
    pub std_commission_amount_accounting_currency: Seq<char>,
    pub sup_commision_amount_accounting_currency: Seq<char>,
    pub pos: Seq<char>,
    pub iata: Seq<char>,
    pub distribution_channel: Seq<char>,
    pub trx_revenue_attributable_iata_number: Seq<char>,
    pub segment: Seq<char>,
    pub dep_date_time: Seq<char>,
    pub arr_date_time: Seq<char>,
    pub rbd: Seq<char>,
    pub cabin: Seq<char>,
    pub flight_nr: Seq<char>,
    pub sum_cpn_txo_tax_amount_accounting_currency: Seq<char>,
    pub revenue: Seq<char>,
}

impl View for Record {
    type V = RecordModel;

    open spec fn view(&self) -> RecordModel {
        RecordModel {
            issue_date: self.issue_date@,
            validating_carrier: self.validating_carrier@,
            document_status: self.document_status@,
            currency: self.currency@,
            tour_code: self.tour_code@,
            pnr_no: self.pnr_no@,
            primary_ticket_no: self.primary_ticket_no@,
            ticket_no: self.ticket_no@,
            coupon_no: self.coupon_no@,
            coupon_status: self.coupon_status@,
            marketting_carrier: self.marketting_carrier@,
            operating_carrier: self.operating_carrier@,
            fare_basis: self.fare_basis@,
            exchange_rate: self.exchange_rate@,
            net_fare_amount_accounting_currency: self.net_fare_amount_accounting_currency@,
            pub_fare_amount_accounting_currency: self.pub_fare_amount_accounting_currency@,
            bal_exchange_additional_collected_fare_amount_accounting_currency: self.bal_exchange_additional_collected_fare_amount_accounting_currency@,
            cpn_far_fare_amount_accounting_currency: self.cpn_far_fare_amount_accounting_currency@,
            cpn_txo_tax_amount_accounting_currency_yq: self.cpn_txo_tax_amount_accounting_currency_yq@,
            cpn_std_commission_amount_accounting_currency: self.cpn_std_commission_amount_accounting_currency@,
            std_commission_amount_accounting_currency: self.std_commission_amount_accounting_currency@,
            sup_commision_amount_accounting_currency: self.sup_commision_amount_accounting_currency@,
            pos: self.pos@,
            iata: self.iata@,
            distribution_channel: self.distribution_channel@,
            trx_revenue_attributable_iata_number: self.trx_revenue_attributable_iata_number@,
            segment: self.segment@,
            dep_date_time: self.dep_date_time@,
            arr_date_time: self.arr_date_time@,
            rbd: self.rbd@,
            cabin: self.cabin@,
            flight_nr: self.flight_nr@,
            sum_cpn_txo_tax_amount_accounting_currency: self.sum_cpn_txo_tax_amount_accounting_currency@,
            revenue: self.revenue@,
        }
    }
}

/// The row every transaction starts from: all fields empty.
pub open spec fn empty_record() -> RecordModel {
    RecordModel {
        issue_date: Seq::empty(),
        validating_carrier: Seq::empty(),
        document_status: Seq::empty(),
        currency: Seq::empty(),
        tour_code: Seq::empty(),
        pnr_no: Seq::empty(),
        primary_ticket_no: Seq::empty(),
        ticket_no: Seq::empty(),
        coupon_no: Seq::empty(),
        coupon_status: Seq::empty(),
        marketting_carrier: Seq::empty(),
        operating_carrier: Seq::empty(),
        fare_basis: Seq::empty(),
        exchange_rate: Seq::empty(),
        net_fare_amount_accounting_currency: Seq::empty(),
        pub_fare_amount_accounting_currency: Seq::empty(),
        bal_exchange_additional_collected_fare_amount_accounting_currency: Seq::empty(),
        cpn_far_fare_amount_accounting_currency: Seq::empty(),
        cpn_txo_tax_amount_accounting_currency_yq: Seq::empty(),
        cpn_std_commission_amount_accounting_currency: Seq::empty(),
        std_commission_amount_accounting_currency: Seq::empty(),
        sup_commision_amount_accounting_currency: Seq::empty(),
        pos: Seq::empty(),
        iata: Seq::empty(),
        distribution_channel: Seq::empty(),
        trx_revenue_attributable_iata_number: Seq::empty(),
        segment: Seq::empty(),
        dep_date_time: Seq::empty(),
        arr_date_time: Seq::empty(),
        rbd: Seq::empty(),
        cabin: Seq::empty(),
        flight_nr: Seq::empty(),
        sum_cpn_txo_tax_amount_accounting_currency: Seq::empty(),
        revenue: Seq::empty(),
    }
}

impl Record {
    /// A fresh row with every field empty.
    pub fn new() -> (r: Record)
        ensures
            r@ == empty_record(),
    {
        Record {
            issue_date: String::new(),
            validating_carrier: String::new(),
            document_status: String::new(),
            currency: String::new(),
            tour_code: String::new(),
            pnr_no: String::new(),
            primary_ticket_no: String::new(),
            ticket_no: String::new(),
            coupon_no: String::new(),
            coupon_status: String::new(),
            marketting_carrier: String::new(),
            operating_carrier: String::new(),
            fare_basis: String::new(),
            exchange_rate: String::new(),
            net_fare_amount_accounting_currency: String::new(),
            pub_fare_amount_accounting_currency: String::new(),
            bal_exchange_additional_collected_fare_amount_accounting_currency: String::new(),
            cpn_far_fare_amount_accounting_currency: String::new(),
            cpn_txo_tax_amount_accounting_currency_yq: String::new(),
            cpn_std_commission_amount_accounting_currency: String::new(),
            std_commission_amount_accounting_currency: String::new(),
            sup_commision_amount_accounting_currency: String::new(),
            pos: String::new(),
            iata: String::new(),
            distribution_channel: String::new(),
            trx_revenue_attributable_iata_number: String::new(),
            segment: String::new(),
            dep_date_time: String::new(),
            arr_date_time: String::new(),
            rbd: String::new(),
            cabin: String::new(),
            flight_nr: String::new(),
            sum_cpn_txo_tax_amount_accounting_currency: String::new(),
            revenue: String::new(),
        }
    }
}

impl Clone for Record {
    fn clone(&self) -> (r: Record)
        ensures
            r == *self,
    {
        Record {
            issue_date: self.issue_date.clone(),
            validating_carrier: self.validating_carrier.clone(),
            document_status: self.document_status.clone(),
            currency: self.currency.clone(),
            tour_code: self.tour_code.clone(),
            pnr_no: self.pnr_no.clone(),
            primary_ticket_no: self.primary_ticket_no.clone(),
            ticket_no: self.ticket_no.clone(),
            coupon_no: self.coupon_no.clone(),
            coupon_status: self.coupon_status.clone(),
            marketting_carrier: self.marketting_carrier.clone(),
            operating_carrier: self.operating_carrier.clone(),
            fare_basis: self.fare_basis.clone(),
            exchange_rate: self.exchange_rate.clone(),
            net_fare_amount_accounting_currency: self.net_fare_amount_accounting_currency.clone(),
            pub_fare_amount_accounting_currency: self.pub_fare_amount_accounting_currency.clone(),
            bal_exchange_additional_collected_fare_amount_accounting_currency: self.bal_exchange_additional_collected_fare_amount_accounting_currency.clone(),
            cpn_far_fare_amount_accounting_currency: self.cpn_far_fare_amount_accounting_currency.clone(),
            cpn_txo_tax_amount_accounting_currency_yq: self.cpn_txo_tax_amount_accounting_currency_yq.clone(),
            cpn_std_commission_amount_accounting_currency: self.cpn_std_commission_amount_accounting_currency.clone(),
            std_commission_amount_accounting_currency: self.std_commission_amount_accounting_currency.clone(),
            sup_commision_amount_accounting_currency: self.sup_commision_amount_accounting_currency.clone(),
            pos: self.pos.clone(),
            iata: self.iata.clone(),
            distribution_channel: self.distribution_channel.clone(),
            trx_revenue_attributable_iata_number: self.trx_revenue_attributable_iata_number.clone(),
            segment: self.segment.clone(),
            dep_date_time: self.dep_date_time.clone(),
            arr_date_time: self.arr_date_time.clone(),
            rbd: self.rbd.clone(),
            cabin: self.cabin.clone(),
            flight_nr: self.flight_nr.clone(),
            sum_cpn_txo_tax_amount_accounting_currency: self.sum_cpn_txo_tax_amount_accounting_currency.clone(),
            revenue: self.revenue.clone(),
        }
    }
}

/// Mathematical image of an ordered row sequence.
pub open spec fn records_view(rs: Seq<Record>) -> Seq<RecordModel> {
    rs.map_values(|r: Record| r@)
}

pub proof fn lemma_records_view_push(rs: Seq<Record>, r: Record)
    ensures
        records_view(rs.push(r)) == records_view(rs).push(r@),
{
    assert(records_view(rs.push(r)) =~= records_view(rs).push(r@));
}

} // verus!
