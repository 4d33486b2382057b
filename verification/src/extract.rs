use vstd::prelude::*;

use crate::decimal::{
    amount_string, amount_value, format_amount, lemma_amount_value_bound, parse_amount,
    AMOUNT_LIMIT,
};
use crate::paths::{
    lemma_path_view_pop, lemma_path_view_push, path_view,
    is_p_booking_class, is_p_cabin_class, is_p_calculated_amounts, is_p_coupon,
    is_p_coupon_std_comm, is_p_coupon_std_comm_amount, is_p_coupon_std_comm_amount_type,
    is_p_coupon_std_comm_commission, is_p_currency, is_p_document, is_p_entity_status,
    is_p_fare, is_p_fare_amount, is_p_fare_amount_type, is_p_fare_basis, is_p_fare_roe,
    is_p_flight_number, is_p_issuance_details, is_p_marketing_carrier, is_p_operating_carrier,
    is_p_pnr_id, is_p_prorated_amount, is_p_prorated_amount_type, is_p_rev_agent,
    is_p_segment_info, is_p_std_comm_amount, is_p_std_comm_amount_type, is_p_supp_comm_amount,
    is_p_supp_comm_amount_type, is_p_tax, is_p_tax_amount, is_p_tax_amount_type, is_p_tour_code,
    p_booking_class, p_cabin_class, p_calculated_amounts, p_coupon, p_coupon_std_comm,
    p_coupon_std_comm_amount, p_coupon_std_comm_amount_type, p_coupon_std_comm_commission,
    p_currency, p_document, p_entity_status, p_fare, p_fare_amount, p_fare_amount_type,
    p_fare_basis, p_fare_roe, p_flight_number, p_issuance_details, p_marketing_carrier,
    p_operating_carrier, p_pnr_id, p_prorated_amount, p_prorated_amount_type, p_rev_agent,
    p_segment_info, p_std_comm_amount, p_std_comm_amount_type, p_supp_comm_amount,
    p_supp_comm_amount_type, p_tax, p_tax_amount, p_tax_amount_type, p_tour_code,
};
use crate::record::{empty_record, lemma_records_view_push, records_view, Record, RecordModel};
use crate::text::{attr_val, attrs_view, get_attr, str_eq};
use crate::token::{text_content, tokens_view, Token, TokenModel};

verus! {

/// Mathematical image of the extractor's state between two events: the
/// live ancestor path, the row under construction, the rows already
/// emitted, the retained fare-description marker, the numeric accumulators,
/// and the scope and awaiting-value flags.
pub struct StateModel {
    pub path: Seq<Seq<char>>,
    pub rec: RecordModel,
    pub rows: Seq<RecordModel>,
    pub last_fare_type: Seq<char>,
    pub total_tax_sum: int,
    pub coupon_fare: int,
    pub coupon_tax: int,
    pub in_coup_standard_comm_amounts_1: bool,
    pub in_coup_standard_comm_amounts_2: bool,
    pub in_calculated_amounts: bool,
    pub in_pricing_fares: bool,
    pub wait_for_cpn_lvl: bool,
    pub waiting_for_amount_fare: bool,
    pub waiting_for_coup_standard_comm_amount: bool,
    pub waiting_for_std_comm_amount: bool,
    pub waiting_for_supp_comm_amount: bool,
    pub waiting_for_amount_proratedfare: bool,
    pub wait_for_cpn_lvl_accounted: bool,
    pub waiting_for_amount_fare_roe: bool,
}

/// The extractor's working state, one per document walk.
pub struct ParserState {
    pub path: Vec<String>,
    pub rec: Record,
    pub rows: Vec<Record>,
    pub last_fare_type: String,
    pub total_tax_sum: i128,
    pub coupon_fare: i128,
    pub coupon_tax: i128,
    pub in_coup_standard_comm_amounts_1: bool,
    pub in_coup_standard_comm_amounts_2: bool,
    pub in_calculated_amounts: bool,
    pub in_pricing_fares: bool,
    pub wait_for_cpn_lvl: bool,
    pub waiting_for_amount_fare: bool,
    pub waiting_for_coup_standard_comm_amount: bool,
    pub waiting_for_std_comm_amount: bool,
    pub waiting_for_supp_comm_amount: bool,
    pub waiting_for_amount_proratedfare: bool,
    pub wait_for_cpn_lvl_accounted: bool,
    pub waiting_for_amount_fare_roe: bool,
}

impl View for ParserState {
    type V = StateModel;

    open spec fn view(&self) -> StateModel {
        StateModel {
            path: path_view(self.path@),
            rec: self.rec@,
            rows: records_view(self.rows@),
            last_fare_type: self.last_fare_type@,
            total_tax_sum: self.total_tax_sum as int,
            coupon_fare: self.coupon_fare as int,
            coupon_tax: self.coupon_tax as int,
            in_coup_standard_comm_amounts_1: self.in_coup_standard_comm_amounts_1,
            in_coup_standard_comm_amounts_2: self.in_coup_standard_comm_amounts_2,
            in_calculated_amounts: self.in_calculated_amounts,
            in_pricing_fares: self.in_pricing_fares,
            wait_for_cpn_lvl: self.wait_for_cpn_lvl,
            waiting_for_amount_fare: self.waiting_for_amount_fare,
            waiting_for_coup_standard_comm_amount: self.waiting_for_coup_standard_comm_amount,
            waiting_for_std_comm_amount: self.waiting_for_std_comm_amount,
            waiting_for_supp_comm_amount: self.waiting_for_supp_comm_amount,
            waiting_for_amount_proratedfare: self.waiting_for_amount_proratedfare,
            wait_for_cpn_lvl_accounted: self.wait_for_cpn_lvl_accounted,
            waiting_for_amount_fare_roe: self.waiting_for_amount_fare_roe,
        }
    }
}

/// The state a document walk starts from: empty path, fresh row, no rows
/// out, zeroed accumulators, all flags down.
pub open spec fn init_state() -> StateModel {
    StateModel {
        path: Seq::empty(),
        rec: empty_record(),
        rows: Seq::empty(),
        last_fare_type: Seq::empty(),
        total_tax_sum: 0,
        coupon_fare: 0,
        coupon_tax: 0,
        in_coup_standard_comm_amounts_1: false,
        in_coup_standard_comm_amounts_2: false,
        in_calculated_amounts: false,
        in_pricing_fares: false,
        wait_for_cpn_lvl: false,
        waiting_for_amount_fare: false,
        waiting_for_coup_standard_comm_amount: false,
        waiting_for_std_comm_amount: false,
        waiting_for_supp_comm_amount: false,
        waiting_for_amount_proratedfare: false,
        wait_for_cpn_lvl_accounted: false,
        waiting_for_amount_fare_roe: false,
    }
}

impl ParserState {
    /// A fresh walk state.
    pub fn new() -> (st: ParserState)
        ensures
            st@ == init_state(),
    {
        let st = ParserState {
            path: Vec::new(),
            rec: Record::new(),
            rows: Vec::new(),
            last_fare_type: String::new(),
            total_tax_sum: 0,
            coupon_fare: 0,
            coupon_tax: 0,
            in_coup_standard_comm_amounts_1: false,
            in_coup_standard_comm_amounts_2: false,
            in_calculated_amounts: false,
            in_pricing_fares: false,
            wait_for_cpn_lvl: false,
            waiting_for_amount_fare: false,
            waiting_for_coup_standard_comm_amount: false,
            waiting_for_std_comm_amount: false,
            waiting_for_supp_comm_amount: false,
            waiting_for_amount_proratedfare: false,
            wait_for_cpn_lvl_accounted: false,
            waiting_for_amount_fare_roe: false,
        };
        proof {
            assert(path_view(st.path@) =~= Seq::<Seq<char>>::empty());
            assert(records_view(st.rows@) =~= Seq::<RecordModel>::empty());
        }
        st
    }
}

/// The marker text that names the accounting-currency value among the
/// alternative representations of one amount.
pub open spec fn accounted() -> Seq<char> {
    "ACCOUNTED"@
}

pub open spec fn push_path(st: StateModel, name: Seq<char>) -> StateModel {
    StateModel { path: st.path.push(name), ..st }
}

pub open spec fn pop_path(st: StateModel) -> StateModel {
    StateModel {
        path: if st.path.len() > 0 {
            st.path.drop_last()
        } else {
            st.path
        },
        ..st
    }
}

/// Effect of the document open: capture issue date and validating carrier.
#[verifier::opaque]
pub open spec fn step_document(st: StateModel, attrs: Seq<(Seq<char>, Seq<char>)>) -> StateModel {
    StateModel {
        rec: RecordModel {
            issue_date: attr_val(attrs, "DateOfIssuance"@),
            validating_carrier: attr_val(attrs, "ValidatingCarrier"@),
            ..st.rec
        },
        ..st
    }
}

/// Effect of the entity status open: capture the following text.
#[verifier::opaque]
pub open spec fn step_entity_status(st: StateModel, txt: Seq<char>) -> StateModel {
    StateModel { rec: RecordModel { document_status: txt, ..st.rec }, ..st }
}

/// Effect of the currency open: capture the following text.
#[verifier::opaque]
pub open spec fn step_currency(st: StateModel, txt: Seq<char>) -> StateModel {
    StateModel { rec: RecordModel { currency: txt, ..st.rec }, ..st }
}

/// Effect of the tour code open: capture the following text.
#[verifier::opaque]
pub open spec fn step_tour_code(st: StateModel, txt: Seq<char>) -> StateModel {
    StateModel { rec: RecordModel { tour_code: txt, ..st.rec }, ..st }
}

/// Effect of the pnr id open: capture the following text.
#[verifier::opaque]
pub open spec fn step_pnr_id(st: StateModel, txt: Seq<char>) -> StateModel {
    StateModel { rec: RecordModel { pnr_no: txt, ..st.rec }, ..st }
}

/// Effect of the marketing carrier open: capture the following text.
#[verifier::opaque]
pub open spec fn step_marketing_carrier(st: StateModel, txt: Seq<char>) -> StateModel {
    StateModel { rec: RecordModel { marketting_carrier: txt, ..st.rec }, ..st }
}

/// Effect of the operating carrier open: capture the following text.
#[verifier::opaque]
pub open spec fn step_operating_carrier(st: StateModel, txt: Seq<char>) -> StateModel {
    StateModel { rec: RecordModel { operating_carrier: txt, ..st.rec }, ..st }
}

/// Effect of the fare basis open: capture the following text.
#[verifier::opaque]
pub open spec fn step_fare_basis(st: StateModel, txt: Seq<char>) -> StateModel {
    StateModel { rec: RecordModel { fare_basis: txt, ..st.rec }, ..st }
}

/// Effect of the booking class open: capture the following text.
#[verifier::opaque]
pub open spec fn step_booking_class(st: StateModel, txt: Seq<char>) -> StateModel {
    StateModel { rec: RecordModel { rbd: txt, ..st.rec }, ..st }
}

/// Effect of the cabin class open: capture the following text.
#[verifier::opaque]
pub open spec fn step_cabin_class(st: StateModel, txt: Seq<char>) -> StateModel {
    StateModel { rec: RecordModel { cabin: txt, ..st.rec }, ..st }
}

/// Effect of the flight number open: capture the following text.
#[verifier::opaque]
pub open spec fn step_flight_number(st: StateModel, txt: Seq<char>) -> StateModel {
    StateModel { rec: RecordModel { flight_nr: txt, ..st.rec }, ..st }
}

/// Effect of a coupon open: capture ticket numbers, coupon number and status.
#[verifier::opaque]
pub open spec fn step_coupon(st: StateModel, attrs: Seq<(Seq<char>, Seq<char>)>) -> StateModel {
    StateModel {
        rec: RecordModel {
            primary_ticket_no: attr_val(attrs, "DocumentNbr"@),
            ticket_no: attr_val(attrs, "ConjunctiveDocumentNbr"@),
            coupon_no: attr_val(attrs, "Number"@),
            coupon_status: attr_val(attrs, "Status"@),
            ..st.rec
        },
        ..st
    }
}

/// Effect of a fare open: enter the fare scope and retain the marker.
#[verifier::opaque]
pub open spec fn step_fare(st: StateModel, attrs: Seq<(Seq<char>, Seq<char>)>) -> StateModel {
    StateModel { in_pricing_fares: true, last_fare_type: attr_val(attrs, "FareDescription"@), ..st }
}

/// Effect of the fare amount type open: arm the awaiting-value
/// flag when the captured marker is the accounted sentinel.
#[verifier::opaque]
pub open spec fn step_fare_amount_type(st: StateModel, txt: Seq<char>) -> StateModel {
    if txt == accounted() {
        StateModel { waiting_for_amount_fare: true, waiting_for_amount_fare_roe: true, ..st }
    } else {
        st
    }
}

/// Effect of the coupon std comm amount type open: arm the awaiting-value
/// flag when the captured marker is the accounted sentinel.
#[verifier::opaque]
pub open spec fn step_coupon_std_comm_amount_type(st: StateModel, txt: Seq<char>) -> StateModel {
    if txt == accounted() {
        StateModel { waiting_for_coup_standard_comm_amount: true, ..st }
    } else {
        st
    }
}

/// Effect of the prorated amount type open: arm the awaiting-value
/// flag when the captured marker is the accounted sentinel.
#[verifier::opaque]
pub open spec fn step_prorated_amount_type(st: StateModel, txt: Seq<char>) -> StateModel {
    if txt == accounted() {
        StateModel { waiting_for_amount_proratedfare: true, ..st }
    } else {
        st
    }
}

/// Effect of the tax amount type open: arm the awaiting-value
/// flag when the captured marker is the accounted sentinel.
#[verifier::opaque]
pub open spec fn step_tax_amount_type(st: StateModel, txt: Seq<char>) -> StateModel {
    if txt == accounted() {
        StateModel { wait_for_cpn_lvl_accounted: true, ..st }
    } else {
        st
    }
}

/// Effect of the std comm amount type open: arm the awaiting-value
/// flag when the captured marker is the accounted sentinel.
#[verifier::opaque]
pub open spec fn step_std_comm_amount_type(st: StateModel, txt: Seq<char>) -> StateModel {
    if txt == accounted() {
        StateModel { waiting_for_std_comm_amount: true, ..st }
    } else {
        st
    }
}

/// Effect of the supp comm amount type open: arm the awaiting-value
/// flag when the captured marker is the accounted sentinel.
#[verifier::opaque]
pub open spec fn step_supp_comm_amount_type(st: StateModel, txt: Seq<char>) -> StateModel {
    if txt == accounted() {
        StateModel { waiting_for_supp_comm_amount: true, ..st }
    } else {
        st
    }
}

/// Effect of the fare rate-of-exchange open: capture the rate, disarm.
#[verifier::opaque]
pub open spec fn step_fare_roe(st: StateModel, txt: Seq<char>) -> StateModel {
    StateModel {
        rec: RecordModel { exchange_rate: txt, ..st.rec },
        waiting_for_amount_fare_roe: false,
        ..st
    }
}

/// Effect of a coupon standard-commission open: enter its outer scope.
#[verifier::opaque]
pub open spec fn step_coupon_std_comm(st: StateModel) -> StateModel {
    StateModel { in_coup_standard_comm_amounts_1: true, ..st }
}

/// Effect of its commission child open: enter the inner scope.
#[verifier::opaque]
pub open spec fn step_coupon_std_comm_commission(st: StateModel) -> StateModel {
    StateModel { in_coup_standard_comm_amounts_2: true, ..st }
}

/// Effect of a calculated-amounts open: enter the block.
#[verifier::opaque]
pub open spec fn step_calculated_amounts(st: StateModel) -> StateModel {
    StateModel { in_calculated_amounts: true, ..st }
}

/// Effect of a coupon-level tax open: arm the qualifying-tax gate when the
/// tag matches the AC / YQ / non-refundable triple.
#[verifier::opaque]
pub open spec fn step_tax(st: StateModel, attrs: Seq<(Seq<char>, Seq<char>)>) -> StateModel {
    if attr_val(attrs, "NatureCode"@) == "AC"@ && attr_val(attrs, "ISOCode"@) == "YQ"@
        && attr_val(attrs, "IsRefundable"@) == "N"@ {
        StateModel { wait_for_cpn_lvl: true, ..st }
    } else {
        st
    }
}

/// Effect of a segment open: capture airports, dates, and their concatenation.
#[verifier::opaque]
pub open spec fn step_segment_info(st: StateModel, attrs: Seq<(Seq<char>, Seq<char>)>) -> StateModel {
    StateModel {
        rec: RecordModel {
            segment: attr_val(attrs, "OriginAirportCode"@) + attr_val(
                attrs,
                "DestinationAirportCode"@,
            ),
            dep_date_time: attr_val(attrs, "DepartureDate"@),
            arr_date_time: attr_val(attrs, "ArrivalDate"@),
            ..st.rec
        },
        ..st
    }
}

/// Whether an element open at this path, under these flags, captures the
/// character content that follows it. When it does, the walk consumes the
/// next event for that purpose, whatever it is.
#[verifier::opaque]
pub open spec fn open_wants_text(st: StateModel) -> bool {
    let p = st.path;
    ||| p == p_entity_status()
    ||| p == p_currency()
    ||| p == p_tour_code()
    ||| p == p_pnr_id()
    ||| p == p_marketing_carrier()
    ||| p == p_operating_carrier()
    ||| p == p_fare_basis()
    ||| p == p_fare_amount_type()
    ||| (p == p_fare_roe() && st.in_pricing_fares && st.waiting_for_amount_fare_roe)
    ||| (p == p_coupon_std_comm_amount_type() && st.in_coup_standard_comm_amounts_1
        && st.in_coup_standard_comm_amounts_2)
    ||| (p == p_prorated_amount_type() && st.in_calculated_amounts)
    ||| (p == p_tax_amount_type() && st.wait_for_cpn_lvl)
    ||| p == p_std_comm_amount_type()
    ||| p == p_supp_comm_amount_type()
    ||| p == p_booking_class()
    ||| p == p_cabin_class()
    ||| p == p_flight_number()
}

/// Effect of an element open. The path in `st` already ends in the opened
/// element's name; `txt` is the captured character content, empty when the
/// path captures none.
#[verifier::opaque]
pub open spec fn on_open(
    st: StateModel,
    attrs: Seq<(Seq<char>, Seq<char>)>,
    txt: Seq<char>,
) -> StateModel {
    let p = st.path;
    if p == p_document() {
        step_document(st, attrs)
    } else if p == p_entity_status() {
        step_entity_status(st, txt)
    } else if p == p_currency() {
        step_currency(st, txt)
    } else if p == p_tour_code() {
        step_tour_code(st, txt)
    } else if p == p_pnr_id() {
        step_pnr_id(st, txt)
    } else if p == p_coupon() {
        step_coupon(st, attrs)
    } else if p == p_marketing_carrier() {
        step_marketing_carrier(st, txt)
    } else if p == p_operating_carrier() {
        step_operating_carrier(st, txt)
    } else if p == p_fare_basis() {
        step_fare_basis(st, txt)
    } else if p == p_fare() {
        step_fare(st, attrs)
    } else if p == p_fare_amount_type() {
        step_fare_amount_type(st, txt)
    } else if p == p_fare_roe() && st.in_pricing_fares && st.waiting_for_amount_fare_roe {
        step_fare_roe(st, txt)
    } else if p == p_coupon_std_comm() {
        step_coupon_std_comm(st)
    } else if p == p_coupon_std_comm_commission() {
        step_coupon_std_comm_commission(st)
    } else if p == p_coupon_std_comm_amount_type() && st.in_coup_standard_comm_amounts_1
        && st.in_coup_standard_comm_amounts_2 {
        step_coupon_std_comm_amount_type(st, txt)
    } else if p == p_calculated_amounts() {
        step_calculated_amounts(st)
    } else if p == p_prorated_amount_type() && st.in_calculated_amounts {
        step_prorated_amount_type(st, txt)
    } else if p == p_tax() {
        step_tax(st, attrs)
    } else if p == p_tax_amount_type() && st.wait_for_cpn_lvl {
        step_tax_amount_type(st, txt)
    } else if p == p_std_comm_amount_type() {
        step_std_comm_amount_type(st, txt)
    } else if p == p_supp_comm_amount_type() {
        step_supp_comm_amount_type(st, txt)
    } else if p == p_segment_info() {
        step_segment_info(st, attrs)
    } else if p == p_booking_class() {
        step_booking_class(st, txt)
    } else if p == p_cabin_class() {
        step_cabin_class(st, txt)
    } else if p == p_flight_number() {
        step_flight_number(st, txt)
    } else {
        st
    }
}

/// Effect of a self-closing element. The path in `st` already ends in the
/// element's name; the caller pops it afterwards.
/// Effect of the issuance-details element: capture the point-of-sale fields.
#[verifier::opaque]
pub open spec fn step_issuance_details(st: StateModel, attrs: Seq<(Seq<char>, Seq<char>)>) -> StateModel {
    StateModel {
        rec: RecordModel {
            pos: attr_val(attrs, "CityPOS"@),
            iata: attr_val(attrs, "Iata"@),
            distribution_channel: attr_val(attrs, "OfficeId"@),
            ..st.rec
        },
        ..st
    }
}

/// Effect of a fare amount value: route it by the retained fare marker, or
/// drop it under any other marker, and disarm in either case.
#[verifier::opaque]
pub open spec fn step_fare_amount(st: StateModel, attrs: Seq<(Seq<char>, Seq<char>)>) -> StateModel {
    let amt = attr_val(attrs, "Amount"@);
    let routed = if st.last_fare_type == "NET"@ {
        RecordModel { net_fare_amount_accounting_currency: amt, ..st.rec }
    } else if st.last_fare_type == "PUBLISHED"@ {
        RecordModel { pub_fare_amount_accounting_currency: amt, ..st.rec }
    } else if st.last_fare_type == "ADDITIONAL_COLLECTION"@ {
        RecordModel {
            bal_exchange_additional_collected_fare_amount_accounting_currency: amt,
            ..st.rec
        }
    } else {
        st.rec
    };
    StateModel { rec: routed, waiting_for_amount_fare: false, ..st }
}

/// Effect of a prorated-fare amount value: store the text, keep its number.
#[verifier::opaque]
pub open spec fn step_prorated_amount(st: StateModel, attrs: Seq<(Seq<char>, Seq<char>)>) -> StateModel {
    let amt = attr_val(attrs, "Amount"@);
    StateModel {
        coupon_fare: amount_value(amt),
        rec: RecordModel { cpn_far_fare_amount_accounting_currency: amt, ..st.rec },
        waiting_for_amount_proratedfare: false,
        ..st
    }
}

/// Effect of a coupon-level tax amount value: always add it to the running
/// tax sum; under the qualifying gate also keep it as the coupon's tax.
#[verifier::opaque]
pub open spec fn step_tax_amount(st: StateModel, attrs: Seq<(Seq<char>, Seq<char>)>) -> StateModel {
    let amt = attr_val(attrs, "Amount"@);
    let v = amount_value(amt);
    if st.wait_for_cpn_lvl {
        StateModel {
            total_tax_sum: st.total_tax_sum + v,
            coupon_tax: v,
            rec: RecordModel { cpn_txo_tax_amount_accounting_currency_yq: amt, ..st.rec },
            ..st
        }
    } else {
        StateModel { total_tax_sum: st.total_tax_sum + v, ..st }
    }
}

/// Effect of a coupon standard-commission amount value.
#[verifier::opaque]
pub open spec fn step_coupon_std_comm_amount(st: StateModel, attrs: Seq<(Seq<char>, Seq<char>)>) -> StateModel {
    StateModel {
        rec: RecordModel {
            cpn_std_commission_amount_accounting_currency: attr_val(attrs, "Amount"@),
            ..st.rec
        },
        waiting_for_coup_standard_comm_amount: false,
        ..st
    }
}

/// Effect of a document standard-commission amount value.
#[verifier::opaque]
pub open spec fn step_std_comm_amount(st: StateModel, attrs: Seq<(Seq<char>, Seq<char>)>) -> StateModel {
    StateModel {
        rec: RecordModel {
            std_commission_amount_accounting_currency: attr_val(attrs, "Amount"@),
            ..st.rec
        },
        waiting_for_std_comm_amount: false,
        ..st
    }
}

/// Effect of a document supplementary-commission amount value.
#[verifier::opaque]
pub open spec fn step_supp_comm_amount(st: StateModel, attrs: Seq<(Seq<char>, Seq<char>)>) -> StateModel {
    StateModel {
        rec: RecordModel {
            sup_commision_amount_accounting_currency: attr_val(attrs, "Amount"@),
            ..st.rec
        },
        waiting_for_supp_comm_amount: false,
        ..st
    }
}

/// Effect of the revenue-attributable-agent element.
#[verifier::opaque]
pub open spec fn step_rev_agent(st: StateModel, attrs: Seq<(Seq<char>, Seq<char>)>) -> StateModel {
    StateModel {
        rec: RecordModel {
            trx_revenue_attributable_iata_number: attr_val(attrs, "AgencyNumber"@),
            ..st.rec
        },
        ..st
    }
}

/// Effect of a self-closing element. The path in `st` already ends in the
/// element's name; the caller pops it afterwards.
#[verifier::opaque]
pub open spec fn on_self_close(st: StateModel, attrs: Seq<(Seq<char>, Seq<char>)>) -> StateModel {
    let p = st.path;
    if p == p_issuance_details() {
        step_issuance_details(st, attrs)
    } else if p == p_fare_amount() && st.in_pricing_fares && st.waiting_for_amount_fare {
        step_fare_amount(st, attrs)
    } else if p == p_prorated_amount() && st.in_calculated_amounts
        && st.waiting_for_amount_proratedfare {
        step_prorated_amount(st, attrs)
    } else if p == p_tax_amount() && st.in_calculated_amounts && st.wait_for_cpn_lvl_accounted {
        step_tax_amount(st, attrs)
    } else if p == p_coupon_std_comm_amount() && st.in_coup_standard_comm_amounts_1
        && st.in_coup_standard_comm_amounts_2 && st.waiting_for_coup_standard_comm_amount {
        step_coupon_std_comm_amount(st, attrs)
    } else if p == p_std_comm_amount() && st.waiting_for_std_comm_amount {
        step_std_comm_amount(st, attrs)
    } else if p == p_supp_comm_amount() && st.waiting_for_supp_comm_amount {
        step_supp_comm_amount(st, attrs)
    } else if p == p_rev_agent() {
        step_rev_agent(st, attrs)
    } else {
        st
    }
}

/// Closing the fare list leaves the fare scope.
#[verifier::opaque]
pub open spec fn close_fares_step(st: StateModel) -> StateModel {
    StateModel { in_pricing_fares: false, ..st }
}

/// Closing a calculated-amounts block writes the two computed fields and
/// resets the per-coupon accumulators and flags. The running tax sum is
/// deliberately not reset: it keeps growing across coupons of one document,
/// as the summed-tax field's stated behaviour.
#[verifier::opaque]
pub open spec fn close_calculated_step(st: StateModel) -> StateModel {
    StateModel {
        in_calculated_amounts: false,
        rec: RecordModel {
            sum_cpn_txo_tax_amount_accounting_currency: amount_string(st.total_tax_sum),
            revenue: amount_string(st.coupon_fare + st.coupon_tax),
            ..st.rec
        },
        coupon_fare: 0,
        coupon_tax: 0,
        wait_for_cpn_lvl_accounted: false,
        wait_for_cpn_lvl: false,
        waiting_for_amount_proratedfare: false,
        ..st
    }
}

/// Closing a coupon standard-commission block leaves both its scopes.
#[verifier::opaque]
pub open spec fn close_coupon_comm_step(st: StateModel) -> StateModel {
    StateModel {
        in_coup_standard_comm_amounts_1: false,
        in_coup_standard_comm_amounts_2: false,
        ..st
    }
}

/// Closing a transaction freezes the row and starts a fresh one.
#[verifier::opaque]
pub open spec fn close_transaction_step(st: StateModel) -> StateModel {
    StateModel { rows: st.rows.push(st.rec), rec: empty_record(), ..st }
}

/// The scope resets and the row freeze an element close performs, matched on
/// the closing element's local name alone; the path pop follows separately.
#[verifier::opaque]
pub open spec fn close_actions(st: StateModel, name: Seq<char>) -> StateModel {
    let st1 = if name == "Fares"@ {
        close_fares_step(st)
    } else {
        st
    };
    let st2 = if name == "CalculatedAmounts"@ {
        close_calculated_step(st1)
    } else {
        st1
    };
    let st3 = if name == "CouponStandardCommission"@ {
        close_coupon_comm_step(st2)
    } else {
        st2
    };
    let st4 = if name == "Transaction"@ {
        close_transaction_step(st3)
    } else {
        st3
    };
    st4
}

/// Effect of an element close: its actions, then the path pop.
#[verifier::opaque]
pub open spec fn on_close(st: StateModel, name: Seq<char>) -> StateModel {
    pop_path(close_actions(st, name))
}

/// The whole walk: one event at a time, with the one-event lookahead that a
/// text-capturing open consumes, whatever that next event is.
pub open spec fn run(st: StateModel, toks: Seq<TokenModel>) -> StateModel
    decreases toks.len(),
{
    if toks.len() == 0 {
        st
    } else {
        match toks[0] {
            TokenModel::Open { name, attrs } => {
                let pushed = push_path(st, name);
                if open_wants_text(pushed) && toks.len() >= 2 {
                    run(on_open(pushed, attrs, text_content(toks[1])), toks.skip(2))
                } else {
                    run(on_open(pushed, attrs, Seq::empty()), toks.skip(1))
                }
            },
            TokenModel::SelfClose { name, attrs } => run(
                pop_path(on_self_close(push_path(st, name), attrs)),
                toks.skip(1),
            ),
            TokenModel::Close { name } => run(on_close(st, name), toks.skip(1)),
            TokenModel::Text { content } => run(st, toks.skip(1)),
            TokenModel::Other => run(st, toks.skip(1)),
        }
    }
}

/// The rows a document's event sequence yields, in document order.
pub open spec fn records_of(toks: Seq<TokenModel>) -> Seq<RecordModel> {
    run(init_state(), toks).rows
}

/// An element open never touches the accumulators, the emitted rows or the
/// path it was handed.
pub proof fn lemma_on_open_frame(st: StateModel, attrs: Seq<(Seq<char>, Seq<char>)>, txt: Seq<char>)
    ensures
        on_open(st, attrs, txt).total_tax_sum == st.total_tax_sum,
        on_open(st, attrs, txt).coupon_fare == st.coupon_fare,
        on_open(st, attrs, txt).coupon_tax == st.coupon_tax,
        on_open(st, attrs, txt).path == st.path,
        on_open(st, attrs, txt).rows == st.rows,
{
    reveal(on_open);
    reveal(step_document);
    reveal(step_entity_status);
    reveal(step_currency);
    reveal(step_tour_code);
    reveal(step_pnr_id);
    reveal(step_marketing_carrier);
    reveal(step_operating_carrier);
    reveal(step_fare_basis);
    reveal(step_booking_class);
    reveal(step_cabin_class);
    reveal(step_flight_number);
    reveal(step_coupon);
    reveal(step_fare);
    reveal(step_fare_amount_type);
    reveal(step_coupon_std_comm_amount_type);
    reveal(step_prorated_amount_type);
    reveal(step_tax_amount_type);
    reveal(step_std_comm_amount_type);
    reveal(step_supp_comm_amount_type);
    reveal(step_fare_roe);
    reveal(step_coupon_std_comm);
    reveal(step_coupon_std_comm_commission);
    reveal(step_calculated_amounts);
    reveal(step_tax);
    reveal(step_segment_info);
}

/// A self-closing element moves the running tax sum by less than one amount
/// limit, keeps or re-bounds the per-coupon accumulators, and leaves path and
/// rows alone.
pub proof fn lemma_on_self_close_frame(st: StateModel, attrs: Seq<(Seq<char>, Seq<char>)>)
    ensures
        on_self_close(st, attrs).path == st.path,
        on_self_close(st, attrs).rows == st.rows,
        st.total_tax_sum - AMOUNT_LIMIT < on_self_close(st, attrs).total_tax_sum < st.total_tax_sum
            + AMOUNT_LIMIT,
        on_self_close(st, attrs).coupon_fare == st.coupon_fare || -AMOUNT_LIMIT < on_self_close(
            st,
            attrs,
        ).coupon_fare < AMOUNT_LIMIT,
        on_self_close(st, attrs).coupon_tax == st.coupon_tax || -AMOUNT_LIMIT < on_self_close(
            st,
            attrs,
        ).coupon_tax < AMOUNT_LIMIT,
{
    reveal(on_self_close);
    reveal(step_issuance_details);
    reveal(step_fare_amount);
    reveal(step_prorated_amount);
    reveal(step_tax_amount);
    reveal(step_coupon_std_comm_amount);
    reveal(step_std_comm_amount);
    reveal(step_supp_comm_amount);
    reveal(step_rev_agent);
    lemma_amount_value_bound(attr_val(attrs, "Amount"@));
}

/// An element close keeps the running tax sum and either keeps or zeroes the
/// per-coupon accumulators.
pub proof fn lemma_on_close_frame(st: StateModel, name: Seq<char>)
    ensures
        on_close(st, name).total_tax_sum == st.total_tax_sum,
        name == "Transaction"@ ==> on_close(st, name).rows.len() == st.rows.len() + 1,
        name != "Transaction"@ ==> on_close(st, name).rows == st.rows,
        on_close(st, name).coupon_fare == st.coupon_fare || on_close(st, name).coupon_fare == 0,
        on_close(st, name).coupon_tax == st.coupon_tax || on_close(st, name).coupon_tax == 0,
{
    reveal(on_close);
    reveal(close_actions);
    reveal(close_fares_step);
    reveal(close_calculated_step);
    reveal(close_coupon_comm_step);
    reveal(close_transaction_step);
}

/// Whether the element just opened captures the character content after it.
fn wants_text(st: &ParserState) -> (b: bool)
    ensures
        b == open_wants_text(st@),
{
    proof {
        reveal(open_wants_text);
    }
    is_p_entity_status(&st.path) || is_p_currency(&st.path) || is_p_tour_code(&st.path)
        || is_p_pnr_id(&st.path) || is_p_marketing_carrier(&st.path) || is_p_operating_carrier(
        &st.path,
    ) || is_p_fare_basis(&st.path) || is_p_fare_amount_type(&st.path) || (is_p_fare_roe(&st.path)
        && st.in_pricing_fares && st.waiting_for_amount_fare_roe) || (
    is_p_coupon_std_comm_amount_type(&st.path) && st.in_coup_standard_comm_amounts_1
        && st.in_coup_standard_comm_amounts_2) || (is_p_prorated_amount_type(&st.path)
        && st.in_calculated_amounts) || (is_p_tax_amount_type(&st.path) && st.wait_for_cpn_lvl)
        || is_p_std_comm_amount_type(&st.path) || is_p_supp_comm_amount_type(&st.path)
        || is_p_booking_class(&st.path) || is_p_cabin_class(&st.path) || is_p_flight_number(
        &st.path,
    )
}

fn open_document(st: &mut ParserState, attrs: &Vec<(String, String)>)
    ensures
        final(st)@ == step_document(old(st)@, attrs_view(attrs@)),
{
    proof {
        reveal(step_document);
    }
    st.rec.issue_date = get_attr(attrs, "DateOfIssuance");
    st.rec.validating_carrier = get_attr(attrs, "ValidatingCarrier");
}

fn open_entity_status(st: &mut ParserState, txt: &str)
    ensures
        final(st)@ == step_entity_status(old(st)@, txt@),
{
    proof {
        reveal(step_entity_status);
    }
    st.rec.document_status = txt.to_owned();
}

fn open_currency(st: &mut ParserState, txt: &str)
    ensures
        final(st)@ == step_currency(old(st)@, txt@),
{
    proof {
        reveal(step_currency);
    }
    st.rec.currency = txt.to_owned();
}

fn open_tour_code(st: &mut ParserState, txt: &str)
    ensures
        final(st)@ == step_tour_code(old(st)@, txt@),
{
    proof {
        reveal(step_tour_code);
    }
    st.rec.tour_code = txt.to_owned();
}

fn open_pnr_id(st: &mut ParserState, txt: &str)
    ensures
        final(st)@ == step_pnr_id(old(st)@, txt@),
{
    proof {
        reveal(step_pnr_id);
    }
    st.rec.pnr_no = txt.to_owned();
}

fn open_marketing_carrier(st: &mut ParserState, txt: &str)
    ensures
        final(st)@ == step_marketing_carrier(old(st)@, txt@),
{
    proof {
        reveal(step_marketing_carrier);
    }
    st.rec.marketting_carrier = txt.to_owned();
}

fn open_operating_carrier(st: &mut ParserState, txt: &str)
    ensures
        final(st)@ == step_operating_carrier(old(st)@, txt@),
{
    proof {
        reveal(step_operating_carrier);
    }
    st.rec.operating_carrier = txt.to_owned();
}

fn open_fare_basis(st: &mut ParserState, txt: &str)
    ensures
        final(st)@ == step_fare_basis(old(st)@, txt@),
{
    proof {
        reveal(step_fare_basis);
    }
    st.rec.fare_basis = txt.to_owned();
}

fn open_booking_class(st: &mut ParserState, txt: &str)
    ensures
        final(st)@ == step_booking_class(old(st)@, txt@),
{
    proof {
        reveal(step_booking_class);
    }
    st.rec.rbd = txt.to_owned();
}

fn open_cabin_class(st: &mut ParserState, txt: &str)
    ensures
        final(st)@ == step_cabin_class(old(st)@, txt@),
{
    proof {
        reveal(step_cabin_class);
    }
    st.rec.cabin = txt.to_owned();
}

fn open_flight_number(st: &mut ParserState, txt: &str)
    ensures
        final(st)@ == step_flight_number(old(st)@, txt@),
{
    proof {
        reveal(step_flight_number);
    }
    st.rec.flight_nr = txt.to_owned();
}

fn open_coupon(st: &mut ParserState, attrs: &Vec<(String, String)>)
    ensures
        final(st)@ == step_coupon(old(st)@, attrs_view(attrs@)),
{
    proof {
        reveal(step_coupon);
    }
    st.rec.primary_ticket_no = get_attr(attrs, "DocumentNbr");
    st.rec.ticket_no = get_attr(attrs, "ConjunctiveDocumentNbr");
    st.rec.coupon_no = get_attr(attrs, "Number");
    st.rec.coupon_status = get_attr(attrs, "Status");
}

fn open_fare(st: &mut ParserState, attrs: &Vec<(String, String)>)
    ensures
        final(st)@ == step_fare(old(st)@, attrs_view(attrs@)),
{
    proof {
        reveal(step_fare);
    }
    st.in_pricing_fares = true;
    st.last_fare_type = get_attr(attrs, "FareDescription");
}

fn open_fare_amount_type(st: &mut ParserState, txt: &str)
    ensures
        final(st)@ == step_fare_amount_type(old(st)@, txt@),
{
    proof {
        reveal(step_fare_amount_type);
    }
    if str_eq(txt, "ACCOUNTED") {
        st.waiting_for_amount_fare = true;
        st.waiting_for_amount_fare_roe = true;
    }
}

fn open_coupon_std_comm_amount_type(st: &mut ParserState, txt: &str)
    ensures
        final(st)@ == step_coupon_std_comm_amount_type(old(st)@, txt@),
{
    proof {
        reveal(step_coupon_std_comm_amount_type);
    }
    if str_eq(txt, "ACCOUNTED") {
        st.waiting_for_coup_standard_comm_amount = true;
    }
}

fn open_prorated_amount_type(st: &mut ParserState, txt: &str)
    ensures
        final(st)@ == step_prorated_amount_type(old(st)@, txt@),
{
    proof {
        reveal(step_prorated_amount_type);
    }
    if str_eq(txt, "ACCOUNTED") {
        st.waiting_for_amount_proratedfare = true;
    }
}

fn open_tax_amount_type(st: &mut ParserState, txt: &str)
    ensures
        final(st)@ == step_tax_amount_type(old(st)@, txt@),
{
    proof {
        reveal(step_tax_amount_type);
    }
    if str_eq(txt, "ACCOUNTED") {
        st.wait_for_cpn_lvl_accounted = true;
    }
}

fn open_std_comm_amount_type(st: &mut ParserState, txt: &str)
    ensures
        final(st)@ == step_std_comm_amount_type(old(st)@, txt@),
{
    proof {
        reveal(step_std_comm_amount_type);
    }
    if str_eq(txt, "ACCOUNTED") {
        st.waiting_for_std_comm_amount = true;
    }
}

fn open_supp_comm_amount_type(st: &mut ParserState, txt: &str)
    ensures
        final(st)@ == step_supp_comm_amount_type(old(st)@, txt@),
{
    proof {
        reveal(step_supp_comm_amount_type);
    }
    if str_eq(txt, "ACCOUNTED") {
        st.waiting_for_supp_comm_amount = true;
    }
}

fn open_fare_roe(st: &mut ParserState, txt: &str)
    ensures
        final(st)@ == step_fare_roe(old(st)@, txt@),
{
    proof {
        reveal(step_fare_roe);
    }
    st.rec.exchange_rate = txt.to_owned();
    st.waiting_for_amount_fare_roe = false;
}

fn open_tax(st: &mut ParserState, attrs: &Vec<(String, String)>)
    ensures
        final(st)@ == step_tax(old(st)@, attrs_view(attrs@)),
{
    proof {
        reveal(step_tax);
    }
    let nature_code = get_attr(attrs, "NatureCode");
    let iso_code = get_attr(attrs, "ISOCode");
    let is_refundable = get_attr(attrs, "IsRefundable");
    if str_eq(nature_code.as_str(), "AC") && str_eq(iso_code.as_str(), "YQ") && str_eq(
        is_refundable.as_str(),
        "N",
    ) {
        st.wait_for_cpn_lvl = true;
    }
}

fn open_segment_info(st: &mut ParserState, attrs: &Vec<(String, String)>)
    ensures
        final(st)@ == step_segment_info(old(st)@, attrs_view(attrs@)),
{
    proof {
        reveal(step_segment_info);
    }
    let origin = get_attr(attrs, "OriginAirportCode");
    let dest = get_attr(attrs, "DestinationAirportCode");
    st.rec.segment = origin.concat(dest.as_str());
    st.rec.dep_date_time = get_attr(attrs, "DepartureDate");
    st.rec.arr_date_time = get_attr(attrs, "ArrivalDate");
}

/// Applies an element open to the state. The path already ends in the opened
/// element's name; `txt` is the captured character content, empty when the
/// path captures none.
#[verifier::rlimit(100)]
#[verifier::spinoff_prover]
fn open_coupon_std_comm(st: &mut ParserState)
    ensures
        final(st)@ == step_coupon_std_comm(old(st)@),
{
    proof {
        reveal(step_coupon_std_comm);
    }
    st.in_coup_standard_comm_amounts_1 = true;
}

fn open_coupon_std_comm_commission(st: &mut ParserState)
    ensures
        final(st)@ == step_coupon_std_comm_commission(old(st)@),
{
    proof {
        reveal(step_coupon_std_comm_commission);
    }
    st.in_coup_standard_comm_amounts_2 = true;
}

fn open_calculated_amounts(st: &mut ParserState)
    ensures
        final(st)@ == step_calculated_amounts(old(st)@),
{
    proof {
        reveal(step_calculated_amounts);
    }
    st.in_calculated_amounts = true;
}

fn handle_open(st: &mut ParserState, attrs: &Vec<(String, String)>, txt: &str)
    ensures
        final(st)@ == on_open(old(st)@, attrs_view(attrs@), txt@),
{
    proof {
        reveal(on_open);
    }
    if is_p_document(&st.path) {
        open_document(st, attrs);
    } else if is_p_entity_status(&st.path) {
        open_entity_status(st, txt);
    } else if is_p_currency(&st.path) {
        open_currency(st, txt);
    } else if is_p_tour_code(&st.path) {
        open_tour_code(st, txt);
    } else if is_p_pnr_id(&st.path) {
        open_pnr_id(st, txt);
    } else if is_p_coupon(&st.path) {
        open_coupon(st, attrs);
    } else if is_p_marketing_carrier(&st.path) {
        open_marketing_carrier(st, txt);
    } else if is_p_operating_carrier(&st.path) {
        open_operating_carrier(st, txt);
    } else if is_p_fare_basis(&st.path) {
        open_fare_basis(st, txt);
    } else if is_p_fare(&st.path) {
        open_fare(st, attrs);
    } else if is_p_fare_amount_type(&st.path) {
        open_fare_amount_type(st, txt);
    } else if is_p_fare_roe(&st.path) && st.in_pricing_fares && st.waiting_for_amount_fare_roe {
        open_fare_roe(st, txt);
    } else if is_p_coupon_std_comm(&st.path) {
        open_coupon_std_comm(st);
    } else if is_p_coupon_std_comm_commission(&st.path) {
        open_coupon_std_comm_commission(st);
    } else if is_p_coupon_std_comm_amount_type(&st.path) && st.in_coup_standard_comm_amounts_1
        && st.in_coup_standard_comm_amounts_2 {
        open_coupon_std_comm_amount_type(st, txt);
    } else if is_p_calculated_amounts(&st.path) {
        open_calculated_amounts(st);
    } else if is_p_prorated_amount_type(&st.path) && st.in_calculated_amounts {
        open_prorated_amount_type(st, txt);
    } else if is_p_tax(&st.path) {
        open_tax(st, attrs);
    } else if is_p_tax_amount_type(&st.path) && st.wait_for_cpn_lvl {
        open_tax_amount_type(st, txt);
    } else if is_p_std_comm_amount_type(&st.path) {
        open_std_comm_amount_type(st, txt);
    } else if is_p_supp_comm_amount_type(&st.path) {
        open_supp_comm_amount_type(st, txt);
    } else if is_p_segment_info(&st.path) {
        open_segment_info(st, attrs);
    } else if is_p_booking_class(&st.path) {
        open_booking_class(st, txt);
    } else if is_p_cabin_class(&st.path) {
        open_cabin_class(st, txt);
    } else if is_p_flight_number(&st.path) {
        open_flight_number(st, txt);
    }
}

/// Applies a self-closing element to the state. The path already ends in the
/// element's name; the caller pops it afterwards.
#[verifier::rlimit(60)]
fn empty_issuance_details(st: &mut ParserState, attrs: &Vec<(String, String)>)
    ensures
        final(st)@ == step_issuance_details(old(st)@, attrs_view(attrs@)),
{
    proof {
        reveal(step_issuance_details);
    }
    st.rec.pos = get_attr(attrs, "CityPOS");
    st.rec.iata = get_attr(attrs, "Iata");
    st.rec.distribution_channel = get_attr(attrs, "OfficeId");
}

fn empty_fare_amount(st: &mut ParserState, attrs: &Vec<(String, String)>)
    ensures
        final(st)@ == step_fare_amount(old(st)@, attrs_view(attrs@)),
{
    proof {
        reveal(step_fare_amount);
    }
    let amt = get_attr(attrs, "Amount");
    if str_eq(st.last_fare_type.as_str(), "NET") {
        st.rec.net_fare_amount_accounting_currency = amt;
    } else if str_eq(st.last_fare_type.as_str(), "PUBLISHED") {
        st.rec.pub_fare_amount_accounting_currency = amt;
    } else if str_eq(st.last_fare_type.as_str(), "ADDITIONAL_COLLECTION") {
        st.rec.bal_exchange_additional_collected_fare_amount_accounting_currency = amt;
    }
    st.waiting_for_amount_fare = false;
}

fn empty_prorated_amount(st: &mut ParserState, attrs: &Vec<(String, String)>)
    ensures
        final(st)@ == step_prorated_amount(old(st)@, attrs_view(attrs@)),
{
    proof {
        reveal(step_prorated_amount);
    }
    let amt = get_attr(attrs, "Amount");
    st.coupon_fare = parse_amount(amt.as_str());
    st.rec.cpn_far_fare_amount_accounting_currency = amt;
    st.waiting_for_amount_proratedfare = false;
}

fn empty_tax_amount(st: &mut ParserState, attrs: &Vec<(String, String)>)
    requires
        old(st).total_tax_sum <= i128::MAX - AMOUNT_LIMIT,
        old(st).total_tax_sum >= i128::MIN + AMOUNT_LIMIT,
    ensures
        final(st)@ == step_tax_amount(old(st)@, attrs_view(attrs@)),
{
    proof {
        reveal(step_tax_amount);
    }
    let amt = get_attr(attrs, "Amount");
    let v: i128 = parse_amount(amt.as_str());
    st.total_tax_sum = st.total_tax_sum + v;
    if st.wait_for_cpn_lvl {
        st.coupon_tax = v;
        st.rec.cpn_txo_tax_amount_accounting_currency_yq = amt;
    }
}

fn empty_coupon_std_comm_amount(st: &mut ParserState, attrs: &Vec<(String, String)>)
    ensures
        final(st)@ == step_coupon_std_comm_amount(old(st)@, attrs_view(attrs@)),
{
    proof {
        reveal(step_coupon_std_comm_amount);
    }
    st.rec.cpn_std_commission_amount_accounting_currency = get_attr(attrs, "Amount");
    st.waiting_for_coup_standard_comm_amount = false;
}

fn empty_std_comm_amount(st: &mut ParserState, attrs: &Vec<(String, String)>)
    ensures
        final(st)@ == step_std_comm_amount(old(st)@, attrs_view(attrs@)),
{
    proof {
        reveal(step_std_comm_amount);
    }
    st.rec.std_commission_amount_accounting_currency = get_attr(attrs, "Amount");
    st.waiting_for_std_comm_amount = false;
}

fn empty_supp_comm_amount(st: &mut ParserState, attrs: &Vec<(String, String)>)
    ensures
        final(st)@ == step_supp_comm_amount(old(st)@, attrs_view(attrs@)),
{
    proof {
        reveal(step_supp_comm_amount);
    }
    st.rec.sup_commision_amount_accounting_currency = get_attr(attrs, "Amount");
    st.waiting_for_supp_comm_amount = false;
}

fn empty_rev_agent(st: &mut ParserState, attrs: &Vec<(String, String)>)
    ensures
        final(st)@ == step_rev_agent(old(st)@, attrs_view(attrs@)),
{
    proof {
        reveal(step_rev_agent);
    }
    st.rec.trx_revenue_attributable_iata_number = get_attr(attrs, "AgencyNumber");
}

/// Applies a self-closing element to the state. The path already ends in the
/// element's name; the caller pops it afterwards.
#[verifier::rlimit(100)]
#[verifier::spinoff_prover]
fn handle_self_close(st: &mut ParserState, attrs: &Vec<(String, String)>)
    requires
        old(st).total_tax_sum <= i128::MAX - AMOUNT_LIMIT,
        old(st).total_tax_sum >= i128::MIN + AMOUNT_LIMIT,
    ensures
        final(st)@ == on_self_close(old(st)@, attrs_view(attrs@)),
{
    proof {
        reveal(on_self_close);
    }
    if is_p_issuance_details(&st.path) {
        empty_issuance_details(st, attrs);
    } else if is_p_fare_amount(&st.path) && st.in_pricing_fares && st.waiting_for_amount_fare {
        empty_fare_amount(st, attrs);
    } else if is_p_prorated_amount(&st.path) && st.in_calculated_amounts
        && st.waiting_for_amount_proratedfare {
        empty_prorated_amount(st, attrs);
    } else if is_p_tax_amount(&st.path) && st.in_calculated_amounts
        && st.wait_for_cpn_lvl_accounted {
        empty_tax_amount(st, attrs);
    } else if is_p_coupon_std_comm_amount(&st.path) && st.in_coup_standard_comm_amounts_1
        && st.in_coup_standard_comm_amounts_2 && st.waiting_for_coup_standard_comm_amount {
        empty_coupon_std_comm_amount(st, attrs);
    } else if is_p_std_comm_amount(&st.path) && st.waiting_for_std_comm_amount {
        empty_std_comm_amount(st, attrs);
    } else if is_p_supp_comm_amount(&st.path) && st.waiting_for_supp_comm_amount {
        empty_supp_comm_amount(st, attrs);
    } else if is_p_rev_agent(&st.path) {
        empty_rev_agent(st, attrs);
    }
}

fn close_fares(st: &mut ParserState)
    ensures
        final(st)@ == close_fares_step(old(st)@),
{
    proof {
        reveal(close_fares_step);
    }
    st.in_pricing_fares = false;
}

fn close_coupon_comm(st: &mut ParserState)
    ensures
        final(st)@ == close_coupon_comm_step(old(st)@),
{
    proof {
        reveal(close_coupon_comm_step);
    }
    st.in_coup_standard_comm_amounts_1 = false;
    st.in_coup_standard_comm_amounts_2 = false;
}

fn close_calculated(st: &mut ParserState)
    requires
        -AMOUNT_LIMIT < old(st).coupon_fare < AMOUNT_LIMIT,
        -AMOUNT_LIMIT < old(st).coupon_tax < AMOUNT_LIMIT,
        old(st).total_tax_sum > i128::MIN,
    ensures
        final(st)@ == close_calculated_step(old(st)@),
{
    proof {
        reveal(close_calculated_step);
    }
    st.in_calculated_amounts = false;
    st.rec.sum_cpn_txo_tax_amount_accounting_currency = format_amount(st.total_tax_sum);
    st.rec.revenue = format_amount(st.coupon_fare + st.coupon_tax);
    st.coupon_fare = 0;
    st.coupon_tax = 0;
    st.wait_for_cpn_lvl_accounted = false;
    st.wait_for_cpn_lvl = false;
    st.waiting_for_amount_proratedfare = false;
}

fn close_transaction(st: &mut ParserState)
    ensures
        final(st)@ == close_transaction_step(old(st)@),
{
    proof {
        reveal(close_transaction_step);
    }
    let ghost rows0 = st.rows@;
    let finished = st.rec.clone();
    st.rows.push(finished);
    st.rec = Record::new();
    proof {
        lemma_records_view_push(rows0, finished);
    }
}

/// Applies the close actions: scope resets, the two computed fields at a
/// calculated-amounts close, the frozen row at a transaction close.
#[verifier::rlimit(100)]
#[verifier::spinoff_prover]
fn handle_close_actions(st: &mut ParserState, name: &str)
    requires
        -AMOUNT_LIMIT < old(st).coupon_fare < AMOUNT_LIMIT,
        -AMOUNT_LIMIT < old(st).coupon_tax < AMOUNT_LIMIT,
        old(st).total_tax_sum > i128::MIN,
    ensures
        final(st)@ == close_actions(old(st)@, name@),
{
    proof {
        reveal(close_actions);
    }
    if str_eq(name, "Fares") {
        close_fares(st);
    }
    if str_eq(name, "CalculatedAmounts") {
        proof {
            reveal(close_fares_step);
        }
        close_calculated(st);
    }
    if str_eq(name, "CouponStandardCommission") {
        close_coupon_comm(st);
    }
    if str_eq(name, "Transaction") {
        close_transaction(st);
    }
}

/// Pushes the opened element's name onto the path.
fn push_state_path(st: &mut ParserState, name: &String)
    ensures
        final(st)@ == push_path(old(st)@, name@),
{
    let ghost path0 = st.path@;
    st.path.push(name.clone());
    proof {
        lemma_path_view_push(path0, *name);
    }
}

/// Drops the last open element from the path, if any is open.
fn pop_state_path(st: &mut ParserState)
    ensures
        final(st)@ == pop_path(old(st)@),
{
    let ghost path0 = st.path@;
    if st.path.len() > 0 {
        st.path.pop();
        proof {
            lemma_path_view_pop(path0);
        }
    }
}

/// Applies an element close to the state: its actions, then the path pop.
#[verifier::rlimit(100)]
#[verifier::spinoff_prover]
fn handle_close(st: &mut ParserState, name: &str)
    requires
        -AMOUNT_LIMIT < old(st).coupon_fare < AMOUNT_LIMIT,
        -AMOUNT_LIMIT < old(st).coupon_tax < AMOUNT_LIMIT,
        old(st).total_tax_sum > i128::MIN,
    ensures
        final(st)@ == on_close(old(st)@, name@),
{
    proof {
        reveal(on_close);
    }
    handle_close_actions(st, name);
    pop_state_path(st);
}

/// The text an element open captures when it consumes the event at `i`:
/// a text event's content, and empty for any other event.
fn lookahead_text<'a>(toks: &'a Vec<Token>, i: usize) -> (txt: &'a str)
    requires
        i < toks@.len(),
    ensures
        txt@ == text_content(toks@[i as int]@),
{
    match &toks[i] {
        Token::Text { content } => content.as_str(),
        _ => {
            proof {
                reveal_strlit("");
                assert(""@ =~= Seq::<char>::empty());
            }
            ""
        },
    }
}

/// Consumes an element-open event at `i`, together with the following event
/// when the opened path captures text, and returns the next unconsumed index.
#[verifier::rlimit(100)]
#[verifier::spinoff_prover]
fn step_open_token(st: &mut ParserState, toks: &Vec<Token>, i: usize) -> (next_i: usize)
    requires
        i < toks@.len(),
        toks@[i as int] is Open,
    ensures
        i < next_i <= toks@.len(),
        next_i <= i + 2,
        run(final(st)@, tokens_view(toks@).skip(next_i as int)) == run(
            old(st)@,
            tokens_view(toks@).skip(i as int),
        ),
        final(st).total_tax_sum == old(st).total_tax_sum,
        final(st).coupon_fare == old(st).coupon_fare,
        final(st).coupon_tax == old(st).coupon_tax,
{
    let n: usize = toks.len();
    let ghost all = tokens_view(toks@);
    let ghost rest = all.skip(i as int);
    let ghost pre = st@;
    proof {
        assert(rest[0] == all[i as int]);
        assert(all[i as int] == toks@[i as int]@);
        assert(rest.len() == n - i);
    }
    if let Token::Open { name, attrs } = &toks[i] {
        push_state_path(st, name);
        let wants = wants_text(&st);
        if wants && i + 1 < n {
            proof {
                assert(rest[1] == all[i as int + 1]);
                assert(all[i as int + 1] == toks@[i as int + 1]@);
            }
            let txt = lookahead_text(toks, i + 1);
            handle_open(st, attrs, txt);
            proof {
                assert(st@ == on_open(
                    push_path(pre, name@),
                    attrs_view(attrs@),
                    text_content(rest[1]),
                ));
                assert(rest.skip(2) =~= all.skip(i as int + 2));
                lemma_on_open_frame(
                    push_path(pre, name@),
                    attrs_view(attrs@),
                    text_content(rest[1]),
                );
            }
            i + 2
        } else {
            handle_open(st, attrs, "");
            proof {
                reveal_strlit("");
                assert(""@ =~= Seq::<char>::empty());
                assert(st@ == on_open(push_path(pre, name@), attrs_view(attrs@), Seq::empty()));
                assert(rest.skip(1) =~= all.skip(i as int + 1));
                lemma_on_open_frame(push_path(pre, name@), attrs_view(attrs@), Seq::empty());
            }
            i + 1
        }
    } else {
        proof {
            assert(false);
        }
        i + 1
    }
}

/// Consumes a self-closing-element event at `i`.
#[verifier::rlimit(100)]
#[verifier::spinoff_prover]
fn step_self_close_token(st: &mut ParserState, toks: &Vec<Token>, i: usize) -> (next_i: usize)
    requires
        i < toks@.len(),
        toks@[i as int] is SelfClose,
        old(st).total_tax_sum <= i128::MAX - AMOUNT_LIMIT,
        old(st).total_tax_sum >= i128::MIN + AMOUNT_LIMIT,
    ensures
        next_i == i + 1,
        run(final(st)@, tokens_view(toks@).skip(next_i as int)) == run(
            old(st)@,
            tokens_view(toks@).skip(i as int),
        ),
        old(st).total_tax_sum - AMOUNT_LIMIT < final(st).total_tax_sum < old(st).total_tax_sum
            + AMOUNT_LIMIT,
        -AMOUNT_LIMIT < final(st).coupon_fare < AMOUNT_LIMIT || final(st).coupon_fare == old(
            st,
        ).coupon_fare,
        -AMOUNT_LIMIT < final(st).coupon_tax < AMOUNT_LIMIT || final(st).coupon_tax == old(
            st,
        ).coupon_tax,
{
    let n: usize = toks.len();
    let ghost all = tokens_view(toks@);
    let ghost rest = all.skip(i as int);
    let ghost pre = st@;
    proof {
        assert(rest[0] == all[i as int]);
        assert(all[i as int] == toks@[i as int]@);
    }
    if let Token::SelfClose { name, attrs } = &toks[i] {
        push_state_path(st, name);
        proof {
            lemma_on_self_close_frame(push_path(pre, name@), attrs_view(attrs@));
        }
        handle_self_close(st, attrs);
        pop_state_path(st);
        proof {
            assert(st@ == pop_path(on_self_close(push_path(pre, name@), attrs_view(attrs@))));
            assert(rest.skip(1) =~= all.skip(i as int + 1));
        }
    } else {
        proof {
            assert(false);
        }
    }
    i + 1
}

/// Consumes an element-close event at `i`.
#[verifier::rlimit(100)]
#[verifier::spinoff_prover]
fn step_close_token(st: &mut ParserState, toks: &Vec<Token>, i: usize) -> (next_i: usize)
    requires
        i < toks@.len(),
        toks@[i as int] is Close,
        -AMOUNT_LIMIT < old(st).coupon_fare < AMOUNT_LIMIT,
        -AMOUNT_LIMIT < old(st).coupon_tax < AMOUNT_LIMIT,
        old(st).total_tax_sum > i128::MIN,
    ensures
        next_i == i + 1,
        run(final(st)@, tokens_view(toks@).skip(next_i as int)) == run(
            old(st)@,
            tokens_view(toks@).skip(i as int),
        ),
        final(st).total_tax_sum == old(st).total_tax_sum,
        final(st).coupon_fare == old(st).coupon_fare || final(st).coupon_fare == 0,
        final(st).coupon_tax == old(st).coupon_tax || final(st).coupon_tax == 0,
{
    let n: usize = toks.len();
    let ghost all = tokens_view(toks@);
    let ghost rest = all.skip(i as int);
    let ghost pre = st@;
    proof {
        assert(rest[0] == all[i as int]);
        assert(all[i as int] == toks@[i as int]@);
    }
    if let Token::Close { name } = &toks[i] {
        handle_close(st, name.as_str());
        proof {
            lemma_on_close_frame(pre, name@);
            assert(st@ == on_close(pre, name@));
            assert(rest.skip(1) =~= all.skip(i as int + 1));
        }
    } else {
        proof {
            assert(false);
        }
    }
    i + 1
}

/// Consumes the event at `i` (and, for a text-capturing open, the event
/// after it) and returns the index of the next unconsumed event.
#[verifier::rlimit(100)]
#[verifier::spinoff_prover]
fn step_token(st: &mut ParserState, toks: &Vec<Token>, i: usize) -> (next_i: usize)
    requires
        i < toks@.len(),
        -AMOUNT_LIMIT < old(st).coupon_fare < AMOUNT_LIMIT,
        -AMOUNT_LIMIT < old(st).coupon_tax < AMOUNT_LIMIT,
        old(st).total_tax_sum <= i128::MAX - AMOUNT_LIMIT,
        old(st).total_tax_sum >= i128::MIN + AMOUNT_LIMIT,
    ensures
        i < next_i <= toks@.len(),
        next_i <= i + 2,
        run(final(st)@, tokens_view(toks@).skip(next_i as int)) == run(
            old(st)@,
            tokens_view(toks@).skip(i as int),
        ),
        old(st).total_tax_sum - AMOUNT_LIMIT < final(st).total_tax_sum < old(st).total_tax_sum
            + AMOUNT_LIMIT,
        -AMOUNT_LIMIT < final(st).coupon_fare < AMOUNT_LIMIT,
        -AMOUNT_LIMIT < final(st).coupon_tax < AMOUNT_LIMIT,
{
    let n: usize = toks.len();
    let ghost all = tokens_view(toks@);
    let ghost rest = all.skip(i as int);
    proof {
        assert(rest[0] == all[i as int]);
        assert(all[i as int] == toks@[i as int]@);
    }
    match &toks[i] {
        Token::Open { name, attrs } => step_open_token(st, toks, i),
        Token::SelfClose { name, attrs } => step_self_close_token(st, toks, i),
        Token::Close { name } => step_close_token(st, toks, i),
        Token::Text { content } => {
            proof {
                assert(rest.skip(1) =~= all.skip(i as int + 1));
            }
            i + 1
        },
        Token::Other => {
            proof {
                assert(rest.skip(1) =~= all.skip(i as int + 1));
            }
            i + 1
        },
    }
}

/// Walks a document's event sequence and returns the finished rows, one per
/// transaction-closing element, in document order: exactly the mathematical
/// walk `records_of` of the events, so equal event sequences always give
/// equal rows.
pub fn extract_records(toks: &Vec<Token>) -> (rows: Vec<Record>)
    ensures
        records_view(rows@) == records_of(tokens_view(toks@)),
{
    let mut st = ParserState::new();
    let n: usize = toks.len();
    let mut i: usize = 0;
    proof {
        assert(tokens_view(toks@).skip(0) =~= tokens_view(toks@));
    }
    while i < n
        invariant
            0 <= i <= n,
            n == toks@.len(),
            run(st@, tokens_view(toks@).skip(i as int)) == run(init_state(), tokens_view(toks@)),
            -AMOUNT_LIMIT < st.coupon_fare < AMOUNT_LIMIT,
            -AMOUNT_LIMIT < st.coupon_tax < AMOUNT_LIMIT,
            -((i as int) * (AMOUNT_LIMIT as int)) <= st.total_tax_sum as int <= (i as int) * (
            AMOUNT_LIMIT as int),
        decreases n - i,
    {
        proof {
            assert((i as int) * (AMOUNT_LIMIT as int) <= (n as int) * (AMOUNT_LIMIT as int));
            assert((n as int) <= usize::MAX as int);
        }
        let next_i = step_token(&mut st, toks, i);
        i = next_i;
    }
    proof {
        assert(tokens_view(toks@).skip(n as int) =~= Seq::<TokenModel>::empty());
    }
    st.rows
}

} // verus!
