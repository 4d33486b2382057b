use vstd::prelude::*;

use crate::text::str_eq;

verus! {

/// Mathematical image of the ancestor path: the open element names,
/// root first.
pub open spec fn path_view(p: Seq<String>) -> Seq<Seq<char>> {
    p.map_values(|s: String| s@)
}

pub proof fn lemma_path_view_push(p: Seq<String>, x: String)
    ensures
        path_view(p.push(x)) == path_view(p).push(x@),
{
    assert(path_view(p.push(x)) =~= path_view(p).push(x@));
}

pub proof fn lemma_path_view_pop(p: Seq<String>)
    requires
        p.len() > 0,
    ensures
        path_view(p.drop_last()) == path_view(p).drop_last(),
{
    assert(path_view(p.drop_last()) =~= path_view(p).drop_last());
}

/// Path of the document element, whose tag carries the issue date and validating carrier.
pub closed spec fn p_document() -> Seq<Seq<char>> {
    seq!["AMA_REV.Feed"@, "Transaction"@, "Document"@]
}

/// Path of the status of the transaction's event.
pub closed spec fn p_entity_status() -> Seq<Seq<char>> {
    seq!["AMA_REV.Feed"@, "Transaction"@, "Event"@, "EntityStatus"@]
}

/// Path of the currency of payment.
pub closed spec fn p_currency() -> Seq<Seq<char>> {
    seq!["AMA_REV.Feed"@, "Transaction"@, "Document"@, "PricingDetails"@, "CurrencyOfPayment"@]
}

/// Path of the tour code.
pub closed spec fn p_tour_code() -> Seq<Seq<char>> {
    seq!["AMA_REV.Feed"@, "Transaction"@, "Document"@, "PricingDetails"@, "TourCode"@]
}

/// Path of the booking's record locator.
pub closed spec fn p_pnr_id() -> Seq<Seq<char>> {
    seq!["AMA_REV.Feed"@, "Transaction"@, "Document"@, "BookingInformation"@, "PNRIdentification"@, "AmadeusRecordLocator"@, "ID"@]
}

/// Path of a coupon, whose tag carries the ticket numbers and status.
pub closed spec fn p_coupon() -> Seq<Seq<char>> {
    seq!["AMA_REV.Feed"@, "Transaction"@, "Document"@, "Coupon"@]
}

/// Path of the segment's marketing carrier.
pub closed spec fn p_marketing_carrier() -> Seq<Seq<char>> {
    seq!["AMA_REV.Feed"@, "Transaction"@, "Document"@, "Coupon"@, "SegmentInfo"@, "CompanyDetails"@, "MarketingCarrier"@]
}

/// Path of the segment's operating carrier.
pub closed spec fn p_operating_carrier() -> Seq<Seq<char>> {
    seq!["AMA_REV.Feed"@, "Transaction"@, "Document"@, "Coupon"@, "SegmentInfo"@, "CompanyDetails"@, "OperatingCarrier"@]
}

/// Path of the coupon's fare basis code.
pub closed spec fn p_fare_basis() -> Seq<Seq<char>> {
    seq!["AMA_REV.Feed"@, "Transaction"@, "Document"@, "Coupon"@, "CouponDetails"@, "FareBasisCode"@]
}

/// Path of a fare, whose tag carries the fare description marker.
pub closed spec fn p_fare() -> Seq<Seq<char>> {
    seq!["AMA_REV.Feed"@, "Transaction"@, "Document"@, "Fares"@, "Fare"@]
}

/// Path of the type marker of a fare amount.
pub closed spec fn p_fare_amount_type() -> Seq<Seq<char>> {
    seq!["AMA_REV.Feed"@, "Transaction"@, "Document"@, "Fares"@, "Fare"@, "AccountableEntity"@, "Amount"@, "AmountType"@]
}

/// Path of the rate of exchange of a fare amount.
pub closed spec fn p_fare_roe() -> Seq<Seq<char>> {
    seq!["AMA_REV.Feed"@, "Transaction"@, "Document"@, "Fares"@, "Fare"@, "AccountableEntity"@, "Amount"@, "ROE"@]
}

/// Path of a coupon's standard-commission block.
pub closed spec fn p_coupon_std_comm() -> Seq<Seq<char>> {
    seq!["AMA_REV.Feed"@, "Transaction"@, "Document"@, "Coupon"@, "CalculatedAmounts"@, "CouponStandardCommission"@]
}

/// Path of the commission inside a coupon's standard-commission block.
pub closed spec fn p_coupon_std_comm_commission() -> Seq<Seq<char>> {
    seq!["AMA_REV.Feed"@, "Transaction"@, "Document"@, "Coupon"@, "CalculatedAmounts"@, "CouponStandardCommission"@, "Commission"@]
}

/// Path of the type marker of a coupon standard-commission amount.
pub closed spec fn p_coupon_std_comm_amount_type() -> Seq<Seq<char>> {
    seq!["AMA_REV.Feed"@, "Transaction"@, "Document"@, "Coupon"@, "CalculatedAmounts"@, "CouponStandardCommission"@, "Commission"@, "AccountableEntity"@, "Amount"@, "AmountType"@]
}

/// Path of a coupon's calculated-amounts block.
pub closed spec fn p_calculated_amounts() -> Seq<Seq<char>> {
    seq!["AMA_REV.Feed"@, "Transaction"@, "Document"@, "Coupon"@, "CalculatedAmounts"@]
}

/// Path of the type marker of a prorated-fare amount.
pub closed spec fn p_prorated_amount_type() -> Seq<Seq<char>> {
    seq!["AMA_REV.Feed"@, "Transaction"@, "Document"@, "Coupon"@, "CalculatedAmounts"@, "CouponProratedFare"@, "AccountableEntity"@, "Amount"@, "AmountType"@]
}

/// Path of a coupon-level collected tax, whose tag carries nature, ISO code and refundability.
pub closed spec fn p_tax() -> Seq<Seq<char>> {
    seq!["AMA_REV.Feed"@, "Transaction"@, "Document"@, "Coupon"@, "CalculatedAmounts"@, "CouponTaxes"@, "CollectedTaxesCpnLvl"@, "Tax"@]
}

/// Path of the type marker of a coupon-level tax amount.
pub closed spec fn p_tax_amount_type() -> Seq<Seq<char>> {
    seq!["AMA_REV.Feed"@, "Transaction"@, "Document"@, "Coupon"@, "CalculatedAmounts"@, "CouponTaxes"@, "CollectedTaxesCpnLvl"@, "Tax"@, "AccountableEntity"@, "Amount"@, "AmountType"@]
}

/// Path of the type marker of a document standard-commission amount.
pub closed spec fn p_std_comm_amount_type() -> Seq<Seq<char>> {
    seq!["AMA_REV.Feed"@, "Transaction"@, "Document"@, "StandardCommission"@, "Commission"@, "AccountableEntity"@, "Amount"@, "AmountType"@]
}

/// Path of the type marker of a document supplementary-commission amount.
pub closed spec fn p_supp_comm_amount_type() -> Seq<Seq<char>> {
    seq!["AMA_REV.Feed"@, "Transaction"@, "Document"@, "SupplementaryCommission"@, "Commission"@, "AccountableEntity"@, "Amount"@, "AmountType"@]
}

/// Path of a segment, whose tag carries airports and dates.
pub closed spec fn p_segment_info() -> Seq<Seq<char>> {
    seq!["AMA_REV.Feed"@, "Transaction"@, "Document"@, "Coupon"@, "SegmentInfo"@]
}

/// Path of the segment's booking class.
pub closed spec fn p_booking_class() -> Seq<Seq<char>> {
    seq!["AMA_REV.Feed"@, "Transaction"@, "Document"@, "Coupon"@, "SegmentInfo"@, "ClassDetails"@, "BookingClass"@]
}

/// Path of the segment's operating cabin class.
pub closed spec fn p_cabin_class() -> Seq<Seq<char>> {
    seq!["AMA_REV.Feed"@, "Transaction"@, "Document"@, "Coupon"@, "SegmentInfo"@, "ClassDetails"@, "OperatingCabinClass"@]
}

/// Path of the segment's operating flight number.
pub closed spec fn p_flight_number() -> Seq<Seq<char>> {
    seq!["AMA_REV.Feed"@, "Transaction"@, "Document"@, "Coupon"@, "SegmentInfo"@, "FlightIdentification"@, "OperatingFlightNumber"@, "FlightNumber"@]
}

/// Path of the issuance details, whose tag carries point-of-sale fields.
pub closed spec fn p_issuance_details() -> Seq<Seq<char>> {
    seq!["AMA_REV.Feed"@, "Transaction"@, "Document"@, "IssuanceDetails"@]
}

/// Path of the value of a fare amount.
pub closed spec fn p_fare_amount() -> Seq<Seq<char>> {
    seq!["AMA_REV.Feed"@, "Transaction"@, "Document"@, "Fares"@, "Fare"@, "AccountableEntity"@, "Amount"@, "Amount"@]
}

/// Path of the value of a prorated-fare amount.
pub closed spec fn p_prorated_amount() -> Seq<Seq<char>> {
    seq!["AMA_REV.Feed"@, "Transaction"@, "Document"@, "Coupon"@, "CalculatedAmounts"@, "CouponProratedFare"@, "AccountableEntity"@, "Amount"@, "Amount"@]
}

/// Path of the value of a coupon-level tax amount.
pub closed spec fn p_tax_amount() -> Seq<Seq<char>> {
    seq!["AMA_REV.Feed"@, "Transaction"@, "Document"@, "Coupon"@, "CalculatedAmounts"@, "CouponTaxes"@, "CollectedTaxesCpnLvl"@, "Tax"@, "AccountableEntity"@, "Amount"@, "Amount"@]
}

/// Path of the value of a coupon standard-commission amount.
pub closed spec fn p_coupon_std_comm_amount() -> Seq<Seq<char>> {
    seq!["AMA_REV.Feed"@, "Transaction"@, "Document"@, "Coupon"@, "CalculatedAmounts"@, "CouponStandardCommission"@, "Commission"@, "AccountableEntity"@, "Amount"@, "Amount"@]
}

/// Path of the value of a document standard-commission amount.
pub closed spec fn p_std_comm_amount() -> Seq<Seq<char>> {
    seq!["AMA_REV.Feed"@, "Transaction"@, "Document"@, "StandardCommission"@, "Commission"@, "AccountableEntity"@, "Amount"@, "Amount"@]
}

/// Path of the value of a document supplementary-commission amount.
pub closed spec fn p_supp_comm_amount() -> Seq<Seq<char>> {
    seq!["AMA_REV.Feed"@, "Transaction"@, "Document"@, "SupplementaryCommission"@, "Commission"@, "AccountableEntity"@, "Amount"@, "Amount"@]
}

/// Path of the revenue-attributable agent, whose tag carries the agency number.
pub closed spec fn p_rev_agent() -> Seq<Seq<char>> {
    seq!["AMA_REV.Feed"@, "Transaction"@, "Document"@, "PricingDetails"@, "RevenueAttributableAgent"@]
}

pub fn is_p_document(path: &Vec<String>) -> (b: bool)
    ensures
        b == (path_view(path@) == p_document()),
{
    if path.len() != 3 {
        proof {
            assert(path_view(path@).len() != p_document().len());
        }
        return false;
    }
    proof {
        assert(path_view(path@)[0] == path@[0]@);
        assert(path_view(path@)[1] == path@[1]@);
        assert(path_view(path@)[2] == path@[2]@);
    }
    let b = str_eq(path[0].as_str(), "AMA_REV.Feed")
        && str_eq(path[1].as_str(), "Transaction")
        && str_eq(path[2].as_str(), "Document");
    proof {
        if b {
            assert(path_view(path@) =~= p_document());
        }
    }
    b
}

pub fn is_p_entity_status(path: &Vec<String>) -> (b: bool)
    ensures
        b == (path_view(path@) == p_entity_status()),
{
    if path.len() != 4 {
        proof {
            assert(path_view(path@).len() != p_entity_status().len());
        }
        return false;
    }
    proof {
        assert(path_view(path@)[0] == path@[0]@);
        assert(path_view(path@)[1] == path@[1]@);
        assert(path_view(path@)[2] == path@[2]@);
        assert(path_view(path@)[3] == path@[3]@);
    }
    let b = str_eq(path[0].as_str(), "AMA_REV.Feed")
        && str_eq(path[1].as_str(), "Transaction")
        && str_eq(path[2].as_str(), "Event")
        && str_eq(path[3].as_str(), "EntityStatus");
    proof {
        if b {
            assert(path_view(path@) =~= p_entity_status());
        }
    }
    b
}

pub fn is_p_currency(path: &Vec<String>) -> (b: bool)
    ensures
        b == (path_view(path@) == p_currency()),
{
    if path.len() != 5 {
        proof {
            assert(path_view(path@).len() != p_currency().len());
        }
        return false;
    }
    proof {
        assert(path_view(path@)[0] == path@[0]@);
        assert(path_view(path@)[1] == path@[1]@);
        assert(path_view(path@)[2] == path@[2]@);
        assert(path_view(path@)[3] == path@[3]@);
        assert(path_view(path@)[4] == path@[4]@);
    }
    let b = str_eq(path[0].as_str(), "AMA_REV.Feed")
        && str_eq(path[1].as_str(), "Transaction")
        && str_eq(path[2].as_str(), "Document")
        && str_eq(path[3].as_str(), "PricingDetails")
        && str_eq(path[4].as_str(), "CurrencyOfPayment");
    proof {
        if b {
            assert(path_view(path@) =~= p_currency());
        }
    }
    b
}

pub fn is_p_tour_code(path: &Vec<String>) -> (b: bool)
    ensures
        b == (path_view(path@) == p_tour_code()),
{
    if path.len() != 5 {
        proof {
            assert(path_view(path@).len() != p_tour_code().len());
        }
        return false;
    }
    proof {
        assert(path_view(path@)[0] == path@[0]@);
        assert(path_view(path@)[1] == path@[1]@);
        assert(path_view(path@)[2] == path@[2]@);
        assert(path_view(path@)[3] == path@[3]@);
        assert(path_view(path@)[4] == path@[4]@);
    }
    let b = str_eq(path[0].as_str(), "AMA_REV.Feed")
        && str_eq(path[1].as_str(), "Transaction")
        && str_eq(path[2].as_str(), "Document")
        && str_eq(path[3].as_str(), "PricingDetails")
        && str_eq(path[4].as_str(), "TourCode");
    proof {
        if b {
            assert(path_view(path@) =~= p_tour_code());
        }
    }
    b
}

pub fn is_p_pnr_id(path: &Vec<String>) -> (b: bool)
    ensures
        b == (path_view(path@) == p_pnr_id()),
{
    if path.len() != 7 {
        proof {
            assert(path_view(path@).len() != p_pnr_id().len());
        }
        return false;
    }
    proof {
        assert(path_view(path@)[0] == path@[0]@);
        assert(path_view(path@)[1] == path@[1]@);
        assert(path_view(path@)[2] == path@[2]@);
        assert(path_view(path@)[3] == path@[3]@);
        assert(path_view(path@)[4] == path@[4]@);
        assert(path_view(path@)[5] == path@[5]@);
        assert(path_view(path@)[6] == path@[6]@);
    }
    let b = str_eq(path[0].as_str(), "AMA_REV.Feed")
        && str_eq(path[1].as_str(), "Transaction")
        && str_eq(path[2].as_str(), "Document")
        && str_eq(path[3].as_str(), "BookingInformation")
        && str_eq(path[4].as_str(), "PNRIdentification")
        && str_eq(path[5].as_str(), "AmadeusRecordLocator")
        && str_eq(path[6].as_str(), "ID");
    proof {
        if b {
            assert(path_view(path@) =~= p_pnr_id());
        }
    }
    b
}

pub fn is_p_coupon(path: &Vec<String>) -> (b: bool)
    ensures
        b == (path_view(path@) == p_coupon()),
{
    if path.len() != 4 {
        proof {
            assert(path_view(path@).len() != p_coupon().len());
        }
        return false;
    }
    proof {
        assert(path_view(path@)[0] == path@[0]@);
        assert(path_view(path@)[1] == path@[1]@);
        assert(path_view(path@)[2] == path@[2]@);
        assert(path_view(path@)[3] == path@[3]@);
    }
    let b = str_eq(path[0].as_str(), "AMA_REV.Feed")
        && str_eq(path[1].as_str(), "Transaction")
        && str_eq(path[2].as_str(), "Document")
        && str_eq(path[3].as_str(), "Coupon");
    proof {
        if b {
            assert(path_view(path@) =~= p_coupon());
        }
    }
    b
}

pub fn is_p_marketing_carrier(path: &Vec<String>) -> (b: bool)
    ensures
        b == (path_view(path@) == p_marketing_carrier()),
{
    if path.len() != 7 {
        proof {
            assert(path_view(path@).len() != p_marketing_carrier().len());
        }
        return false;
    }
    proof {
        assert(path_view(path@)[0] == path@[0]@);
        assert(path_view(path@)[1] == path@[1]@);
        assert(path_view(path@)[2] == path@[2]@);
        assert(path_view(path@)[3] == path@[3]@);
        assert(path_view(path@)[4] == path@[4]@);
        assert(path_view(path@)[5] == path@[5]@);
        assert(path_view(path@)[6] == path@[6]@);
    }
    let b = str_eq(path[0].as_str(), "AMA_REV.Feed")
        && str_eq(path[1].as_str(), "Transaction")
        && str_eq(path[2].as_str(), "Document")
        && str_eq(path[3].as_str(), "Coupon")
        && str_eq(path[4].as_str(), "SegmentInfo")
        && str_eq(path[5].as_str(), "CompanyDetails")
        && str_eq(path[6].as_str(), "MarketingCarrier");
    proof {
        if b {
            assert(path_view(path@) =~= p_marketing_carrier());
        }
    }
    b
}

pub fn is_p_operating_carrier(path: &Vec<String>) -> (b: bool)
    ensures
        b == (path_view(path@) == p_operating_carrier()),
{
    if path.len() != 7 {
        proof {
            assert(path_view(path@).len() != p_operating_carrier().len());
        }
        return false;
    }
    proof {
        assert(path_view(path@)[0] == path@[0]@);
        assert(path_view(path@)[1] == path@[1]@);
        assert(path_view(path@)[2] == path@[2]@);
        assert(path_view(path@)[3] == path@[3]@);
        assert(path_view(path@)[4] == path@[4]@);
        assert(path_view(path@)[5] == path@[5]@);
        assert(path_view(path@)[6] == path@[6]@);
    }
    let b = str_eq(path[0].as_str(), "AMA_REV.Feed")
        && str_eq(path[1].as_str(), "Transaction")
        && str_eq(path[2].as_str(), "Document")
        && str_eq(path[3].as_str(), "Coupon")
        && str_eq(path[4].as_str(), "SegmentInfo")
        && str_eq(path[5].as_str(), "CompanyDetails")
        && str_eq(path[6].as_str(), "OperatingCarrier");
    proof {
        if b {
            assert(path_view(path@) =~= p_operating_carrier());
        }
    }
    b
}

pub fn is_p_fare_basis(path: &Vec<String>) -> (b: bool)
    ensures
        b == (path_view(path@) == p_fare_basis()),
{
    if path.len() != 6 {
        proof {
            assert(path_view(path@).len() != p_fare_basis().len());
        }
        return false;
    }
    proof {
        assert(path_view(path@)[0] == path@[0]@);
        assert(path_view(path@)[1] == path@[1]@);
        assert(path_view(path@)[2] == path@[2]@);
        assert(path_view(path@)[3] == path@[3]@);
        assert(path_view(path@)[4] == path@[4]@);
        assert(path_view(path@)[5] == path@[5]@);
    }
    let b = str_eq(path[0].as_str(), "AMA_REV.Feed")
        && str_eq(path[1].as_str(), "Transaction")
        && str_eq(path[2].as_str(), "Document")
        && str_eq(path[3].as_str(), "Coupon")
        && str_eq(path[4].as_str(), "CouponDetails")
        && str_eq(path[5].as_str(), "FareBasisCode");
    proof {
        if b {
            assert(path_view(path@) =~= p_fare_basis());
        }
    }
    b
}

pub fn is_p_fare(path: &Vec<String>) -> (b: bool)
    ensures
        b == (path_view(path@) == p_fare()),
{
    if path.len() != 5 {
        proof {
            assert(path_view(path@).len() != p_fare().len());
        }
        return false;
    }
    proof {
        assert(path_view(path@)[0] == path@[0]@);
        assert(path_view(path@)[1] == path@[1]@);
        assert(path_view(path@)[2] == path@[2]@);
        assert(path_view(path@)[3] == path@[3]@);
        assert(path_view(path@)[4] == path@[4]@);
    }
    let b = str_eq(path[0].as_str(), "AMA_REV.Feed")
        && str_eq(path[1].as_str(), "Transaction")
        && str_eq(path[2].as_str(), "Document")
        && str_eq(path[3].as_str(), "Fares")
        && str_eq(path[4].as_str(), "Fare");
    proof {
        if b {
            assert(path_view(path@) =~= p_fare());
        }
    }
    b
}

pub fn is_p_fare_amount_type(path: &Vec<String>) -> (b: bool)
    ensures
        b == (path_view(path@) == p_fare_amount_type()),
{
    if path.len() != 8 {
        proof {
            assert(path_view(path@).len() != p_fare_amount_type().len());
        }
        return false;
    }
    proof {
        assert(path_view(path@)[0] == path@[0]@);
        assert(path_view(path@)[1] == path@[1]@);
        assert(path_view(path@)[2] == path@[2]@);
        assert(path_view(path@)[3] == path@[3]@);
        assert(path_view(path@)[4] == path@[4]@);
        assert(path_view(path@)[5] == path@[5]@);
        assert(path_view(path@)[6] == path@[6]@);
        assert(path_view(path@)[7] == path@[7]@);
    }
    let b = str_eq(path[0].as_str(), "AMA_REV.Feed")
        && str_eq(path[1].as_str(), "Transaction")
        && str_eq(path[2].as_str(), "Document")
        && str_eq(path[3].as_str(), "Fares")
        && str_eq(path[4].as_str(), "Fare")
        && str_eq(path[5].as_str(), "AccountableEntity")
        && str_eq(path[6].as_str(), "Amount")
        && str_eq(path[7].as_str(), "AmountType");
    proof {
        if b {
            assert(path_view(path@) =~= p_fare_amount_type());
        }
    }
    b
}

pub fn is_p_fare_roe(path: &Vec<String>) -> (b: bool)
    ensures
        b == (path_view(path@) == p_fare_roe()),
{
    if path.len() != 8 {
        proof {
            assert(path_view(path@).len() != p_fare_roe().len());
        }
        return false;
    }
    proof {
        assert(path_view(path@)[0] == path@[0]@);
        assert(path_view(path@)[1] == path@[1]@);
        assert(path_view(path@)[2] == path@[2]@);
        assert(path_view(path@)[3] == path@[3]@);
        assert(path_view(path@)[4] == path@[4]@);
        assert(path_view(path@)[5] == path@[5]@);
        assert(path_view(path@)[6] == path@[6]@);
        assert(path_view(path@)[7] == path@[7]@);
    }
    let b = str_eq(path[0].as_str(), "AMA_REV.Feed")
        && str_eq(path[1].as_str(), "Transaction")
        && str_eq(path[2].as_str(), "Document")
        && str_eq(path[3].as_str(), "Fares")
        && str_eq(path[4].as_str(), "Fare")
        && str_eq(path[5].as_str(), "AccountableEntity")
        && str_eq(path[6].as_str(), "Amount")
        && str_eq(path[7].as_str(), "ROE");
    proof {
        if b {
            assert(path_view(path@) =~= p_fare_roe());
        }
    }
    b
}

pub fn is_p_coupon_std_comm(path: &Vec<String>) -> (b: bool)
    ensures
        b == (path_view(path@) == p_coupon_std_comm()),
{
    if path.len() != 6 {
        proof {
            assert(path_view(path@).len() != p_coupon_std_comm().len());
        }
        return false;
    }
    proof {
        assert(path_view(path@)[0] == path@[0]@);
        assert(path_view(path@)[1] == path@[1]@);
        assert(path_view(path@)[2] == path@[2]@);
        assert(path_view(path@)[3] == path@[3]@);
        assert(path_view(path@)[4] == path@[4]@);
        assert(path_view(path@)[5] == path@[5]@);
    }
    let b = str_eq(path[0].as_str(), "AMA_REV.Feed")
        && str_eq(path[1].as_str(), "Transaction")
        && str_eq(path[2].as_str(), "Document")
        && str_eq(path[3].as_str(), "Coupon")
        && str_eq(path[4].as_str(), "CalculatedAmounts")
        && str_eq(path[5].as_str(), "CouponStandardCommission");
    proof {
        if b {
            assert(path_view(path@) =~= p_coupon_std_comm());
        }
    }
    b
}

pub fn is_p_coupon_std_comm_commission(path: &Vec<String>) -> (b: bool)
    ensures
        b == (path_view(path@) == p_coupon_std_comm_commission()),
{
    if path.len() != 7 {
        proof {
            assert(path_view(path@).len() != p_coupon_std_comm_commission().len());
        }
        return false;
    }
    proof {
        assert(path_view(path@)[0] == path@[0]@);
        assert(path_view(path@)[1] == path@[1]@);
        assert(path_view(path@)[2] == path@[2]@);
        assert(path_view(path@)[3] == path@[3]@);
        assert(path_view(path@)[4] == path@[4]@);
        assert(path_view(path@)[5] == path@[5]@);
        assert(path_view(path@)[6] == path@[6]@);
    }
    let b = str_eq(path[0].as_str(), "AMA_REV.Feed")
        && str_eq(path[1].as_str(), "Transaction")
        && str_eq(path[2].as_str(), "Document")
        && str_eq(path[3].as_str(), "Coupon")
        && str_eq(path[4].as_str(), "CalculatedAmounts")
        && str_eq(path[5].as_str(), "CouponStandardCommission")
        && str_eq(path[6].as_str(), "Commission");
    proof {
        if b {
            assert(path_view(path@) =~= p_coupon_std_comm_commission());
        }
    }
    b
}

pub fn is_p_coupon_std_comm_amount_type(path: &Vec<String>) -> (b: bool)
    ensures
        b == (path_view(path@) == p_coupon_std_comm_amount_type()),
{
    if path.len() != 10 {
        proof {
            assert(path_view(path@).len() != p_coupon_std_comm_amount_type().len());
        }
        return false;
    }
    proof {
        assert(path_view(path@)[0] == path@[0]@);
        assert(path_view(path@)[1] == path@[1]@);
        assert(path_view(path@)[2] == path@[2]@);
        assert(path_view(path@)[3] == path@[3]@);
        assert(path_view(path@)[4] == path@[4]@);
        assert(path_view(path@)[5] == path@[5]@);
        assert(path_view(path@)[6] == path@[6]@);
        assert(path_view(path@)[7] == path@[7]@);
        assert(path_view(path@)[8] == path@[8]@);
        assert(path_view(path@)[9] == path@[9]@);
    }
    let b = str_eq(path[0].as_str(), "AMA_REV.Feed")
        && str_eq(path[1].as_str(), "Transaction")
        && str_eq(path[2].as_str(), "Document")
        && str_eq(path[3].as_str(), "Coupon")
        && str_eq(path[4].as_str(), "CalculatedAmounts")
        && str_eq(path[5].as_str(), "CouponStandardCommission")
        && str_eq(path[6].as_str(), "Commission")
        && str_eq(path[7].as_str(), "AccountableEntity")
        && str_eq(path[8].as_str(), "Amount")
        && str_eq(path[9].as_str(), "AmountType");
    proof {
        if b {
            assert(path_view(path@) =~= p_coupon_std_comm_amount_type());
        }
    }
    b
}

pub fn is_p_calculated_amounts(path: &Vec<String>) -> (b: bool)
    ensures
        b == (path_view(path@) == p_calculated_amounts()),
{
    if path.len() != 5 {
        proof {
            assert(path_view(path@).len() != p_calculated_amounts().len());
        }
        return false;
    }
    proof {
        assert(path_view(path@)[0] == path@[0]@);
        assert(path_view(path@)[1] == path@[1]@);
        assert(path_view(path@)[2] == path@[2]@);
        assert(path_view(path@)[3] == path@[3]@);
        assert(path_view(path@)[4] == path@[4]@);
    }
    let b = str_eq(path[0].as_str(), "AMA_REV.Feed")
        && str_eq(path[1].as_str(), "Transaction")
        && str_eq(path[2].as_str(), "Document")
        && str_eq(path[3].as_str(), "Coupon")
        && str_eq(path[4].as_str(), "CalculatedAmounts");
    proof {
        if b {
            assert(path_view(path@) =~= p_calculated_amounts());
        }
    }
    b
}

pub fn is_p_prorated_amount_type(path: &Vec<String>) -> (b: bool)
    ensures
        b == (path_view(path@) == p_prorated_amount_type()),
{
    if path.len() != 9 {
        proof {
            assert(path_view(path@).len() != p_prorated_amount_type().len());
        }
        return false;
    }
    proof {
        assert(path_view(path@)[0] == path@[0]@);
        assert(path_view(path@)[1] == path@[1]@);
        assert(path_view(path@)[2] == path@[2]@);
        assert(path_view(path@)[3] == path@[3]@);
        assert(path_view(path@)[4] == path@[4]@);
        assert(path_view(path@)[5] == path@[5]@);
        assert(path_view(path@)[6] == path@[6]@);
        assert(path_view(path@)[7] == path@[7]@);
        assert(path_view(path@)[8] == path@[8]@);
    }
    let b = str_eq(path[0].as_str(), "AMA_REV.Feed")
        && str_eq(path[1].as_str(), "Transaction")
        && str_eq(path[2].as_str(), "Document")
        && str_eq(path[3].as_str(), "Coupon")
        && str_eq(path[4].as_str(), "CalculatedAmounts")
        && str_eq(path[5].as_str(), "CouponProratedFare")
        && str_eq(path[6].as_str(), "AccountableEntity")
        && str_eq(path[7].as_str(), "Amount")
        && str_eq(path[8].as_str(), "AmountType");
    proof {
        if b {
            assert(path_view(path@) =~= p_prorated_amount_type());
        }
    }
    b
}

pub fn is_p_tax(path: &Vec<String>) -> (b: bool)
    ensures
        b == (path_view(path@) == p_tax()),
{
    if path.len() != 8 {
        proof {
            assert(path_view(path@).len() != p_tax().len());
        }
        return false;
    }
    proof {
        assert(path_view(path@)[0] == path@[0]@);
        assert(path_view(path@)[1] == path@[1]@);
        assert(path_view(path@)[2] == path@[2]@);
        assert(path_view(path@)[3] == path@[3]@);
        assert(path_view(path@)[4] == path@[4]@);
        assert(path_view(path@)[5] == path@[5]@);
        assert(path_view(path@)[6] == path@[6]@);
        assert(path_view(path@)[7] == path@[7]@);
    }
    let b = str_eq(path[0].as_str(), "AMA_REV.Feed")
        && str_eq(path[1].as_str(), "Transaction")
        && str_eq(path[2].as_str(), "Document")
        && str_eq(path[3].as_str(), "Coupon")
        && str_eq(path[4].as_str(), "CalculatedAmounts")
        && str_eq(path[5].as_str(), "CouponTaxes")
        && str_eq(path[6].as_str(), "CollectedTaxesCpnLvl")
        && str_eq(path[7].as_str(), "Tax");
    proof {
        if b {
            assert(path_view(path@) =~= p_tax());
        }
    }
    b
}

pub fn is_p_tax_amount_type(path: &Vec<String>) -> (b: bool)
    ensures
        b == (path_view(path@) == p_tax_amount_type()),
{
    if path.len() != 11 {
        proof {
            assert(path_view(path@).len() != p_tax_amount_type().len());
        }
        return false;
    }
    proof {
        assert(path_view(path@)[0] == path@[0]@);
        assert(path_view(path@)[1] == path@[1]@);
        assert(path_view(path@)[2] == path@[2]@);
        assert(path_view(path@)[3] == path@[3]@);
        assert(path_view(path@)[4] == path@[4]@);
        assert(path_view(path@)[5] == path@[5]@);
        assert(path_view(path@)[6] == path@[6]@);
        assert(path_view(path@)[7] == path@[7]@);
        assert(path_view(path@)[8] == path@[8]@);
        assert(path_view(path@)[9] == path@[9]@);
        assert(path_view(path@)[10] == path@[10]@);
    }
    let b = str_eq(path[0].as_str(), "AMA_REV.Feed")
        && str_eq(path[1].as_str(), "Transaction")
        && str_eq(path[2].as_str(), "Document")
        && str_eq(path[3].as_str(), "Coupon")
        && str_eq(path[4].as_str(), "CalculatedAmounts")
        && str_eq(path[5].as_str(), "CouponTaxes")
        && str_eq(path[6].as_str(), "CollectedTaxesCpnLvl")
        && str_eq(path[7].as_str(), "Tax")
        && str_eq(path[8].as_str(), "AccountableEntity")
        && str_eq(path[9].as_str(), "Amount")
        && str_eq(path[10].as_str(), "AmountType");
    proof {
        if b {
            assert(path_view(path@) =~= p_tax_amount_type());
        }
    }
    b
}

pub fn is_p_std_comm_amount_type(path: &Vec<String>) -> (b: bool)
    ensures
        b == (path_view(path@) == p_std_comm_amount_type()),
{
    if path.len() != 8 {
        proof {
            assert(path_view(path@).len() != p_std_comm_amount_type().len());
        }
        return false;
    }
    proof {
        assert(path_view(path@)[0] == path@[0]@);
        assert(path_view(path@)[1] == path@[1]@);
        assert(path_view(path@)[2] == path@[2]@);
        assert(path_view(path@)[3] == path@[3]@);
        assert(path_view(path@)[4] == path@[4]@);
        assert(path_view(path@)[5] == path@[5]@);
        assert(path_view(path@)[6] == path@[6]@);
        assert(path_view(path@)[7] == path@[7]@);
    }
    let b = str_eq(path[0].as_str(), "AMA_REV.Feed")
        && str_eq(path[1].as_str(), "Transaction")
        && str_eq(path[2].as_str(), "Document")
        && str_eq(path[3].as_str(), "StandardCommission")
        && str_eq(path[4].as_str(), "Commission")
        && str_eq(path[5].as_str(), "AccountableEntity")
        && str_eq(path[6].as_str(), "Amount")
        && str_eq(path[7].as_str(), "AmountType");
    proof {
        if b {
            assert(path_view(path@) =~= p_std_comm_amount_type());
        }
    }
    b
}

pub fn is_p_supp_comm_amount_type(path: &Vec<String>) -> (b: bool)
    ensures
        b == (path_view(path@) == p_supp_comm_amount_type()),
{
    if path.len() != 8 {
        proof {
            assert(path_view(path@).len() != p_supp_comm_amount_type().len());
        }
        return false;
    }
    proof {
        assert(path_view(path@)[0] == path@[0]@);
        assert(path_view(path@)[1] == path@[1]@);
        assert(path_view(path@)[2] == path@[2]@);
        assert(path_view(path@)[3] == path@[3]@);
        assert(path_view(path@)[4] == path@[4]@);
        assert(path_view(path@)[5] == path@[5]@);
        assert(path_view(path@)[6] == path@[6]@);
        assert(path_view(path@)[7] == path@[7]@);
    }
    let b = str_eq(path[0].as_str(), "AMA_REV.Feed")
        && str_eq(path[1].as_str(), "Transaction")
        && str_eq(path[2].as_str(), "Document")
        && str_eq(path[3].as_str(), "SupplementaryCommission")
        && str_eq(path[4].as_str(), "Commission")
        && str_eq(path[5].as_str(), "AccountableEntity")
        && str_eq(path[6].as_str(), "Amount")
        && str_eq(path[7].as_str(), "AmountType");
    proof {
        if b {
            assert(path_view(path@) =~= p_supp_comm_amount_type());
        }
    }
    b
}

pub fn is_p_segment_info(path: &Vec<String>) -> (b: bool)
    ensures
        b == (path_view(path@) == p_segment_info()),
{
    if path.len() != 5 {
        proof {
            assert(path_view(path@).len() != p_segment_info().len());
        }
        return false;
    }
    proof {
        assert(path_view(path@)[0] == path@[0]@);
        assert(path_view(path@)[1] == path@[1]@);
        assert(path_view(path@)[2] == path@[2]@);
        assert(path_view(path@)[3] == path@[3]@);
        assert(path_view(path@)[4] == path@[4]@);
    }
    let b = str_eq(path[0].as_str(), "AMA_REV.Feed")
        && str_eq(path[1].as_str(), "Transaction")
        && str_eq(path[2].as_str(), "Document")
        && str_eq(path[3].as_str(), "Coupon")
        && str_eq(path[4].as_str(), "SegmentInfo");
    proof {
        if b {
            assert(path_view(path@) =~= p_segment_info());
        }
    }
    b
}

pub fn is_p_booking_class(path: &Vec<String>) -> (b: bool)
    ensures
        b == (path_view(path@) == p_booking_class()),
{
    if path.len() != 7 {
        proof {
            assert(path_view(path@).len() != p_booking_class().len());
        }
        return false;
    }
    proof {
        assert(path_view(path@)[0] == path@[0]@);
        assert(path_view(path@)[1] == path@[1]@);
        assert(path_view(path@)[2] == path@[2]@);
        assert(path_view(path@)[3] == path@[3]@);
        assert(path_view(path@)[4] == path@[4]@);
        assert(path_view(path@)[5] == path@[5]@);
        assert(path_view(path@)[6] == path@[6]@);
    }
    let b = str_eq(path[0].as_str(), "AMA_REV.Feed")
        && str_eq(path[1].as_str(), "Transaction")
        && str_eq(path[2].as_str(), "Document")
        && str_eq(path[3].as_str(), "Coupon")
        && str_eq(path[4].as_str(), "SegmentInfo")
        && str_eq(path[5].as_str(), "ClassDetails")
        && str_eq(path[6].as_str(), "BookingClass");
    proof {
        if b {
            assert(path_view(path@) =~= p_booking_class());
        }
    }
    b
}

pub fn is_p_cabin_class(path: &Vec<String>) -> (b: bool)
    ensures
        b == (path_view(path@) == p_cabin_class()),
{
    if path.len() != 7 {
        proof {
            assert(path_view(path@).len() != p_cabin_class().len());
        }
        return false;
    }
    proof {
        assert(path_view(path@)[0] == path@[0]@);
        assert(path_view(path@)[1] == path@[1]@);
        assert(path_view(path@)[2] == path@[2]@);
        assert(path_view(path@)[3] == path@[3]@);
        assert(path_view(path@)[4] == path@[4]@);
        assert(path_view(path@)[5] == path@[5]@);
        assert(path_view(path@)[6] == path@[6]@);
    }
    let b = str_eq(path[0].as_str(), "AMA_REV.Feed")
        && str_eq(path[1].as_str(), "Transaction")
        && str_eq(path[2].as_str(), "Document")
        && str_eq(path[3].as_str(), "Coupon")
        && str_eq(path[4].as_str(), "SegmentInfo")
        && str_eq(path[5].as_str(), "ClassDetails")
        && str_eq(path[6].as_str(), "OperatingCabinClass");
    proof {
        if b {
            assert(path_view(path@) =~= p_cabin_class());
        }
    }
    b
}

pub fn is_p_flight_number(path: &Vec<String>) -> (b: bool)
    ensures
        b == (path_view(path@) == p_flight_number()),
{
    if path.len() != 8 {
        proof {
            assert(path_view(path@).len() != p_flight_number().len());
        }
        return false;
    }
    proof {
        assert(path_view(path@)[0] == path@[0]@);
        assert(path_view(path@)[1] == path@[1]@);
        assert(path_view(path@)[2] == path@[2]@);
        assert(path_view(path@)[3] == path@[3]@);
        assert(path_view(path@)[4] == path@[4]@);
        assert(path_view(path@)[5] == path@[5]@);
        assert(path_view(path@)[6] == path@[6]@);
        assert(path_view(path@)[7] == path@[7]@);
    }
    let b = str_eq(path[0].as_str(), "AMA_REV.Feed")
        && str_eq(path[1].as_str(), "Transaction")
        && str_eq(path[2].as_str(), "Document")
        && str_eq(path[3].as_str(), "Coupon")
        && str_eq(path[4].as_str(), "SegmentInfo")
        && str_eq(path[5].as_str(), "FlightIdentification")
        && str_eq(path[6].as_str(), "OperatingFlightNumber")
        && str_eq(path[7].as_str(), "FlightNumber");
    proof {
        if b {
            assert(path_view(path@) =~= p_flight_number());
        }
    }
    b
}

pub fn is_p_issuance_details(path: &Vec<String>) -> (b: bool)
    ensures
        b == (path_view(path@) == p_issuance_details()),
{
    if path.len() != 4 {
        proof {
            assert(path_view(path@).len() != p_issuance_details().len());
        }
        return false;
    }
    proof {
        assert(path_view(path@)[0] == path@[0]@);
        assert(path_view(path@)[1] == path@[1]@);
        assert(path_view(path@)[2] == path@[2]@);
        assert(path_view(path@)[3] == path@[3]@);
    }
    let b = str_eq(path[0].as_str(), "AMA_REV.Feed")
        && str_eq(path[1].as_str(), "Transaction")
        && str_eq(path[2].as_str(), "Document")
        && str_eq(path[3].as_str(), "IssuanceDetails");
    proof {
        if b {
            assert(path_view(path@) =~= p_issuance_details());
        }
    }
    b
}

pub fn is_p_fare_amount(path: &Vec<String>) -> (b: bool)
    ensures
        b == (path_view(path@) == p_fare_amount()),
{
    if path.len() != 8 {
        proof {
            assert(path_view(path@).len() != p_fare_amount().len());
        }
        return false;
    }
    proof {
        assert(path_view(path@)[0] == path@[0]@);
        assert(path_view(path@)[1] == path@[1]@);
        assert(path_view(path@)[2] == path@[2]@);
        assert(path_view(path@)[3] == path@[3]@);
        assert(path_view(path@)[4] == path@[4]@);
        assert(path_view(path@)[5] == path@[5]@);
        assert(path_view(path@)[6] == path@[6]@);
        assert(path_view(path@)[7] == path@[7]@);
    }
    let b = str_eq(path[0].as_str(), "AMA_REV.Feed")
        && str_eq(path[1].as_str(), "Transaction")
        && str_eq(path[2].as_str(), "Document")
        && str_eq(path[3].as_str(), "Fares")
        && str_eq(path[4].as_str(), "Fare")
        && str_eq(path[5].as_str(), "AccountableEntity")
        && str_eq(path[6].as_str(), "Amount")
        && str_eq(path[7].as_str(), "Amount");
    proof {
        if b {
            assert(path_view(path@) =~= p_fare_amount());
        }
    }
    b
}

pub fn is_p_prorated_amount(path: &Vec<String>) -> (b: bool)
    ensures
        b == (path_view(path@) == p_prorated_amount()),
{
    if path.len() != 9 {
        proof {
            assert(path_view(path@).len() != p_prorated_amount().len());
        }
        return false;
    }
    proof {
        assert(path_view(path@)[0] == path@[0]@);
        assert(path_view(path@)[1] == path@[1]@);
        assert(path_view(path@)[2] == path@[2]@);
        assert(path_view(path@)[3] == path@[3]@);
        assert(path_view(path@)[4] == path@[4]@);
        assert(path_view(path@)[5] == path@[5]@);
        assert(path_view(path@)[6] == path@[6]@);
        assert(path_view(path@)[7] == path@[7]@);
        assert(path_view(path@)[8] == path@[8]@);
    }
    let b = str_eq(path[0].as_str(), "AMA_REV.Feed")
        && str_eq(path[1].as_str(), "Transaction")
        && str_eq(path[2].as_str(), "Document")
        && str_eq(path[3].as_str(), "Coupon")
        && str_eq(path[4].as_str(), "CalculatedAmounts")
        && str_eq(path[5].as_str(), "CouponProratedFare")
        && str_eq(path[6].as_str(), "AccountableEntity")
        && str_eq(path[7].as_str(), "Amount")
        && str_eq(path[8].as_str(), "Amount");
    proof {
        if b {
            assert(path_view(path@) =~= p_prorated_amount());
        }
    }
    b
}

pub fn is_p_tax_amount(path: &Vec<String>) -> (b: bool)
    ensures
        b == (path_view(path@) == p_tax_amount()),
{
    if path.len() != 11 {
        proof {
            assert(path_view(path@).len() != p_tax_amount().len());
        }
        return false;
    }
    proof {
        assert(path_view(path@)[0] == path@[0]@);
        assert(path_view(path@)[1] == path@[1]@);
        assert(path_view(path@)[2] == path@[2]@);
        assert(path_view(path@)[3] == path@[3]@);
        assert(path_view(path@)[4] == path@[4]@);
        assert(path_view(path@)[5] == path@[5]@);
        assert(path_view(path@)[6] == path@[6]@);
        assert(path_view(path@)[7] == path@[7]@);
        assert(path_view(path@)[8] == path@[8]@);
        assert(path_view(path@)[9] == path@[9]@);
        assert(path_view(path@)[10] == path@[10]@);
    }
    let b = str_eq(path[0].as_str(), "AMA_REV.Feed")
        && str_eq(path[1].as_str(), "Transaction")
        && str_eq(path[2].as_str(), "Document")
        && str_eq(path[3].as_str(), "Coupon")
        && str_eq(path[4].as_str(), "CalculatedAmounts")
        && str_eq(path[5].as_str(), "CouponTaxes")
        && str_eq(path[6].as_str(), "CollectedTaxesCpnLvl")
        && str_eq(path[7].as_str(), "Tax")
        && str_eq(path[8].as_str(), "AccountableEntity")
        && str_eq(path[9].as_str(), "Amount")
        && str_eq(path[10].as_str(), "Amount");
    proof {
        if b {
            assert(path_view(path@) =~= p_tax_amount());
        }
    }
    b
}

pub fn is_p_coupon_std_comm_amount(path: &Vec<String>) -> (b: bool)
    ensures
        b == (path_view(path@) == p_coupon_std_comm_amount()),
{
    if path.len() != 10 {
        proof {
            assert(path_view(path@).len() != p_coupon_std_comm_amount().len());
        }
        return false;
    }
    proof {
        assert(path_view(path@)[0] == path@[0]@);
        assert(path_view(path@)[1] == path@[1]@);
        assert(path_view(path@)[2] == path@[2]@);
        assert(path_view(path@)[3] == path@[3]@);
        assert(path_view(path@)[4] == path@[4]@);
        assert(path_view(path@)[5] == path@[5]@);
        assert(path_view(path@)[6] == path@[6]@);
        assert(path_view(path@)[7] == path@[7]@);
        assert(path_view(path@)[8] == path@[8]@);
        assert(path_view(path@)[9] == path@[9]@);
    }
    let b = str_eq(path[0].as_str(), "AMA_REV.Feed")
        && str_eq(path[1].as_str(), "Transaction")
        && str_eq(path[2].as_str(), "Document")
        && str_eq(path[3].as_str(), "Coupon")
        && str_eq(path[4].as_str(), "CalculatedAmounts")
        && str_eq(path[5].as_str(), "CouponStandardCommission")
        && str_eq(path[6].as_str(), "Commission")
        && str_eq(path[7].as_str(), "AccountableEntity")
        && str_eq(path[8].as_str(), "Amount")
        && str_eq(path[9].as_str(), "Amount");
    proof {
        if b {
            assert(path_view(path@) =~= p_coupon_std_comm_amount());
        }
    }
    b
}

pub fn is_p_std_comm_amount(path: &Vec<String>) -> (b: bool)
    ensures
        b == (path_view(path@) == p_std_comm_amount()),
{
    if path.len() != 8 {
        proof {
            assert(path_view(path@).len() != p_std_comm_amount().len());
        }
        return false;
    }
    proof {
        assert(path_view(path@)[0] == path@[0]@);
        assert(path_view(path@)[1] == path@[1]@);
        assert(path_view(path@)[2] == path@[2]@);
        assert(path_view(path@)[3] == path@[3]@);
        assert(path_view(path@)[4] == path@[4]@);
        assert(path_view(path@)[5] == path@[5]@);
        assert(path_view(path@)[6] == path@[6]@);
        assert(path_view(path@)[7] == path@[7]@);
    }
    let b = str_eq(path[0].as_str(), "AMA_REV.Feed")
        && str_eq(path[1].as_str(), "Transaction")
        && str_eq(path[2].as_str(), "Document")
        && str_eq(path[3].as_str(), "StandardCommission")
        && str_eq(path[4].as_str(), "Commission")
        && str_eq(path[5].as_str(), "AccountableEntity")
        && str_eq(path[6].as_str(), "Amount")
        && str_eq(path[7].as_str(), "Amount");
    proof {
        if b {
            assert(path_view(path@) =~= p_std_comm_amount());
        }
    }
    b
}

pub fn is_p_supp_comm_amount(path: &Vec<String>) -> (b: bool)
    ensures
        b == (path_view(path@) == p_supp_comm_amount()),
{
    if path.len() != 8 {
        proof {
            assert(path_view(path@).len() != p_supp_comm_amount().len());
        }
        return false;
    }
    proof {
        assert(path_view(path@)[0] == path@[0]@);
        assert(path_view(path@)[1] == path@[1]@);
        assert(path_view(path@)[2] == path@[2]@);
        assert(path_view(path@)[3] == path@[3]@);
        assert(path_view(path@)[4] == path@[4]@);
        assert(path_view(path@)[5] == path@[5]@);
        assert(path_view(path@)[6] == path@[6]@);
        assert(path_view(path@)[7] == path@[7]@);
    }
    let b = str_eq(path[0].as_str(), "AMA_REV.Feed")
        && str_eq(path[1].as_str(), "Transaction")
        && str_eq(path[2].as_str(), "Document")
        && str_eq(path[3].as_str(), "SupplementaryCommission")
        && str_eq(path[4].as_str(), "Commission")
        && str_eq(path[5].as_str(), "AccountableEntity")
        && str_eq(path[6].as_str(), "Amount")
        && str_eq(path[7].as_str(), "Amount");
    proof {
        if b {
            assert(path_view(path@) =~= p_supp_comm_amount());
        }
    }
    b
}

pub fn is_p_rev_agent(path: &Vec<String>) -> (b: bool)
    ensures
        b == (path_view(path@) == p_rev_agent()),
{
    if path.len() != 5 {
        proof {
            assert(path_view(path@).len() != p_rev_agent().len());
        }
        return false;
    }
    proof {
        assert(path_view(path@)[0] == path@[0]@);
        assert(path_view(path@)[1] == path@[1]@);
        assert(path_view(path@)[2] == path@[2]@);
        assert(path_view(path@)[3] == path@[3]@);
        assert(path_view(path@)[4] == path@[4]@);
    }
    let b = str_eq(path[0].as_str(), "AMA_REV.Feed")
        && str_eq(path[1].as_str(), "Transaction")
        && str_eq(path[2].as_str(), "Document")
        && str_eq(path[3].as_str(), "PricingDetails")
        && str_eq(path[4].as_str(), "RevenueAttributableAgent");
    proof {
        if b {
            assert(path_view(path@) =~= p_rev_agent());
        }
    }
    b
}

/// A path ending in an element name that none of the matched paths end in
/// matches none of them: unknown elements fall through every rule.
pub proof fn lemma_unknown_leaf(p: Seq<Seq<char>>, name: Seq<char>)
    requires
        name != "Amount"@,
        name != "AmountType"@,
        name != "BookingClass"@,
        name != "CalculatedAmounts"@,
        name != "Commission"@,
        name != "Coupon"@,
        name != "CouponStandardCommission"@,
        name != "CurrencyOfPayment"@,
        name != "Document"@,
        name != "EntityStatus"@,
        name != "Fare"@,
        name != "FareBasisCode"@,
        name != "FlightNumber"@,
        name != "ID"@,
        name != "IssuanceDetails"@,
        name != "MarketingCarrier"@,
        name != "OperatingCabinClass"@,
        name != "OperatingCarrier"@,
        name != "ROE"@,
        name != "RevenueAttributableAgent"@,
        name != "SegmentInfo"@,
        name != "Tax"@,
        name != "TourCode"@,
    ensures
        p.push(name) != p_document(),
        p.push(name) != p_entity_status(),
        p.push(name) != p_currency(),
        p.push(name) != p_tour_code(),
        p.push(name) != p_pnr_id(),
        p.push(name) != p_coupon(),
        p.push(name) != p_marketing_carrier(),
        p.push(name) != p_operating_carrier(),
        p.push(name) != p_fare_basis(),
        p.push(name) != p_fare(),
        p.push(name) != p_fare_amount_type(),
        p.push(name) != p_fare_roe(),
        p.push(name) != p_coupon_std_comm(),
        p.push(name) != p_coupon_std_comm_commission(),
        p.push(name) != p_coupon_std_comm_amount_type(),
        p.push(name) != p_calculated_amounts(),
        p.push(name) != p_prorated_amount_type(),
        p.push(name) != p_tax(),
        p.push(name) != p_tax_amount_type(),
        p.push(name) != p_std_comm_amount_type(),
        p.push(name) != p_supp_comm_amount_type(),
        p.push(name) != p_segment_info(),
        p.push(name) != p_booking_class(),
        p.push(name) != p_cabin_class(),
        p.push(name) != p_flight_number(),
        p.push(name) != p_issuance_details(),
        p.push(name) != p_fare_amount(),
        p.push(name) != p_prorated_amount(),
        p.push(name) != p_tax_amount(),
        p.push(name) != p_coupon_std_comm_amount(),
        p.push(name) != p_std_comm_amount(),
        p.push(name) != p_supp_comm_amount(),
        p.push(name) != p_rev_agent(),
{
    if p.push(name) == p_document() {
        assert(p_document().last() == "Document"@);
        assert(p.push(name).last() == name);
    }
    if p.push(name) == p_entity_status() {
        assert(p_entity_status().last() == "EntityStatus"@);
        assert(p.push(name).last() == name);
    }
    if p.push(name) == p_currency() {
        assert(p_currency().last() == "CurrencyOfPayment"@);
        assert(p.push(name).last() == name);
    }
    if p.push(name) == p_tour_code() {
        assert(p_tour_code().last() == "TourCode"@);
        assert(p.push(name).last() == name);
    }
    if p.push(name) == p_pnr_id() {
        assert(p_pnr_id().last() == "ID"@);
        assert(p.push(name).last() == name);
    }
    if p.push(name) == p_coupon() {
        assert(p_coupon().last() == "Coupon"@);
        assert(p.push(name).last() == name);
    }
    if p.push(name) == p_marketing_carrier() {
        assert(p_marketing_carrier().last() == "MarketingCarrier"@);
        assert(p.push(name).last() == name);
    }
    if p.push(name) == p_operating_carrier() {
        assert(p_operating_carrier().last() == "OperatingCarrier"@);
        assert(p.push(name).last() == name);
    }
    if p.push(name) == p_fare_basis() {
        assert(p_fare_basis().last() == "FareBasisCode"@);
        assert(p.push(name).last() == name);
    }
    if p.push(name) == p_fare() {
        assert(p_fare().last() == "Fare"@);
        assert(p.push(name).last() == name);
    }
    if p.push(name) == p_fare_amount_type() {
        assert(p_fare_amount_type().last() == "AmountType"@);
        assert(p.push(name).last() == name);
    }
    if p.push(name) == p_fare_roe() {
        assert(p_fare_roe().last() == "ROE"@);
        assert(p.push(name).last() == name);
    }
    if p.push(name) == p_coupon_std_comm() {
        assert(p_coupon_std_comm().last() == "CouponStandardCommission"@);
        assert(p.push(name).last() == name);
    }
    if p.push(name) == p_coupon_std_comm_commission() {
        assert(p_coupon_std_comm_commission().last() == "Commission"@);
        assert(p.push(name).last() == name);
    }
    if p.push(name) == p_coupon_std_comm_amount_type() {
        assert(p_coupon_std_comm_amount_type().last() == "AmountType"@);
        assert(p.push(name).last() == name);
    }
    if p.push(name) == p_calculated_amounts() {
        assert(p_calculated_amounts().last() == "CalculatedAmounts"@);
        assert(p.push(name).last() == name);
    }
    if p.push(name) == p_prorated_amount_type() {
        assert(p_prorated_amount_type().last() == "AmountType"@);
        assert(p.push(name).last() == name);
    }
    if p.push(name) == p_tax() {
        assert(p_tax().last() == "Tax"@);
        assert(p.push(name).last() == name);
    }
    if p.push(name) == p_tax_amount_type() {
        assert(p_tax_amount_type().last() == "AmountType"@);
        assert(p.push(name).last() == name);
    }
    if p.push(name) == p_std_comm_amount_type() {
        assert(p_std_comm_amount_type().last() == "AmountType"@);
        assert(p.push(name).last() == name);
    }
    if p.push(name) == p_supp_comm_amount_type() {
        assert(p_supp_comm_amount_type().last() == "AmountType"@);
        assert(p.push(name).last() == name);
    }
    if p.push(name) == p_segment_info() {
        assert(p_segment_info().last() == "SegmentInfo"@);
        assert(p.push(name).last() == name);
    }
    if p.push(name) == p_booking_class() {
        assert(p_booking_class().last() == "BookingClass"@);
        assert(p.push(name).last() == name);
    }
    if p.push(name) == p_cabin_class() {
        assert(p_cabin_class().last() == "OperatingCabinClass"@);
        assert(p.push(name).last() == name);
    }
    if p.push(name) == p_flight_number() {
        assert(p_flight_number().last() == "FlightNumber"@);
        assert(p.push(name).last() == name);
    }
    if p.push(name) == p_issuance_details() {
        assert(p_issuance_details().last() == "IssuanceDetails"@);
        assert(p.push(name).last() == name);
    }
    if p.push(name) == p_fare_amount() {
        assert(p_fare_amount().last() == "Amount"@);
        assert(p.push(name).last() == name);
    }
    if p.push(name) == p_prorated_amount() {
        assert(p_prorated_amount().last() == "Amount"@);
        assert(p.push(name).last() == name);
    }
    if p.push(name) == p_tax_amount() {
        assert(p_tax_amount().last() == "Amount"@);
        assert(p.push(name).last() == name);
    }
    if p.push(name) == p_coupon_std_comm_amount() {
        assert(p_coupon_std_comm_amount().last() == "Amount"@);
        assert(p.push(name).last() == name);
    }
    if p.push(name) == p_std_comm_amount() {
        assert(p_std_comm_amount().last() == "Amount"@);
        assert(p.push(name).last() == name);
    }
    if p.push(name) == p_supp_comm_amount() {
        assert(p_supp_comm_amount().last() == "Amount"@);
        assert(p.push(name).last() == name);
    }
    if p.push(name) == p_rev_agent() {
        assert(p_rev_agent().last() == "RevenueAttributableAgent"@);
        assert(p.push(name).last() == name);
    }
}

} // verus!
