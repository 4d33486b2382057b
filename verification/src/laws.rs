use vstd::prelude::*;

use crate::extract::{
    lemma_on_close_frame, lemma_on_open_frame, lemma_on_self_close_frame, on_close, on_open,
    on_self_close, open_wants_text, pop_path, push_path, run, StateModel,
};
use crate::paths::lemma_unknown_leaf;
use crate::token::TokenModel;

verus! {

pub open spec fn is_tx_close(t: TokenModel) -> bool {
    t matches TokenModel::Close { name } && name == "Transaction"@
}

/// Number of transaction-closing events in a sequence.
pub open spec fn count_tx_closes(toks: Seq<TokenModel>) -> int
    decreases toks.len(),
{
    if toks.len() == 0 {
        0
    } else {
        (if is_tx_close(toks[0]) {
            1int
        } else {
            0int
        }) + count_tx_closes(toks.skip(1))
    }
}

/// No element-open event stands directly before a transaction close. In the
/// events of a well-formed document this always holds: an open is followed
/// by its own content or its own close, never by an enclosing element's
/// close. It rules out the one way a transaction close could be swallowed by
/// an open's text lookahead.
pub open spec fn no_open_before_tx_close(toks: Seq<TokenModel>) -> bool {
    forall|j: int|
        1 <= j < toks.len() && is_tx_close(#[trigger] toks[j]) ==> !(toks[j - 1] is Open)
}

/// The walk emits exactly one row per transaction-closing event: over any
/// event sequence in which no open stands directly before a transaction
/// close, the rows grow by exactly the number of such events.
pub proof fn lemma_rows_per_tx_close(st: StateModel, toks: Seq<TokenModel>)
    requires
        no_open_before_tx_close(toks),
    ensures
        run(st, toks).rows.len() == st.rows.len() + count_tx_closes(toks),
    decreases toks.len(),
{
    reveal_with_fuel(count_tx_closes, 3);
    if toks.len() == 0 {
    } else {
        let tail = toks.skip(1);
        assert(no_open_before_tx_close(tail)) by {
            assert forall|j: int| 1 <= j < tail.len() && is_tx_close(#[trigger] tail[j]) implies !(
            tail[j - 1] is Open) by {
                assert(tail[j] == toks[j + 1]);
                assert(tail[j - 1] == toks[j]);
                assert(is_tx_close(toks[j + 1]));
            }
        }
        match toks[0] {
            TokenModel::Open { name, attrs } => {
                let pushed = push_path(st, name);
                assert(!is_tx_close(toks[0]));
                if open_wants_text(pushed) && toks.len() >= 2 {
                    let tail2 = toks.skip(2);
                    assert(!is_tx_close(toks[1])) by {
                        if is_tx_close(toks[1]) {
                            assert(toks[0] is Open);
                        }
                    }
                    assert(no_open_before_tx_close(tail2)) by {
                        assert forall|j: int|
                            1 <= j < tail2.len() && is_tx_close(#[trigger] tail2[j]) implies !(
                        tail2[j - 1] is Open) by {
                            assert(tail2[j] == toks[j + 2]);
                            assert(tail2[j - 1] == toks[j + 1]);
                            assert(is_tx_close(toks[j + 2]));
                        }
                    }
                    let st2 = on_open(pushed, attrs, crate::token::text_content(toks[1]));
                    lemma_on_open_frame(pushed, attrs, crate::token::text_content(toks[1]));
                    lemma_rows_per_tx_close(st2, tail2);
                    assert(tail.skip(1) =~= tail2);
                    assert(tail[0] == toks[1]);
                    assert(count_tx_closes(toks) == count_tx_closes(tail2));
                } else {
                    let st2 = on_open(pushed, attrs, Seq::empty());
                    lemma_on_open_frame(pushed, attrs, Seq::empty());
                    lemma_rows_per_tx_close(st2, tail);
                }
            },
            TokenModel::SelfClose { name, attrs } => {
                assert(!is_tx_close(toks[0]));
                let st2 = pop_path(on_self_close(push_path(st, name), attrs));
                lemma_on_self_close_frame(push_path(st, name), attrs);
                lemma_rows_per_tx_close(st2, tail);
            },
            TokenModel::Close { name } => {
                let st2 = on_close(st, name);
                lemma_on_close_frame(st, name);
                lemma_rows_per_tx_close(st2, tail);
            },
            TokenModel::Text { content } => {
                assert(!is_tx_close(toks[0]));
                lemma_rows_per_tx_close(st, tail);
            },
            TokenModel::Other => {
                assert(!is_tx_close(toks[0]));
                lemma_rows_per_tx_close(st, tail);
            },
        }
    }
}

/// An element name unknown to every dispatch rule: none of the matched
/// paths' leaf names, and none of the scope-closing names.
pub open spec fn unknown_name(name: Seq<char>) -> bool {
    &&& name != "Document"@
    &&& name != "EntityStatus"@
    &&& name != "CurrencyOfPayment"@
    &&& name != "TourCode"@
    &&& name != "ID"@
    &&& name != "Coupon"@
    &&& name != "MarketingCarrier"@
    &&& name != "OperatingCarrier"@
    &&& name != "FareBasisCode"@
    &&& name != "Fare"@
    &&& name != "AmountType"@
    &&& name != "ROE"@
    &&& name != "CouponStandardCommission"@
    &&& name != "Commission"@
    &&& name != "CalculatedAmounts"@
    &&& name != "Tax"@
    &&& name != "SegmentInfo"@
    &&& name != "BookingClass"@
    &&& name != "OperatingCabinClass"@
    &&& name != "FlightNumber"@
    &&& name != "IssuanceDetails"@
    &&& name != "Amount"@
    &&& name != "RevenueAttributableAgent"@
    &&& name != "Fares"@
    &&& name != "Transaction"@
}

/// Opening an element with an unknown name changes only the path, captures
/// no text and no field, whatever its attributes hold.
pub proof fn lemma_unknown_open(
    st: StateModel,
    name: Seq<char>,
    attrs: Seq<(Seq<char>, Seq<char>)>,
    txt: Seq<char>,
)
    requires
        unknown_name(name),
    ensures
        on_open(push_path(st, name), attrs, txt) == push_path(st, name),
        !open_wants_text(push_path(st, name)),
{
    reveal(on_open);
    reveal(open_wants_text);
    lemma_unknown_leaf(st.path, name);
}

/// A self-closing element with an unknown name leaves the state exactly as
/// it was, whatever its attributes hold.
pub proof fn lemma_unknown_self_close(
    st: StateModel,
    name: Seq<char>,
    attrs: Seq<(Seq<char>, Seq<char>)>,
)
    requires
        unknown_name(name),
    ensures
        pop_path(on_self_close(push_path(st, name), attrs)) == st,
{
    reveal(on_self_close);
    lemma_unknown_leaf(st.path, name);
    assert(st.path.push(name).drop_last() =~= st.path);
}

/// Closing an element with an unknown name only pops the path.
pub proof fn lemma_unknown_close(st: StateModel, name: Seq<char>)
    requires
        unknown_name(name),
    ensures
        on_close(st, name) == pop_path(st),
{
    reveal(on_close);
    reveal(crate::extract::close_actions);
}

/// An unknown self-closing element interleaved anywhere between events is
/// invisible: the rest of the walk proceeds exactly as without it.
pub proof fn lemma_unknown_self_close_ignored(
    st: StateModel,
    name: Seq<char>,
    attrs: Seq<(Seq<char>, Seq<char>)>,
    rest: Seq<TokenModel>,
)
    requires
        unknown_name(name),
    ensures
        run(st, seq![TokenModel::SelfClose { name, attrs }] + rest) == run(st, rest),
{
    let toks = seq![TokenModel::SelfClose { name, attrs }] + rest;
    assert(toks[0] == TokenModel::SelfClose { name, attrs });
    assert(toks.skip(1) =~= rest);
    lemma_unknown_self_close(st, name, attrs);
}

} // verus!
