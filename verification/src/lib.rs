use vstd::prelude::*;

mod chunk;
mod decimal;
mod extract;
mod laws;
mod paths;
mod record;
mod text;
mod token;
mod xml;

pub use chunk::{chunks_of, lemma_chunk_exact_fill, plan_units, units_view, Chunker};
pub use decimal::{amount_string, amount_value, format_amount, parse_amount};
pub use extract::{
    extract_records, init_state, records_of, run, ParserState, StateModel,
};
pub use laws::{
    count_tx_closes, lemma_rows_per_tx_close, lemma_unknown_close, lemma_unknown_open,
    lemma_unknown_self_close, lemma_unknown_self_close_ignored, no_open_before_tx_close,
};
pub use record::{records_view, Record, RecordModel};
pub use text::{get_attr, str_eq};
pub use token::{tokens_view, Token, TokenModel};
pub use xml::{parse_document, XmlError};

verus! {

} // verus!
