use vstd::prelude::*;

use crate::text::attrs_view;

verus! {

/// One structural event of a document walk, with names and attribute values
/// already decoded. `Open` and `SelfClose` carry the element's local name and
/// its attributes in document order; `Close` carries the local name alone;
/// `Text` carries decoded character content; `Other` stands for any event the
/// extractor ignores, such as comments or processing instructions.
pub enum Token {
    Open { name: String, attrs: Vec<(String, String)> },
    SelfClose { name: String, attrs: Vec<(String, String)> },
    Close { name: String },
    Text { content: String },
    Other,
}

/// Mathematical image of one structural event.
pub enum TokenModel {
    Open { name: Seq<char>, attrs: Seq<(Seq<char>, Seq<char>)> },
    SelfClose { name: Seq<char>, attrs: Seq<(Seq<char>, Seq<char>)> },
    Close { name: Seq<char> },
    Text { content: Seq<char> },
    Other,
}

impl View for Token {
    type V = TokenModel;

    open spec fn view(&self) -> TokenModel {
        match self {
            Token::Open { name, attrs } => TokenModel::Open {
                name: name@,
                attrs: attrs_view(attrs@),
            },
            Token::SelfClose { name, attrs } => TokenModel::SelfClose {
                name: name@,
                attrs: attrs_view(attrs@),
            },
            Token::Close { name } => TokenModel::Close { name: name@ },
            Token::Text { content } => TokenModel::Text { content: content@ },
            Token::Other => TokenModel::Other,
        }
    }
}

/// Mathematical image of an event sequence.
pub open spec fn tokens_view(ts: Seq<Token>) -> Seq<TokenModel> {
    ts.map_values(|t: Token| t@)
}

/// The character content an event yields when it is consumed as the text
/// following an element open: text events hand their content over, anything
/// else reads as empty.
pub open spec fn text_content(t: TokenModel) -> Seq<char> {
    match t {
        TokenModel::Text { content } => content,
        _ => Seq::empty(),
    }
}

} // verus!
