//! Masks the body of a function-like declaration: the declaration's tokens are
//! kept up to its body, and the body is replaced by a caller-supplied
//! expression, or by a call of `Default::default()`.
use vstd::prelude::*;

pub mod args;
pub mod rewrite;
pub mod token;

pub use args::{interpret, ArgError};
pub use rewrite::rewrite;
pub use token::{Delimiter, Spacing, TokenTree};

use args::{accepted, interpreted};
use rewrite::rewritten;

verus! {

/// Swallows the body of the declaration `item`. The argument tokens `attr`
/// give the new body, as `interpret` reads them; the declaration is then
/// rewritten around it. A refused argument is returned as the error, and
/// `item` is then not looked at.
pub fn hollow(attr: Vec<TokenTree>, item: Vec<TokenTree>) -> (r: Result<Vec<TokenTree>, ArgError>)
    ensures
        r is Ok <==> accepted(attr@),
        match r {
            Ok(out) => {
                &&& out@.len() > 0
                &&& out@.last() matches TokenTree::Group { delimiter: Delimiter::Brace, stream }
                    && interpreted(attr@, Ok(stream)) && out@ == rewritten(item@, stream)
            },
            Err(e) => interpreted(attr@, Err(e)),
        },
{
    match interpret(attr) {
        Ok(body) => Ok(rewrite(item, body)),
        Err(e) => Err(e),
    }
}

} // verus!
