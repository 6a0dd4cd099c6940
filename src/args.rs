//! The argument interpreter: turns the annotation's argument tokens into the
//! tokens of the replacement body.
use vstd::prelude::*;

use crate::token::{Delimiter, Spacing, TokenTree};

verus! {

/// Why an annotation argument was refused.
#[derive(Debug, PartialEq, Eq)]
pub enum ArgError {
    /// The argument is not empty and does not begin with an identifier
    /// followed by `=`.
    MalformedArgument,
    /// The argument's leading identifier is not `value`; `found` is its text.
    UnexpectedKeyword { found: String },
}

/// `s` is the expression `Default::default()`.
pub open spec fn is_default_call(s: Seq<TokenTree>) -> bool {
    &&& s.len() == 5
    &&& s[0] matches TokenTree::Ident { text } && text@ == "Default"@
    &&& s[1] == TokenTree::Punct { ch: ':', spacing: Spacing::Joint }
    &&& s[2] == TokenTree::Punct { ch: ':', spacing: Spacing::Alone }
    &&& s[3] matches TokenTree::Ident { text } && text@ == "default"@
    &&& s[4] matches TokenTree::Group { delimiter: Delimiter::Parenthesis, stream } && stream@.len()
        == 0
}

/// `s` begins with an identifier followed by the punctuation character `=`.
pub open spec fn has_assignment_shape(s: Seq<TokenTree>) -> bool {
    &&& s.len() >= 2
    &&& s[0] is Ident
    &&& s[1] matches TokenTree::Punct { ch, .. } && ch == '='
}

/// The text of the leading identifier of `s`.
pub open spec fn keyword_of(s: Seq<TokenTree>) -> Seq<char> {
    s[0]->Ident_text@
}

/// What the interpreter owes for the argument tokens `attr`: the default
/// call when `attr` is empty; else the tokens after `value =`; else the
/// error that the first violated rule names.
pub open spec fn interpreted(attr: Seq<TokenTree>, r: Result<Vec<TokenTree>, ArgError>) -> bool {
    if attr.len() == 0 {
        r matches Ok(body) && is_default_call(body@)
    } else if !has_assignment_shape(attr) {
        r == Err::<Vec<TokenTree>, ArgError>(ArgError::MalformedArgument)
    } else if keyword_of(attr) != "value"@ {
        r matches Err(ArgError::UnexpectedKeyword { found }) && found@ == keyword_of(attr)
    } else {
        r matches Ok(body) && body@ == attr.skip(2)
    }
}

/// The argument tokens are accepted: empty, or `value = ...`.
pub open spec fn accepted(attr: Seq<TokenTree>) -> bool {
    attr.len() == 0 || (has_assignment_shape(attr) && keyword_of(attr) == "value"@)
}

/// Builds the tokens of `Default::default()`.
pub fn default_call() -> (r: Vec<TokenTree>)
    ensures
        is_default_call(r@),
{
    let mut r: Vec<TokenTree> = Vec::new();
    r.push(TokenTree::Ident { text: String::from_str("Default") });
    r.push(TokenTree::Punct { ch: ':', spacing: Spacing::Joint });
    r.push(TokenTree::Punct { ch: ':', spacing: Spacing::Alone });
    r.push(TokenTree::Ident { text: String::from_str("default") });
    r.push(TokenTree::Group { delimiter: Delimiter::Parenthesis, stream: Vec::new() });
    r
}

/// Reads the annotation's argument tokens. Empty, they give
/// `Default::default()`; of the form `value = rest`, they give `rest`
/// unchanged. Any other non-empty argument is refused: with
/// `MalformedArgument` when it does not begin with an identifier and `=`,
/// with `UnexpectedKeyword` when that identifier is not `value`.
pub fn interpret(attr: Vec<TokenTree>) -> (r: Result<Vec<TokenTree>, ArgError>)
    ensures
        interpreted(attr@, r),
        r is Ok <==> accepted(attr@),
{
    if attr.len() == 0 {
        return Ok(default_call());
    }
    if attr.len() < 2 {
        return Err(ArgError::MalformedArgument);
    }
    let is_eq = match &attr[1] {
        TokenTree::Punct { ch, .. } => *ch == '=',
        _ => false,
    };
    if !is_eq {
        return Err(ArgError::MalformedArgument);
    }
    let keyword = String::from_str("value");
    match &attr[0] {
        TokenTree::Ident { text } => {
            if !text.eq(&keyword) {
                return Err(ArgError::UnexpectedKeyword { found: text.clone() });
            }
        },
        _ => {
            return Err(ArgError::MalformedArgument);
        },
    }
    let mut attr = attr;
    let rest = attr.split_off(2);
    Ok(rest)
}

} // verus!
