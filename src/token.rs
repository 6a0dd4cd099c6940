//! A shallow model of the tokens of a declaration: leaves carry their text,
//! groups carry a delimiter and the tokens between it.
use vstd::prelude::*;

verus! {

/// How a group of tokens is delimited.
#[derive(Clone, Copy, Debug, PartialEq, Eq)]
pub enum Delimiter {
    /// `( ... )`
    Parenthesis,
    /// `{ ... }`
    Brace,
    /// `[ ... ]`
    Bracket,
    /// A group with invisible delimiters.
    Invisible,
}

/// Whether a punctuation character is followed at once by another one
/// (`:` in `::`) or stands alone.
#[derive(Clone, Copy, Debug, PartialEq, Eq)]
pub enum Spacing {
    Joint,
    Alone,
}

/// One token: a leaf (identifier, punctuation character, literal) or a
/// delimited group of further tokens.
#[derive(Debug, PartialEq, Eq)]
pub enum TokenTree {
    Ident { text: String },
    Punct { ch: char, spacing: Spacing },
    Literal { text: String },
    Group { delimiter: Delimiter, stream: Vec<TokenTree> },
}

/// `t` is a top-level group delimited by braces.
pub open spec fn is_brace_group(t: TokenTree) -> bool {
    t matches TokenTree::Group { delimiter: Delimiter::Brace, .. }
}

/// `t` is a group, whatever its delimiter.
pub open spec fn is_group(t: TokenTree) -> bool {
    t is Group
}

/// The group `{ stream }`.
pub open spec fn brace_group(stream: Vec<TokenTree>) -> TokenTree {
    TokenTree::Group { delimiter: Delimiter::Brace, stream }
}

impl TokenTree {
    /// Tells whether this token is a group delimited by braces.
    pub fn is_brace_group(&self) -> (r: bool)
        ensures
            r == is_brace_group(*self),
    {
        match self {
            TokenTree::Group { delimiter: Delimiter::Brace, .. } => true,
            _ => false,
        }
    }
}

} // verus!
