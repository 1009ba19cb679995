//! The token vocabulary the scanner produces and the two-character
//! lookahead window it reads through. The scanner itself is a separate
//! collaborator; these are the shapes it trades in.
use vstd::prelude::*;

use crate::render::dec_nat;
use crate::render::usize_to_string;

verus! {

/// Every kind of token the language knows.
#[derive(Debug, Clone, Copy, PartialEq, Eq, Hash, Structural)]
pub enum TokenType {
    TokenLeftParen,
    TokenRightParen,
    TokenLeftBrace,
    TokenRightBrace,
    TokenComma,
    TokenDot,
    TokenMinus,
    TokenPlus,
    TokenSemiColon,
    TokenSlash,
    TokenStar,
    TokenPrint,
    TokenReturn,
    TokenIf,
    TokenElse,
    TokenTrue,
    TokenFalse,
    TokenAnd,
    TokenOr,
    TokenPipe,
    TokenFunc,
    TokenLet,
    TokenInteger,
    TokenFloat,
    TokenString,
    TokenIdent,
    TokenEqual,
    TokenEqEq,
    TokenNotEq,
    TokenNot,
    TokenLess,
    TokenLessEq,
    TokenGt,
    TokenGtEq,
    TokenComment,
    TokenError,
    TokenLambda,
    TokenInfix,
}

/// The name of a token kind, as a diagnostic prints it.
pub open spec fn token_type_name(t: TokenType) -> Seq<char> {
    match t {
        TokenType::TokenLeftParen => "TokenLeftParen"@,
        TokenType::TokenRightParen => "TokenRightParen"@,
        TokenType::TokenLeftBrace => "TokenLeftBrace"@,
        TokenType::TokenRightBrace => "TokenRightBrace"@,
        TokenType::TokenComma => "TokenComma"@,
        TokenType::TokenDot => "TokenDot"@,
        TokenType::TokenMinus => "TokenMinus"@,
        TokenType::TokenPlus => "TokenPlus"@,
        TokenType::TokenSemiColon => "TokenSemiColon"@,
        TokenType::TokenSlash => "TokenSlash"@,
        TokenType::TokenStar => "TokenStar"@,
        TokenType::TokenPrint => "TokenPrint"@,
        TokenType::TokenReturn => "TokenReturn"@,
        TokenType::TokenIf => "TokenIf"@,
        TokenType::TokenElse => "TokenElse"@,
        TokenType::TokenTrue => "TokenTrue"@,
        TokenType::TokenFalse => "TokenFalse"@,
        TokenType::TokenAnd => "TokenAnd"@,
        TokenType::TokenOr => "TokenOr"@,
        TokenType::TokenPipe => "TokenPipe"@,
        TokenType::TokenFunc => "TokenFunc"@,
        TokenType::TokenLet => "TokenLet"@,
        TokenType::TokenInteger => "TokenInteger"@,
        TokenType::TokenFloat => "TokenFloat"@,
        TokenType::TokenString => "TokenString"@,
        TokenType::TokenIdent => "TokenIdent"@,
        TokenType::TokenEqual => "TokenEqual"@,
        TokenType::TokenEqEq => "TokenEqEq"@,
        TokenType::TokenNotEq => "TokenNotEq"@,
        TokenType::TokenNot => "TokenNot"@,
        TokenType::TokenLess => "TokenLess"@,
        TokenType::TokenLessEq => "TokenLessEq"@,
        TokenType::TokenGt => "TokenGt"@,
        TokenType::TokenGtEq => "TokenGtEq"@,
        TokenType::TokenComment => "TokenComment"@,
        TokenType::TokenError => "TokenError"@,
        TokenType::TokenLambda => "TokenLambda"@,
        TokenType::TokenInfix => "TokenInfix"@,
    }
}

/// The concrete spelling a token kind stands for, where one is fixed; other
/// kinds answer with the placeholder `ok`.
pub open spec fn token_type_repr(t: TokenType) -> Seq<char> {
    match t {
        TokenType::TokenLeftParen => "("@,
        TokenType::TokenRightParen => ")"@,
        TokenType::TokenEqEq => "=="@,
        _ => "ok"@,
    }
}

impl TokenType {
    /// The concrete spelling of this kind, e.g. `(` for the left paren.
    pub fn get_repr(&self) -> (s: String)
        ensures
            s@ == token_type_repr(*self),
    {
        match self {
            TokenType::TokenLeftParen => String::from_str("("),
            TokenType::TokenRightParen => String::from_str(")"),
            TokenType::TokenEqEq => String::from_str("=="),
            _ => String::from_str("ok"),
        }
    }

    /// The kind's name, for diagnostics.
    fn name_str(&self) -> (s: &'static str)
        ensures
            s@ == token_type_name(*self),
    {
        match self {
            TokenType::TokenLeftParen => "TokenLeftParen",
            TokenType::TokenRightParen => "TokenRightParen",
            TokenType::TokenLeftBrace => "TokenLeftBrace",
            TokenType::TokenRightBrace => "TokenRightBrace",
            TokenType::TokenComma => "TokenComma",
            TokenType::TokenDot => "TokenDot",
            TokenType::TokenMinus => "TokenMinus",
            TokenType::TokenPlus => "TokenPlus",
            TokenType::TokenSemiColon => "TokenSemiColon",
            TokenType::TokenSlash => "TokenSlash",
            TokenType::TokenStar => "TokenStar",
            TokenType::TokenPrint => "TokenPrint",
            TokenType::TokenReturn => "TokenReturn",
            TokenType::TokenIf => "TokenIf",
            TokenType::TokenElse => "TokenElse",
            TokenType::TokenTrue => "TokenTrue",
            TokenType::TokenFalse => "TokenFalse",
            TokenType::TokenAnd => "TokenAnd",
            TokenType::TokenOr => "TokenOr",
            TokenType::TokenPipe => "TokenPipe",
            TokenType::TokenFunc => "TokenFunc",
            TokenType::TokenLet => "TokenLet",
            TokenType::TokenInteger => "TokenInteger",
            TokenType::TokenFloat => "TokenFloat",
            TokenType::TokenString => "TokenString",
            TokenType::TokenIdent => "TokenIdent",
            TokenType::TokenEqual => "TokenEqual",
            TokenType::TokenEqEq => "TokenEqEq",
            TokenType::TokenNotEq => "TokenNotEq",
            TokenType::TokenNot => "TokenNot",
            TokenType::TokenLess => "TokenLess",
            TokenType::TokenLessEq => "TokenLessEq",
            TokenType::TokenGt => "TokenGt",
            TokenType::TokenGtEq => "TokenGtEq",
            TokenType::TokenComment => "TokenComment",
            TokenType::TokenError => "TokenError",
            TokenType::TokenLambda => "TokenLambda",
            TokenType::TokenInfix => "TokenInfix",
        }
    }
}

/// One scanned token: its kind, the source text it covers, and the line it
/// sits on.
#[derive(Debug, Clone, Copy, PartialEq, Eq)]
pub struct Token<'src> {
    pub token_type: TokenType,
    pub content: &'src str,
    pub line: usize,
}

/// What a token's diagnostic line reads: the kind's name, the covered text
/// in quotes, and the source line.
pub open spec fn token_debug_chars(t: Token) -> Seq<char> {
    token_type_name(t.token_type) + "('"@ + t.content@ + "'):line "@ + dec_nat(t.line as nat)
}

impl<'src> Token<'src> {
    /// The error token for a line: the scanner's signal that it could not
    /// read a token there.
    pub fn err(line: usize) -> (t: Token<'src>)
        ensures
            t.token_type == TokenType::TokenError,
            t.content@ == Seq::<char>::empty(),
            t.line == line,
    {
        proof {
            reveal_strlit("");
            assert(""@ =~= Seq::<char>::empty());
        }
        Token { token_type: TokenType::TokenError, content: "", line }
    }

    /// Whether this is the scanner's error token.
    pub fn is_err(&self) -> (r: bool)
        ensures
            r == (self.token_type == TokenType::TokenError),
    {
        match self.token_type {
            TokenType::TokenError => true,
            _ => false,
        }
    }

    /// The token as a diagnostic line.
    pub fn debug_print(&self) -> (s: String)
        ensures
            s@ == token_debug_chars(*self),
    {
        let mut s = String::from_str(self.token_type.name_str());
        s.append("('");
        s.append(self.content);
        s.append("'):line ");
        let line = usize_to_string(self.line);
        s.append(line.as_str());
        proof {
            assert(s@ =~= token_debug_chars(*self));
        }
        s
    }
}

/// A window over source characters that can see the current character and
/// the one after it while stepping forward one at a time.
#[derive(Debug)]
pub struct LookaheadChars {
    chars: Vec<char>,
    pos: usize,
}

impl LookaheadChars {
    /// The characters being read.
    pub closed spec fn text(&self) -> Seq<char> {
        self.chars@
    }

    /// How many characters have been consumed.
    pub closed spec fn position(&self) -> int {
        self.pos as int
    }

    /// The window never runs past the end of the text.
    pub open spec fn wf(&self) -> bool {
        0 <= self.position() <= self.text().len()
    }

    /// A window at the start of the given source text.
    pub fn new(source: &str) -> (r: LookaheadChars)
        ensures
            r.wf(),
            r.text() == source@,
            r.position() == 0,
    {
        let n = source.unicode_len();
        let mut chars: Vec<char> = Vec::new();
        let mut i: usize = 0;
        while i < n
            invariant
                n as nat == source@.len(),
                i <= n,
                chars@ == source@.take(i as int),
            decreases n - i,
        {
            chars.push(source.get_char(i));
            proof {
                assert(source@.take(i as int + 1) =~= source@.take(i as int).push(
                    source@[i as int],
                ));
            }
            i = i + 1;
        }
        proof {
            assert(source@.take(n as int) =~= source@);
        }
        LookaheadChars { chars, pos: 0 }
    }

    /// The character under the window, if any text is left.
    pub fn peek(&self) -> (r: Option<char>)
        ensures
            r == if self.position() < self.text().len() {
                Some(self.text()[self.position()])
            } else {
                None::<char>
            },
    {
        broadcast use vstd::slice::axiom_slice_get_usize;

        match self.chars.as_slice().get(self.pos) {
            Some(c) => Some(*c),
            None => None,
        }
    }

    /// The character one past the window, if there is one.
    pub fn peek_next(&self) -> (r: Option<char>)
        ensures
            r == if self.position() + 1 < self.text().len() {
                Some(self.text()[self.position() + 1])
            } else {
                None::<char>
            },
    {
        broadcast use vstd::slice::axiom_slice_get_usize;

        if self.pos < self.chars.len() {
            match self.chars.as_slice().get(self.pos + 1) {
                Some(c) => Some(*c),
                None => None,
            }
        } else {
            None
        }
    }

    /// Step forward: yield the character under the window and move past it;
    /// at the end of the text, yield nothing and stay put.
    pub fn next(&mut self) -> (r: Option<char>)
        requires
            old(self).wf(),
        ensures
            final(self).wf(),
            final(self).text() == old(self).text(),
            r == if old(self).position() < old(self).text().len() {
                Some(old(self).text()[old(self).position()])
            } else {
                None::<char>
            },
            final(self).position() == if old(self).position() < old(self).text().len() {
                old(self).position() + 1
            } else {
                old(self).position()
            },
    {
        broadcast use vstd::slice::axiom_slice_get_usize;

        if self.pos < self.chars.len() {
            let c = *self.chars.as_slice().get(self.pos).unwrap();
            self.pos = self.pos + 1;
            Some(c)
        } else {
            None
        }
    }
}

} // verus!
