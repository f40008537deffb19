//! The lexical unit the preprocessor consumes: a symbol together with the
//! span of source text it was read from. Tokens are produced by the
//! tokenizer, never mutated, and carried along so that every failure can be
//! attributed to the exact source position that triggered it.

use vstd::prelude::*;

verus! {

/// A span inside one named source file: the file's identity plus the byte
/// range the token covers.
#[derive(Debug, PartialEq, Eq)]
pub struct Position {
    /// Identity of the source file the span lies in.
    pub path: String,
    /// Byte offset at which the span starts.
    pub start: usize,
    /// Byte offset one past the end of the span.
    pub end: usize,
}

impl Position {
    pub fn new(path: String, start: usize, end: usize) -> (r: Position)
        ensures
            r.path == path,
            r.start == start,
            r.end == end,
    {
        Position { path, start, end }
    }

    /// The identity of the source file.
    pub fn path(&self) -> (r: &String)
        ensures
            r == self.path,
    {
        &self.path
    }

    /// The byte range of the span, as start and end offsets.
    pub fn span(&self) -> (r: (usize, usize))
        ensures
            r.0 == self.start,
            r.1 == self.end,
    {
        (self.start, self.end)
    }
}

impl Clone for Position {
    fn clone(&self) -> (r: Self)
        ensures
            r == *self,
    {
        Position { path: self.path.clone(), start: self.start, end: self.end }
    }
}

/// The smallest lexical unit with an attached source position.
#[derive(Debug, PartialEq, Eq)]
pub struct Token {
    /// The textual content of the token.
    pub symbol: String,
    /// Where in the source the token was read.
    pub position: Position,
}

impl Token {
    pub fn new(symbol: String, position: Position) -> (r: Token)
        ensures
            r.symbol == symbol,
            r.position == position,
    {
        Token { symbol, position }
    }

    /// The textual content of the token.
    pub fn symbol(&self) -> (r: &String)
        ensures
            r == self.symbol,
    {
        &self.symbol
    }

    /// The source span the token was read from.
    pub fn position(&self) -> (r: &Position)
        ensures
            r == self.position,
    {
        &self.position
    }
}

impl Clone for Token {
    fn clone(&self) -> (r: Self)
        ensures
            r == *self,
    {
        Token { symbol: self.symbol.clone(), position: self.position.clone() }
    }
}

} // verus!
