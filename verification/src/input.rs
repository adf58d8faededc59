//! What the command line is read as and what it offers.

use vstd::prelude::*;

verus! {

/// Where a suggestion comes from.
#[derive(Debug, Clone, Copy, PartialEq, Eq, Structural)]
pub enum SuggestionType {
    Command,
    File,
    Directory,
    Flag,
    History,
    Alias,
}

/// What a piece of a command line is.
#[derive(Debug, Clone, Copy, PartialEq, Eq, Structural)]
pub enum TokenType {
    Command,
    Argument,
    Flag,
    String,
    Number,
    Operator,
    Pipe,
    Redirect,
    Variable,
    Comment,
}

/// A piece of a command line: its text, its kind, and where it begins and
/// ends.
#[derive(Debug, Clone)]
pub struct Token {
    pub text: String,
    pub token_type: TokenType,
    pub start: usize,
    pub end: usize,
}

/// Something wrong in a command line, and where.
#[derive(Debug, Clone)]
pub struct SyntaxError {
    pub message: String,
    pub position: usize,
    pub length: usize,
}

/// A command line as it was read: its pieces and what is wrong with it.
#[derive(Debug, Clone)]
pub struct SyntaxTree {
    pub tokens: Vec<Token>,
    pub errors: Vec<SyntaxError>,
}

/// The way to go through the commands that were entered before.
#[derive(Debug, Clone, Copy, PartialEq, Eq, Structural)]
pub enum HistoryDirection {
    Up,
    Down,
}

} // verus!
