//! The two error families: compile-time diagnostics (consumed from the parser
//! as an immediate-abort condition) and runtime failures produced by the
//! evaluator. Every failure is returned, never suppressed.

use vstd::prelude::*;
use crate::frontend::data::{int_str, dec_digits, int_to_string, u64_to_string};

verus! {

/// A compile-time diagnostic: a message and a 1-based (line, column).
/// Always fatal; no partial execution occurs when one is produced.
pub struct CompileError {
    error_msg: String,
    line: usize,
    column: usize,
}

/// The mathematical form of a `CompileError`.
pub struct CompileErrorView {
    pub error_msg: Seq<char>,
    pub line: int,
    pub column: int,
}

impl View for CompileError {
    type V = CompileErrorView;

    closed spec fn view(&self) -> CompileErrorView {
        CompileErrorView { error_msg: self.error_msg@, line: self.line as int, column: self.column as int }
    }
}

impl CompileError {
    pub fn new(error_str: &str, line_col: (usize, usize)) -> (r: Self)
        ensures
            r@.error_msg == error_str@,
            r@.line == line_col.0 as int,
            r@.column == line_col.1 as int,
    {
        Self { error_msg: error_str.to_owned(), line: line_col.0, column: line_col.1 }
    }

    /// The message this diagnostic carries.
    pub fn message(&self) -> (r: &String)
        ensures
            r@ == self@.error_msg,
    {
        &self.error_msg
    }

    /// The 1-based line and column this diagnostic points at.
    pub fn position(&self) -> (r: (usize, usize))
        ensures
            r.0 as int == self@.line,
            r.1 as int == self@.column,
    {
        (self.line, self.column)
    }
}

/// A runtime failure. All are fatal to the current execution and propagate
/// straight to the top-level caller.
#[derive(Debug, PartialEq)]
pub enum RuntimeFailure {
    VarNotFound(String, i32),
    FuncNotFound(String, i32),
    BadFunctionArgs(String, i32),
    BorrowError(String, i32),
    DuplicateFunction(String),
    InternalError(String),
    WrongType(String, i32),
    InvalidArgs(String, i32),
}

/// The mathematical form of a `RuntimeFailure`: the same variants over
/// character sequences and unbounded integers.
pub enum Failure {
    VarNotFound(Seq<char>, int),
    FuncNotFound(Seq<char>, int),
    BadFunctionArgs(Seq<char>, int),
    BorrowError(Seq<char>, int),
    DuplicateFunction(Seq<char>),
    InternalError(Seq<char>),
    WrongType(Seq<char>, int),
    InvalidArgs(Seq<char>, int),
}

impl View for RuntimeFailure {
    type V = Failure;

    open spec fn view(&self) -> Failure {
        match self {
            RuntimeFailure::VarNotFound(name, line) => Failure::VarNotFound(name@, *line as int),
            RuntimeFailure::FuncNotFound(name, line) => Failure::FuncNotFound(name@, *line as int),
            RuntimeFailure::BadFunctionArgs(msg, line) => Failure::BadFunctionArgs(msg@, *line as int),
            RuntimeFailure::BorrowError(msg, line) => Failure::BorrowError(msg@, *line as int),
            RuntimeFailure::DuplicateFunction(name) => Failure::DuplicateFunction(name@),
            RuntimeFailure::InternalError(msg) => Failure::InternalError(msg@),
            RuntimeFailure::WrongType(expected, line) => Failure::WrongType(expected@, *line as int),
            RuntimeFailure::InvalidArgs(msg, line) => Failure::InvalidArgs(msg@, *line as int),
        }
    }
}

/// The diagnostic text of a runtime failure.
pub open spec fn spec_describe(f: Failure) -> Seq<char> {
    match f {
        Failure::VarNotFound(name, line) => "Error on line "@ + int_str(line) + ": Variable '"@ + name + "' not found"@,
        Failure::FuncNotFound(name, line) => "Error on line "@ + int_str(line) + ": Function '"@ + name + "' not found"@,
        Failure::BadFunctionArgs(msg, line) => "Error on line "@ + int_str(line) + ": "@ + msg,
        Failure::BorrowError(msg, line) => "Error on line "@ + int_str(line) + ": "@ + msg,
        Failure::DuplicateFunction(name) => "Error: Function '"@ + name + "' defined multiple times"@,
        Failure::InternalError(msg) => "Internal error while "@ + msg,
        Failure::WrongType(expected, line) => "Error on line "@ + int_str(line) + ": Expected type '"@ + expected + "'"@,
        Failure::InvalidArgs(msg, line) => "Error on line "@ + int_str(line) + ": "@ + msg,
    }
}

impl RuntimeFailure {
    /// The human-readable diagnostic for this failure, exactly the text the
    /// host writes to standard error.
    pub fn describe(&self) -> (r: String)
        ensures
            r@ == spec_describe(self@),
    {
        let r = match self {
            RuntimeFailure::VarNotFound(name, line) => {
                let mut s = "Error on line ".to_owned();
                s.append(int_to_string(*line as i64).as_str());
                s.append(": Variable '");
                s.append(name.as_str());
                s.append("' not found");
                s
            },
            RuntimeFailure::FuncNotFound(name, line) => {
                let mut s = "Error on line ".to_owned();
                s.append(int_to_string(*line as i64).as_str());
                s.append(": Function '");
                s.append(name.as_str());
                s.append("' not found");
                s
            },
            RuntimeFailure::BadFunctionArgs(msg, line) => {
                let mut s = "Error on line ".to_owned();
                s.append(int_to_string(*line as i64).as_str());
                s.append(": ");
                s.append(msg.as_str());
                s
            },
            RuntimeFailure::BorrowError(msg, line) => {
                let mut s = "Error on line ".to_owned();
                s.append(int_to_string(*line as i64).as_str());
                s.append(": ");
                s.append(msg.as_str());
                s
            },
            RuntimeFailure::DuplicateFunction(name) => {
                let mut s = "Error: Function '".to_owned();
                s.append(name.as_str());
                s.append("' defined multiple times");
                s
            },
            RuntimeFailure::InternalError(msg) => {
                let mut s = "Internal error while ".to_owned();
                s.append(msg.as_str());
                s
            },
            RuntimeFailure::WrongType(expected, line) => {
                let mut s = "Error on line ".to_owned();
                s.append(int_to_string(*line as i64).as_str());
                s.append(": Expected type '");
                s.append(expected.as_str());
                s.append("'");
                s
            },
            RuntimeFailure::InvalidArgs(msg, line) => {
                let mut s = "Error on line ".to_owned();
                s.append(int_to_string(*line as i64).as_str());
                s.append(": ");
                s.append(msg.as_str());
                s
            },
        };
        proof {
            assert(r@ =~= spec_describe(self@));
        }
        r
    }
}

/// The diagnostic text of a compile-time error.
pub open spec fn spec_describe_compile(e: CompileErrorView) -> Seq<char> {
    "Failed to compile Lua with error '"@ + e.error_msg + "' on line "@ + dec_digits(e.line as nat) + " column "@ + dec_digits(e.column as nat)
}

impl CompileError {
    /// The human-readable diagnostic for this error, exactly the text the
    /// host writes to standard error.
    pub fn describe(&self) -> (r: String)
        ensures
            r@ == spec_describe_compile(self@),
    {
        let mut s = "Failed to compile Lua with error '".to_owned();
        s.append(self.error_msg.as_str());
        s.append("' on line ");
        s.append(u64_to_string(self.line as u64).as_str());
        s.append(" column ");
        s.append(u64_to_string(self.column as u64).as_str());
        proof {
            assert(s@ =~= spec_describe_compile(self@));
        }
        s
    }
}

} // verus!
