//! Fatal compilation errors of the literal pipeline.
//!
//! None of these is recoverable: every failure aborts the enclosing
//! compilation with a diagnostic. A file-mode failure names the failing
//! operation and the path; a grammar failure carries the external parser's
//! diagnostic verbatim; an embedding failure carries the offending value's
//! type descriptor.

use vstd::prelude::*;

verus! {

/// The file operation that failed during file-mode resolution.
pub enum FileOp {
    Open,
    Read,
}

/// A fatal compilation error.
pub enum CompileError {
    /// The referenced stylesheet file could not be opened or fully read.
    SourceIo { op: FileOp, path: Vec<u8> },
    /// The external grammar parser rejected the text.
    GrammarParse { diagnostic: Vec<u8> },
    /// A compiled value could not be turned into constructive syntax.
    Embedding { type_descriptor: Vec<u8> },
}

/// The diagnostic prefix of a failed open: `Couldn't open file `.
pub open spec fn open_failure_prefix() -> Seq<u8> {
    seq![67u8, 111, 117, 108, 100, 110, 39, 116, 32, 111, 112, 101, 110, 32, 102, 105, 108, 101, 32]
}

/// The diagnostic prefix of a failed read: `Couldn't read file `.
pub open spec fn read_failure_prefix() -> Seq<u8> {
    seq![67u8, 111, 117, 108, 100, 110, 39, 116, 32, 114, 101, 97, 100, 32, 102, 105, 108, 101, 32]
}

/// What the diagnostic of each error says: the failing operation and the
/// path for an I/O failure, the parser's diagnostic verbatim for a grammar
/// failure, the type descriptor verbatim for an embedding failure.
pub open spec fn message_of(e: CompileError) -> Seq<u8> {
    match e {
        CompileError::SourceIo { op, path } => match op {
            FileOp::Open => open_failure_prefix() + path@,
            FileOp::Read => read_failure_prefix() + path@,
        },
        CompileError::GrammarParse { diagnostic } => diagnostic@,
        CompileError::Embedding { type_descriptor } => type_descriptor@,
    }
}

impl CompileError {
    /// The diagnostic shown when compilation aborts with this error.
    pub fn message(&self) -> (m: Vec<u8>)
        ensures
            m@ == message_of(*self),
    {
        match self {
            CompileError::SourceIo { op, path } => {
                let mut m: Vec<u8> = Vec::new();
                m.push(67);
                m.push(111);
                m.push(117);
                m.push(108);
                m.push(100);
                m.push(110);
                m.push(39);
                m.push(116);
                m.push(32);
                match op {
                    FileOp::Open => {
                        m.push(111);
                        m.push(112);
                        m.push(101);
                        m.push(110);
                    },
                    FileOp::Read => {
                        m.push(114);
                        m.push(101);
                        m.push(97);
                        m.push(100);
                    },
                }
                m.push(32);
                m.push(102);
                m.push(105);
                m.push(108);
                m.push(101);
                m.push(32);
                proof {
                    match op {
                        FileOp::Open => assert(m@ =~= open_failure_prefix()),
                        FileOp::Read => assert(m@ =~= read_failure_prefix()),
                    }
                }
                crate::bytes::append_range(&mut m, path, 0, path.len());
                proof {
                    assert(path@.subrange(0, path@.len() as int) =~= path@);
                }
                m
            },
            CompileError::GrammarParse { diagnostic } => crate::bytes::copy_bytes(diagnostic),
            CompileError::Embedding { type_descriptor } => crate::bytes::copy_bytes(type_descriptor),
        }
    }
}

} // verus!
