use vstd::prelude::*;

verus! {

/// Everything that can go wrong while assembling.
#[derive(Debug, Clone, PartialEq)]
pub enum AssemblyError {
    /// The text does not follow the assembly grammar.
    SyntaxError { line: usize, reason: String },
    StructuralError { line: usize, reason: String },
    SemanticError { line: usize, reason: String },
    SemanticErrorNoLine { reason: String },
    StructuralErrorNoLine { reason: String },
    CircularIncludeError { line: usize, reason: String },
    ImageError { line: usize, reason: String },
    ImageDimensionError { line: usize, reason: String },
    /// A file could not be read.
    FileError { reason: String },
}

/// The variant of an [`AssemblyError`], without its data.
#[derive(Debug, Copy, Clone, PartialEq, Eq, Structural)]
pub enum ErrorKind {
    Syntax,
    Structure,
    Semantic,
    SemanticNoLine,
    StructureNoLine,
    CircularInclude,
    Image,
    ImageDimension,
    File,
}

impl AssemblyError {
    pub open spec fn kind(&self) -> ErrorKind {
        match self {
            AssemblyError::SyntaxError { .. } => ErrorKind::Syntax,
            AssemblyError::StructuralError { .. } => ErrorKind::Structure,
            AssemblyError::SemanticError { .. } => ErrorKind::Semantic,
            AssemblyError::SemanticErrorNoLine { .. } => ErrorKind::SemanticNoLine,
            AssemblyError::StructuralErrorNoLine { .. } => ErrorKind::StructureNoLine,
            AssemblyError::CircularIncludeError { .. } => ErrorKind::CircularInclude,
            AssemblyError::ImageError { .. } => ErrorKind::Image,
            AssemblyError::ImageDimensionError { .. } => ErrorKind::ImageDimension,
            AssemblyError::FileError { .. } => ErrorKind::File,
        }
    }

    /// The source line the error points at, if any.
    pub open spec fn line(&self) -> Option<usize> {
        match self {
            AssemblyError::SyntaxError { line, .. } => Some(*line),
            AssemblyError::StructuralError { line, .. } => Some(*line),
            AssemblyError::SemanticError { line, .. } => Some(*line),
            AssemblyError::CircularIncludeError { line, .. } => Some(*line),
            AssemblyError::ImageError { line, .. } => Some(*line),
            AssemblyError::ImageDimensionError { line, .. } => Some(*line),
            _ => None,
        }
    }

    /// The text of the error message.
    pub open spec fn reason(&self) -> Seq<char> {
        match self {
            AssemblyError::SyntaxError { reason, .. } => reason@,
            AssemblyError::StructuralError { reason, .. } => reason@,
            AssemblyError::SemanticError { reason, .. } => reason@,
            AssemblyError::SemanticErrorNoLine { reason } => reason@,
            AssemblyError::StructuralErrorNoLine { reason } => reason@,
            AssemblyError::CircularIncludeError { reason, .. } => reason@,
            AssemblyError::ImageError { reason, .. } => reason@,
            AssemblyError::ImageDimensionError { reason, .. } => reason@,
            AssemblyError::FileError { reason } => reason@,
        }
    }

    /// The error has the given variant, line and message.
    pub open spec fn is(&self, kind: ErrorKind, line: Option<usize>, reason: Seq<char>) -> bool {
        self.kind() == kind && self.line() == line && self.reason() == reason
    }
}

} // verus!

verus! {

/// What a spec says of an error: its variant, its line and its message.
pub type ErrDesc = (ErrorKind, Option<usize>, Seq<char>);

pub open spec fn desc(kind: ErrorKind, line: Option<usize>, reason: Seq<char>) -> ErrDesc {
    (kind, line, reason)
}

/// A result of exec code agrees with the result a spec describes.
pub open spec fn result_matches<T>(r: Result<T, AssemblyError>, s: Result<T, ErrDesc>) -> bool {
    match r {
        Ok(v) => s == Ok::<T, ErrDesc>(v),
        Err(e) => match s {
            Ok(_) => false,
            Err(d) => e.is(d.0, d.1, d.2),
        },
    }
}

/// A byte vector result agrees with the byte sequence a spec describes.
pub open spec fn bytes_match(r: Result<Vec<u8>, AssemblyError>, s: Result<Seq<u8>, ErrDesc>) -> bool {
    match r {
        Ok(v) => s == Ok::<Seq<u8>, ErrDesc>(v@),
        Err(e) => match s {
            Ok(_) => false,
            Err(d) => e.is(d.0, d.1, d.2),
        },
    }
}

/// An in-place update agrees with what a spec describes: on success the
/// value became the one described, on failure it is unchanged.
pub open spec fn update_matches<T>(r: Result<(), AssemblyError>, before: T, after: T, s: Result<T, ErrDesc>) -> bool {
    match s {
        Ok(v) => r is Ok && after == v,
        Err(d) => match r {
            Ok(_) => false,
            Err(e) => e.is(d.0, d.1, d.2) && after == before,
        },
    }
}

} // verus!
