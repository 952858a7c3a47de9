//! The failures of each stage, one enum per family.

use vstd::prelude::*;

verus! {

/// What can go wrong while a plate code is recognised and normalized.
#[derive(Debug, Clone, PartialEq, Eq)]
pub enum PpuError {
    /// The input matches none of the recognised layouts.
    UnknownFormat { ppu: String },
    /// A letter group does not have the number of characters its table asks for.
    InvalidLength { expected: usize, actual: usize, chars: String },
    /// The letter is not in the letter table.
    UnknownLetter { letter: String },
    /// A letter lookup was given nothing.
    EmptyLetter,
    /// The two letters are not in the digraph table.
    UnknownDigraph { letters: String },
    /// A digraph lookup was given nothing.
    EmptyDigraph,
}

/// The mathematical content of a [`PpuError`]: the same cases, with the
/// texts as sequences of characters.
pub enum PpuFault {
    UnknownFormat { ppu: Seq<char> },
    InvalidLength { expected: nat, actual: nat, chars: Seq<char> },
    UnknownLetter { letter: Seq<char> },
    EmptyLetter,
    UnknownDigraph { letters: Seq<char> },
    EmptyDigraph,
}

impl View for PpuError {
    type V = PpuFault;

    open spec fn view(&self) -> PpuFault {
        match self {
            PpuError::UnknownFormat { ppu } => PpuFault::UnknownFormat { ppu: ppu@ },
            PpuError::InvalidLength { expected, actual, chars } => PpuFault::InvalidLength {
                expected: *expected as nat,
                actual: *actual as nat,
                chars: chars@,
            },
            PpuError::UnknownLetter { letter } => PpuFault::UnknownLetter { letter: letter@ },
            PpuError::EmptyLetter => PpuFault::EmptyLetter,
            PpuError::UnknownDigraph { letters } => PpuFault::UnknownDigraph { letters: letters@ },
            PpuError::EmptyDigraph => PpuFault::EmptyDigraph,
        }
    }
}

/// What can go wrong while a number is read or checked against its check
/// character.
#[derive(Debug, Clone, PartialEq, Eq)]
pub enum VerifierError {
    /// No digits were given.
    EmptyDigits,
    /// No check character was given.
    EmptyVerifier,
    /// The text is not a decimal number that fits 32 bits.
    InvalidDigits { input: String },
    /// The check character is not a single digit or the letter K.
    InvalidVerifier { verifier: String },
    /// The computation left the range of remainders.
    UnexpectedComputation,
}

/// The mathematical content of a [`VerifierError`].
pub enum VerifierFault {
    EmptyDigits,
    EmptyVerifier,
    InvalidDigits { input: Seq<char> },
    InvalidVerifier { verifier: Seq<char> },
    UnexpectedComputation,
}

impl View for VerifierError {
    type V = VerifierFault;

    open spec fn view(&self) -> VerifierFault {
        match self {
            VerifierError::EmptyDigits => VerifierFault::EmptyDigits,
            VerifierError::EmptyVerifier => VerifierFault::EmptyVerifier,
            VerifierError::InvalidDigits { input } => VerifierFault::InvalidDigits { input: input@ },
            VerifierError::InvalidVerifier { verifier } => VerifierFault::InvalidVerifier {
                verifier: verifier@,
            },
            VerifierError::UnexpectedComputation => VerifierFault::UnexpectedComputation,
        }
    }
}

/// What can go wrong while identifiers are generated.
#[derive(Debug, Clone, PartialEq, Eq)]
pub enum GenerateError {
    /// The lower bound lies above the upper bound.
    InvalidRange { min: i32, max: i32 },
    /// A parameter has a value that generation cannot work with.
    InvalidInput { reason: String },
    /// The range holds fewer numbers than were asked for.
    InsufficientRange { requested: u64, available: u64 },
    /// Sampling failed for a reason that none of the other cases names.
    UnexpectedGeneration(String),
}

/// The mathematical content of a [`GenerateError`].
pub enum GenerateFault {
    InvalidRange { min: int, max: int },
    InvalidInput { reason: Seq<char> },
    InsufficientRange { requested: nat, available: nat },
    UnexpectedGeneration(Seq<char>),
}

impl View for GenerateError {
    type V = GenerateFault;

    open spec fn view(&self) -> GenerateFault {
        match self {
            GenerateError::InvalidRange { min, max } => GenerateFault::InvalidRange {
                min: *min as int,
                max: *max as int,
            },
            GenerateError::InvalidInput { reason } => GenerateFault::InvalidInput {
                reason: reason@,
            },
            GenerateError::InsufficientRange { requested, available } => {
                GenerateFault::InsufficientRange {
                    requested: *requested as nat,
                    available: *available as nat,
                }
            },
            GenerateError::UnexpectedGeneration(detail) => GenerateFault::UnexpectedGeneration(
                detail@,
            ),
        }
    }
}

/// What can go wrong while a request to one of the web services is
/// prepared or its answer is read.
#[derive(Debug, Clone, PartialEq, Eq)]
pub enum ClientError {
    /// The key is empty once the blanks around it are gone.
    EmptyApiKey,
    /// The path is empty once the blanks around it are gone.
    EmptyPath,
    /// The path does not start with a slash.
    InvalidPath,
    /// The transport failed; the text says how.
    HttpError(String),
    /// The service answered with a status outside the successes.
    BadStatus { status: u16, body: String },
    /// The name stands for no response format.
    UnsupportedFormat { expected: String, actual: String },
}

/// The mathematical content of a [`ClientError`].
pub enum ClientFault {
    EmptyApiKey,
    EmptyPath,
    InvalidPath,
    HttpError(Seq<char>),
    BadStatus { status: u16, body: Seq<char> },
    UnsupportedFormat { expected: Seq<char>, actual: Seq<char> },
}

impl View for ClientError {
    type V = ClientFault;

    open spec fn view(&self) -> ClientFault {
        match self {
            ClientError::EmptyApiKey => ClientFault::EmptyApiKey,
            ClientError::EmptyPath => ClientFault::EmptyPath,
            ClientError::InvalidPath => ClientFault::InvalidPath,
            ClientError::HttpError(text) => ClientFault::HttpError(text@),
            ClientError::BadStatus { status, body } => ClientFault::BadStatus {
                status: *status,
                body: body@,
            },
            ClientError::UnsupportedFormat { expected, actual } => ClientFault::UnsupportedFormat {
                expected: expected@,
                actual: actual@,
            },
        }
    }
}

} // verus!
