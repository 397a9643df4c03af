//! The error taxonomy of the decoder.

use vstd::prelude::*;

verus! {

/// The mathematical model of what was found where something else was expected.
pub enum Shape {
    Bool(bool),
    Unsigned(u64),
    Signed(i64),
    Float(u64),
    Str(Seq<char>),
    Unit,
    Option,
    NewtypeStruct,
    Sequence,
    Mapping,
    Enum,
    UnitVariant,
}

/// The mathematical model of an [`Error`].
pub enum Failure {
    InvalidType { unexpected: Shape, expected: Seq<char> },
    InvalidValue { unexpected: Shape, expected: Seq<char> },
    InvalidLength { len: nat, expected: Seq<char> },
    Custom(Seq<char>),
}

/// What was found where something else was expected. Text is borrowed from
/// the value that is described.
#[derive(Debug, Clone, Copy)]
pub enum Unexpected<'a> {
    Bool(bool),
    Unsigned(u64),
    Signed(i64),
    /// The bit pattern of a double-precision number.
    Float(u64),
    Str(&'a str),
    Unit,
    Option,
    NewtypeStruct,
    Sequence,
    Mapping,
    Enum,
    UnitVariant,
}

/// An [`Unexpected`] that owns its text, as an error carries it.
#[derive(Debug, PartialEq, Eq)]
pub enum UnexpectedBuf {
    Bool(bool),
    Unsigned(u64),
    Signed(i64),
    /// The bit pattern of a double-precision number.
    Float(u64),
    Str(String),
    Unit,
    Option,
    NewtypeStruct,
    Sequence,
    Mapping,
    Enum,
    UnitVariant,
}

/// Why a decode failed.
#[derive(Debug, PartialEq, Eq)]
pub enum Error {
    /// The shape of a value is not the one that was required.
    InvalidType { unexpected: UnexpectedBuf, expected: String },
    /// The shape is right but the value breaks a rule.
    InvalidValue { unexpected: UnexpectedBuf, expected: String },
    /// Elements of a sequence or mapping of length `len` were left unread.
    InvalidLength { len: usize, expected: String },
    /// A failure that a target raised.
    Custom(String),
}

impl<'a> View for Unexpected<'a> {
    type V = Shape;

    open spec fn view(&self) -> Shape {
        match self {
            Unexpected::Bool(b) => Shape::Bool(*b),
            Unexpected::Unsigned(u) => Shape::Unsigned(*u),
            Unexpected::Signed(i) => Shape::Signed(*i),
            Unexpected::Float(bits) => Shape::Float(*bits),
            Unexpected::Str(s) => Shape::Str(s@),
            Unexpected::Unit => Shape::Unit,
            Unexpected::Option => Shape::Option,
            Unexpected::NewtypeStruct => Shape::NewtypeStruct,
            Unexpected::Sequence => Shape::Sequence,
            Unexpected::Mapping => Shape::Mapping,
            Unexpected::Enum => Shape::Enum,
            Unexpected::UnitVariant => Shape::UnitVariant,
        }
    }
}

impl View for UnexpectedBuf {
    type V = Shape;

    open spec fn view(&self) -> Shape {
        match self {
            UnexpectedBuf::Bool(b) => Shape::Bool(*b),
            UnexpectedBuf::Unsigned(u) => Shape::Unsigned(*u),
            UnexpectedBuf::Signed(i) => Shape::Signed(*i),
            UnexpectedBuf::Float(bits) => Shape::Float(*bits),
            UnexpectedBuf::Str(s) => Shape::Str(s@),
            UnexpectedBuf::Unit => Shape::Unit,
            UnexpectedBuf::Option => Shape::Option,
            UnexpectedBuf::NewtypeStruct => Shape::NewtypeStruct,
            UnexpectedBuf::Sequence => Shape::Sequence,
            UnexpectedBuf::Mapping => Shape::Mapping,
            UnexpectedBuf::Enum => Shape::Enum,
            UnexpectedBuf::UnitVariant => Shape::UnitVariant,
        }
    }
}

impl View for Error {
    type V = Failure;

    open spec fn view(&self) -> Failure {
        match self {
            Error::InvalidType { unexpected, expected } => Failure::InvalidType {
                unexpected: unexpected@,
                expected: expected@,
            },
            Error::InvalidValue { unexpected, expected } => Failure::InvalidValue {
                unexpected: unexpected@,
                expected: expected@,
            },
            Error::InvalidLength { len, expected } => Failure::InvalidLength {
                len: *len as nat,
                expected: expected@,
            },
            Error::Custom(message) => Failure::Custom(message@),
        }
    }
}

impl Clone for UnexpectedBuf {
    fn clone(&self) -> (r: UnexpectedBuf)
        ensures
            r@ == self@,
    {
        match self {
            UnexpectedBuf::Bool(b) => UnexpectedBuf::Bool(*b),
            UnexpectedBuf::Unsigned(u) => UnexpectedBuf::Unsigned(*u),
            UnexpectedBuf::Signed(i) => UnexpectedBuf::Signed(*i),
            UnexpectedBuf::Float(bits) => UnexpectedBuf::Float(*bits),
            UnexpectedBuf::Str(s) => UnexpectedBuf::Str(s.clone()),
            UnexpectedBuf::Unit => UnexpectedBuf::Unit,
            UnexpectedBuf::Option => UnexpectedBuf::Option,
            UnexpectedBuf::NewtypeStruct => UnexpectedBuf::NewtypeStruct,
            UnexpectedBuf::Sequence => UnexpectedBuf::Sequence,
            UnexpectedBuf::Mapping => UnexpectedBuf::Mapping,
            UnexpectedBuf::Enum => UnexpectedBuf::Enum,
            UnexpectedBuf::UnitVariant => UnexpectedBuf::UnitVariant,
        }
    }
}

impl Clone for Error {
    fn clone(&self) -> (r: Error)
        ensures
            r@ == self@,
    {
        match self {
            Error::InvalidType { unexpected, expected } => Error::InvalidType {
                unexpected: unexpected.clone(),
                expected: expected.clone(),
            },
            Error::InvalidValue { unexpected, expected } => Error::InvalidValue {
                unexpected: unexpected.clone(),
                expected: expected.clone(),
            },
            Error::InvalidLength { len, expected } => Error::InvalidLength {
                len: *len,
                expected: expected.clone(),
            },
            Error::Custom(message) => Error::Custom(message.clone()),
        }
    }
}

impl<'a> Unexpected<'a> {
    /// The same classification with its text copied.
    pub fn to_buf(&self) -> (r: UnexpectedBuf)
        ensures
            r@ == self@,
    {
        match *self {
            Unexpected::Bool(b) => UnexpectedBuf::Bool(b),
            Unexpected::Unsigned(u) => UnexpectedBuf::Unsigned(u),
            Unexpected::Signed(i) => UnexpectedBuf::Signed(i),
            Unexpected::Float(bits) => UnexpectedBuf::Float(bits),
            Unexpected::Str(s) => UnexpectedBuf::Str(s.to_owned()),
            Unexpected::Unit => UnexpectedBuf::Unit,
            Unexpected::Option => UnexpectedBuf::Option,
            Unexpected::NewtypeStruct => UnexpectedBuf::NewtypeStruct,
            Unexpected::Sequence => UnexpectedBuf::Sequence,
            Unexpected::Mapping => UnexpectedBuf::Mapping,
            Unexpected::Enum => UnexpectedBuf::Enum,
            Unexpected::UnitVariant => UnexpectedBuf::UnitVariant,
        }
    }
}

impl Error {
    /// A value of shape `unexpected` stood where `expected` was required.
    pub fn invalid_type(unexpected: Unexpected<'_>, expected: &str) -> (r: Error)
        ensures
            r@ == (Failure::InvalidType { unexpected: unexpected@, expected: expected@ }),
    {
        Error::InvalidType { unexpected: unexpected.to_buf(), expected: expected.to_owned() }
    }

    /// A value of shape `unexpected` broke the rule that `expected` names.
    pub fn invalid_value(unexpected: Unexpected<'_>, expected: &str) -> (r: Error)
        ensures
            r@ == (Failure::InvalidValue { unexpected: unexpected@, expected: expected@ }),
    {
        Error::InvalidValue { unexpected: unexpected.to_buf(), expected: expected.to_owned() }
    }

    /// A collection of `len` elements was left with unread elements.
    pub fn invalid_length(len: usize, expected: &str) -> (r: Error)
        ensures
            r@ == (Failure::InvalidLength { len: len as nat, expected: expected@ }),
    {
        Error::InvalidLength { len, expected: expected.to_owned() }
    }

    /// A failure described by `message`.
    pub fn custom(message: &str) -> (r: Error)
        ensures
            r@ == Failure::Custom(message@),
    {
        Error::Custom(message.to_owned())
    }
}

} // verus!
