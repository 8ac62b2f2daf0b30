//! The fixed taxonomy of label values: pipeline stage, error kind and
//! compression kind. Call sites never fabricate label strings; every label
//! value on a metric or a log field comes from one of these enumerations.

use vstd::prelude::*;

verus! {

/// The pipeline phase in which a failure occurred.
#[derive(Clone, Copy, Debug, PartialEq, Eq, Structural)]
pub enum Stage {
    Receiving,
    Processing,
}

impl Stage {
    /// The stable, lowercase label value of this stage.
    pub open spec fn label_spec(self) -> Seq<char> {
        match self {
            Stage::Receiving => "receiving"@,
            Stage::Processing => "processing"@,
        }
    }

    pub fn label(self) -> (r: String)
        ensures
            r@ == self.label_spec(),
    {
        match self {
            Stage::Receiving => "receiving".to_owned(),
            Stage::Processing => "processing".to_owned(),
        }
    }
}

/// The category of failure.
#[derive(Clone, Copy, Debug, PartialEq, Eq, Structural)]
pub enum ErrorType {
    RequestFailed,
    ParserFailed,
}

impl ErrorType {
    /// The stable, lowercase label value of this error kind.
    pub open spec fn label_spec(self) -> Seq<char> {
        match self {
            ErrorType::RequestFailed => "request_failed"@,
            ErrorType::ParserFailed => "parser_failed"@,
        }
    }

    pub fn label(self) -> (r: String)
        ensures
            r@ == self.label_spec(),
    {
        match self {
            ErrorType::RequestFailed => "request_failed".to_owned(),
            ErrorType::ParserFailed => "parser_failed".to_owned(),
        }
    }
}

/// How a record handed to the source was compressed: either a configured
/// kind, or the `Auto` sentinel meaning the kind was sniffed from the data.
/// `Uncompressed` is rendered as `none`.
#[derive(Clone, Copy, Debug, PartialEq, Eq, Structural)]
pub enum Compression {
    Auto,
    Uncompressed,
    Gzip,
}

impl Compression {
    /// The stable, lowercase name of this compression kind.
    pub open spec fn label_spec(self) -> Seq<char> {
        match self {
            Compression::Auto => "auto"@,
            Compression::Uncompressed => "none"@,
            Compression::Gzip => "gzip"@,
        }
    }

    pub fn label(self) -> (r: String)
        ensures
            r@ == self.label_spec(),
    {
        match self {
            Compression::Auto => "auto".to_owned(),
            Compression::Uncompressed => "none".to_owned(),
            Compression::Gzip => "gzip".to_owned(),
        }
    }
}

} // verus!
