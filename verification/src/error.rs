//! The ways a conversion can fail.

use vstd::prelude::*;
use vstd::string::*;

verus! {

/// Why an operation on one image failed.
#[derive(Debug)]
pub enum ConvertError {
    /// The input at `path` could not be opened or read.
    UnreadableFile { path: String, cause: String },
    /// A codec could not decode the image at `path` or one of its planes.
    Decode { path: String, cause: String },
    /// The requested output format is neither JPEG nor PNG.
    UnsupportedFormat,
    /// Compressing or writing the output failed; holds the cause.
    Encode(String),
    /// The output path cannot be used.
    InvalidOutputPath,
}

impl ConvertError {
    /// The path of the input the error is about; empty where it is about
    /// none.
    pub open spec fn path(&self) -> Seq<char> {
        match self {
            ConvertError::UnreadableFile { path, .. } => path@,
            ConvertError::Decode { path, .. } => path@,
            _ => Seq::empty(),
        }
    }

    /// The underlying cause; empty where the kind says it all.
    pub open spec fn cause(&self) -> Seq<char> {
        match self {
            ConvertError::UnreadableFile { cause, .. } => cause@,
            ConvertError::Decode { cause, .. } => cause@,
            ConvertError::Encode(cause) => cause@,
            _ => Seq::empty(),
        }
    }

    /// The text shown to the user for this error: for an input, its path,
    /// a colon and the cause.
    pub open spec fn text(&self) -> Seq<char> {
        match self {
            ConvertError::UnreadableFile { path, cause } => path@ + ": "@ + cause@,
            ConvertError::Decode { path, cause } => path@ + ": "@ + cause@,
            ConvertError::UnsupportedFormat => "Unsupported format"@,
            ConvertError::Encode(cause) => cause@,
            ConvertError::InvalidOutputPath => "Invalid path"@,
        }
    }

    /// A description for the user.
    pub fn message(&self) -> (m: String)
        ensures
            m@ == self.text(),
    {
        match self {
            ConvertError::UnreadableFile { path, cause } => about_input(path, cause),
            ConvertError::Decode { path, cause } => about_input(path, cause),
            ConvertError::UnsupportedFormat => "Unsupported format".to_owned(),
            ConvertError::Encode(cause) => cause.clone(),
            ConvertError::InvalidOutputPath => "Invalid path".to_owned(),
        }
    }
}

fn about_input(path: &String, cause: &String) -> (m: String)
    ensures
        m@ == path@ + ": "@ + cause@,
{
    let mut m: String = path.clone();
    m.append(": ");
    m.append(cause.as_str());
    m
}

} // verus!
