//! The error type shared by every fallible operation of the pipeline.

use vstd::prelude::*;
use vstd::string::StringExecFns;

verus! {

/// What went wrong, by origin. Each variant carries the text that describes the failure;
/// for failures raised by a native library it is that library's own description.
#[derive(Debug)]
pub enum WaycapError {
    /// Errors from FFmpeg
    FFmpeg(String),
    /// Egl Errors,
    Egl(String),
    /// Errors from PipeWire
    PipeWire(String),
    /// Errors from XDG Portal
    Portal(String),
    /// I/O errors
    Io(String),
    /// Initialization errors
    Init(String),
    /// Configuration errors
    Config(String),
    /// Stream errors
    Stream(String),
    /// Encoding errors
    Encoding(String),
    /// Device errors
    Device(String),
    /// Validation errors
    Validation(String),
    /// Other errors
    Other(String),
}

impl WaycapError {
    /// The text that this error carries.
    pub open spec fn detail(&self) -> Seq<char> {
        match self {
            WaycapError::FFmpeg(msg) => msg@,
            WaycapError::Egl(msg) => msg@,
            WaycapError::PipeWire(msg) => msg@,
            WaycapError::Portal(msg) => msg@,
            WaycapError::Io(msg) => msg@,
            WaycapError::Init(msg) => msg@,
            WaycapError::Config(msg) => msg@,
            WaycapError::Stream(msg) => msg@,
            WaycapError::Encoding(msg) => msg@,
            WaycapError::Device(msg) => msg@,
            WaycapError::Validation(msg) => msg@,
            WaycapError::Other(msg) => msg@,
        }
    }

    /// The words that introduce the text of an error of this variant.
    pub open spec fn prefix(&self) -> Seq<char> {
        match self {
            WaycapError::FFmpeg(_) => "FFmpeg error: "@,
            WaycapError::Egl(_) => "Egl Error: "@,
            WaycapError::PipeWire(_) => "PipeWire error: "@,
            WaycapError::Portal(_) => "XDG Portal error: "@,
            WaycapError::Io(_) => "I/O error: "@,
            WaycapError::Init(_) => "Initialization error: "@,
            WaycapError::Config(_) => "Configuration error: "@,
            WaycapError::Stream(_) => "Stream error: "@,
            WaycapError::Encoding(_) => "Encoding error: "@,
            WaycapError::Device(_) => "Device error: "@,
            WaycapError::Validation(_) => "Validation error: "@,
            WaycapError::Other(_) => "Error: "@,
        }
    }

    fn prefix_text(&self) -> (text: &'static str)
        ensures
            text@ == self.prefix(),
    {
        match self {
            WaycapError::FFmpeg(_) => "FFmpeg error: ",
            WaycapError::Egl(_) => "Egl Error: ",
            WaycapError::PipeWire(_) => "PipeWire error: ",
            WaycapError::Portal(_) => "XDG Portal error: ",
            WaycapError::Io(_) => "I/O error: ",
            WaycapError::Init(_) => "Initialization error: ",
            WaycapError::Config(_) => "Configuration error: ",
            WaycapError::Stream(_) => "Stream error: ",
            WaycapError::Encoding(_) => "Encoding error: ",
            WaycapError::Device(_) => "Device error: ",
            WaycapError::Validation(_) => "Validation error: ",
            WaycapError::Other(_) => "Error: ",
        }
    }

    fn detail_text(&self) -> (text: &str)
        ensures
            text@ == self.detail(),
    {
        match self {
            WaycapError::FFmpeg(msg) => msg.as_str(),
            WaycapError::Egl(msg) => msg.as_str(),
            WaycapError::PipeWire(msg) => msg.as_str(),
            WaycapError::Portal(msg) => msg.as_str(),
            WaycapError::Io(msg) => msg.as_str(),
            WaycapError::Init(msg) => msg.as_str(),
            WaycapError::Config(msg) => msg.as_str(),
            WaycapError::Stream(msg) => msg.as_str(),
            WaycapError::Encoding(msg) => msg.as_str(),
            WaycapError::Device(msg) => msg.as_str(),
            WaycapError::Validation(msg) => msg.as_str(),
            WaycapError::Other(msg) => msg.as_str(),
        }
    }

    /// The error as a line for a person to read: the variant's prefix, then its text.
    pub fn message(&self) -> (line: String)
        ensures
            line@ == self.prefix() + self.detail(),
    {
        let line = String::from_str(self.prefix_text());
        line.concat(self.detail_text())
    }

    /// An initialization error with the given text.
    pub fn init(text: &str) -> (e: Self)
        ensures
            e is Init,
            e.detail() == text@,
    {
        WaycapError::Init(String::from_str(text))
    }

    /// A configuration error with the given text.
    pub fn config(text: &str) -> (e: Self)
        ensures
            e is Config,
            e.detail() == text@,
    {
        WaycapError::Config(String::from_str(text))
    }

    /// An encoding error with the given text.
    pub fn encoding(text: &str) -> (e: Self)
        ensures
            e is Encoding,
            e.detail() == text@,
    {
        WaycapError::Encoding(String::from_str(text))
    }

    /// A validation error with the given text.
    pub fn validation(text: &str) -> (e: Self)
        ensures
            e is Validation,
            e.detail() == text@,
    {
        WaycapError::Validation(String::from_str(text))
    }

    /// An error of no particular origin with the given text.
    pub fn other(text: &str) -> (e: Self)
        ensures
            e is Other,
            e.detail() == text@,
    {
        WaycapError::Other(String::from_str(text))
    }
}

impl From<String> for WaycapError {
    fn from(err: String) -> (e: Self) {
        WaycapError::Other(err)
    }
}

impl vstd::std_specs::convert::FromSpecImpl<String> for WaycapError {
    open spec fn obeys_from_spec() -> bool {
        true
    }

    open spec fn from_spec(err: String) -> Self {
        WaycapError::Other(err)
    }
}

} // verus!
