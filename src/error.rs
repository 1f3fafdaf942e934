use vstd::prelude::*;

verus! {

/// Failures of the QR pipeline. Each variant carries a human-readable detail.
#[derive(Debug, Clone, PartialEq, Eq)]
pub enum Error {
    /// The payload could not be turned into a QR symbol (it is too long for level H).
    QrCode(String),
    /// The SVG could not be parsed, the pixel buffer could not be made, or PNG
    /// encoding failed.
    Image(String),
    /// The requested export format is neither `svg` nor `png`.
    UnsupportedFormat(String),
    /// The destination exists and overwriting was not allowed.
    FileExists(String),
}

/// Failures of the configuration store's `set` entry point.
#[derive(Debug, Clone, PartialEq, Eq)]
pub enum ConfigError {
    /// The key is not one of `size`, `format`, `foreground`, `background`.
    UnknownKey(String),
}

} // verus!
