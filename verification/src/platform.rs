//! Platform services that users of the library provide.
use vstd::prelude::*;

verus! {

/// Log levels for the logger.
#[derive(Debug, Clone, Copy, PartialEq, Eq)]
pub enum LogLevel {
    /// Error level
    Error,
    /// Warning level
    Warning,
    /// Info level
    Info,
}

impl LogLevel {
    /// The C API value of this variant (`kLogLevel_*`).
    pub open spec fn spec_raw(self) -> u32 {
        match self {
            LogLevel::Error => 0,
            LogLevel::Warning => 1,
            LogLevel::Info => 2,
        }
    }

    /// The C API value of this variant (`kLogLevel_*`).
    pub fn to_raw(&self) -> (r: u32)
        ensures
            r == self.spec_raw(),
    {
        match self {
            LogLevel::Error => 0,
            LogLevel::Warning => 1,
            LogLevel::Info => 2,
        }
    }

    /// The variant with the given C API value; `None` for an unknown value.
    pub fn from_raw(raw: u32) -> (r: Option<LogLevel>)
        ensures
            match r {
                Some(v) => v.spec_raw() == raw,
                None => forall|v: LogLevel| v.spec_raw() != raw,
            },
    {
        if raw == 0 {
            Some(LogLevel::Error)
        } else if raw == 1 {
            Some(LogLevel::Warning)
        } else if raw == 2 {
            Some(LogLevel::Info)
        } else {
            None
        }
    }
}

/// Decoding the C API value of a variant gives the variant back.
pub proof fn lemma_log_level_raw_roundtrip(v: LogLevel)
    ensures
        forall|w: LogLevel| w.spec_raw() == v.spec_raw() ==> w == v,
{
}

/// This can be used to log debug messages to the console or to a log file.
///
/// This is intended to be implemented by users and defined before creating the Renderer.
pub trait Logger {
    /// Invoked when the library wants to print a message to the log.
    fn log_message(&mut self, log_level: LogLevel, message: String);
}

/// This is used for reading and writing data to the platform Clipboard.
pub trait Clipboard {
    /// Clear the clipboard.
    fn clear(&mut self);

    /// Read plaintext from the clipboard.
    ///
    /// Invoked when the library wants to read from the system's clipboard.
    fn read_plain_text(&mut self) -> Option<String>;

    /// Write plaintext to the clipboard.
    ///
    /// Invoked when the library wants to write to the system's clipboard.
    fn write_plain_text(&mut self, text: &str);
}

/// This is used for loading File URLs (eg, <file:///page.html>).
///
/// You can provide the library with your own FileSystem implementation so that file assets are
/// loaded from your own pipeline.
pub trait FileSystem {
    /// Check if file path exists, return true if exists.
    fn file_exists(&mut self, path: &str) -> bool;

    /// Get the mime-type of the file (eg "text/html").
    ///
    /// If a mime-type cannot be determined, this should return "application/unknown".
    fn get_file_mime_type(&mut self, path: &str) -> String;

    /// Get the charset / encoding of the file (eg "utf-8", "iso-8859-1").
    ///
    /// If a charset cannot be determined, a safe default to return is "utf-8".
    fn get_file_charset(&mut self, path: &str) -> String;

    /// Open file for reading and map it to a Buffer.
    ///
    /// If the file was unable to be opened, you should return `None`.
    fn open_file(&mut self, path: &str) -> Option<Vec<u8>>;
}

/// The C API value of each variant (`kLogLevel_*`): `Error` is 0, `Warning` is 1, `Info` is 2.
pub proof fn lemma_log_level_raw_values()
    ensures
        LogLevel::Error.spec_raw() == 0,
        LogLevel::Warning.spec_raw() == 1,
        LogLevel::Info.spec_raw() == 2,
{
}

} // verus!
