//! Value types carried across the conversion boundary: the task record,
//! its status, the uniform outcome of a request, the progress record, and
//! the take-once slot for the file handed to the process at startup.

use vstd::prelude::*;
use crate::error::{ConversionError, error_message};

verus! {

/// One queued conversion request.
#[derive(Debug, Clone)]
pub struct ConversionTask {
    pub id: String,
    pub input_path: String,
    pub output_path: String,
    pub from_format: String,
    pub to_format: String,
    pub status: TaskStatus,
}

/// Where a conversion task stands.
#[derive(Debug, Clone)]
pub enum TaskStatus {
    Pending,
    Processing,
    Completed,
    Failed(String),
}

/// The uniform outcome of one conversion request: a success flag, a
/// message, and the output path when the conversion succeeded.
#[derive(Debug, Clone)]
pub struct ConversionResult {
    pub id: String,
    pub success: bool,
    pub message: String,
    pub output_path: Option<String>,
}

/// The message reported for a successful conversion.
pub open spec fn success_message(from: Seq<char>, to: Seq<char>) -> Seq<char> {
    "Successfully converted "@ + from + " to "@ + to
}

impl ConversionResult {
    /// Folds the outcome of a conversion into the uniform result value:
    /// success with the output path, or failure with the error's message
    /// and no path. Every failure is reported this way; none escapes as a
    /// panic.
    pub fn of(
        id: String,
        from_format: &str,
        to_format: &str,
        outcome: Result<String, ConversionError>,
    ) -> (r: ConversionResult)
        ensures
            r.id == id,
            r.success == (outcome is Ok),
            outcome matches Ok(p) ==> {
                &&& r.output_path matches Some(q) && q == p
                &&& r.message@ == success_message(from_format@, to_format@)
            },
            outcome matches Err(e) ==> {
                &&& r.output_path is None
                &&& r.message@ == error_message(e)
            },
    {
        match outcome {
            Ok(p) => ConversionResult {
                id,
                success: true,
                message: String::from_str("Successfully converted ").concat(from_format).concat(
                    " to ",
                ).concat(to_format),
                output_path: Some(p),
            },
            Err(e) => ConversionResult {
                id,
                success: false,
                message: e.message(),
                output_path: None,
            },
        }
    }
}

impl ConversionResult {
    /// The outcome of a path-based conversion request: as `of`, except
    /// that a failure's message carries the conversion-error prefix in
    /// front of the error's own text.
    pub fn of_path(
        id: String,
        from_format: &str,
        to_format: &str,
        outcome: Result<String, ConversionError>,
    ) -> (r: ConversionResult)
        ensures
            r.id == id,
            r.success == (outcome is Ok),
            outcome matches Ok(p) ==> {
                &&& r.output_path matches Some(q) && q == p
                &&& r.message@ == success_message(from_format@, to_format@)
            },
            outcome matches Err(e) ==> {
                &&& r.output_path is None
                &&& r.message@ == "Conversion error: "@ + error_message(e)
            },
    {
        match outcome {
            Ok(p) => ConversionResult::of(id, from_format, to_format, Ok(p)),
            Err(e) => ConversionResult {
                id,
                success: false,
                message: String::from_str("Conversion error: ").concat(e.message().as_str()),
                output_path: None,
            },
        }
    }
}

/// A progress report for one task.
#[derive(Debug, Clone)]
pub struct ProgressUpdate {
    pub id: String,
    pub percentage: u32,
    pub message: String,
}

/// The single-assignment slot for the file path handed to the process at
/// startup: set once by the bootstrap code, consumed once by the first
/// reader.
#[derive(Debug)]
pub struct SharedState {
    pub initial_file: Option<String>,
}

impl SharedState {
    /// An empty slot.
    pub fn new() -> (r: SharedState)
        ensures
            r.initial_file is None,
    {
        SharedState { initial_file: None }
    }

    /// Stores the startup file path.
    pub fn set_initial_file(&mut self, path: String)
        ensures
            final(self).initial_file == Some(path),
    {
        self.initial_file = Some(path);
    }

    /// Takes the startup file path, leaving the slot empty: a second read
    /// returns nothing.
    pub fn get_initial_file(&mut self) -> (r: Option<String>)
        ensures
            r == old(self).initial_file,
            final(self).initial_file is None,
    {
        self.initial_file.take()
    }
}

} // verus!
