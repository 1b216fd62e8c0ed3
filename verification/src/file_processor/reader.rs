//! Reading files: the bytes that were read, taken as text.

use crate::error::native_failure;
use crate::error::ErrorKind;
use crate::error::ErrorRecord;
use crate::error::KindView;
use crate::text::decode_text;
use vstd::prelude::*;
use vstd::utf8::*;

verus! {

/// Handle through which the surrounding program reads files.
#[derive(Debug, Clone, Copy, PartialEq, Eq)]
pub struct FileReader;

impl FileReader {
    pub fn new() -> (r: Self)
        ensures
            r == FileReader,
    {
        FileReader
    }

    /// The text of a file, given the bytes that it holds. A file that is
    /// not UTF-8 is refused as `DecodeError`.
    pub fn read_file(bytes: &[u8]) -> (r: Result<String, ErrorRecord>)
        ensures
            match r {
                Ok(text) => valid_utf8(bytes@) && text@ == decode_utf8(bytes@),
                Err(e) => !valid_utf8(bytes@) && e@ == native_failure(
                    KindView::DecodeError,
                    "file is not UTF-8"@,
                ),
            },
    {
        match decode_text(bytes) {
            Some(text) => Ok(text),
            None => Err(ErrorRecord::new(ErrorKind::DecodeError, "file is not UTF-8")),
        }
    }
}

impl Default for FileReader {
    fn default() -> (r: Self)
        ensures
            r == FileReader,
    {
        FileReader::new()
    }
}

} // verus!
