//! Writing files: text, turned into the bytes that are to be written.

use crate::text::encode_text;
use vstd::prelude::*;
use vstd::utf8::*;

verus! {

/// Handle through which the surrounding program writes files.
#[derive(Debug, Clone, Copy, PartialEq, Eq)]
pub struct FileWriter;

impl FileWriter {
    pub fn new() -> (r: Self)
        ensures
            r == FileWriter,
    {
        FileWriter
    }

    /// The bytes that a file holds once `content` has been written to it:
    /// its UTF-8 form.
    pub fn write_file(content: &str) -> (bytes: Vec<u8>)
        ensures
            bytes@ == encode_utf8(content@),
    {
        encode_text(content)
    }
}

/// What is written reads back as the same text.
pub proof fn lemma_read_back(content: Seq<char>)
    ensures
        valid_utf8(encode_utf8(content)),
        decode_utf8(encode_utf8(content)) == content,
{
    encode_utf8_valid_utf8(content);
    encode_utf8_decode_utf8(content);
}

impl Default for FileWriter {
    fn default() -> (r: Self)
        ensures
            r == FileWriter,
    {
        FileWriter::new()
    }
}

} // verus!
