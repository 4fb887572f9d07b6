//! How many bytes a payload holds, found in the cheapest way its source allows.
//!
//! The transport wants the length before the first byte is sent. A cursor
//! over bytes in memory and a regular file tell it without being read; any
//! other source has to be read to its end into a buffer first.

use vstd::prelude::*;

verus! {

/// A cursor over bytes held in memory, by the size of its buffer and its
/// position in it. The buffer may be owned, borrowed, boxed or a string.
#[derive(Clone, Copy, Debug, PartialEq, Eq, Structural)]
pub struct CommonCursor {
    pub buffer_len: u64,
    pub position: u64,
}

impl CommonCursor {
    /// The position lies within the buffer or at its end.
    pub open spec fn well_formed(&self) -> bool {
        self.position <= self.buffer_len
    }

    /// The number of bytes from the position to the buffer's end.
    pub open spec fn remaining(&self) -> int {
        self.buffer_len - self.position
    }

    /// The number of bytes that are left to read. The cursor stays where it is.
    pub fn get_length(&self) -> (r: u64)
        requires
            self.well_formed(),
        ensures
            r == self.remaining(),
    {
        self.buffer_len - self.position
    }
}

/// What the file system says of an open file.
#[derive(Clone, Copy, Debug, PartialEq, Eq, Structural)]
pub struct FileMetadata {
    /// Whether the entry is a regular file.
    pub is_file: bool,
    /// Its size in bytes.
    pub len: u64,
}

/// What is known of a byte source before any of it is read.
#[derive(Clone, Copy, Debug, PartialEq, Eq, Structural)]
pub enum Source {
    /// A cursor over bytes in memory.
    Cursor(CommonCursor),
    /// An open file, with its metadata where the file system gave them.
    File(Option<FileMetadata>),
    /// Anything else that can be read.
    Other,
}

impl Source {
    /// A cursor among the sources lies within its buffer.
    pub open spec fn well_formed(&self) -> bool {
        match *self {
            Source::Cursor(cursor) => cursor.well_formed(),
            _ => true,
        }
    }

    /// The length that is known without reading, if any: what is left of a
    /// cursor's buffer, or the size of a regular file.
    pub open spec fn known_length(&self) -> Option<int> {
        match *self {
            Source::Cursor(cursor) => Some(cursor.remaining()),
            Source::File(Some(metadata)) => if metadata.is_file {
                Some(metadata.len as int)
            } else {
                None
            },
            _ => None,
        }
    }
}

/// The source seen as a cursor over bytes in memory, where it is one.
pub fn downcast_common_cursor(source: &Source) -> (r: Option<CommonCursor>)
    ensures
        match *source {
            Source::Cursor(cursor) => r == Some(cursor),
            _ => r is None,
        },
{
    match source {
        Source::Cursor(cursor) => Some(*cursor),
        _ => None,
    }
}

/// The length of `source` where it is known without reading a byte, and
/// `None` where the source has to be read to its end.
///
/// A cursor gives what is left of its buffer. A file gives its size, if the
/// file system has metadata for it and they name a regular file.
pub fn determine_length(source: &Source) -> (r: Option<u64>)
    requires
        source.well_formed(),
    ensures
        match source.known_length() {
            Some(length) => r matches Some(n) && n == length,
            None => r is None,
        },
{
    if let Some(cursor) = downcast_common_cursor(source) {
        return Some(cursor.get_length());
    }
    if let Source::File(Some(metadata)) = source {
        if metadata.is_file {
            return Some(metadata.len);
        }
    }
    None
}

/// The cursor that stands at the start of a buffer of `data`.
pub open spec fn cursor_over(data: Seq<u8>) -> CommonCursor {
    CommonCursor { buffer_len: data.len() as u64, position: 0 }
}

/// A source that was read to its end, as the payload that takes its place: a
/// cursor at the start of the buffer, and the buffer's size as the length.
///
/// `amount` is the number of bytes that the read reported. It has to be the
/// size of the buffer that the read filled.
pub fn buffered(data: &Vec<u8>, amount: usize) -> (r: (CommonCursor, u64))
    requires
        amount == data@.len(),
    ensures
        r.1 == amount,
        r.1 == data@.len(),
        r.0 == cursor_over(data@),
        r.0.well_formed(),
        r.0.remaining() == r.1,
{
    let length = amount as u64;
    (CommonCursor { buffer_len: length, position: 0 }, length)
}

/// A cursor reports its buffer's size less its position as the length.
pub proof fn lemma_cursor_length(buffer_len: u64, position: u64)
    requires
        position <= buffer_len,
    ensures
        Source::Cursor(CommonCursor { buffer_len, position }).known_length() == Some(
            buffer_len - position,
        ),
{
}

/// A regular file reports the size that its metadata give, and a file
/// without metadata, or one that is not regular, reports none.
pub proof fn lemma_file_length(metadata: Option<FileMetadata>)
    ensures
        match metadata {
            Some(m) => if m.is_file {
                Source::File(metadata).known_length() == Some(m.len as int)
            } else {
                Source::File(metadata).known_length() is None
            },
            None => Source::File(metadata).known_length() is None,
        },
{
}

/// The cursor that takes the place of a buffered source stands at the start
/// of the buffer, and the length that it reports when it is asked again is
/// the number of bytes that were read.
pub proof fn lemma_buffered_length(data: Seq<u8>)
    requires
        data.len() <= u64::MAX,
    ensures
        cursor_over(data).well_formed(),
        cursor_over(data).position == 0,
        Source::Cursor(cursor_over(data)).known_length() == Some(data.len() as int),
{
}

} // verus!
