//! Manual pages: gzip-compressed text whose `.Dd` line carries the date.

use vstd::prelude::*;
use vstd::string::*;
use vstd::utf8::{decode_utf8, valid_utf8};
use zune_inflate::errors::InflateDecodeErrors;
use zune_inflate::DeflateDecoder;
use crate::text::{decimal, push_decimal};

verus! {

#[verifier::external_type_specification]
#[verifier::external_body]
pub struct ExInflateDecodeErrors(InflateDecodeErrors);

/// What a gzip stream holds once it is decompressed, or `None` where the
/// bytes are no gzip stream that `zune_inflate` accepts.
pub uninterp spec fn gunzipped(data: Seq<u8>) -> Option<Seq<u8>>;

/// `zune_inflate::DeflateDecoder::decode_gzip` on a decoder made by
/// `DeflateDecoder::new`, that is with the crate's default options. The
/// contract only names the result: it is a function of the bytes.
#[verifier::external_body]
fn decode_gzip(data: &[u8]) -> (decoded: Result<Vec<u8>, InflateDecodeErrors>)
    ensures
        match decoded {
            Ok(bytes) => gunzipped(data@) == Some(bytes@),
            Err(_) => gunzipped(data@) is None,
        },
{
    DeflateDecoder::new(data).decode_gzip()
}

/// `String::from_utf8`: the text that the bytes encode, or nothing where
/// they are not valid UTF-8.
#[verifier::external_body]
fn text_from_utf8(bytes: Vec<u8>) -> (text: Option<String>)
    ensures
        match text {
            Some(t) => valid_utf8(bytes@) && t@ == decode_utf8(bytes@),
            None => !valid_utf8(bytes@),
        },
{
    String::from_utf8(bytes).ok()
}

/// Why a manual page could not be read.
#[derive(Clone, Copy, Debug, PartialEq, Eq, Structural)]
pub enum ManualError {
    /// The file is no gzip stream, or a damaged one.
    Compression,
    /// The decompressed bytes are not text.
    Encoding,
}

/// The text of a compressed manual page.
pub open spec fn manual_text(raw_bytes: Seq<u8>) -> Result<Seq<char>, ManualError> {
    match gunzipped(raw_bytes) {
        Some(bytes) => if valid_utf8(bytes) {
            Ok(decode_utf8(bytes))
        } else {
            Err(ManualError::Encoding)
        },
        None => Err(ManualError::Compression),
    }
}

/// The text that a gzip stream was found to hold.
pub open spec fn text_of(decoded: Option<Seq<u8>>) -> Result<Seq<char>, ManualError> {
    match decoded {
        Some(bytes) => if valid_utf8(bytes) {
            Ok(decode_utf8(bytes))
        } else {
            Err(ManualError::Encoding)
        },
        None => Err(ManualError::Compression),
    }
}

pub const NEWLINE: u8 = 10;

pub const CARRIAGE_RETURN: u8 = 13;

/// How many bytes come before the first newline, or how many there are
/// without one.
pub open spec fn line_end(bytes: Seq<u8>) -> int
    decreases bytes.len(),
{
    if bytes.len() == 0 || bytes[0] == NEWLINE {
        0
    } else {
        1 + line_end(bytes.drop_first())
    }
}

/// The first line, without its line ending: a newline, or a carriage
/// return and a newline.
pub open spec fn first_line(bytes: Seq<u8>) -> Seq<u8> {
    let end = line_end(bytes);
    if 0 < end < bytes.len() && bytes[end - 1] == CARRIAGE_RETURN {
        bytes.take(end - 1)
    } else {
        bytes.take(end)
    }
}

/// What follows the first line and its line ending.
pub open spec fn after_first_line(bytes: Seq<u8>) -> Seq<u8> {
    if line_end(bytes) < bytes.len() {
        bytes.skip(line_end(bytes) + 1)
    } else {
        Seq::empty()
    }
}

/// Whether the line begins with `.Dd`.
pub open spec fn is_dated(line: Seq<u8>) -> bool {
    line.len() >= 3 && line[0] == 46 && line[1] == 68 && line[2] == 100
}

/// The date on a line that begins with `.Dd`: what follows `.Dd` and one
/// more byte, where there is such a byte and what follows it is text.
pub open spec fn stamp(line: Seq<u8>) -> Option<Seq<char>> {
    if is_dated(line) && line.len() >= 4 && valid_utf8(line.skip(4)) {
        Some(decode_utf8(line.skip(4)))
    } else {
        None
    }
}

/// The end of the first line lies within the bytes.
pub proof fn lemma_line_end_bounds(bytes: Seq<u8>)
    ensures
        0 <= line_end(bytes) <= bytes.len(),
    decreases bytes.len(),
{
    if bytes.len() > 0 && bytes[0] != NEWLINE {
        lemma_line_end_bounds(bytes.drop_first());
    }
}

/// The date of a manual page: that of its last line that carries one.
pub open spec fn manual_date(bytes: Seq<u8>) -> Option<Seq<char>>
    decreases bytes.len(),
{
    if bytes.len() == 0 {
        None
    } else {
        proof {
            lemma_line_end_bounds(bytes);
        }
        match manual_date(after_first_line(bytes)) {
            Some(date) => Some(date),
            None => stamp(first_line(bytes)),
        }
    }
}

/// Whether the date can be read on every line that begins with `.Dd`:
/// whether each such line goes on behind `.Dd` for at least one byte, and
/// is not cut inside a character behind that byte.
pub open spec fn dates_readable(bytes: Seq<u8>) -> bool
    decreases bytes.len(),
{
    if bytes.len() == 0 {
        true
    } else {
        proof {
            lemma_line_end_bounds(bytes);
        }
        (is_dated(first_line(bytes)) ==> stamp(first_line(bytes)) is Some) && dates_readable(
            after_first_line(bytes),
        )
    }
}

/// The end of the first line is the first newline, or the end of the
/// bytes.
pub proof fn lemma_line_end_is(bytes: Seq<u8>, n: int)
    requires
        0 <= n <= bytes.len(),
        forall|k: int| 0 <= k < n ==> bytes[k] != NEWLINE,
        n == bytes.len() || bytes[n] == NEWLINE,
    ensures
        line_end(bytes) == n,
    decreases bytes.len(),
{
    if n > 0 {
        let rest = bytes.drop_first();
        assert forall|k: int| 0 <= k < n - 1 implies rest[k] != NEWLINE by {
            assert(rest[k] == bytes[k + 1]);
        }
        lemma_line_end_is(rest, n - 1);
    }
}

/// A manual page on disk.
#[derive(Clone, Debug, PartialEq, Eq)]
pub struct Manual {
    pub path: String,
}

/// The directory that holds the manual pages of a category.
pub open spec fn category_path(category: u8) -> Seq<char> {
    "/usr/share/man/man"@ + decimal(category as nat)
}

impl Manual {
    /// The directory that holds the manual pages of a category.
    pub fn category_dir(category: u8) -> (path: String)
        ensures
            path@ == category_path(category),
    {
        let mut path = String::from_str("/usr/share/man/man");
        push_decimal(&mut path, category as u128);
        path
    }

    /// The text in the bytes that a compressed page was found to hold.
    pub fn text(decoded: Result<Vec<u8>, InflateDecodeErrors>) -> (text: Result<
        String,
        ManualError,
    >)
        ensures
            match text {
                Ok(t) => decoded matches Ok(bytes) && text_of(Some(bytes@)) == Ok::<
                    Seq<char>,
                    ManualError,
                >(t@),
                Err(e) => match decoded {
                    Ok(bytes) => text_of(Some(bytes@)) == Err::<Seq<char>, ManualError>(e),
                    Err(_) => e == ManualError::Compression,
                },
            },
    {
        match decoded {
            Ok(bytes) => match text_from_utf8(bytes) {
                Some(text) => Ok(text),
                None => Err(ManualError::Encoding),
            },
            Err(_) => Err(ManualError::Compression),
        }
    }

    /// Decompresses the bytes of a page and reads them as text.
    pub fn read_raw(raw_bytes: &[u8]) -> (text: Result<String, ManualError>)
        ensures
            match text {
                Ok(t) => manual_text(raw_bytes@) == Ok::<Seq<char>, ManualError>(t@),
                Err(e) => manual_text(raw_bytes@) == Err::<Seq<char>, ManualError>(e),
            },
    {
        Self::text(decode_gzip(raw_bytes))
    }

    fn stamp_of(content: &[u8], from: usize, to: usize) -> (r: (Option<String>, bool))
        requires
            from <= to <= content@.len(),
        ensures
            match r.0 {
                Some(d) => stamp(content@.subrange(from as int, to as int)) == Some(d@),
                None => stamp(content@.subrange(from as int, to as int)) is None,
            },
            r.1 == is_dated(content@.subrange(from as int, to as int)),
    {
        let ghost line = content@.subrange(from as int, to as int);
        if to - from < 3 {
            return (None, false);
        }
        assert(line[0] == content@[from as int]);
        assert(line[1] == content@[from + 1]);
        assert(line[2] == content@[from + 2]);
        if content[from] != 46 || content[from + 1] != 68 || content[from + 2] != 100 {
            return (None, false);
        }
        if to - from < 4 {
            return (None, true);
        }
        let mut rest: Vec<u8> = Vec::new();
        let mut i: usize = from + 4;
        while i < to
            invariant
                from + 4 <= i <= to <= content@.len(),
                rest@ == content@.subrange(from + 4, i as int),
            decreases to - i,
        {
            rest.push(content[i]);
            assert(rest@ =~= content@.subrange(from + 4, i + 1));
            i = i + 1;
        }
        assert(rest@ =~= line.skip(4));
        (text_from_utf8(rest), true)
    }

    fn scan(raw_content: &[u8]) -> (r: (Option<String>, bool))
        ensures
            match r.0 {
                Some(d) => manual_date(raw_content@) == Some(d@),
                None => manual_date(raw_content@) is None,
            },
            r.1 == dates_readable(raw_content@),
    {
        let len = raw_content.len();
        let mut date: Option<String> = None;
        let mut readable = true;
        let mut pos: usize = 0;
        assert(raw_content@.skip(0) =~= raw_content@);
        while pos < len
            invariant
                len == raw_content@.len(),
                0 <= pos <= len,
                manual_date(raw_content@) == (match manual_date(raw_content@.skip(pos as int)) {
                    Some(d) => Some(d),
                    None => match date {
                        Some(d) => Some(d@),
                        None => None,
                    },
                }),
                dates_readable(raw_content@) == (readable && dates_readable(
                    raw_content@.skip(pos as int),
                )),
            decreases len - pos,
        {
            let ghost rest = raw_content@.skip(pos as int);
            let mut end: usize = pos;
            while end < len && raw_content[end] != NEWLINE
                invariant
                    len == raw_content@.len(),
                    pos <= end <= len,
                    forall|k: int| pos <= k < end ==> raw_content@[k] != NEWLINE,
                decreases len - end,
            {
                end = end + 1;
            }
            proof {
                assert forall|k: int| 0 <= k < end - pos implies rest[k] != NEWLINE by {
                    assert(rest[k] == raw_content@[pos + k]);
                }
                lemma_line_end_is(rest, end - pos);
            }
            let stop: usize = if end < len && end > pos && raw_content[end - 1]
                == CARRIAGE_RETURN {
                end - 1
            } else {
                end
            };
            assert(first_line(rest) =~= raw_content@.subrange(pos as int, stop as int));
            let (found, dated) = Self::stamp_of(raw_content, pos, stop);
            if dated && found.is_none() {
                readable = false;
            }
            match found {
                Some(found) => {
                    date = Some(found);
                },
                None => {},
            }
            if end < len {
                assert(after_first_line(rest) =~= raw_content@.skip(end + 1));
                pos = end + 1;
            } else {
                assert(after_first_line(rest) =~= raw_content@.skip(len as int));
                pos = len;
            }
        }
        assert(raw_content@.skip(len as int) =~= Seq::<u8>::empty());
        (date, readable)
    }

    /// Whether the date can be read on every `.Dd` line of the text.
    pub fn dates_are_readable(raw_content: &str) -> (readable: bool)
        ensures
            readable == dates_readable(raw_content.spec_bytes()),
    {
        Self::scan(raw_content.as_bytes()).1
    }

    /// Finds the date of a page in its text: what stands on its last `.Dd`
    /// line. A text with a `.Dd` line on which no date can be read is not
    /// accepted.
    pub fn read(raw_content: &str) -> (date: Option<String>)
        requires
            dates_readable(raw_content.spec_bytes()),
        ensures
            match date {
                Some(d) => manual_date(raw_content.spec_bytes()) == Some(d@),
                None => manual_date(raw_content.spec_bytes()) is None,
            },
    {
        Self::scan(raw_content.as_bytes()).0
    }
}

} // verus!
