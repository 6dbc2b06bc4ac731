//! Values read from response headers, and the unit a size is shown in.

use crate::error::{AppError, ErrorView};
use crate::text::{decimal, parse_decimal, parse_i64, push_digits};
use vstd::prelude::*;
use vstd::string::*;

verus! {

/// The message under which a header that is missing or unreadable is
/// reported.
pub open spec fn header_failure(header_name: Seq<char>) -> Seq<char> {
    "Failed to parse header: "@ + header_name
}

fn header_error(header_name: &str) -> (error: AppError)
    ensures
        error@ == ErrorView::FetchError(header_failure(header_name@)),
{
    let mut message = "Failed to parse header: ".to_owned();
    message.append(header_name);
    AppError::FetchError(message)
}

/// The text of a header, given what the response holds under its name:
/// `None` stands for a header that is missing or is no text.
pub fn parse_header(value: Option<&str>, header_name: &str) -> (parsed: Result<String, AppError>)
    ensures
        match value {
            Some(text) => parsed matches Ok(t) && t@ == text@,
            None => parsed matches Err(e) && e@ == ErrorView::FetchError(
                header_failure(header_name@),
            ),
        },
{
    match value {
        Some(text) => Ok(text.to_owned()),
        None => Err(header_error(header_name)),
    }
}

/// The number in a header, given what the response holds under its name:
/// `None` stands for a header that is missing or is no text. A text that is
/// no signed decimal integer is reported like a missing header.
pub fn parse_header_num(value: Option<&str>, header_name: &str) -> (parsed: Result<i64, AppError>)
    ensures
        match value {
            Some(text) if parse_decimal(text@) is Some => parsed matches Ok(n) && parse_decimal(
                text@,
            ) == Some(n as int),
            _ => parsed matches Err(e) && e@ == ErrorView::FetchError(
                header_failure(header_name@),
            ),
        },
{
    match value {
        Some(text) => match parse_i64(text) {
            Some(n) => Ok(n),
            None => Err(header_error(header_name)),
        },
        None => Err(header_error(header_name)),
    }
}

/// The unit in which a size is shown.
#[derive(Clone, Copy, Debug, PartialEq, Eq, Structural)]
pub enum SizeUnit {
    Bytes,
    KB,
    MB,
    GB,
    TB,
}

/// The bytes in one KB, MB, GB and TB.
pub const KB: u64 = 1024;

pub const MB: u64 = 1048576;

pub const GB: u64 = 1073741824;

pub const TB: u64 = 1099511627776;

impl SizeUnit {
    /// The largest unit that a size reaches: each unit is 1024 of the one
    /// before it.
    pub open spec fn spec_of(bytes: int) -> SizeUnit {
        if bytes >= TB {
            SizeUnit::TB
        } else if bytes >= GB {
            SizeUnit::GB
        } else if bytes >= MB {
            SizeUnit::MB
        } else if bytes >= KB {
            SizeUnit::KB
        } else {
            SizeUnit::Bytes
        }
    }

    /// How many bytes make one of the unit.
    pub open spec fn spec_divisor(self) -> int {
        match self {
            SizeUnit::Bytes => 1,
            SizeUnit::KB => KB as int,
            SizeUnit::MB => MB as int,
            SizeUnit::GB => GB as int,
            SizeUnit::TB => TB as int,
        }
    }

    /// The name that follows the number.
    pub open spec fn spec_label(self) -> Seq<char> {
        match self {
            SizeUnit::Bytes => "bytes"@,
            SizeUnit::KB => "KB"@,
            SizeUnit::MB => "MB"@,
            SizeUnit::GB => "GB"@,
            SizeUnit::TB => "TB"@,
        }
    }

    /// The unit in which a size of `bytes` is shown.
    pub fn of(bytes: usize) -> (unit: SizeUnit)
        ensures
            unit == SizeUnit::spec_of(bytes as int),
    {
        let bytes = bytes as u64;
        if bytes >= TB {
            SizeUnit::TB
        } else if bytes >= GB {
            SizeUnit::GB
        } else if bytes >= MB {
            SizeUnit::MB
        } else if bytes >= KB {
            SizeUnit::KB
        } else {
            SizeUnit::Bytes
        }
    }

    /// How many bytes make one of the unit.
    pub fn divisor(self) -> (bytes: u64)
        ensures
            bytes == self.spec_divisor(),
    {
        match self {
            SizeUnit::Bytes => 1,
            SizeUnit::KB => KB,
            SizeUnit::MB => MB,
            SizeUnit::GB => GB,
            SizeUnit::TB => TB,
        }
    }

    /// The name that follows the number.
    pub fn label(self) -> (label: &'static str)
        ensures
            label@ == self.spec_label(),
    {
        match self {
            SizeUnit::Bytes => "bytes",
            SizeUnit::KB => "KB",
            SizeUnit::MB => "MB",
            SizeUnit::GB => "GB",
            SizeUnit::TB => "TB",
        }
    }
}

/// A size as it is shown where it is counted in bytes: the number, a blank
/// and the word `bytes`.
pub fn byte_count_text(bytes: usize) -> (text: String)
    ensures
        text@ == decimal(bytes as int) + " bytes"@,
{
    let mut text = String::new();
    push_digits(&mut text, bytes as u64);
    text.append(" bytes");
    text
}

} // verus!
