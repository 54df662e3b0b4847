//! Texts of sizes and transfer rates.

use vstd::prelude::*;

use crate::frequency::decimal_digits;

verus! {

/// The units a size is written in.
#[derive(Clone, Copy, Debug, PartialEq, Eq, Structural)]
pub enum SizeBase {
    /// Powers of 1024: B, KiB, MiB, …
    Binary,
    /// Powers of 1000: B, kB, MB, …
    Decimal,
}

/// The text `humansize::format_size` gives for `size` bytes in `base` units.
pub uninterp spec fn formatted_size(size: u64, base: SizeBase) -> Seq<char>;

/// The number below which a size is written in bytes.
pub open spec fn kilo(base: SizeBase) -> nat {
    match base {
        SizeBase::Binary => 1024,
        SizeBase::Decimal => 1000,
    }
}

/// `humansize::format_size(size, BINARY)` or `(size, DECIMAL)`: the size
/// divided by the base until under it, with two decimals when it has a
/// fraction, a space and the unit. Below the base this is the number of
/// bytes followed by `" B"`.
#[verifier::external_body]
fn format_size(size: u64, base: SizeBase) -> (text: String)
    ensures
        text@ == formatted_size(size, base),
        size < kilo(base) ==> text@ == decimal_digits(size as nat) + " B"@,
{
    match base {
        SizeBase::Binary => humansize::format_size(size, humansize::BINARY),
        SizeBase::Decimal => humansize::format_size(size, humansize::DECIMAL),
    }
}

/// A size in binary units, such as a memory or disk capacity.
pub fn size_text(bytes: u64) -> (text: String)
    ensures
        text@ == formatted_size(bytes, SizeBase::Binary),
{
    format_size(bytes, SizeBase::Binary)
}

/// A transfer rate in decimal units per second.
pub fn rate_text(bytes_per_second: u64) -> (text: String)
    ensures
        text@ == formatted_size(bytes_per_second, SizeBase::Decimal) + "/s"@,
{
    let mut text = format_size(bytes_per_second, SizeBase::Decimal);
    text.append("/s");
    text
}

/// The two directions of a transfer.
#[derive(Clone, Copy, Debug, PartialEq, Eq, Structural)]
pub enum Traffic {
    /// Disk reads and writes.
    Disk,
    /// Network reception and sending.
    Network,
}

/// The words after the first and second rate.
pub open spec fn traffic_words(traffic: Traffic) -> (Seq<char>, Seq<char>) {
    match traffic {
        Traffic::Disk => ("/s read / "@, "/s write"@),
        Traffic::Network => ("/s rx / "@, "/s tx"@),
    }
}

/// Both rates of a transfer on one line: `"{read}/s read / {write}/s write"`
/// for disks, `"{rx}/s rx / {tx}/s tx"` for networks.
pub fn traffic_text(traffic: Traffic, first: u64, second: u64) -> (text: String)
    ensures
        text@ == formatted_size(first, SizeBase::Decimal) + traffic_words(traffic).0
            + formatted_size(second, SizeBase::Decimal) + traffic_words(traffic).1,
{
    let mut text = format_size(first, SizeBase::Decimal);
    match traffic {
        Traffic::Disk => text.append("/s read / "),
        Traffic::Network => text.append("/s rx / "),
    }
    let second_text = format_size(second, SizeBase::Decimal);
    text.append(second_text.as_str());
    match traffic {
        Traffic::Disk => text.append("/s write"),
        Traffic::Network => text.append("/s tx"),
    }
    text
}

} // verus!
