//! Numbers in sysfs and procfs files: the trimmed contents parsed as an
//! integer of a given type, when the file could be read and it parses.
use vstd::prelude::*;

use crate::num::{
    parse_i32, parse_i32_chars, parse_i64, parse_i64_chars, parse_u32, parse_u32_chars, parse_u64,
    parse_u64_chars, parse_u8, parse_u8_chars,
};
use crate::text::{chars_of, opt_string_view, trim, trim_chars};

verus! {

/// A number from sysfs (`u64`), when it could be read and parses.
pub open spec fn sysfs_u64(content: Option<Seq<char>>) -> Option<u64> {
    match content {
        Some(c) => parse_u64(trim(c)),
        None => None,
    }
}

/// A signed number from sysfs (`i64`), when it could be read and parses.
pub open spec fn sysfs_i64(content: Option<Seq<char>>) -> Option<i64> {
    match content {
        Some(c) => parse_i64(trim(c)),
        None => None,
    }
}

/// The trimmed contents of a sysfs file as a `u64`.
pub fn read_sysfs_u64(content: Option<&str>) -> (r: Option<u64>)
    ensures
        r == sysfs_u64(
            match content {
                Some(c) => Some(c@),
                None => None,
            },
        ),
{
    match content {
        Some(c) => parse_u64_chars(&trim_chars(&chars_of(c))),
        None => None,
    }
}

/// The trimmed contents of a sysfs file as an `i64`.
pub fn read_sysfs_i64(content: Option<&str>) -> (r: Option<i64>)
    ensures
        r == sysfs_i64(
            match content {
                Some(c) => Some(c@),
                None => None,
            },
        ),
{
    match content {
        Some(c) => parse_i64_chars(&trim_chars(&chars_of(c))),
        None => None,
    }
}

/// A small number from sysfs (`u8`), when it could be read and parses.
pub open spec fn sysfs_u8(content: Option<Seq<char>>) -> Option<u8> {
    match content {
        Some(c) => parse_u8(trim(c)),
        None => None,
    }
}

/// A number from sysfs (`u32`), when it could be read and parses.
pub open spec fn sysfs_u32(content: Option<Seq<char>>) -> Option<u32> {
    match content {
        Some(c) => parse_u32(trim(c)),
        None => None,
    }
}

/// A signed number from sysfs (`i32`), when it could be read and parses.
pub open spec fn sysfs_i32(content: Option<Seq<char>>) -> Option<i32> {
    match content {
        Some(c) => parse_i32(trim(c)),
        None => None,
    }
}

/// The trimmed contents of a sysfs file as a `u8`.
pub fn read_sysfs_u8(content: Option<&str>) -> (r: Option<u8>)
    ensures
        r == sysfs_u8(
            match content {
                Some(c) => Some(c@),
                None => None,
            },
        ),
{
    match content {
        Some(c) => parse_u8_chars(&trim_chars(&chars_of(c))),
        None => None,
    }
}

/// The trimmed contents of a sysfs file as a `u32`.
pub fn read_sysfs_u32(content: Option<&str>) -> (r: Option<u32>)
    ensures
        r == sysfs_u32(
            match content {
                Some(c) => Some(c@),
                None => None,
            },
        ),
{
    match content {
        Some(c) => parse_u32_chars(&trim_chars(&chars_of(c))),
        None => None,
    }
}

/// The trimmed contents of a sysfs file as an `i32`.
pub fn read_sysfs_i32(content: Option<&str>) -> (r: Option<i32>)
    ensures
        r == sysfs_i32(
            match content {
                Some(c) => Some(c@),
                None => None,
            },
        ),
{
    match content {
        Some(c) => parse_i32_chars(&trim_chars(&chars_of(c))),
        None => None,
    }
}

/// Whole degrees of a temperature in millidegrees, the fraction cut off
/// toward zero (as integer division does).
pub open spec fn whole_degrees(milli: i32) -> i32 {
    (if milli >= 0 {
        milli / 1000
    } else {
        -((-milli) / 1000)
    }) as i32
}

/// Whole degrees of a temperature in millidegrees.
pub fn millidegrees_to_degrees(milli: i32) -> (d: i32)
    ensures
        d == whole_degrees(milli),
{
    if milli >= 0 {
        let u: u32 = milli as u32;
        (u / 1000) as i32
    } else {
        let m: i64 = milli as i64;
        let p: u64 = (0 - m) as u64;
        let q: u64 = p / 1000;
        assert(q <= 2147483648u64 / 1000) by (nonlinear_arith)
            requires
                p <= 2147483648u64,
                q == p / 1000,
        ;
        let qi: i64 = q as i64;
        (0 - qi) as i32
    }
}

/// A temperature from sysfs in millidegrees, in whole degrees.
pub open spec fn sysfs_degrees(content: Option<Seq<char>>) -> Option<i32> {
    match sysfs_i32(content) {
        Some(t) => Some(whole_degrees(t)),
        None => None,
    }
}

/// A temperature from sysfs in millidegrees, in whole degrees.
pub fn read_sysfs_degrees(content: Option<&str>) -> (r: Option<i32>)
    ensures
        r == sysfs_degrees(
            match content {
                Some(c) => Some(c@),
                None => None,
            },
        ),
{
    match read_sysfs_i32(content) {
        Some(t) => Some(millidegrees_to_degrees(t)),
        None => None,
    }
}


/// The text of an optional string, borrowed.
pub fn as_str_opt(o: &Option<String>) -> (r: Option<&str>)
    ensures
        match r {
            Some(s) => opt_string_view(*o) == Some(s@),
            None => o is None,
        },
{
    match o {
        Some(s) => Some(s.as_str()),
        None => None,
    }
}

/// A directory entry's name read as a process ID (`str::parse::<u32>`,
/// untrimmed).
pub fn pid_of_name(name: &str) -> (r: Option<u32>)
    ensures
        r == parse_u32(name@),
{
    parse_u32_chars(&chars_of(name))
}

/// Whole degrees cut the fraction off toward zero: the result times 1000
/// lies within 1000 of the millidegrees on the side of zero, and a
/// temperature below zero gives the negation of its opposite.
pub proof fn lemma_whole_degrees(milli: i32)
    ensures
        milli >= 0 ==> whole_degrees(milli) * 1000 <= milli < whole_degrees(milli) * 1000 + 1000,
        milli < 0 ==> whole_degrees(milli) * 1000 - 1000 < milli <= whole_degrees(milli) * 1000,
        milli > i32::MIN ==> whole_degrees((-milli) as i32) == -whole_degrees(milli),
{
    if milli >= 0 {
        assert((milli / 1000) * 1000 <= milli < (milli / 1000) * 1000 + 1000) by (nonlinear_arith)
            requires
                milli >= 0,
        ;
    } else {
        let m = -milli;
        assert((m / 1000) * 1000 <= m < (m / 1000) * 1000 + 1000) by (nonlinear_arith)
            requires
                m > 0,
        ;
    }
}

} // verus!
