//! Storage temperatures from what a drive answers to a S.M.A.R.T. read and
//! to a storage-property query: the attribute table and the device
//! descriptor, read byte by byte.
use vstd::prelude::*;

use crate::num::{dec, push_dec};
use crate::text::{chars_of, extend_str, string_of, trim, trim_chars};

verus! {

/// Temperature (most drives)
const SMART_ATTR_TEMPERATURE: u8 = 194;

/// Airflow temperature
const SMART_ATTR_AIRFLOW_TEMP: u8 = 190;

/// Temperature (SSD alternate)
const SMART_ATTR_TEMPERATURE_2: u8 = 231;

/// Drive temperature
const SMART_ATTR_DRIVE_TEMP: u8 = 0xBE;

/// Whether a S.M.A.R.T. attribute ID is one that reports a temperature.
pub open spec fn is_temperature_attribute(id: u8) -> bool {
    id == 194 || id == 190 || id == 231
}

/// The table of S.M.A.R.T. attributes starts at byte 34 of the answer (after
/// the 32-byte header and the 2-byte revision); each entry is 12 bytes, ID
/// first and the raw value's low byte at 5. From entry `i` on, among the
/// first 30 entries that fit: the first temperature attribute whose value
/// lies between 1 and 99.
pub open spec fn smart_scan(data: Seq<u8>, i: nat) -> Option<u8>
    decreases 30 - i,
{
    if i >= 30 {
        None
    } else {
        let off: int = 34 + 12 * i as int;
        if off + 12 > data.len() {
            None
        } else if is_temperature_attribute(data[off]) && 0 < data[off + 5] < 100 {
            Some(data[off + 5])
        } else {
            smart_scan(data, i + 1)
        }
    }
}

/// Whatever the scan finds is a plausible temperature: between 1 and 99.
proof fn lemma_smart_scan_range(data: Seq<u8>, i: nat)
    ensures
        smart_scan(data, i) matches Some(t) ==> 0 < t < 100,
    decreases 30 - i,
{
    if i < 30 {
        lemma_smart_scan_range(data, i + 1);
    }
}

/// The drive temperature a S.M.A.R.T. read answered, in degrees: none when
/// fewer than 48 bytes came back.
pub open spec fn smart_temperature_of(data: Seq<u8>, bytes_returned: u32) -> Option<u8> {
    if bytes_returned < 48 {
        None
    } else {
        smart_scan(data, 0)
    }
}

/// The drive temperature in a S.M.A.R.T. read's answer (`data`, of which
/// the drive filled `bytes_returned` bytes).
pub fn smart_temperature(data: &[u8], bytes_returned: u32) -> (r: Option<u8>)
    ensures
        r == smart_temperature_of(data@, bytes_returned),
        r matches Some(t) ==> 0 < t < 100,
{
    proof {
        lemma_smart_scan_range(data@, 0);
    }
    if bytes_returned < 48 {
        return None;
    }
    let mut i: usize = 0;
    while i < 30
        invariant
            i <= 30,
            bytes_returned >= 48,
            smart_scan(data@, 0) == smart_scan(data@, i as nat),
        decreases 30 - i,
    {
        let off: usize = 34 + 12 * i;
        if off + 12 > data.len() {
            return None;
        }
        let id = data[off];
        if id == SMART_ATTR_TEMPERATURE || id == SMART_ATTR_AIRFLOW_TEMP || id
            == SMART_ATTR_TEMPERATURE_2 || id == SMART_ATTR_DRIVE_TEMP {
            let raw = data[off + 5];
            if raw > 0 && raw < 100 {
                assert(is_temperature_attribute(data@[off as int]));
                assert(smart_scan(data@, i as nat) == Some(raw));
                return Some(raw);
            }
        }
        i = i + 1;
    }
    None
}

/// The name of a drive: its model when known, else `Drive {number}`.
pub fn drive_label(model: Option<String>, drive_num: u32) -> (s: String)
    ensures
        s@ == (match model {
            Some(m) => m@,
            None => "Drive "@ + dec(drive_num as nat),
        }),
{
    match model {
        Some(m) => m,
        None => {
            let mut v: Vec<char> = Vec::new();
            extend_str(&mut v, "Drive ");
            push_dec(&mut v, drive_num as u64);
            string_of(v)
        },
    }
}

/// The text of some bytes as `String::from_utf8_lossy` decodes it (each
/// invalid sequence replaced by U+FFFD).
pub uninterp spec fn utf8_lossy(b: Seq<u8>) -> Seq<char>;

/// `String::from_utf8_lossy`: the bytes decoded as UTF-8, each invalid
/// sequence replaced by U+FFFD. The contract only names the result.
#[verifier::external_body]
fn lossy_text(bytes: &[u8]) -> (s: String)
    ensures
        s@ == utf8_lossy(bytes@),
{
    String::from_utf8_lossy(bytes).into_owned()
}

/// The little-endian `u32` at bytes `i..i + 4`.
pub open spec fn le_u32_at(b: Seq<u8>, i: int) -> nat {
    (b[i] + 256 * b[i + 1] + 65536 * b[i + 2] + 16777216 * b[i + 3]) as nat
}

/// The first index at or after `k` that holds a 0 byte, or the length.
pub open spec fn first_zero(b: Seq<u8>, k: int) -> int
    decreases b.len() - k,
{
    if k >= b.len() {
        b.len() as int
    } else if b[k] == 0 {
        k
    } else {
        first_zero(b, k + 1)
    }
}

/// Where the product ID of a storage device descriptor starts: the
/// little-endian `u32` at byte 36.
pub open spec fn product_offset(b: Seq<u8>) -> int {
    le_u32_at(b, 36) as int
}

/// How long the product ID is taken to be: up to its terminating 0 byte, or
/// 40 bytes when none follows.
pub open spec fn product_length(b: Seq<u8>) -> int {
    let off = product_offset(b);
    if first_zero(b, off) < b.len() {
        first_zero(b, off) - off
    } else {
        40
    }
}

/// Whether the descriptor names a product ID inside the buffer.
pub open spec fn names_product(b: Seq<u8>) -> bool {
    0 < product_offset(b) < b.len()
}

/// Whether the product ID can be cut from the buffer: it ends within it.
pub open spec fn product_fits(b: Seq<u8>) -> bool {
    b.len() >= 40 && (names_product(b) ==> product_offset(b) + product_length(b) <= b.len())
}

/// The model a storage device descriptor names (`b`, of which the query
/// filled `bytes_returned` bytes): its product ID, decoded and trimmed, when
/// at least 40 bytes came back and the ID is not blank.
pub open spec fn descriptor_model(b: Seq<u8>, bytes_returned: u32) -> Option<Seq<char>> {
    if bytes_returned >= 40 && names_product(b) {
        let off = product_offset(b);
        let t = trim(utf8_lossy(b.subrange(off, off + product_length(b))));
        if t.len() > 0 {
            Some(t)
        } else {
            None
        }
    } else {
        None
    }
}

/// Whether the product ID of a descriptor can be read without running past
/// the buffer (see `product_fits`).
pub fn descriptor_fits(b: &[u8], bytes_returned: u32) -> (r: bool)
    ensures
        r == (bytes_returned >= 40 ==> product_fits(b@)),
{
    if bytes_returned < 40 {
        return true;
    }
    if b.len() < 40 {
        return false;
    }
    let off = product_offset_exec(b);
    if off == 0 || off >= b.len() {
        return true;
    }
    let end = product_length_exec(b, off);
    off <= b.len() - end
}

fn product_offset_exec(b: &[u8]) -> (off: usize)
    requires
        b@.len() >= 40,
    ensures
        off == product_offset(b@),
{
    let v: u32 = b[36] as u32 + 256 * (b[37] as u32) + 65536 * (b[38] as u32) + 16777216 * (
    b[39] as u32);
    v as usize
}

fn product_length_exec(b: &[u8], off: usize) -> (n: usize)
    requires
        off == product_offset(b@),
        b@.len() >= 40,
    ensures
        n == product_length(b@),
{
    let mut k = off;
    while k < b.len()
        invariant
            off <= k,
            off == product_offset(b@),
            first_zero(b@, off as int) == first_zero(b@, k as int),
        decreases b@.len() - k,
    {
        if b[k] == 0 {
            assert(first_zero(b@, k as int) == k);
            return k - off;
        }
        k = k + 1;
    }
    40
}

/// The model a storage device descriptor names.
pub fn descriptor_model_text(b: &[u8], bytes_returned: u32) -> (r: Option<String>)
    requires
        bytes_returned >= 40 ==> product_fits(b@),
    ensures
        match r {
            Some(s) => descriptor_model(b@, bytes_returned) == Some(s@),
            None => descriptor_model(b@, bytes_returned) is None,
        },
{
    if bytes_returned < 40 {
        return None;
    }
    let off = product_offset_exec(b);
    if off == 0 || off >= b.len() {
        return None;
    }
    let n = product_length_exec(b, off);
    assert(names_product(b@));
    let stop = off + n;
    let mut bytes: Vec<u8> = Vec::new();
    let mut i = off;
    while i < stop
        invariant
            stop == off + n,
            off <= i <= stop <= b@.len(),
            bytes@ == b@.subrange(off as int, i as int),
        decreases stop - i,
    {
        bytes.push(b[i]);
        i = i + 1;
    }
    let text = lossy_text(bytes.as_slice());
    let t = trim_chars(&chars_of(text.as_str()));
    if t.len() > 0 {
        Some(string_of(t))
    } else {
        None
    }
}

/// What the scan finds comes from a temperature attribute's entry among
/// the first 30 from `i` on.
proof fn lemma_smart_scan_found(data: Seq<u8>, i: nat)
    ensures
        smart_scan(data, i) matches Some(t) ==> exists|j: int|
            i <= j < 30 && 34 + 12 * j + 12 <= data.len() && is_temperature_attribute(
                #[trigger] data[34 + 12 * j],
            ) && data[34 + 12 * j + 5] == t,
    decreases 30 - i,
{
    if i < 30 {
        lemma_smart_scan_found(data, i + 1);
        let off: int = 34 + 12 * i as int;
        if off + 12 <= data.len() && is_temperature_attribute(data[off]) && 0 < data[off + 5]
            < 100 {
            assert(data[34 + 12 * (i as int)] == data[off]);
        }
    }
}

/// The drive temperature of a S.M.A.R.T. answer: none when the drive filled
/// fewer than 48 bytes; otherwise a value between 1 and 99 read from the
/// raw value of a temperature attribute (ID 194, 190 or 231) among the
/// first 30 entries, and the first entry's when it is such an attribute
/// with such a value.
pub proof fn lemma_smart_temperature(data: Seq<u8>, bytes_returned: u32)
    ensures
        bytes_returned < 48 ==> smart_temperature_of(data, bytes_returned) is None,
        smart_temperature_of(data, bytes_returned) matches Some(t) ==> 0 < t < 100 && exists|
            j: int,
        |
            0 <= j < 30 && 34 + 12 * j + 12 <= data.len() && is_temperature_attribute(
                #[trigger] data[34 + 12 * j],
            ) && data[34 + 12 * j + 5] == t,
        bytes_returned >= 48 && data.len() >= 46 && is_temperature_attribute(data[34]) && 0
            < data[39] < 100 ==> smart_temperature_of(data, bytes_returned) == Some(data[39]),
{
    lemma_smart_scan_range(data, 0);
    lemma_smart_scan_found(data, 0);
}

} // verus!
