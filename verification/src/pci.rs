//! PCI addresses in sysfs device links: the `domain:bus:device.function`
//! component of a link such as
//! `../../devices/pci0000:00/0000:00:01.1/0000:01:00.0`, read byte by byte.
use vstd::prelude::*;

use crate::num::{dec, hex_padded, push_dec, push_hex_padded};
use crate::text::string_of;
use vstd::string::StringSliceAdditionalSpecFns;

verus! {

/// `s.split(sep)` on bytes: the pieces between occurrences of `sep` (there
/// is always at least one piece).
pub open spec fn split_bytes(s: Seq<u8>, sep: u8) -> Seq<Seq<u8>>
    decreases s.len(),
{
    if s.len() == 0 {
        seq![Seq::<u8>::empty()]
    } else {
        let init = split_bytes(s.drop_last(), sep);
        if s.last() == sep {
            init.push(Seq::<u8>::empty())
        } else {
            init.update(init.len() - 1, init.last().push(s.last()))
        }
    }
}

proof fn lemma_split_bytes_len(s: Seq<u8>, sep: u8)
    ensures
        split_bytes(s, sep).len() >= 1,
    decreases s.len(),
{
    if s.len() > 0 {
        lemma_split_bytes_len(s.drop_last(), sep);
    }
}

/// The contents of a vector of byte vectors.
pub open spec fn byte_views(v: Seq<Vec<u8>>) -> Seq<Seq<u8>> {
    v.map_values(|x: Vec<u8>| x@)
}

/// Splits bytes at each `sep`.
pub fn split_bytes_exec(s: &[u8], sep: u8) -> (r: Vec<Vec<u8>>)
    ensures
        byte_views(r@) == split_bytes(s@, sep),
{
    let mut done: Vec<Vec<u8>> = Vec::new();
    let mut cur: Vec<u8> = Vec::new();
    let mut i: usize = 0;
    while i < s.len()
        invariant
            i <= s@.len(),
            byte_views(done@).push(cur@) == split_bytes(s@.take(i as int), sep),
        decreases s@.len() - i,
    {
        let c = s[i];
        let ghost prev = s@.take(i as int);
        assert(s@.take(i + 1).drop_last() =~= prev);
        proof {
            lemma_split_bytes_len(prev, sep);
        }
        if c == sep {
            let old_cur = cur;
            assert(byte_views(done@.push(old_cur)) =~= byte_views(done@).push(old_cur@));
            done.push(old_cur);
            cur = Vec::new();
            assert(byte_views(done@).push(cur@) =~= split_bytes(s@.take(i + 1), sep));
        } else {
            cur.push(c);
            assert(byte_views(done@).push(cur@) =~= split_bytes(s@.take(i + 1), sep));
        }
        i = i + 1;
    }
    assert(s@.take(s@.len() as int) =~= s@);
    assert(byte_views(done@.push(cur)) =~= byte_views(done@).push(cur@));
    done.push(cur);
    done
}

/// The value of a hexadecimal digit (either case).
pub open spec fn hex_digit(b: u8) -> Option<nat> {
    if 48 <= b <= 57 {
        Some((b - 48) as nat)
    } else if 97 <= b <= 102 {
        Some((b - 87) as nat)
    } else if 65 <= b <= 70 {
        Some((b - 55) as nat)
    } else {
        None
    }
}

/// The value of a run of hexadecimal digits, when every byte is one.
pub open spec fn hex_value(d: Seq<u8>) -> Option<nat>
    decreases d.len(),
{
    if d.len() == 0 {
        Some(0)
    } else {
        match (hex_value(d.drop_last()), hex_digit(d.last())) {
            (Some(v), Some(x)) => Some(v * 16 + x),
            _ => None,
        }
    }
}

/// `from_str_radix(s, 16)` for an unsigned type whose largest value is
/// `max`: an optional `+` and at least one hexadecimal digit, of a value
/// that fits.
pub open spec fn from_hex(s: Seq<u8>, max: nat) -> Option<nat> {
    let d = if s.len() > 0 && s[0] == 43 {
        s.drop_first()
    } else {
        s
    };
    if d.len() == 0 {
        None
    } else {
        match hex_value(d) {
            Some(v) => if v <= max {
                Some(v)
            } else {
                None
            },
            None => None,
        }
    }
}

/// A prefix of a run of digits never has a larger value.
proof fn lemma_hex_prefix(d: Seq<u8>, k: int)
    requires
        0 <= k <= d.len(),
        hex_value(d) is Some,
    ensures
        hex_value(d.take(k)) is Some,
        hex_value(d.take(k))->0 <= hex_value(d)->0,
    decreases d.len(),
{
    if k == d.len() {
        assert(d.take(k) =~= d);
    } else {
        assert(d.len() > 0);
        lemma_hex_prefix(d.drop_last(), k);
        assert(d.drop_last().take(k) =~= d.take(k));
    }
}

fn hex_digit_exec(b: u8) -> (r: Option<u64>)
    ensures
        match hex_digit(b) {
            Some(v) => r == Some(v as u64),
            None => r is None,
        },
{
    if 48 <= b && b <= 57 {
        Some((b - 48) as u64)
    } else if 97 <= b && b <= 102 {
        Some((b - 87) as u64)
    } else if 65 <= b && b <= 70 {
        Some((b - 55) as u64)
    } else {
        None
    }
}

/// `from_str_radix(s, 16)` for a type whose largest value is `max`.
pub fn from_hex_exec(s: &[u8], max: u64) -> (r: Option<u64>)
    requires
        max <= 0xffff_ffff,
    ensures
        match from_hex(s@, max as nat) {
            Some(v) => r == Some(v as u64),
            None => r is None,
        },
{
    let start: usize = if s.len() > 0 && s[0] == 43 {
        1
    } else {
        0
    };
    let ghost d = if s@.len() > 0 && s@[0] == 43 {
        s@.drop_first()
    } else {
        s@
    };
    assert(d =~= s@.skip(start as int));
    if start >= s.len() {
        return None;
    }
    let mut acc: u64 = 0;
    let mut i: usize = start;
    while i < s.len()
        invariant
            start <= i <= s@.len(),
            start < s@.len(),
            d == (if s@.len() > 0 && s@[0] == 43 {
                s@.drop_first()
            } else {
                s@
            }),
            d =~= s@.skip(start as int),
            max <= 0xffff_ffff,
            hex_value(d.take(i - start)) == Some(acc as nat),
            acc <= max,
        decreases s@.len() - i,
    {
        assert(d.take(i + 1 - start).drop_last() =~= d.take(i - start));
        assert(d.take(i + 1 - start).last() == s@[i as int]);
        match hex_digit_exec(s[i]) {
            Some(x) => {
                let next = acc * 16 + x;
                if next > max {
                    proof {
                        if hex_value(d) is Some {
                            lemma_hex_prefix(d, i + 1 - start);
                        }
                    }
                    return None;
                }
                acc = next;
            },
            None => {
                proof {
                    if hex_value(d) is Some {
                        lemma_hex_prefix(d, i + 1 - start);
                    }
                }
                return None;
            },
        }
        i = i + 1;
    }
    assert(d.take(i - start) =~= d);
    Some(acc)
}

/// What one component of a device link tells: an address (domain, bus,
/// device, function), nothing, or that its address fields would have to be
/// cut inside a character.
pub enum LinkComponent {
    /// `dddd:bb:dd.f` with every field hexadecimal
    Address(u16, u8, u8, u8),
    /// Not an address
    NoAddress,
    /// A seven-byte domain and bus whose byte 4 or 5 continues a character
    SplitCharacter,
}

/// Reads one component of a device link: three `:`-separated fields, the
/// first seven bytes long (domain in bytes 0-3, bus in 5-6) and the last a
/// device-relative `.`-separated pair whose second half is the function.
pub open spec fn link_component(c: Seq<u8>) -> LinkComponent {
    let parts = split_bytes(c, 58);
    if parts.len() == 3 {
        let db = parts[0];
        let df = split_bytes(parts[2], 46);
        if db.len() == 7 && df.len() == 2 {
            if vstd::utf8::is_continuation_byte(db[4]) || vstd::utf8::is_continuation_byte(db[5]) {
                LinkComponent::SplitCharacter
            } else {
                match (
                    from_hex(db.subrange(0, 4), 0xffff),
                    from_hex(db.subrange(5, 7), 0xff),
                    from_hex(parts[1], 0xff),
                    from_hex(df[1], 0xff),
                ) {
                    (Some(d), Some(b), Some(v), Some(f)) => LinkComponent::Address(
                        d as u16,
                        b as u8,
                        v as u8,
                        f as u8,
                    ),
                    _ => LinkComponent::NoAddress,
                }
            }
        } else {
            LinkComponent::NoAddress
        }
    } else {
        LinkComponent::NoAddress
    }
}

/// The components of a link from the last to the first: the first that
/// reads as an address, or that would be cut inside a character.
pub open spec fn link_scan(comps: Seq<Seq<u8>>) -> LinkComponent
    decreases comps.len(),
{
    if comps.len() == 0 {
        LinkComponent::NoAddress
    } else {
        match link_component(comps.last()) {
            LinkComponent::NoAddress => link_scan(comps.drop_last()),
            r => r,
        }
    }
}

/// What the `/`-separated components of a link, as UTF-8 bytes, tell.
pub open spec fn link_address(link: Seq<u8>) -> LinkComponent {
    link_scan(split_bytes(link, 47))
}

fn link_component_exec(c: &[u8]) -> (r: LinkComponent)
    ensures
        r == link_component(c@),
{
    let parts = split_bytes_exec(c, 58);
    if parts.len() != 3 {
        return LinkComponent::NoAddress;
    }
    assert(parts@[0]@ == split_bytes(c@, 58)[0] && parts@[1]@ == split_bytes(c@, 58)[1]
        && parts@[2]@ == split_bytes(c@, 58)[2]);
    let db = &parts[0];
    let df = split_bytes_exec(parts[2].as_slice(), 46);
    if db.len() != 7 || df.len() != 2 {
        return LinkComponent::NoAddress;
    }
    assert(df@[1]@ == split_bytes(parts@[2]@, 46)[1]);
    if (0x80 <= db[4] && db[4] <= 0xbf) || (0x80 <= db[5] && db[5] <= 0xbf) {
        return LinkComponent::SplitCharacter;
    }
    let domain = from_hex_exec(slice_of(db, 0, 4).as_slice(), 0xffff);
    let bus = from_hex_exec(slice_of(db, 5, 7).as_slice(), 0xff);
    let device = from_hex_exec(parts[1].as_slice(), 0xff);
    let function = from_hex_exec(df[1].as_slice(), 0xff);
    match (domain, bus, device, function) {
        (Some(d), Some(b), Some(v), Some(f)) => LinkComponent::Address(
            d as u16,
            b as u8,
            v as u8,
            f as u8,
        ),
        _ => LinkComponent::NoAddress,
    }
}

fn slice_of(v: &Vec<u8>, a: usize, b: usize) -> (r: Vec<u8>)
    requires
        a <= b <= v@.len(),
    ensures
        r@ == v@.subrange(a as int, b as int),
{
    let mut r: Vec<u8> = Vec::new();
    let mut i = a;
    while i < b
        invariant
            a <= i <= b <= v@.len(),
            r@ == v@.subrange(a as int, i as int),
        decreases b - i,
    {
        r.push(v[i]);
        i = i + 1;
    }
    r
}

/// What a device link's text tells of the device's PCI address (the text
/// read as its UTF-8 bytes).
pub open spec fn link_text_address(link: Seq<char>) -> LinkComponent {
    link_address(vstd::utf8::encode_utf8(link))
}

/// What a device link (its text) tells of the device's PCI address.
pub fn read_link_address(link: &str) -> (r: LinkComponent)
    ensures
        r == link_text_address(link@),
{
    let bytes = link.as_bytes();
    let comps = split_bytes_exec(bytes, 47);
    let ghost all = byte_views(comps@);
    let mut k: usize = comps.len();
    assert(all.take(k as int) =~= all);
    while k > 0
        invariant
            k <= comps@.len(),
            all == byte_views(comps@),
            all == split_bytes(bytes@, 47),
            bytes@ == link.spec_bytes(),
            link_scan(all) == link_scan(all.take(k as int)),
        decreases k,
    {
        k = k - 1;
        let ghost pre = all.take(k + 1);
        assert(all.len() == comps@.len());
        assert(all[k as int] == comps@[k as int]@);
        assert(pre.drop_last() =~= all.take(k as int));
        assert(pre.last() == comps@[k as int]@);
        let c = link_component_exec(comps[k].as_slice());
        match c {
            LinkComponent::NoAddress => {},
            _ => {
                assert(link_scan(pre) == c);
                return c;
            },
        }
    }
    LinkComponent::NoAddress
}

/// The bus ID of an address: `{domain:04x}:{bus:02x}:{device:02x}.{function}`.
pub open spec fn bus_id_text(domain: u16, bus: u8, device: u8, function: u8) -> Seq<char> {
    hex_padded(domain as nat, 4) + ":"@ + hex_padded(bus as nat, 2) + ":"@ + hex_padded(
        device as nat,
        2,
    ) + "."@ + dec(function as nat)
}

/// The bus ID of an address.
pub fn bus_id(domain: u16, bus: u8, device: u8, function: u8) -> (s: String)
    ensures
        s@ == bus_id_text(domain, bus, device, function),
{
    let mut v: Vec<char> = Vec::new();
    push_hex_padded(&mut v, domain as u64, 4);
    v.push(':');
    push_hex_padded(&mut v, bus as u64, 2);
    v.push(':');
    push_hex_padded(&mut v, device as u64, 2);
    v.push('.');
    push_dec(&mut v, function as u64);
    proof {
        reveal_strlit(":");
        reveal_strlit(".");
    }
    assert(v@ =~= bus_id_text(domain, bus, device, function));
    string_of(v)
}

/// Whether the address fields of a device link can be cut out of its text
/// (none would have to be cut inside a character).
pub fn link_fields_fit(link: &str) -> (b: bool)
    ensures
        b == !(link_text_address(link@) is SplitCharacter),
{
    match read_link_address(link) {
        LinkComponent::SplitCharacter => false,
        _ => true,
    }
}

} // verus!
