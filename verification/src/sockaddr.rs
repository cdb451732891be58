//! The `address:port` grammar.
//!
//! A listen address is either `a.b.c.d:port` (four decimal octets, no zero
//! prefix, each at most 255) or `[ipv6]:port` (hexadecimal groups of at most
//! four digits, at most one `::`, an optional trailing embedded IPv4 address,
//! an optional numeric `%scope` inside the brackets). The port is mandatory.
//! The spec functions write the grammar down over the character sequence; the
//! scanner is proved to accept exactly the strings of the grammar.

use vstd::prelude::*;
use vstd::string::*;

verus! {

/// The value of `c` as a digit of `radix` (10 or 16), or -1 when `c` is no
/// such digit.
pub open spec fn spec_digit_val(c: char, radix: u32) -> int {
    let v = c as u32;
    if 48 <= v && v <= 57 {
        v - 48  // '0' ..= '9'
    } else if radix == 16 && 97 <= v && v <= 102 {
        v - 87  // 'a' ..= 'f'
    } else if radix == 16 && 65 <= v && v <= 70 {
        v - 55  // 'A' ..= 'F'
    } else {
        -1
    }
}

pub open spec fn spec_is_digit(c: char, radix: u32) -> bool {
    spec_digit_val(c, radix) >= 0
}

/// Length of the run of digits of `radix` starting at `pos`.
pub open spec fn digit_run(s: Seq<char>, pos: int, radix: u32) -> int
    decreases s.len() - pos when 0 <= pos <= s.len()
{
    if pos < s.len() && spec_is_digit(s[pos], radix) {
        1 + digit_run(s, pos + 1, radix)
    } else {
        0
    }
}

/// Numeric value of the `n` digits starting at `pos`.
pub open spec fn digits_val(s: Seq<char>, pos: int, n: int, radix: u32) -> int
    decreases n,
{
    if n <= 0 {
        0
    } else {
        digits_val(s, pos, n - 1, radix) * radix + spec_digit_val(s[pos + n - 1], radix)
    }
}

/// A number token read from `pos`: the whole digit run, refused when it is
/// empty, longer than `max_digits` (0 meaning unlimited), zero-prefixed where
/// that is forbidden, or of value above `max_value`. The result is the
/// position after the token.
pub open spec fn spec_number(
    s: Seq<char>,
    pos: int,
    radix: u32,
    max_digits: int,
    no_zero_prefix: bool,
    max_value: int,
) -> Option<int> {
    let n = digit_run(s, pos, radix);
    if n == 0 {
        None
    } else if max_digits > 0 && n > max_digits {
        None
    } else if no_zero_prefix && n > 1 && s[pos] == '0' {
        None
    } else if digits_val(s, pos, n, radix) > max_value {
        None
    } else {
        Some(pos + n)
    }
}

/// One decimal octet of an IPv4 address: at most three digits, no zero
/// prefix, value at most 255.
pub open spec fn spec_octet(s: Seq<char>, pos: int) -> Option<int> {
    spec_number(s, pos, 10, 3, true, 255)
}

/// Four octets separated by dots.
pub open spec fn spec_ipv4(s: Seq<char>, pos: int) -> Option<int> {
    match spec_octet(s, pos) {
        None => None,
        Some(p1) => if p1 < s.len() && s[p1] == '.' {
            match spec_octet(s, p1 + 1) {
                None => None,
                Some(p2) => if p2 < s.len() && s[p2] == '.' {
                    match spec_octet(s, p2 + 1) {
                        None => None,
                        Some(p3) => if p3 < s.len() && s[p3] == '.' {
                            spec_octet(s, p3 + 1)
                        } else {
                            None
                        },
                    }
                } else {
                    None
                },
            }
        } else {
            None
        },
    }
}

/// One hexadecimal group of an IPv6 address: at most four digits, any zero
/// prefix, value at most 0xffff.
pub open spec fn spec_group16(s: Seq<char>, pos: int) -> Option<int> {
    spec_number(s, pos, 16, 4, false, 0xffff)
}

/// A group, preceded by its `:` separator for every group after the first.
pub open spec fn spec_sep_group16(s: Seq<char>, pos: int, first: bool) -> Option<int> {
    if first {
        spec_group16(s, pos)
    } else if pos < s.len() && s[pos] == ':' {
        spec_group16(s, pos + 1)
    } else {
        None
    }
}

/// An embedded IPv4 address, preceded by its `:` separator in the same way.
pub open spec fn spec_sep_ipv4(s: Seq<char>, pos: int, first: bool) -> Option<int> {
    if first {
        spec_ipv4(s, pos)
    } else if pos < s.len() && s[pos] == ':' {
        spec_ipv4(s, pos + 1)
    } else {
        None
    }
}

/// Reads IPv6 groups `i`, `i+1`, ... while they are there, up to `limit`
/// in all. An embedded IPv4 address may stand where at least two group slots
/// remain and fills two of them, ending the read. The result is the count of
/// slots filled, the position after them, and whether an embedded IPv4
/// address ended the read.
pub open spec fn spec_groups(s: Seq<char>, pos: int, i: int, limit: int) -> (int, int, bool)
    decreases limit - i,
{
    if i >= limit {
        (i, pos, false)
    } else {
        let v4 = if limit - i >= 2 {
            spec_sep_ipv4(s, pos, i == 0)
        } else {
            None
        };
        match v4 {
            Some(p) => (i + 2, p, true),
            None => match spec_sep_group16(s, pos, i == 0) {
                None => (i, pos, false),
                Some(p) => spec_groups(s, p, i + 1, limit),
            },
        }
    }
}

/// An IPv6 address read from `pos`: either all eight groups, or fewer,
/// then `::`, then at most enough groups to leave one elided. An embedded
/// IPv4 address may not stand before the `::`.
pub open spec fn spec_ipv6(s: Seq<char>, pos: int) -> Option<int> {
    let head = spec_groups(s, pos, 0, 8);
    if head.0 == 8 {
        Some(head.1)
    } else if head.2 {
        None
    } else if head.1 + 1 < s.len() && s[head.1] == ':' && s[head.1 + 1] == ':' {
        Some(spec_groups(s, head.1 + 2, 0, 8 - (head.0 + 1)).1)
    } else {
        None
    }
}

/// The mandatory port: `:` and a decimal number of value at most 65535, zero
/// prefixes allowed.
pub open spec fn spec_port(s: Seq<char>, pos: int) -> Option<int> {
    if pos < s.len() && s[pos] == ':' {
        spec_number(s, pos + 1, 10, 0, false, 0xffff)
    } else {
        None
    }
}

/// The whole string is an IPv4 address and a port.
pub open spec fn spec_v4_addr_port(s: Seq<char>) -> bool {
    match spec_ipv4(s, 0) {
        None => false,
        Some(p) => match spec_port(s, p) {
            None => false,
            Some(q) => q == s.len(),
        },
    }
}

/// The whole string is a bracketed IPv6 address, an optional numeric scope,
/// and a port. A scope whose digits do not read as a number up to 2^32 - 1
/// leaves the `%` standing, which no bracket can follow.
pub open spec fn spec_v6_addr_port(s: Seq<char>) -> bool {
    if s.len() > 0 && s[0] == '[' {
        match spec_ipv6(s, 1) {
            None => false,
            Some(p) => {
                let q = if p < s.len() && s[p] == '%' {
                    match spec_number(s, p + 1, 10, 0, false, 0xffff_ffff) {
                        None => p,
                        Some(t) => t,
                    }
                } else {
                    p
                };
                if q < s.len() && s[q] == ']' {
                    match spec_port(s, q + 1) {
                        None => false,
                        Some(t) => t == s.len(),
                    }
                } else {
                    false
                }
            },
        }
    } else {
        false
    }
}

/// A well-formed `address:port` string, IPv4 or IPv6, port mandatory.
pub open spec fn valid_socket_addr(s: Seq<char>) -> bool {
    spec_v4_addr_port(s) || spec_v6_addr_port(s)
}

/// The digit value of `c`, when it has one.
fn char_digit(c: char, radix: u32) -> (r: Option<u32>)
    requires
        radix == 10 || radix == 16,
    ensures
        (r is Some) == spec_is_digit(c, radix),
        r matches Some(v) ==> (v as int == spec_digit_val(c, radix) && v < radix),
{
    let u = c as u32;
    if 48 <= u && u <= 57 {
        Some(u - 48)
    } else if radix == 16 && 97 <= u && u <= 102 {
        Some(u - 87)
    } else if radix == 16 && 65 <= u && u <= 70 {
        Some(u - 55)
    } else {
        None
    }
}

/// Scans one number token; agrees with `spec_number` everywhere.
fn scan_number(
    s: &str,
    len: usize,
    pos: usize,
    radix: u32,
    max_digits: usize,
    no_zero_prefix: bool,
    max_value: u64,
) -> (r: Option<usize>)
    requires
        len == s@.len(),
        pos <= len,
        radix == 10 || radix == 16,
        max_value <= 0xffff_ffff,
    ensures
        (r is Some) == (spec_number(s@, pos as int, radix, max_digits as int, no_zero_prefix,
            max_value as int) is Some),
        r matches Some(p) ==> (spec_number(s@, pos as int, radix, max_digits as int,
            no_zero_prefix, max_value as int) == Some(p as int) && pos < p <= len),
{
    // measure the digit run
    let mut end = pos;
    loop
        invariant
            pos <= end <= len,
            len == s@.len(),
            radix == 10 || radix == 16,
            forall|k: int| pos <= k < end ==> spec_is_digit(s@[k], radix),
            digit_run(s@, pos as int, radix) == end - pos + digit_run(s@, end as int, radix),
        ensures
            pos <= end <= len,
            forall|k: int| pos <= k < end ==> spec_is_digit(s@[k], radix),
            digit_run(s@, pos as int, radix) == end - pos,
        decreases len - end,
    {
        if end == len {
            break;
        }
        let d = char_digit(s.get_char(end), radix);
        if d.is_none() {
            break;
        }
        end = end + 1;
    }

    let n = end - pos;
    if n == 0 {
        return None;
    }
    if max_digits > 0 && n > max_digits {
        return None;
    }
    if no_zero_prefix && n > 1 && s.get_char(pos) == '0' {
        return None;
    }

    // value of the run, saturating above max_value
    let mut val: u64 = 0;
    let mut over = false;
    let mut j = pos;
    while j < end
        invariant
            pos <= j <= end <= len,
            len == s@.len(),
            radix == 10 || radix == 16,
            max_value <= 0xffff_ffff,
            forall|k: int| pos <= k < end ==> spec_is_digit(s@[k], radix),
            !over ==> (val as int == digits_val(s@, pos as int, j - pos, radix)
                && val <= max_value),
            over ==> digits_val(s@, pos as int, j - pos, radix) > max_value,
        decreases end - j,
    {
        let d = char_digit(s.get_char(j), radix).unwrap();
        proof {
            assert(digits_val(s@, pos as int, (j - pos) + 1, radix) == digits_val(
                s@,
                pos as int,
                j - pos,
                radix,
            ) * radix + spec_digit_val(s@[j as int], radix));
        }
        if over {
            proof {
                let a = digits_val(s@, pos as int, j - pos, radix);
                assert(a * radix >= a) by (nonlinear_arith)
                    requires
                        a >= 0,
                        radix >= 10,
                ;
            }
        } else {
            let next = val * (radix as u64) + (d as u64);
            if next > max_value {
                over = true;
                val = 0;
            } else {
                val = next;
            }
        }
        j = j + 1;
    }
    if over {
        return None;
    }
    Some(end)
}

/// Scans one decimal octet; agrees with `spec_octet`.
fn scan_octet(s: &str, len: usize, pos: usize) -> (r: Option<usize>)
    requires
        len == s@.len(),
        pos <= len,
    ensures
        (r is Some) == (spec_octet(s@, pos as int) is Some),
        r matches Some(p) ==> (spec_octet(s@, pos as int) == Some(p as int) && pos < p <= len),
{
    scan_number(s, len, pos, 10, 3, true, 255)
}

/// Scans a dotted IPv4 address; agrees with `spec_ipv4`.
fn scan_ipv4(s: &str, len: usize, pos: usize) -> (r: Option<usize>)
    requires
        len == s@.len(),
        pos <= len,
    ensures
        (r is Some) == (spec_ipv4(s@, pos as int) is Some),
        r matches Some(p) ==> (spec_ipv4(s@, pos as int) == Some(p as int) && pos < p <= len),
{
    let p1 = match scan_octet(s, len, pos) {
        None => return None,
        Some(p) => p,
    };
    if p1 == len || s.get_char(p1) != '.' {
        return None;
    }
    let p2 = match scan_octet(s, len, p1 + 1) {
        None => return None,
        Some(p) => p,
    };
    if p2 == len || s.get_char(p2) != '.' {
        return None;
    }
    let p3 = match scan_octet(s, len, p2 + 1) {
        None => return None,
        Some(p) => p,
    };
    if p3 == len || s.get_char(p3) != '.' {
        return None;
    }
    scan_octet(s, len, p3 + 1)
}

/// Scans one hexadecimal group; agrees with `spec_group16`.
fn scan_group16(s: &str, len: usize, pos: usize) -> (r: Option<usize>)
    requires
        len == s@.len(),
        pos <= len,
    ensures
        (r is Some) == (spec_group16(s@, pos as int) is Some),
        r matches Some(p) ==> (spec_group16(s@, pos as int) == Some(p as int) && pos < p <= len),
{
    scan_number(s, len, pos, 16, 4, false, 0xffff)
}

/// Scans a separated group; agrees with `spec_sep_group16`.
fn scan_sep_group16(s: &str, len: usize, pos: usize, first: bool) -> (r: Option<usize>)
    requires
        len == s@.len(),
        pos <= len,
    ensures
        (r is Some) == (spec_sep_group16(s@, pos as int, first) is Some),
        r matches Some(p) ==> (spec_sep_group16(s@, pos as int, first) == Some(p as int) && pos
            < p <= len),
{
    if first {
        scan_group16(s, len, pos)
    } else if pos < len && s.get_char(pos) == ':' {
        scan_group16(s, len, pos + 1)
    } else {
        None
    }
}

/// Scans a separated embedded IPv4 address; agrees with `spec_sep_ipv4`.
fn scan_sep_ipv4(s: &str, len: usize, pos: usize, first: bool) -> (r: Option<usize>)
    requires
        len == s@.len(),
        pos <= len,
    ensures
        (r is Some) == (spec_sep_ipv4(s@, pos as int, first) is Some),
        r matches Some(p) ==> (spec_sep_ipv4(s@, pos as int, first) == Some(p as int) && pos < p
            <= len),
{
    if first {
        scan_ipv4(s, len, pos)
    } else if pos < len && s.get_char(pos) == ':' {
        scan_ipv4(s, len, pos + 1)
    } else {
        None
    }
}

/// Scans IPv6 groups; agrees with `spec_groups` in all three components.
fn scan_groups(s: &str, len: usize, pos: usize, i: usize, limit: usize) -> (r: (usize, usize, bool))
    requires
        len == s@.len(),
        pos <= len,
        i <= limit,
        limit <= 8,
    ensures
        ({
            let g = spec_groups(s@, pos as int, i as int, limit as int);
            &&& r.0 as int == g.0
            &&& r.1 as int == g.1
            &&& r.2 == g.2
        }),
        i <= r.0 <= limit,
        pos <= r.1 <= len,
    decreases limit - i,
{
    if i >= limit {
        return (i, pos, false);
    }
    if limit - i >= 2 {
        if let Some(p) = scan_sep_ipv4(s, len, pos, i == 0) {
            return (i + 2, p, true);
        }
    }
    match scan_sep_group16(s, len, pos, i == 0) {
        None => (i, pos, false),
        Some(p) => scan_groups(s, len, p, i + 1, limit),
    }
}

/// Scans a whole IPv6 address; agrees with `spec_ipv6`.
fn scan_ipv6(s: &str, len: usize, pos: usize) -> (r: Option<usize>)
    requires
        len == s@.len(),
        pos <= len,
    ensures
        (r is Some) == (spec_ipv6(s@, pos as int) is Some),
        r matches Some(p) ==> (spec_ipv6(s@, pos as int) == Some(p as int) && pos <= p <= len),
{
    let (hc, hp, hv4) = scan_groups(s, len, pos, 0, 8);
    if hc == 8 {
        return Some(hp);
    }
    if hv4 {
        return None;
    }
    if hp < len && hp + 1 < len && s.get_char(hp) == ':' && s.get_char(hp + 1) == ':' {
        let (_tc, tp, _tv4) = scan_groups(s, len, hp + 2, 0, 8 - (hc + 1));
        Some(tp)
    } else {
        None
    }
}

/// Scans the mandatory port; agrees with `spec_port`.
fn scan_port(s: &str, len: usize, pos: usize) -> (r: Option<usize>)
    requires
        len == s@.len(),
        pos <= len,
    ensures
        (r is Some) == (spec_port(s@, pos as int) is Some),
        r matches Some(p) ==> (spec_port(s@, pos as int) == Some(p as int) && pos < p <= len),
{
    if pos < len && s.get_char(pos) == ':' {
        scan_number(s, len, pos + 1, 10, 0, false, 0xffff)
    } else {
        None
    }
}

/// Whether the whole string is an IPv4 `address:port`.
fn scan_v4_addr_port(s: &str, len: usize) -> (r: bool)
    requires
        len == s@.len(),
    ensures
        r == spec_v4_addr_port(s@),
{
    let p = match scan_ipv4(s, len, 0) {
        None => return false,
        Some(p) => p,
    };
    match scan_port(s, len, p) {
        None => false,
        Some(q) => q == len,
    }
}

/// Whether the whole string is an IPv6 `[address]:port`.
fn scan_v6_addr_port(s: &str, len: usize) -> (r: bool)
    requires
        len == s@.len(),
    ensures
        r == spec_v6_addr_port(s@),
{
    if len == 0 || s.get_char(0) != '[' {
        return false;
    }
    let p = match scan_ipv6(s, len, 1) {
        None => return false,
        Some(p) => p,
    };
    let q = if p < len && s.get_char(p) == '%' {
        match scan_number(s, len, p + 1, 10, 0, false, 0xffff_ffff) {
            None => p,
            Some(t) => t,
        }
    } else {
        p
    };
    if q < len && s.get_char(q) == ']' {
        match scan_port(s, len, q + 1) {
            None => false,
            Some(t) => t == len,
        }
    } else {
        false
    }
}

/// Checks that the listen address is a well-formed `address:port` string.
/// Accepts exactly the strings of the grammar; the error carries the
/// offending string.
pub fn is_valid_socket_addr(s: &str) -> (r: Result<(), String>)
    ensures
        r is Ok <==> valid_socket_addr(s@),
        r matches Err(m) ==> m@ == "'"@ + s@ + "' is not a valid ADDR:PORT string"@,
{
    let len = s.unicode_len();
    if scan_v4_addr_port(s, len) {
        return Ok(());
    }
    if scan_v6_addr_port(s, len) {
        return Ok(());
    }
    let mut m = "'".to_owned();
    m.append(s);
    m.append("' is not a valid ADDR:PORT string");
    Err(m)
}

} // verus!
