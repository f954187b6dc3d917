use vstd::prelude::*;

verus! {

/// Length of the manufacturer prefix "C4:7C:8D:" in characters.
pub const PREFIX_LEN: usize = 9;

/// Length of an address text: six two-digit octets and five separators.
pub const ADDRESS_LEN: usize = 17;

/// A hexadecimal digit, in either case.
pub open spec fn is_hex_digit(c: char) -> bool {
    ('0' <= c && c <= '9') || ('a' <= c && c <= 'f') || ('A' <= c && c <= 'F')
}

/// The character at position `i` of an address text: a colon after each
/// octet, a hex digit everywhere else.
pub open spec fn address_char_ok(i: int, c: char) -> bool {
    if i % 3 == 2 {
        c == ':'
    } else {
        is_hex_digit(c)
    }
}

/// A well-formed 48-bit address text such as "C4:7C:8D:6D:AD:D1".
pub open spec fn is_address_text(s: Seq<char>) -> bool {
    s.len() == ADDRESS_LEN && forall|i: int| 0 <= i < ADDRESS_LEN ==> #[trigger] address_char_ok(i, s[i])
}

/// The manufacturer prefix, three leading octets and their separators, in
/// upper case.
pub open spec fn prefix_spec() -> Seq<char> {
    seq!['C', '4', ':', '7', 'C', ':', '8', 'D', ':']
}

/// `c` equals `p`, where an upper-case ASCII letter `p` also accepts its
/// lower-case form.
pub open spec fn char_matches_ignoring_case(c: char, p: char) -> bool {
    c == p || ('A' <= p && p <= 'Z' && c as u32 == (p as u32) + 32)
}

/// The address text starts with the manufacturer prefix, compared without
/// regard to the case of the hex digits.
pub open spec fn has_flower_care_prefix(s: Seq<char>) -> bool {
    s.len() >= PREFIX_LEN && forall|i: int|
        0 <= i < PREFIX_LEN ==> #[trigger] char_matches_ignoring_case(s[i], prefix_spec()[i])
}

/// A well-formed address of the sensor family.
pub open spec fn is_flower_care_address(s: Seq<char>) -> bool {
    is_address_text(s) && has_flower_care_prefix(s)
}

fn prefix_char(i: usize) -> (c: char)
    requires
        i < PREFIX_LEN,
    ensures
        c == prefix_spec()[i as int],
{
    match i {
        0 => 'C',
        1 => '4',
        2 => ':',
        3 => '7',
        4 => 'C',
        5 => ':',
        6 => '8',
        7 => 'D',
        _ => ':',
    }
}

fn matches_ignoring_case(c: char, p: char) -> (r: bool)
    ensures
        r == char_matches_ignoring_case(c, p),
{
    c == p || ('A' <= p && p <= 'Z' && (c as u32) == (p as u32) + 32)
}

fn is_hex_digit_char(c: char) -> (r: bool)
    ensures
        r == is_hex_digit(c),
{
    ('0' <= c && c <= '9') || ('a' <= c && c <= 'f') || ('A' <= c && c <= 'F')
}

/// Tells whether a text is a well-formed address: six pairs of hex digits
/// separated by colons.
pub fn is_address(address: &str) -> (r: bool)
    ensures
        r == is_address_text(address@),
{
    let n = address.unicode_len();
    if n != ADDRESS_LEN {
        return false;
    }
    let mut i: usize = 0;
    while i < ADDRESS_LEN
        invariant
            n == address@.len(),
            n == ADDRESS_LEN,
            i <= ADDRESS_LEN,
            forall|j: int| 0 <= j < i ==> #[trigger] address_char_ok(j, address@[j]),
        decreases ADDRESS_LEN - i,
    {
        let c = address.get_char(i);
        let ok = if i % 3 == 2 {
            c == ':'
        } else {
            is_hex_digit_char(c)
        };
        if !ok {
            assert(!address_char_ok(i as int, address@[i as int]));
            return false;
        }
        i = i + 1;
    }
    true
}

/// Tells whether a device's address text ("C4:7C:8D:6D:AD:D1") belongs to the
/// sensor family: it is a well-formed address whose three leading octets are
/// C4, 7C and 8D, in either case. Malformed or foreign addresses give `false`.
pub fn is_flower_care_device(address: &str) -> (r: bool)
    ensures
        r == is_flower_care_address(address@),
{
    if !is_address(address) {
        return false;
    }
    let n = address.unicode_len();
    let mut i: usize = 0;
    while i < PREFIX_LEN
        invariant
            n == address@.len(),
            n >= PREFIX_LEN,
            is_address_text(address@),
            i <= PREFIX_LEN,
            forall|j: int|
                0 <= j < i ==> #[trigger] char_matches_ignoring_case(address@[j], prefix_spec()[j]),
        decreases PREFIX_LEN - i,
    {
        let c = address.get_char(i);
        if !matches_ignoring_case(c, prefix_char(i)) {
            assert(!char_matches_ignoring_case(address@[i as int], prefix_spec()[i as int]));
            return false;
        }
        i = i + 1;
    }
    true
}

} // verus!
