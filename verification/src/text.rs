//! Text primitives shared by the rest of the crate.
//!
//! Strings are modelled by their sequence of characters. Everything here is
//! stated over `Seq<char>`; the executable functions walk a `&str` once and
//! build their results character by character.

use std::num::ParseIntError;
use vstd::prelude::*;

verus! {

/// Whether `c` has the Unicode `White_Space` property.
pub uninterp spec fn white_space(c: char) -> bool;

/// The lowercase form of a string under the Unicode default case mapping.
pub uninterp spec fn unicode_lowercase(s: Seq<char>) -> Seq<char>;

/// `char::is_whitespace`: tells whether the character has the Unicode
/// `White_Space` property. The property itself is not spelled out here; the
/// contract only ties the answer to [`white_space`].
#[verifier::external_body]
pub(crate) fn is_whitespace(c: char) -> (b: bool)
    ensures
        b == white_space(c),
{
    c.is_whitespace()
}

/// `str::to_lowercase`: the lowercase equivalent of the string, as a new
/// `String`. The mapping is Unicode's and is only named here.
#[verifier::external_body]
pub(crate) fn to_lowercase(s: &str) -> (lower: String)
    ensures
        lower@ == unicode_lowercase(s@),
{
    s.to_lowercase()
}

/// `String::push`: appends one character to the end of the string.
#[verifier::external_body]
pub(crate) fn push_char(s: &mut String, c: char)
    ensures
        final(s)@ == old(s)@.push(c),
{
    s.push(c)
}

/// The characters of `s`, in order.
pub fn to_chars(s: &str) -> (v: Vec<char>)
    ensures
        v@ == s@,
{
    let mut v: Vec<char> = Vec::new();
    for c in it: s.chars()
        invariant
            v@ == it.seq().take(it.index()),
            it.seq() == s@,
    {
        v.push(c);
    }
    v
}

/// The string made of the characters `v[from..to]`.
pub fn from_chars(v: &Vec<char>, from: usize, to: usize) -> (s: String)
    requires
        from <= to <= v.len(),
    ensures
        s@ == v@.subrange(from as int, to as int),
{
    let mut s = String::new();
    let mut i: usize = from;
    while i < to
        invariant
            from <= i <= to <= v.len(),
            s@ == v@.subrange(from as int, i as int),
        decreases to - i,
    {
        push_char(&mut s, v[i]);
        i += 1;
    }
    s
}

/// A fresh `String` with the same characters as `s`.
pub fn copy_str(s: &str) -> (r: String)
    ensures
        r@ == s@,
{
    let mut r = String::new();
    for c in it: s.chars()
        invariant
            r@ == it.seq().take(it.index()),
            it.seq() == s@,
    {
        push_char(&mut r, c);
    }
    r
}

/// Appends the characters of `tail` to `s`.
pub fn push_str(s: &mut String, tail: &str)
    ensures
        final(s)@ == old(s)@ + tail@,
{
    let ghost before = s@;
    for c in it: tail.chars()
        invariant
            s@ == before + it.seq().take(it.index()),
            it.seq() == tail@,
    {
        push_char(s, c);
    }
}

/// Whether two strings hold the same characters.
pub fn str_eq(a: &str, b: &str) -> (same: bool)
    ensures
        same == (a@ == b@),
{
    let x = to_chars(a);
    let y = to_chars(b);
    if x.len() != y.len() {
        return false;
    }
    let mut i: usize = 0;
    while i < x.len()
        invariant
            i <= x.len(),
            x.len() == y.len(),
            x@ == a@,
            y@ == b@,
            x@.take(i as int) == y@.take(i as int),
        decreases x.len() - i,
    {
        if x[i] != y[i] {
            return false;
        }
        assert(x@.take(i + 1) == x@.take(i as int).push(x@[i as int]));
        assert(y@.take(i + 1) == y@.take(i as int).push(y@[i as int]));
        i += 1;
    }
    assert(x@.take(x.len() as int) == x@);
    assert(y@.take(y.len() as int) == y@);
    true
}

/// Whether `s` begins with `prefix`.
pub fn starts_with(s: &str, prefix: &str) -> (yes: bool)
    ensures
        yes == prefix@.is_prefix_of(s@),
{
    let x = to_chars(s);
    let p = to_chars(prefix);
    if p.len() > x.len() {
        return false;
    }
    let mut i: usize = 0;
    while i < p.len()
        invariant
            i <= p.len() <= x.len(),
            x@ == s@,
            p@ == prefix@,
            forall|k: int| 0 <= k < i ==> x@[k] == p@[k],
        decreases p.len() - i,
    {
        if x[i] != p[i] {
            assert(x@.subrange(0, p.len() as int)[i as int] != p@[i as int]);
            return false;
        }
        i += 1;
    }
    assert(x@.subrange(0, p.len() as int) =~= p@);
    true
}

/// Whether `s` ends with `suffix`.
pub fn ends_with(s: &str, suffix: &str) -> (yes: bool)
    ensures
        yes == suffix@.is_suffix_of(s@),
{
    let x = to_chars(s);
    let p = to_chars(suffix);
    if p.len() > x.len() {
        return false;
    }
    let shift: usize = x.len() - p.len();
    let mut i: usize = 0;
    while i < p.len()
        invariant
            i <= p.len() <= x.len(),
            shift == x.len() - p.len(),
            x@ == s@,
            p@ == suffix@,
            forall|k: int| 0 <= k < i ==> x@[shift + k] == p@[k],
        decreases p.len() - i,
    {
        if x[shift + i] != p[i] {
            assert(x@.subrange(shift as int, x.len() as int)[i as int] != p@[i as int]);
            return false;
        }
        i += 1;
    }
    assert(x@.subrange(shift as int, x.len() as int) =~= p@);
    true
}

/// The lowercase form of an ASCII capital letter; any other character is
/// left as it is.
pub open spec fn ascii_lower(c: char) -> char {
    if 'A' <= c <= 'Z' {
        ((c as u8) + 32u8) as char
    } else {
        c
    }
}

/// Executable form of [`ascii_lower`].
pub fn to_ascii_lower(c: char) -> (l: char)
    ensures
        l == ascii_lower(c),
{
    if c >= 'A' && c <= 'Z' {
        let b: u8 = c as u8;
        (b + 32) as char
    } else {
        c
    }
}

/// Two strings are equal up to the case of their ASCII letters.
pub open spec fn same_ignoring_ascii_case(a: Seq<char>, b: Seq<char>) -> bool {
    &&& a.len() == b.len()
    &&& forall|i: int| 0 <= i < a.len() ==> ascii_lower(a[i]) == ascii_lower(b[i])
}

/// Compares two strings without regard to the case of ASCII letters.
pub fn eq_ignore_ascii_case(a: &str, b: &str) -> (same: bool)
    ensures
        same == same_ignoring_ascii_case(a@, b@),
{
    let x = to_chars(a);
    let y = to_chars(b);
    if x.len() != y.len() {
        return false;
    }
    let mut i: usize = 0;
    while i < x.len()
        invariant
            i <= x.len(),
            x.len() == y.len(),
            x@ == a@,
            y@ == b@,
            forall|k: int| 0 <= k < i ==> ascii_lower(x@[k]) == ascii_lower(y@[k]),
        decreases x.len() - i,
    {
        if to_ascii_lower(x[i]) != to_ascii_lower(y[i]) {
            return false;
        }
        i += 1;
    }
    true
}

/// What separates the fields of a line of text.
#[derive(Clone, Copy, Debug)]
pub enum Separator {
    /// Any character with the Unicode `White_Space` property.
    WhiteSpace,
    /// One given character.
    Character(char),
}

/// Whether `c` is a separator of the kind `sep`.
pub open spec fn separates(sep: Separator, c: char) -> bool {
    match sep {
        Separator::WhiteSpace => white_space(c),
        Separator::Character(x) => c == x,
    }
}

/// The fields of `s`: the stretches of text between separators, empty ones
/// included. A text with `n` separators has `n + 1` fields.
pub open spec fn fields(s: Seq<char>, sep: Separator) -> Seq<Seq<char>>
    decreases s.len(),
{
    if s.len() == 0 {
        seq![Seq::<char>::empty()]
    } else {
        let before = fields(s.drop_last(), sep);
        if separates(sep, s.last()) {
            before.push(Seq::<char>::empty())
        } else {
            before.drop_last().push(before.last().push(s.last()))
        }
    }
}

/// The non-empty members of `fs`, in order.
pub open spec fn drop_empty(fs: Seq<Seq<char>>) -> Seq<Seq<char>>
    decreases fs.len(),
{
    if fs.len() == 0 {
        fs
    } else if fs.last().len() > 0 {
        drop_empty(fs.drop_last()).push(fs.last())
    } else {
        drop_empty(fs.drop_last())
    }
}

/// The words of `s`: its maximal stretches free of white space.
pub open spec fn words(s: Seq<char>) -> Seq<Seq<char>> {
    drop_empty(fields(s, Separator::WhiteSpace))
}

/// The character sequences of a sequence of strings.
pub open spec fn texts(v: Seq<String>) -> Seq<Seq<char>> {
    Seq::new(v.len(), |i: int| v[i]@)
}

proof fn lemma_texts_push(v: Seq<String>, x: String)
    ensures
        texts(v.push(x)) == texts(v).push(x@),
{
    assert(texts(v.push(x)) =~= texts(v).push(x@));
}

fn is_separator(sep: Separator, c: char) -> (b: bool)
    ensures
        b == separates(sep, c),
{
    match sep {
        Separator::WhiteSpace => is_whitespace(c),
        Separator::Character(x) => c == x,
    }
}

/// Splits `s` at every separator and returns all the fields.
pub fn split(s: &str, sep: Separator) -> (out: Vec<String>)
    ensures
        texts(out@) == fields(s@, sep),
{
    let mut out: Vec<String> = Vec::new();
    let mut cur = String::new();
    proof {
        assert(texts(out@).push(cur@) =~= fields(s@.take(0), sep));
    }
    for c in it: s.chars()
        invariant
            it.seq() == s@,
            texts(out@).push(cur@) == fields(s@.take(it.index() as int), sep),
    {
        let ghost done = texts(out@);
        let ghost open = cur@;
        proof {
            assert(s@.take(it.index() + 1).drop_last() == s@.take(it.index() as int));
            assert(s@.take(it.index() + 1).last() == c);
            assert(done.push(open).drop_last() == done);
        }
        if is_separator(sep, c) {
            proof {
                lemma_texts_push(out@, cur);
            }
            out.push(cur);
            cur = String::new();
        } else {
            push_char(&mut cur, c);
        }
    }
    proof {
        lemma_texts_push(out@, cur);
        assert(s@.take(s@.len() as int) == s@);
    }
    out.push(cur);
    out
}

/// Splits `s` at white space and returns its words.
pub fn split_whitespace(s: &str) -> (out: Vec<String>)
    ensures
        texts(out@) == words(s@),
{
    let all = split(s, Separator::WhiteSpace);
    let mut out: Vec<String> = Vec::new();
    let ghost whole = all@;
    let n = all.len();
    let mut i: usize = 0;
    proof {
        assert(texts(whole.take(0)) =~= Seq::<Seq<char>>::empty());
    }
    while i < n
        invariant
            i <= n == all.len(),
            all@ == whole,
            texts(out@) == drop_empty(texts(whole.take(i as int))),
        decreases n - i,
    {
        let word = copy_str(all[i].as_str());
        proof {
            assert(whole.take(i + 1) == whole.take(i as int).push(whole[i as int]));
            lemma_texts_push(whole.take(i as int), whole[i as int]);
            assert(texts(whole.take(i + 1)).drop_last() == texts(whole.take(i as int)));
            lemma_texts_push(out@, word);
        }
        if word.as_str().unicode_len() > 0 {
            out.push(word);
        }
        i += 1;
    }
    proof {
        assert(whole.take(n as int) == whole);
    }
    out
}

/// `s` without its leading white space.
pub open spec fn trim_start(s: Seq<char>) -> Seq<char>
    decreases s.len(),
{
    if s.len() > 0 && white_space(s.first()) {
        trim_start(s.drop_first())
    } else {
        s
    }
}

/// `s` without its trailing white space.
pub open spec fn trim_end(s: Seq<char>) -> Seq<char>
    decreases s.len(),
{
    if s.len() > 0 && white_space(s.last()) {
        trim_end(s.drop_last())
    } else {
        s
    }
}

/// `s` without leading and trailing white space.
pub open spec fn trim(s: Seq<char>) -> Seq<char> {
    trim_end(trim_start(s))
}

/// Removes leading and trailing white space.
pub fn trimmed(s: &str) -> (t: String)
    ensures
        t@ == trim(s@),
{
    let v = to_chars(s);
    let n = v.len();
    let mut from: usize = 0;
    proof {
        assert(v@.skip(0) == v@);
    }
    while from < n && is_whitespace(v[from])
        invariant
            from <= n == v.len(),
            trim_start(v@) == trim_start(v@.skip(from as int)),
        decreases n - from,
    {
        proof {
            assert(v@.skip(from as int).drop_first() == v@.skip(from + 1));
        }
        from += 1;
    }
    let mut to: usize = n;
    proof {
        assert(v@.skip(from as int) == v@.subrange(from as int, n as int));
    }
    while to > from && is_whitespace(v[to - 1])
        invariant
            from <= to <= n == v.len(),
            trim(v@) == trim_end(v@.subrange(from as int, to as int)),
        decreases to,
    {
        proof {
            assert(v@.subrange(from as int, to as int).drop_last() == v@.subrange(
                from as int,
                to - 1,
            ));
        }
        to -= 1;
    }
    from_chars(&v, from, to)
}

/// The number written by a string of decimal digits.
pub open spec fn decimal_value(s: Seq<char>) -> nat
    decreases s.len(),
{
    if s.len() == 0 {
        0
    } else {
        decimal_value(s.drop_last()) * 10 + (s.last() as u32 - '0' as u32) as nat
    }
}

/// Every character of `s` is one of `0` to `9`.
pub open spec fn all_digits(s: Seq<char>) -> bool {
    forall|i: int| 0 <= i < s.len() ==> '0' <= #[trigger] s[i] <= '9'
}

/// The number written by `s` where `s` is an unsigned decimal literal: an
/// optional `+`, then one digit or more, and nothing else.
pub open spec fn unsigned_literal(s: Seq<char>) -> Option<nat> {
    let digits = if s.len() > 0 && s[0] == '+' {
        s.drop_first()
    } else {
        s
    };
    if digits.len() > 0 && all_digits(digits) {
        Some(decimal_value(digits))
    } else {
        None
    }
}

/// The `u64` that `s` stands for, if it is an unsigned decimal literal whose
/// value fits.
pub open spec fn parsed_u64(s: Seq<char>) -> Option<u64> {
    match unsigned_literal(s) {
        Some(n) => if n <= u64::MAX {
            Some(n as u64)
        } else {
            None
        },
        None => None,
    }
}

/// `std::num::ParseIntError`: why a text is no integer. It is carried along
/// for the caller to show and is never looked into.
#[verifier::external_type_specification]
#[verifier::external_body]
pub struct ExParseIntError(ParseIntError);

/// `str::parse::<u64>`: succeeds exactly on an optional `+` followed by
/// decimal digits only, at least one, whose value fits in 64 bits, and then
/// returns that value. Anything else (an empty string, a lone sign, white
/// space, a `-`, an underscore, a value too large) is an error.
#[verifier::external_body]
pub(crate) fn parse_u64(s: &str) -> (r: Result<u64, ParseIntError>)
    ensures
        r is Ok <==> parsed_u64(s@) is Some,
        r matches Ok(n) ==> parsed_u64(s@) == Some(n),
{
    s.parse::<u64>()
}

/// The character for a digit below ten.
pub open spec fn digit_char(d: nat) -> char
    recommends
        d < 10,
{
    (('0' as u8) + (d as u8)) as char
}

/// The decimal digits of `n`, most significant first, without leading zeros.
pub open spec fn decimal_digits(n: nat) -> Seq<char>
    decreases n,
{
    if n < 10 {
        seq![digit_char(n)]
    } else {
        decimal_digits(n / 10).push(digit_char(n % 10))
    }
}

/// Appends the decimal form of `n` to `s`.
pub fn push_decimal(s: &mut String, n: u64)
    ensures
        final(s)@ == old(s)@ + decimal_digits(n as nat),
    decreases n,
{
    let ghost before = s@;
    if n >= 10 {
        push_decimal(s, n / 10);
    }
    let d: u8 = (n % 10) as u8;
    push_char(s, (48u8 + d) as char);
    proof {
        if n >= 10 {
            assert(s@ =~= before + decimal_digits(n as nat));
        } else {
            assert(s@ =~= before + decimal_digits(n as nat));
        }
    }
}

/// The decimal form of `n`.
pub fn decimal(n: u64) -> (s: String)
    ensures
        s@ == decimal_digits(n as nat),
{
    let mut s = String::new();
    push_decimal(&mut s, n);
    assert(Seq::<char>::empty() + decimal_digits(n as nat) =~= decimal_digits(n as nat));
    s
}

/// The lowercase hexadecimal digit for a value below sixteen.
pub open spec fn hex_char(d: nat) -> char
    recommends
        d < 16,
{
    if d < 10 {
        (48u8 + (d as u8)) as char
    } else {
        (87u8 + (d as u8)) as char
    }
}

/// The lowercase hexadecimal form of a byte string, two digits per byte.
pub open spec fn hex_digits(bytes: Seq<u8>) -> Seq<char>
    decreases bytes.len(),
{
    if bytes.len() == 0 {
        Seq::<char>::empty()
    } else {
        hex_digits(bytes.drop_last()).push(hex_char((bytes.last() / 16) as nat)).push(
            hex_char((bytes.last() % 16) as nat),
        )
    }
}

fn hex_digit(d: u8) -> (c: char)
    requires
        d < 16,
    ensures
        c == hex_char(d as nat),
{
    if d < 10 {
        (48u8 + d) as char
    } else {
        (87u8 + d) as char
    }
}

/// Writes `bytes` in lowercase hexadecimal.
pub fn to_hex(bytes: &[u8]) -> (s: String)
    ensures
        s@ == hex_digits(bytes@),
{
    let mut s = String::new();
    let mut i: usize = 0;
    proof {
        assert(bytes@.take(0) =~= Seq::<u8>::empty());
    }
    while i < bytes.len()
        invariant
            i <= bytes.len(),
            s@ == hex_digits(bytes@.take(i as int)),
        decreases bytes.len() - i,
    {
        let b = bytes[i];
        proof {
            assert(bytes@.take(i + 1).drop_last() == bytes@.take(i as int));
            assert(bytes@.take(i + 1).last() == b);
        }
        push_char(&mut s, hex_digit(b / 16));
        push_char(&mut s, hex_digit(b % 16));
        i += 1;
    }
    proof {
        assert(bytes@.take(bytes.len() as int) == bytes@);
    }
    s
}

/// The characters of an optional string.
pub open spec fn opt_text(o: Option<String>) -> Option<Seq<char>> {
    match o {
        Some(s) => Some(s@),
        None => None,
    }
}

/// The characters of an optional string slice.
pub open spec fn opt_str(o: Option<&str>) -> Option<Seq<char>> {
    match o {
        Some(s) => Some(s@),
        None => None,
    }
}

/// A copy of an optional string.
pub fn clone_opt_text(o: &Option<String>) -> (r: Option<String>)
    ensures
        opt_text(r) == opt_text(*o),
{
    match o {
        Some(s) => Some(s.clone()),
        None => None,
    }
}

/// No member of `drop_empty(list)` is empty.
pub proof fn lemma_drop_empty_members(list: Seq<Seq<char>>)
    ensures
        forall|i: int|
            0 <= i < drop_empty(list).len() ==> (#[trigger] drop_empty(list)[i]).len() > 0,
    decreases list.len(),
{
    if list.len() > 0 {
        lemma_drop_empty_members(list.drop_last());
        let before = drop_empty(list.drop_last());
        assert forall|i: int| 0 <= i < drop_empty(list).len() implies (#[trigger] drop_empty(
            list,
        )[i]).len() > 0 by {
            if i < before.len() {
                assert(drop_empty(list)[i] == before[i]);
            }
        }
    }
}

/// The letters `a` to `z` of `s`, in order; everything else is dropped.
pub open spec fn keep_ascii_lowercase(s: Seq<char>) -> Seq<char>
    decreases s.len(),
{
    if s.len() == 0 {
        s
    } else if 'a' <= s.last() <= 'z' {
        keep_ascii_lowercase(s.drop_last()).push(s.last())
    } else {
        keep_ascii_lowercase(s.drop_last())
    }
}

/// An identifier as the user may have typed it, brought to its plain form:
/// in lowercase, and with nothing but the letters `a` to `z`.
pub open spec fn sanitized(s: Seq<char>) -> Seq<char> {
    keep_ascii_lowercase(unicode_lowercase(s))
}

/// Sanitize a string to lowercase, and ascii 'a'-'z' only.
///
/// Used to sanitize user input for ASVO identifiers.
pub fn sanitize_identifier(s: &str) -> (r: String)
    ensures
        r@ == sanitized(s@),
{
    let lower = to_lowercase(s);
    let mut r = String::new();
    for c in it: lower.as_str().chars()
        invariant
            it.seq() == lower@,
            r@ == keep_ascii_lowercase(lower@.take(it.index() as int)),
    {
        proof {
            assert(lower@.take(it.index() + 1).drop_last() == lower@.take(it.index() as int));
        }
        if c >= 'a' && c <= 'z' {
            push_char(&mut r, c);
        }
    }
    proof {
        assert(lower@.take(lower@.len() as int) == lower@);
    }
    r
}

} // verus!
