//! Version related constants and functions.
//!
//! The version string of the PulseAudio client system library in use at runtime has the form
//! `$MAJOR.$MINOR.$MICRO` (with the micro number fixed to zero). This module parses such a string
//! into numbers and compares a supplied version with it. The string itself is read from the system
//! library at the application's edge and handed in.

use vstd::prelude::*;

verus! {

/// Major number of the library version that the selected compatibility level targets.
pub const TARGET_VERSION_MAJOR: u8 = 15;

/// Minor number of the library version that the selected compatibility level targets.
pub const TARGET_VERSION_MINOR: u8 = 0;

/// Kinds of errors from trying to parse the runtime PulseAudio system library version string.
#[derive(Debug, Copy, Clone, PartialEq, Eq, Structural)]
pub enum ErrorKind {
    /// Error parsing part as integer.
    ParseIntError,
    /// Missing version part.
    MissingPart,
    /// Too many parts found in the string (unexpected; something is wrong).
    ExtraParts,
}

/// Error from trying to parse the runtime PulseAudio system library version string.
#[derive(Debug, Clone)]
pub struct Error {
    /// The problematic version string which could not be parsed.
    ver_str: String,
}

impl Error {
    /// Creates an error for the given version string.
    pub fn new(ver_str: String) -> (r: Self)
        ensures
            r.ver_str() == ver_str@,
    {
        Error { ver_str }
    }

    /// The version string that could not be parsed.
    pub closed spec fn ver_str(&self) -> Seq<char> {
        self.ver_str@
    }

    /// Gets the version string that could not be parsed.
    pub fn version_string(&self) -> (r: &str)
        ensures
            r@ == self.ver_str(),
    {
        self.ver_str.as_str()
    }
}

impl PartialEq for Error {
    fn eq(&self, other: &Self) -> (r: bool) {
        self.ver_str == other.ver_str
    }
}

impl vstd::std_specs::cmp::PartialEqSpecImpl for Error {
    open spec fn obeys_eq_spec() -> bool {
        true
    }

    open spec fn eq_spec(&self, other: &Self) -> bool {
        self.ver_str() == other.ver_str()
    }
}

impl Eq for Error {
}

// ------------------------------------------------------------------------------------------------
// The meaning of a version string.

/// Index of the first `'.'` in `s`, or the length of `s` where there is none.
pub open spec fn dot_index(s: Seq<char>) -> nat
    decreases s.len(),
{
    if s.len() == 0 {
        0
    } else if s[0] == '.' {
        0
    } else {
        1 + dot_index(s.drop_first())
    }
}

/// The parts of `s` separated by `'.'`, as `str::split('.')` gives them: one more part than there
/// are dots, empty parts included.
pub open spec fn split_dots(s: Seq<char>) -> Seq<Seq<char>>
    decreases s.len(),
{
    let i = dot_index(s);
    if i >= s.len() {
        seq![s]
    } else {
        seq![s.take(i as int)] + split_dots(s.skip((i + 1) as int))
    }
}

/// Whether `c` is an ASCII decimal digit.
pub open spec fn is_digit(c: char) -> bool {
    '0' <= c && c <= '9'
}

/// The numeric value of a decimal digit.
pub open spec fn digit_value(c: char) -> nat {
    (c as int - '0' as int) as nat
}

/// Whether every character of `s` is an ASCII decimal digit.
pub open spec fn all_digits(s: Seq<char>) -> bool {
    forall|i: int| 0 <= i < s.len() ==> is_digit(#[trigger] s[i])
}

/// The value of a string of decimal digits, most significant first.
pub open spec fn digits_value(s: Seq<char>) -> nat
    decreases s.len(),
{
    if s.len() == 0 {
        0
    } else {
        digits_value(s.drop_last()) * 10 + digit_value(s.last())
    }
}

/// What parsing `s` as a `u8` gives (`str::parse::<u8>`): an optional leading `'+'`, then at least
/// one decimal digit, and a value of at most 255.
pub open spec fn parse_u8(s: Seq<char>) -> Option<u8> {
    let digits = if s.len() > 0 && s[0] == '+' { s.drop_first() } else { s };
    if digits.len() > 0 && all_digits(digits) && digits_value(digits) <= 255 {
        Some(digits_value(digits) as u8)
    } else {
        None
    }
}

/// What parsing a version string gives: the first three dot-separated parts as numbers, each part
/// being checked in turn, and an error where a part is not a number, where fewer than three parts
/// are present, or where more than three are.
pub open spec fn version_numbers(s: Seq<char>) -> Result<(u8, u8, u8), ErrorKind> {
    let parts = split_dots(s);
    if parse_u8(parts[0]) is None {
        Err(ErrorKind::ParseIntError)
    } else if parts.len() < 2 {
        Err(ErrorKind::MissingPart)
    } else if parse_u8(parts[1]) is None {
        Err(ErrorKind::ParseIntError)
    } else if parts.len() < 3 {
        Err(ErrorKind::MissingPart)
    } else if parse_u8(parts[2]) is None {
        Err(ErrorKind::ParseIntError)
    } else if parts.len() > 3 {
        Err(ErrorKind::ExtraParts)
    } else {
        Ok((parse_u8(parts[0])->0, parse_u8(parts[1])->0, parse_u8(parts[2])->0))
    }
}

// ------------------------------------------------------------------------------------------------
// Lemmas.

/// The first dot is found by a scan: where no dot lies in `[0, k)`, the dot index of `s` is `k`
/// plus the dot index of `s.skip(k)`.
proof fn lemma_dot_index_skip(s: Seq<char>, k: int)
    requires
        0 <= k <= s.len(),
        forall|j: int| 0 <= j < k ==> s[j] != '.',
    ensures
        dot_index(s) == k + dot_index(s.skip(k)),
    decreases k,
{
    if k > 0 {
        assert(s.drop_first().skip(k - 1) =~= s.skip(k));
        assert forall|j: int| 0 <= j < k - 1 implies s.drop_first()[j] != '.' by {
            assert(s.drop_first()[j] == s[j + 1]);
        }
        lemma_dot_index_skip(s.drop_first(), k - 1);
    } else {
        assert(s.skip(0) =~= s);
    }
}

proof fn lemma_digits_value_step(s: Seq<char>, i: int)
    requires
        0 <= i < s.len(),
    ensures
        digits_value(s.take(i + 1)) == digits_value(s.take(i)) * 10 + digit_value(s[i]),
{
    assert(s.take(i + 1).drop_last() =~= s.take(i));
}

/// A longer string of digits has at least the value of any of its prefixes.
proof fn lemma_digits_value_prefix(s: Seq<char>, k: int)
    requires
        0 <= k <= s.len(),
        all_digits(s),
    ensures
        digits_value(s.take(k)) <= digits_value(s),
    decreases s.len() - k,
{
    if k < s.len() {
        lemma_digits_value_step(s, k);
        lemma_digits_value_prefix(s, k + 1);
    } else {
        assert(s.take(k) =~= s);
    }
}


/// The first part of `s.skip(start)` ends at the first dot at or after `start` (or at the end),
/// and the remaining parts are those of what follows that dot.
proof fn lemma_split_at(s: Seq<char>, start: int, end: int)
    requires
        0 <= start <= end <= s.len(),
        end == start + dot_index(s.skip(start)),
    ensures
        split_dots(s.skip(start)).len() >= 1,
        split_dots(s.skip(start))[0] == s.subrange(start, end),
        end == s.len() ==> split_dots(s.skip(start)).len() == 1,
        end < s.len() ==> split_dots(s.skip(start)).drop_first() == split_dots(s.skip(end + 1)),
{
    let t = s.skip(start);
    let i = dot_index(t);
    if i >= t.len() {
        assert(t =~= s.subrange(start, end));
    } else {
        assert(t.take(i as int) =~= s.subrange(start, end));
        assert(t.skip((i + 1) as int) =~= s.skip(end + 1));
        assert((seq![t.take(i as int)] + split_dots(t.skip((i + 1) as int))).drop_first()
            =~= split_dots(t.skip((i + 1) as int)));
    }
}

proof fn lemma_split_nonempty(t: Seq<char>)
    ensures
        split_dots(t).len() >= 1,
{
}

// ------------------------------------------------------------------------------------------------
// Executable parsing.

/// Finds the first dot at or after `start`, or the end of `s`.
fn find_dot(s: &Vec<char>, start: usize) -> (r: usize)
    requires
        start <= s.len(),
    ensures
        r == start + dot_index(s@.skip(start as int)),
        r <= s.len(),
{
    let mut i = start;
    while i < s.len() && s[i] != '.'
        invariant
            start <= i <= s.len(),
            forall|j: int| start <= j < i ==> s@[j] != '.',
        decreases s.len() - i,
    {
        i += 1;
    }
    proof {
        let t = s@.skip(start as int);
        assert forall|j: int| 0 <= j < i - start implies t[j] != '.' by {
            assert(t[j] == s@[start + j]);
        }
        lemma_dot_index_skip(t, i - start);
        assert(t.skip(i - start) =~= s@.skip(i as int));
    }
    i
}

/// Parses `s[start..end)` as a `u8`, as `str::parse::<u8>` does.
fn parse_u8_part(s: &Vec<char>, start: usize, end: usize) -> (r: Option<u8>)
    requires
        start <= end <= s.len(),
    ensures
        r == parse_u8(s@.subrange(start as int, end as int)),
{
    let ghost part = s@.subrange(start as int, end as int);
    let mut first = start;
    if first < end && s[first] == '+' {
        first += 1;
    }
    let ghost digits = s@.subrange(first as int, end as int);
    assert(digits =~= (if part.len() > 0 && part[0] == '+' { part.drop_first() } else { part }));
    if first == end {
        return None;
    }
    let mut value: u32 = 0;
    let mut i = first;
    while i < end
        invariant
            start <= first <= i <= end <= s.len(),
            part == s@.subrange(start as int, end as int),
            digits == s@.subrange(first as int, end as int),
            digits == (if part.len() > 0 && part[0] == '+' { part.drop_first() } else { part }),
            digits.len() > 0,
            all_digits(digits.take(i - first)),
            value == digits_value(digits.take(i - first)),
            value <= 255,
        decreases end - i,
    {
        let c = s[i];
        if !('0' <= c && c <= '9') {
            assert(!is_digit(digits[i - first]));
            return None;
        }
        proof {
            lemma_digits_value_step(digits, i - first);
            assert forall|j: int| 0 <= j < i + 1 - first implies is_digit(
                #[trigger] digits.take(i + 1 - first)[j],
            ) by {
                if j < i - first {
                    assert(digits.take(i + 1 - first)[j] == digits.take(i - first)[j]);
                }
            }
        }
        let d = (c as u32) - ('0' as u32);
        value = value * 10 + d;
        if value > 255 {
            proof {
                if all_digits(digits) {
                    lemma_digits_value_prefix(digits, i + 1 - first);
                }
            }
            return None;
        }
        i += 1;
    }
    assert(digits.take(end - first) =~= digits);
    Some(value as u8)
}

/// Parses a version string held as characters.
fn version_numbers_of(s: &Vec<char>) -> (r: Result<(u8, u8, u8), ErrorKind>)
    ensures
        r == version_numbers(s@),
{
    let ghost parts = split_dots(s@);
    assert(s@.skip(0) =~= s@);
    let end0 = find_dot(s, 0);
    proof {
        lemma_split_at(s@, 0, end0 as int);
    }
    let major = match parse_u8_part(s, 0, end0) {
        Some(v) => v,
        None => return Err(ErrorKind::ParseIntError),
    };
    if end0 == s.len() {
        return Err(ErrorKind::MissingPart);
    }
    let start1 = end0 + 1;
    let end1 = find_dot(s, start1);
    proof {
        lemma_split_at(s@, start1 as int, end1 as int);
        assert(parts[1] == split_dots(s@.skip(start1 as int))[0]);
    }
    let minor = match parse_u8_part(s, start1, end1) {
        Some(v) => v,
        None => return Err(ErrorKind::ParseIntError),
    };
    if end1 == s.len() {
        assert(parts.len() == 2);
        return Err(ErrorKind::MissingPart);
    }
    let start2 = end1 + 1;
    let end2 = find_dot(s, start2);
    proof {
        lemma_split_at(s@, start2 as int, end2 as int);
        assert(parts[2] == split_dots(s@.skip(start2 as int))[0]);
    }
    let micro = match parse_u8_part(s, start2, end2) {
        Some(v) => v,
        None => return Err(ErrorKind::ParseIntError),
    };
    if end2 < s.len() {
        proof {
            lemma_split_nonempty(s@.skip(end2 + 1));
            assert(parts.drop_first().drop_first().drop_first() == split_dots(s@.skip(end2 + 1)));
        }
        assert(parts.len() > 3);
        Err(ErrorKind::ExtraParts)
    } else {
        assert(parts.len() == 3);
        Ok((major, minor, micro))
    }
}

/// Converts a PulseAudio version string to major, minor and micro numbers.
///
/// The string is split at each `'.'`; each of the first three parts must parse as a `u8`
/// (`ParseIntError` otherwise, the parts being checked in order), there must be at least three
/// parts (`MissingPart`) and no more than three (`ExtraParts`).
pub fn pa_version_str_to_num(ver: &str) -> (r: Result<(u8, u8, u8), ErrorKind>)
    ensures
        r == version_numbers(ver@),
{
    let chars = chars_of(ver);
    version_numbers_of(&chars)
}

/// Collects the characters of a string.
fn chars_of(s: &str) -> (r: Vec<char>)
    ensures
        r@ == s@,
{
    let mut v: Vec<char> = Vec::new();
    broadcast use vstd::string::axiom_spec_iter;
    for c in it: s.chars()
        invariant
            it.seq() == s@,
            v@ == s@.take(it.index() as int),
    {
        v.push(c);
    }
    assert(s@.take(s@.len() as int) =~= s@);
    v
}

} // verus!

verus! {

/// The comparison of version `(major, minor)` with `(lib_major, lib_minor)`: by major number
/// first, then by minor number.
pub open spec fn version_order(major: u8, minor: u8, lib_major: u8, lib_minor: u8) -> std::cmp::Ordering {
    if major < lib_major {
        std::cmp::Ordering::Less
    } else if major > lib_major {
        std::cmp::Ordering::Greater
    } else if minor < lib_minor {
        std::cmp::Ordering::Less
    } else if minor > lib_minor {
        std::cmp::Ordering::Greater
    } else {
        std::cmp::Ordering::Equal
    }
}

/// Tries to convert the version string of the runtime system library (read by the caller from the
/// library) to numeric major, minor and micro form, for comparison purposes.
///
/// Returns `Err`, holding the string, if parsing the version number string fails.
pub fn get_library_version_numbers(lib_version: &str) -> (r: Result<(u8, u8, u8), Error>)
    ensures
        version_numbers(lib_version@) is Ok ==> r == Ok::<(u8, u8, u8), Error>(version_numbers(lib_version@)->Ok_0),
        version_numbers(lib_version@) is Err ==> (r matches Err(e) && e.ver_str() == lib_version@),
{
    match pa_version_str_to_num(lib_version) {
        Ok(nums) => Ok(nums),
        Err(_e) => Err(Error::new(lib_version.to_owned())),
    }
}

/// Compares the supplied version with that of the runtime system library, whose version string
/// the caller reads from the library.
///
/// Returns the comparison, or `Err` if a problem occurred parsing the library version string. The
/// comparison represents `supplied.cmp(&library)`, on major then minor numbers.
pub fn compare_with_library_version(major: u8, minor: u8, lib_version: &str)
    -> (r: Result<std::cmp::Ordering, Error>)
    ensures
        version_numbers(lib_version@) matches Ok((lib_major, lib_minor, _)) ==>
            r == Ok::<std::cmp::Ordering, Error>(version_order(major, minor, lib_major, lib_minor)),
        version_numbers(lib_version@) is Err ==> (r matches Err(e) && e.ver_str() == lib_version@),
{
    let (lib_major, lib_minor, _) = get_library_version_numbers(lib_version)?;
    if major < lib_major {
        Ok(std::cmp::Ordering::Less)
    } else if major > lib_major {
        Ok(std::cmp::Ordering::Greater)
    } else if minor < lib_minor {
        Ok(std::cmp::Ordering::Less)
    } else if minor > lib_minor {
        Ok(std::cmp::Ordering::Greater)
    } else {
        Ok(std::cmp::Ordering::Equal)
    }
}

/// Checks whether the version of the running system library (whose version string the caller
/// reads from the library) is older than the version that the selected compatibility level
/// targets.
///
/// Returns `Ok(true)` if the library version is older, `Ok(false)` if equal or newer, or `Err` if a
/// problem occurred processing the version string.
pub fn library_version_is_too_old(lib_version: &str) -> (r: Result<bool, Error>)
    ensures
        version_numbers(lib_version@) matches Ok((lib_major, lib_minor, _)) ==>
            r == Ok::<bool, Error>(version_order(TARGET_VERSION_MAJOR, TARGET_VERSION_MINOR,
                lib_major, lib_minor) == std::cmp::Ordering::Greater),
        version_numbers(lib_version@) is Err ==> (r matches Err(e) && e.ver_str() == lib_version@),
{
    match compare_with_library_version(TARGET_VERSION_MAJOR, TARGET_VERSION_MINOR, lib_version)? {
        std::cmp::Ordering::Less | std::cmp::Ordering::Equal => Ok(false),
        std::cmp::Ordering::Greater => Ok(true),
    }
}

} // verus!

verus! {

/// Comparing versions is a total order on (major, minor) pairs: a version is equal only to
/// itself, and swapping the two versions swaps `Less` and `Greater`.
pub proof fn lemma_version_order(major: u8, minor: u8, lib_major: u8, lib_minor: u8)
    ensures
        (version_order(major, minor, lib_major, lib_minor) == std::cmp::Ordering::Equal) <==> (
        major == lib_major && minor == lib_minor),
        (version_order(major, minor, lib_major, lib_minor) == std::cmp::Ordering::Less) <==> (
        version_order(lib_major, lib_minor, major, minor) == std::cmp::Ordering::Greater),
        (version_order(major, minor, lib_major, lib_minor) == std::cmp::Ordering::Less) <==> (
        major < lib_major || (major == lib_major && minor < lib_minor)),
{
}

/// A newer major number makes a version newer whatever the minor numbers.
pub proof fn lemma_version_major_dominates(major: u8, minor: u8, lib_major: u8, lib_minor: u8)
    requires
        major > lib_major,
    ensures
        version_order(major, minor, lib_major, lib_minor) == std::cmp::Ordering::Greater,
{
}

} // verus!

verus! {

/// The decimal character of a digit value below ten.
pub open spec fn digit_char(d: nat) -> char {
    ((48 + d) as u32) as char
}

/// The decimal representation of `n`, without leading zeros (`"0"` for zero).
pub open spec fn decimal(n: nat) -> Seq<char>
    decreases n,
{
    if n < 10 {
        seq![digit_char(n)]
    } else {
        decimal(n / 10).push(digit_char(n % 10))
    }
}

proof fn lemma_digit_char(d: nat)
    requires
        d < 10,
    ensures
        is_digit(digit_char(d)),
        digit_value(digit_char(d)) == d,
        digit_char(d) != '.',
        digit_char(d) != '+',
{
}

proof fn lemma_decimal(n: nat)
    ensures
        decimal(n).len() > 0,
        all_digits(decimal(n)),
        digits_value(decimal(n)) == n,
        forall|i: int| 0 <= i < decimal(n).len() ==> decimal(n)[i] != '.',
        decimal(n)[0] != '+',
    decreases n,
{
    if n < 10 {
        lemma_digit_char(n);
        assert(decimal(n).drop_last() =~= Seq::<char>::empty());
        assert(digits_value(decimal(n)) == digits_value(Seq::<char>::empty()) * 10 + digit_value(digit_char(n)));
    } else {
        lemma_decimal(n / 10);
        lemma_digit_char(n % 10);
        let s = decimal(n / 10);
        let t = s.push(digit_char(n % 10));
        assert(t.drop_last() =~= s);
        assert(t.last() == digit_char(n % 10));
        assert(digits_value(t) == digits_value(s) * 10 + digit_value(digit_char(n % 10)));
        assert((n / 10) * 10 + n % 10 == n);
        assert forall|i: int| 0 <= i < t.len() implies is_digit(#[trigger] t[i]) by {
            if i < s.len() {
                assert(t[i] == s[i]);
            }
        }
        assert forall|i: int| 0 <= i < t.len() implies t[i] != '.' by {
            if i < s.len() {
                assert(t[i] == s[i]);
            }
        }
        assert(t[0] == s[0]);
    }
}

/// The first dot of `x` followed by a dot and `y` is the one after `x`, where `x` holds none.
proof fn lemma_split_joined(x: Seq<char>, y: Seq<char>)
    requires
        forall|i: int| 0 <= i < x.len() ==> x[i] != '.',
    ensures
        split_dots(x + seq!['.'] + y) == seq![x] + split_dots(y),
{
    let s = x + seq!['.'] + y;
    assert forall|j: int| 0 <= j < x.len() implies s[j] != '.' by {
        assert(s[j] == x[j]);
    }
    lemma_dot_index_skip(s, x.len() as int);
    assert(s.skip(x.len() as int)[0] == '.');
    assert(dot_index(s) == x.len());
    assert(s.take(x.len() as int) =~= x);
    assert(s.skip(x.len() + 1int) =~= y);
}

/// A string without dots is a single part.
proof fn lemma_split_no_dot(x: Seq<char>)
    requires
        forall|i: int| 0 <= i < x.len() ==> x[i] != '.',
    ensures
        split_dots(x) == seq![x],
{
    assert(x.skip(0) =~= x);
    lemma_dot_index_skip(x, x.len() as int);
    assert(x.skip(x.len() as int).len() == 0);
}

/// Parsing a version string written as three decimal numbers separated by dots gives the
/// numbers back.
pub proof fn lemma_version_numbers_of_decimal(major: u8, minor: u8, micro: u8)
    ensures
        version_numbers(decimal(major as nat) + seq!['.'] + decimal(minor as nat) + seq!['.']
            + decimal(micro as nat)) == Ok::<(u8, u8, u8), ErrorKind>((major, minor, micro)),
{
    let a = decimal(major as nat);
    let b = decimal(minor as nat);
    let c = decimal(micro as nat);
    lemma_decimal(major as nat);
    lemma_decimal(minor as nat);
    lemma_decimal(micro as nat);
    let s = a + seq!['.'] + b + seq!['.'] + c;
    let bc = b + seq!['.'] + c;
    assert(s =~= a + seq!['.'] + bc);
    lemma_split_joined(a, bc);
    lemma_split_joined(b, c);
    lemma_split_no_dot(c);
    let parts = split_dots(s);
    assert(parts =~= seq![a, b, c]);
    assert(parse_u8(a) == Some(major));
    assert(parse_u8(b) == Some(minor));
    assert(parse_u8(c) == Some(micro));
}

} // verus!
