//! Furi strings and the string [`Pattern`] API.
//!
//! A [`FuriString`] is held as its bytes. The Pattern API provides a generic mechanism for
//! using different pattern types when searching through a string:
//!
//! | Pattern type        | Match condition                           |
//! |---------------------|-------------------------------------------|
//! | `&FuriString`       | is substring                              |
//! | `u8` (a C `char`)   | is contained in string                    |
//! | `&[u8]` (C string)  | is substring                              |
//! | `char`              | is contained in string (as UTF-8)         |
//! | `&[char]`           | any char in slice is contained in string  |
//!
//! For example, both `'a'` and `"aa"` are patterns that would match at index `1` in the
//! string `"baaaab"`.

use vstd::prelude::*;
use vstd::string::StringSliceAdditionalSpecFns;
use vstd::utf8::encode_scalar;

verus! {

/// A string of the Furi runtime, held as its bytes.
#[derive(Debug, PartialEq, Eq)]
pub struct FuriString {
    bytes: Vec<u8>,
}

impl View for FuriString {
    type V = Seq<u8>;

    closed spec fn view(&self) -> Seq<u8> {
        self.bytes@
    }
}

impl FuriString {
    /// An empty string.
    pub fn new() -> (r: FuriString)
        ensures
            r@ == Seq::<u8>::empty(),
    {
        FuriString { bytes: Vec::new() }
    }

    /// A string holding the given bytes.
    pub fn from_bytes(bytes: &[u8]) -> (r: FuriString)
        ensures
            r@ == bytes@,
    {
        let mut v: Vec<u8> = Vec::new();
        let mut i: usize = 0;
        while i < bytes.len()
            invariant
                i <= bytes@.len(),
                v@ == bytes@.take(i as int),
            decreases bytes@.len() - i,
        {
            assert(bytes@.take(i + 1) =~= bytes@.take(i as int).push(bytes@[i as int]));
            v.push(bytes[i]);
            i = i + 1;
        }
        assert(bytes@.take(i as int) =~= bytes@);
        FuriString { bytes: v }
    }

    /// A string holding the UTF-8 bytes of `s`.
    pub fn from_str(s: &str) -> (r: FuriString)
        ensures
            r@ == vstd::utf8::encode_utf8(s@),
    {
        FuriString::from_bytes(s.as_bytes())
    }

    /// The bytes of the string.
    pub fn to_bytes(&self) -> (r: &[u8])
        ensures
            r@ == self@,
    {
        self.bytes.as_slice()
    }

    /// The number of bytes in the string.
    pub fn len(&self) -> (r: usize)
        ensures
            r == self@.len(),
    {
        self.bytes.len()
    }

    /// Whether the string holds no bytes.
    pub fn is_empty(&self) -> (r: bool)
        ensures
            r == (self@.len() == 0),
    {
        self.bytes.len() == 0
    }

    /// Shortens the string to its first `len` bytes; no change if it is not longer.
    pub fn truncate(&mut self, len: usize)
        ensures
            final(self)@ == (if len < old(self)@.len() {
                old(self)@.take(len as int)
            } else {
                old(self)@
            }),
    {
        self.bytes.truncate(len);
    }

    /// Removes the first `count` bytes of the string (all of them if it is not longer).
    pub fn remove_front(&mut self, count: usize)
        ensures
            final(self)@ == (if count < old(self)@.len() {
                old(self)@.skip(count as int)
            } else {
                Seq::<u8>::empty()
            }),
    {
        let n = self.bytes.len();
        if count >= n {
            self.bytes = Vec::new();
            return;
        }
        let mut v: Vec<u8> = Vec::new();
        let mut i = count;
        while i < n
            invariant
                n == self.bytes@.len(),
                count <= i <= n,
                v@ == self.bytes@.subrange(count as int, i as int),
            decreases n - i,
        {
            assert(self.bytes@.subrange(count as int, i + 1) =~= self.bytes@.subrange(
                count as int,
                i as int,
            ).push(self.bytes@[i as int]));
            v.push(self.bytes[i]);
            i = i + 1;
        }
        assert(self.bytes@.subrange(count as int, n as int) =~= self.bytes@.skip(count as int));
        self.bytes = v;
    }
}

/// Whether the bytes `needle` occur in `haystack` starting at byte `i`.
pub open spec fn bytes_match_at(haystack: Seq<u8>, needle: Seq<u8>, i: int) -> bool {
    0 <= i && i + needle.len() <= haystack.len() && haystack.subrange(i, i + needle.len()) == needle
}

/// Whether `needle` occurs in `haystack` starting at byte `i`.
fn match_bytes_at(haystack: &[u8], needle: &[u8], i: usize) -> (r: bool)
    requires
        i <= haystack@.len(),
    ensures
        r == bytes_match_at(haystack@, needle@, i as int),
{
    let len = haystack.len();
    if needle.len() > len - i {
        return false;
    }
    let mut k: usize = 0;
    while k < needle.len()
        invariant
            len == haystack@.len(),
            i + needle@.len() <= haystack@.len(),
            k <= needle@.len(),
            forall|m: int| 0 <= m < k ==> haystack@[i + m] == needle@[m],
        decreases needle@.len() - k,
    {
        if haystack[i + k] != needle[k] {
            assert(haystack@.subrange(i as int, i + needle@.len())[k as int] != needle@[k as int]);
            return false;
        }
        k = k + 1;
    }
    assert(haystack@.subrange(i as int, i + needle@.len()) =~= needle@);
    true
}

/// The first byte at which `needle` occurs in `haystack`, if it occurs.
fn find_bytes(haystack: &[u8], needle: &[u8]) -> (r: Option<usize>)
    ensures
        r matches Some(i) ==> bytes_match_at(haystack@, needle@, i as int) && forall|j: int|
            0 <= j < i ==> !bytes_match_at(haystack@, needle@, j),
        r is None ==> forall|j: int| !bytes_match_at(haystack@, needle@, j),
{
    if needle.len() > haystack.len() {
        return None;
    }
    let last = haystack.len() - needle.len();
    let mut i: usize = 0;
    loop
        invariant
            last == haystack@.len() - needle@.len(),
            i <= last,
            forall|j: int| 0 <= j < i ==> !bytes_match_at(haystack@, needle@, j),
        decreases last - i,
    {
        if match_bytes_at(haystack, needle, i) {
            return Some(i);
        }
        if i == last {
            return None;
        }
        i = i + 1;
    }
}

/// The last byte at which `needle` occurs in `haystack`, if it occurs.
fn rfind_bytes(haystack: &[u8], needle: &[u8]) -> (r: Option<usize>)
    ensures
        r matches Some(i) ==> bytes_match_at(haystack@, needle@, i as int) && forall|j: int|
            i < j ==> !bytes_match_at(haystack@, needle@, j),
        r is None ==> forall|j: int| !bytes_match_at(haystack@, needle@, j),
{
    if needle.len() > haystack.len() {
        return None;
    }
    let mut i: usize = haystack.len() - needle.len();
    loop
        invariant
            i <= haystack@.len() - needle@.len(),
            forall|j: int| i < j ==> !bytes_match_at(haystack@, needle@, j),
        decreases i,
    {
        if match_bytes_at(haystack, needle, i) {
            return Some(i);
        }
        if i == 0 {
            return None;
        }
        i = i - 1;
    }
}

/// The UTF-8 encoding of `c`: the first `len` bytes of a four-byte buffer.
fn encode_char(c: char) -> (r: ([u8; 4], usize))
    ensures
        r.1 <= 4,
        r.1 == encode_scalar(c as u32).len(),
        r.0@.take(r.1 as int) == encode_scalar(c as u32),
{
    let v = c as u32;
    proof {
        vstd::utf8::char_is_scalar(c);
    }
    if v <= 0x7F {
        let r = ([(v & 0x7F) as u8, 0, 0, 0], 1usize);
        assert(r.0@.take(1) =~= encode_scalar(v));
        r
    } else if v <= 0x7FF {
        let r = ([0xC0 | ((v >> 6) & 0x1F) as u8, 0x80 | (v & 0x3F) as u8, 0, 0], 2usize);
        assert(r.0@.take(2) =~= encode_scalar(v));
        r
    } else if v <= 0xFFFF {
        let r = (
            [
                0xE0 | ((v >> 12) & 0x0F) as u8,
                0x80 | ((v >> 6) & 0x3F) as u8,
                0x80 | (v & 0x3F) as u8,
                0,
            ],
            3usize,
        );
        assert(r.0@.take(3) =~= encode_scalar(v));
        r
    } else {
        let r = (
            [
                0xF0 | ((v >> 18) & 0x7) as u8,
                0x80 | ((v >> 12) & 0x3F) as u8,
                0x80 | ((v >> 6) & 0x3F) as u8,
                0x80 | (v & 0x3F) as u8,
            ],
            4usize,
        );
        assert(r.0@.take(4) =~= encode_scalar(v));
        r
    }
}

/// The bytes that the character `c` is searched for as: its UTF-8 encoding.
pub open spec fn char_bytes(c: char) -> Seq<u8> {
    encode_scalar(c as u32)
}

/// A string pattern: a type that can be used as a pattern when searching in a
/// [`FuriString`].
pub trait Pattern: Sized {
    /// Whether a match of the pattern starts at byte `i` of `haystack`.
    spec fn matches_at(&self, haystack: Seq<u8>, i: int) -> bool;

    /// Whether a match of the pattern ends at the back of `haystack`.
    spec fn matches_suffix(&self, haystack: Seq<u8>) -> bool;

    /// `haystack` with the match at its front removed.
    spec fn without_prefix(&self, haystack: Seq<u8>) -> Seq<u8>;

    /// `haystack` with the match at its back removed.
    spec fn without_suffix(&self, haystack: Seq<u8>) -> Seq<u8>;

    /// Checks whether the pattern matches anywhere in the haystack.
    fn is_contained_in(self, haystack: &FuriString) -> (r: bool)
        ensures
            r == exists|i: int| #[trigger] self.matches_at(haystack@, i),
    {
        match self.find_in(haystack) {
            Some(i) => {
                assert(self.matches_at(haystack@, i as int));
                true
            },
            None => false,
        }
    }

    /// Checks whether the pattern matches at the front of the haystack.
    fn is_prefix_of(self, haystack: &FuriString) -> (r: bool)
        ensures
            r == self.matches_at(haystack@, 0),
    ;

    /// Checks whether the pattern matches at the back of the haystack.
    fn is_suffix_of(self, haystack: &FuriString) -> (r: bool)
        ensures
            r == self.matches_suffix(haystack@),
    ;

    /// Returns the byte index of the first byte of the haystack that matches the pattern.
    fn find_in(self, haystack: &FuriString) -> (r: Option<usize>)
        ensures
            r matches Some(i) ==> self.matches_at(haystack@, i as int) && forall|j: int|
                0 <= j < i ==> !#[trigger] self.matches_at(haystack@, j),
            r is None ==> forall|j: int| !#[trigger] self.matches_at(haystack@, j),
    ;

    /// Returns the byte index for the first byte of the last match of the pattern in the
    /// haystack.
    fn rfind_in(self, haystack: &FuriString) -> (r: Option<usize>)
        ensures
            r matches Some(i) ==> self.matches_at(haystack@, i as int) && forall|j: int|
                i < j ==> !#[trigger] self.matches_at(haystack@, j),
            r is None ==> forall|j: int| !#[trigger] self.matches_at(haystack@, j),
    ;

    /// Removes the pattern from the front of haystack, if it matches.
    fn strip_prefix_of(self, haystack: &mut FuriString) -> (r: bool)
        ensures
            r == self.matches_at(old(haystack)@, 0),
            r ==> final(haystack)@ == self.without_prefix(old(haystack)@),
            !r ==> final(haystack)@ == old(haystack)@,
    ;

    /// Removes the pattern from the back of haystack, if it matches.
    fn strip_suffix_of(self, haystack: &mut FuriString) -> (r: bool)
        ensures
            r == self.matches_suffix(old(haystack)@),
            r ==> final(haystack)@ == self.without_suffix(old(haystack)@),
            !r ==> final(haystack)@ == old(haystack)@,
    ;
}

/// Searches for bytes that are equal to a given [`FuriString`].
impl<'a> Pattern for &'a FuriString {
    open spec fn matches_at(&self, haystack: Seq<u8>, i: int) -> bool {
        bytes_match_at(haystack, (**self)@, i)
    }

    open spec fn matches_suffix(&self, haystack: Seq<u8>) -> bool {
        bytes_match_at(haystack, (**self)@, haystack.len() - (**self)@.len())
    }

    open spec fn without_prefix(&self, haystack: Seq<u8>) -> Seq<u8> {
        haystack.skip((**self)@.len() as int)
    }

    open spec fn without_suffix(&self, haystack: Seq<u8>) -> Seq<u8> {
        haystack.take(haystack.len() - (**self)@.len())
    }

    fn is_prefix_of(self, haystack: &FuriString) -> (r: bool) {
        match_bytes_at(haystack.to_bytes(), self.to_bytes(), 0)
    }

    fn is_suffix_of(self, haystack: &FuriString) -> (r: bool) {
        if self.len() > haystack.len() {
            false
        } else {
            match_bytes_at(haystack.to_bytes(), self.to_bytes(), haystack.len() - self.len())
        }
    }

    fn find_in(self, haystack: &FuriString) -> (r: Option<usize>) {
        find_bytes(haystack.to_bytes(), self.to_bytes())
    }

    fn rfind_in(self, haystack: &FuriString) -> (r: Option<usize>) {
        rfind_bytes(haystack.to_bytes(), self.to_bytes())
    }

    fn strip_prefix_of(self, haystack: &mut FuriString) -> (r: bool) {
        let is_prefix = self.is_prefix_of(haystack);
        if is_prefix {
            haystack.remove_front(self.len());
        }
        is_prefix
    }

    fn strip_suffix_of(self, haystack: &mut FuriString) -> (r: bool) {
        let is_suffix = self.is_suffix_of(haystack);
        if is_suffix {
            let keep = haystack.len() - self.len();
            haystack.truncate(keep);
        }
        is_suffix
    }
}

/// A single byte, as a needle, matches exactly where that byte stands.
proof fn lemma_single_byte_match(haystack: Seq<u8>, c: u8, i: int)
    ensures
        bytes_match_at(haystack, seq![c], i) == (0 <= i < haystack.len() && haystack[i] == c),
{
    if 0 <= i < haystack.len() && haystack[i] == c {
        assert(haystack.subrange(i, i + 1) =~= seq![c]);
    }
    if bytes_match_at(haystack, seq![c], i) {
        assert(haystack.subrange(i, i + 1)[0] == c);
    }
}

/// Searches for bytes that are equal to a given byte (a C `char`).
impl Pattern for u8 {
    open spec fn matches_at(&self, haystack: Seq<u8>, i: int) -> bool {
        0 <= i < haystack.len() && haystack[i] == *self
    }

    open spec fn matches_suffix(&self, haystack: Seq<u8>) -> bool {
        haystack.len() > 0 && haystack[haystack.len() - 1] == *self
    }

    open spec fn without_prefix(&self, haystack: Seq<u8>) -> Seq<u8> {
        haystack.skip(1)
    }

    open spec fn without_suffix(&self, haystack: Seq<u8>) -> Seq<u8> {
        haystack.take(haystack.len() - 1)
    }

    fn is_contained_in(self, haystack: &FuriString) -> (r: bool) {
        let bytes = haystack.to_bytes();
        let mut i: usize = 0;
        while i < bytes.len()
            invariant
                bytes@ == haystack@,
                i <= bytes@.len(),
                forall|j: int| 0 <= j < i ==> bytes@[j] != self,
            decreases bytes@.len() - i,
        {
            if bytes[i] == self {
                assert(self.matches_at(haystack@, i as int));
                return true;
            }
            i = i + 1;
        }
        false
    }

    fn is_prefix_of(self, haystack: &FuriString) -> (r: bool) {
        haystack.len() > 0 && haystack.to_bytes()[0] == self
    }

    fn is_suffix_of(self, haystack: &FuriString) -> (r: bool) {
        let len = haystack.len();
        len > 0 && haystack.to_bytes()[len - 1] == self
    }

    fn find_in(self, haystack: &FuriString) -> (r: Option<usize>) {
        let needle = [self];
        let r = find_bytes(haystack.to_bytes(), &needle);
        proof {
            assert(needle@ =~= seq![self]);
            assert forall|j: int| #[trigger] self.matches_at(haystack@, j) == bytes_match_at(haystack@, needle@, j) by {
                lemma_single_byte_match(haystack@, self, j);
            }
        }
        r
    }

    fn rfind_in(self, haystack: &FuriString) -> (r: Option<usize>) {
        let needle = [self];
        let r = rfind_bytes(haystack.to_bytes(), &needle);
        proof {
            assert(needle@ =~= seq![self]);
            assert forall|j: int| #[trigger] self.matches_at(haystack@, j) == bytes_match_at(haystack@, needle@, j) by {
                lemma_single_byte_match(haystack@, self, j);
            }
        }
        r
    }

    fn strip_prefix_of(self, haystack: &mut FuriString) -> (r: bool) {
        let is_prefix = self.is_prefix_of(haystack);
        if is_prefix {
            haystack.remove_front(1);
        }
        is_prefix
    }

    fn strip_suffix_of(self, haystack: &mut FuriString) -> (r: bool) {
        let is_suffix = self.is_suffix_of(haystack);
        if is_suffix {
            let keep = haystack.len() - 1;
            haystack.truncate(keep);
        }
        is_suffix
    }
}

/// Searches for bytes that are equal to the bytes of a C string (without its terminator).
impl<'a> Pattern for &'a [u8] {
    open spec fn matches_at(&self, haystack: Seq<u8>, i: int) -> bool {
        bytes_match_at(haystack, self@, i)
    }

    open spec fn matches_suffix(&self, haystack: Seq<u8>) -> bool {
        bytes_match_at(haystack, self@, haystack.len() - self@.len())
    }

    open spec fn without_prefix(&self, haystack: Seq<u8>) -> Seq<u8> {
        haystack.skip(self@.len() as int)
    }

    open spec fn without_suffix(&self, haystack: Seq<u8>) -> Seq<u8> {
        haystack.take(haystack.len() - self@.len())
    }

    fn is_prefix_of(self, haystack: &FuriString) -> (r: bool) {
        match_bytes_at(haystack.to_bytes(), self, 0)
    }

    fn is_suffix_of(self, haystack: &FuriString) -> (r: bool) {
        if self.len() > haystack.len() {
            false
        } else {
            match_bytes_at(haystack.to_bytes(), self, haystack.len() - self.len())
        }
    }

    fn find_in(self, haystack: &FuriString) -> (r: Option<usize>) {
        find_bytes(haystack.to_bytes(), self)
    }

    fn rfind_in(self, haystack: &FuriString) -> (r: Option<usize>) {
        rfind_bytes(haystack.to_bytes(), self)
    }

    fn strip_prefix_of(self, haystack: &mut FuriString) -> (r: bool) {
        let is_prefix = self.is_prefix_of(haystack);
        if is_prefix {
            haystack.remove_front(self.len());
        }
        is_prefix
    }

    fn strip_suffix_of(self, haystack: &mut FuriString) -> (r: bool) {
        let is_suffix = self.is_suffix_of(haystack);
        if is_suffix {
            let keep = haystack.len() - self.len();
            haystack.truncate(keep);
        }
        is_suffix
    }
}

/// An ASCII character is searched for as its single byte.
proof fn lemma_ascii_char_bytes(c: char)
    requires
        (c as u32) < 128,
    ensures
        char_bytes(c) == seq![(c as u32) as u8],
{
    let v = c as u32;
    assert(v < 128u32 ==> v & 0x7Fu32 == v) by (bit_vector);
    assert(char_bytes(c) =~= seq![v as u8]);
}

/// Searches for the bytes of the UTF-8 encoding of a given [`char`].
impl Pattern for char {
    open spec fn matches_at(&self, haystack: Seq<u8>, i: int) -> bool {
        bytes_match_at(haystack, char_bytes(*self), i)
    }

    open spec fn matches_suffix(&self, haystack: Seq<u8>) -> bool {
        bytes_match_at(haystack, char_bytes(*self), haystack.len() - char_bytes(*self).len())
    }

    open spec fn without_prefix(&self, haystack: Seq<u8>) -> Seq<u8> {
        haystack.skip(char_bytes(*self).len() as int)
    }

    open spec fn without_suffix(&self, haystack: Seq<u8>) -> Seq<u8> {
        haystack.take(haystack.len() - char_bytes(*self).len())
    }

    fn is_prefix_of(self, haystack: &FuriString) -> (r: bool) {
        if (self as u32) < 128 {
            let byte = (self as u32) as u8;
            proof {
                lemma_ascii_char_bytes(self);
                lemma_single_byte_match(haystack@, byte, 0);
            }
            byte.is_prefix_of(haystack)
        } else {
            let (buffer, len) = encode_char(self);
            let needle = buffer.as_slice().split_at(len).0;
            needle.is_prefix_of(haystack)
        }
    }

    fn is_suffix_of(self, haystack: &FuriString) -> (r: bool) {
        if (self as u32) < 128 {
            let byte = (self as u32) as u8;
            proof {
                lemma_ascii_char_bytes(self);
                lemma_single_byte_match(haystack@, byte, haystack@.len() - 1);
            }
            byte.is_suffix_of(haystack)
        } else {
            let (buffer, len) = encode_char(self);
            let needle = buffer.as_slice().split_at(len).0;
            needle.is_suffix_of(haystack)
        }
    }

    fn find_in(self, haystack: &FuriString) -> (r: Option<usize>) {
        if (self as u32) < 128 {
            let byte = (self as u32) as u8;
            let r = byte.find_in(haystack);
            proof {
                lemma_ascii_char_bytes(self);
                assert forall|j: int| #[trigger] self.matches_at(haystack@, j) == byte.matches_at(haystack@, j) by {
                    lemma_single_byte_match(haystack@, byte, j);
                }
            }
            r
        } else {
            let (buffer, len) = encode_char(self);
            let needle = buffer.as_slice().split_at(len).0;
            let r = needle.find_in(haystack);
            assert forall|j: int| #[trigger] self.matches_at(haystack@, j) == needle.matches_at(haystack@, j) by {}
            r
        }
    }

    fn rfind_in(self, haystack: &FuriString) -> (r: Option<usize>) {
        if (self as u32) < 128 {
            let byte = (self as u32) as u8;
            let r = byte.rfind_in(haystack);
            proof {
                lemma_ascii_char_bytes(self);
                assert forall|j: int| #[trigger] self.matches_at(haystack@, j) == byte.matches_at(haystack@, j) by {
                    lemma_single_byte_match(haystack@, byte, j);
                }
            }
            r
        } else {
            let (buffer, len) = encode_char(self);
            let needle = buffer.as_slice().split_at(len).0;
            let r = needle.rfind_in(haystack);
            assert forall|j: int| #[trigger] self.matches_at(haystack@, j) == needle.matches_at(haystack@, j) by {}
            r
        }
    }

    fn strip_prefix_of(self, haystack: &mut FuriString) -> (r: bool) {
        if (self as u32) < 128 {
            let byte = (self as u32) as u8;
            proof {
                lemma_ascii_char_bytes(self);
                lemma_single_byte_match(old(haystack)@, byte, 0);
            }
            byte.strip_prefix_of(haystack)
        } else {
            let (buffer, len) = encode_char(self);
            let needle = buffer.as_slice().split_at(len).0;
            needle.strip_prefix_of(haystack)
        }
    }

    fn strip_suffix_of(self, haystack: &mut FuriString) -> (r: bool) {
        if (self as u32) < 128 {
            let byte = (self as u32) as u8;
            proof {
                lemma_ascii_char_bytes(self);
                lemma_single_byte_match(old(haystack)@, byte, old(haystack)@.len() - 1);
            }
            byte.strip_suffix_of(haystack)
        } else {
            let (buffer, len) = encode_char(self);
            let needle = buffer.as_slice().split_at(len).0;
            needle.strip_suffix_of(haystack)
        }
    }
}

/// Whether one of `chars` matches at byte `i` of `haystack`.
pub open spec fn any_char_matches_at(chars: Seq<char>, haystack: Seq<u8>, i: int) -> bool {
    exists|k: int| 0 <= k < chars.len() && #[trigger] bytes_match_at(haystack, char_bytes(chars[k]), i)
}

/// Whether one of `chars` matches at the back of `haystack`.
pub open spec fn any_char_matches_suffix(chars: Seq<char>, haystack: Seq<u8>) -> bool {
    exists|k: int|
        0 <= k < chars.len() && #[trigger] bytes_match_at(
            haystack,
            char_bytes(chars[k]),
            haystack.len() - char_bytes(chars[k]).len(),
        )
}

/// The byte length of the first of `chars` (in their order) that matches at the front of
/// `haystack`, or 0 if none does.
pub open spec fn first_prefix_len(chars: Seq<char>, haystack: Seq<u8>) -> int
    decreases chars.len(),
{
    if chars.len() == 0 {
        0
    } else if bytes_match_at(haystack, char_bytes(chars[0]), 0) {
        char_bytes(chars[0]).len() as int
    } else {
        first_prefix_len(chars.drop_first(), haystack)
    }
}

/// The byte length of the first of `chars` (in their order) that matches at the back of
/// `haystack`, or 0 if none does.
pub open spec fn first_suffix_len(chars: Seq<char>, haystack: Seq<u8>) -> int
    decreases chars.len(),
{
    if chars.len() == 0 {
        0
    } else if bytes_match_at(haystack, char_bytes(chars[0]), haystack.len() - char_bytes(chars[0]).len()) {
        char_bytes(chars[0]).len() as int
    } else {
        first_suffix_len(chars.drop_first(), haystack)
    }
}

proof fn lemma_any_char_step(chars: Seq<char>, haystack: Seq<u8>, k: int, i: int)
    requires
        0 <= k < chars.len(),
    ensures
        any_char_matches_at(chars.take(k + 1), haystack, i) == (any_char_matches_at(chars.take(k), haystack, i)
            || bytes_match_at(haystack, char_bytes(chars[k]), i)),
{
    if any_char_matches_at(chars.take(k + 1), haystack, i) {
        let m = choose|m: int|
            0 <= m < chars.take(k + 1).len() && #[trigger] bytes_match_at(
                haystack,
                char_bytes(chars.take(k + 1)[m]),
                i,
            );
        if m < k {
            assert(chars.take(k)[m] == chars[m]);
            assert(bytes_match_at(haystack, char_bytes(chars.take(k)[m]), i));
        }
    }
    if any_char_matches_at(chars.take(k), haystack, i) {
        let m = choose|m: int|
            0 <= m < chars.take(k).len() && #[trigger] bytes_match_at(haystack, char_bytes(chars.take(k)[m]), i);
        assert(chars.take(k + 1)[m] == chars[m]);
        assert(bytes_match_at(haystack, char_bytes(chars.take(k + 1)[m]), i));
    }
    if bytes_match_at(haystack, char_bytes(chars[k]), i) {
        assert(chars.take(k + 1)[k] == chars[k]);
        assert(bytes_match_at(haystack, char_bytes(chars.take(k + 1)[k]), i));
    }
}

/// The first byte of `haystack` at which one of `chars` matches.
fn find_any_char(chars: &[char], haystack: &FuriString) -> (r: Option<usize>)
    ensures
        r matches Some(i) ==> any_char_matches_at(chars@, haystack@, i as int) && forall|j: int|
            0 <= j < i ==> !#[trigger] any_char_matches_at(chars@, haystack@, j),
        r is None ==> forall|j: int| !#[trigger] any_char_matches_at(chars@, haystack@, j),
{
    let mut best: Option<usize> = None;
    let mut k: usize = 0;
    while k < chars.len()
        invariant
            k <= chars@.len(),
            best matches Some(b) ==> any_char_matches_at(chars@.take(k as int), haystack@, b as int)
                && forall|j: int|
                0 <= j < b ==> !#[trigger] any_char_matches_at(chars@.take(k as int), haystack@, j),
            best is None ==> forall|j: int| !#[trigger] any_char_matches_at(chars@.take(k as int), haystack@, j),
        decreases chars@.len() - k,
    {
        let c = chars[k];
        let res = c.find_in(haystack);
        let ghost old_best = best;
        best = match (best, res) {
            (None, _) => res,
            (Some(a), Some(b)) if a > b => res,
            (Some(_), _) => best,
        };
        proof {
            assert forall|j: int| #[trigger] any_char_matches_at(chars@.take(k + 1), haystack@, j) == (
            any_char_matches_at(chars@.take(k as int), haystack@, j) || c.matches_at(haystack@, j)) by {
                lemma_any_char_step(chars@, haystack@, k as int, j);
            }
        }
        k = k + 1;
    }
    assert(chars@.take(k as int) =~= chars@);
    best
}

/// The first byte of the last match in `haystack` of one of `chars`.
fn rfind_any_char(chars: &[char], haystack: &FuriString) -> (r: Option<usize>)
    ensures
        r matches Some(i) ==> any_char_matches_at(chars@, haystack@, i as int) && forall|j: int|
            i < j ==> !#[trigger] any_char_matches_at(chars@, haystack@, j),
        r is None ==> forall|j: int| !#[trigger] any_char_matches_at(chars@, haystack@, j),
{
    let mut best: Option<usize> = None;
    let mut k: usize = 0;
    while k < chars.len()
        invariant
            k <= chars@.len(),
            best matches Some(b) ==> any_char_matches_at(chars@.take(k as int), haystack@, b as int)
                && forall|j: int|
                b < j ==> !#[trigger] any_char_matches_at(chars@.take(k as int), haystack@, j),
            best is None ==> forall|j: int| !#[trigger] any_char_matches_at(chars@.take(k as int), haystack@, j),
        decreases chars@.len() - k,
    {
        let c = chars[k];
        let res = c.rfind_in(haystack);
        best = match (best, res) {
            (None, _) => res,
            (Some(a), Some(b)) if a < b => res,
            (Some(_), _) => best,
        };
        proof {
            assert forall|j: int| #[trigger] any_char_matches_at(chars@.take(k + 1), haystack@, j) == (
            any_char_matches_at(chars@.take(k as int), haystack@, j) || c.matches_at(haystack@, j)) by {
                lemma_any_char_step(chars@, haystack@, k as int, j);
            }
        }
        k = k + 1;
    }
    assert(chars@.take(k as int) =~= chars@);
    best
}

/// Whether one of `chars` matches at the front of `haystack`.
fn any_char_is_prefix(chars: &[char], haystack: &FuriString) -> (r: bool)
    ensures
        r == any_char_matches_at(chars@, haystack@, 0),
{
    let mut k: usize = 0;
    while k < chars.len()
        invariant
            k <= chars@.len(),
            !any_char_matches_at(chars@.take(k as int), haystack@, 0),
        decreases chars@.len() - k,
    {
        proof {
            lemma_any_char_step(chars@, haystack@, k as int, 0);
        }
        if chars[k].is_prefix_of(haystack) {
            assert(bytes_match_at(haystack@, char_bytes(chars@[k as int]), 0));
            return true;
        }
        k = k + 1;
    }
    assert(chars@.take(k as int) =~= chars@);
    false
}

proof fn lemma_any_suffix_step(chars: Seq<char>, haystack: Seq<u8>, k: int)
    requires
        0 <= k < chars.len(),
    ensures
        any_char_matches_suffix(chars.take(k + 1), haystack) == (any_char_matches_suffix(chars.take(k), haystack)
            || bytes_match_at(haystack, char_bytes(chars[k]), haystack.len() - char_bytes(chars[k]).len())),
{
    let t1 = chars.take(k + 1);
    let t0 = chars.take(k);
    if any_char_matches_suffix(t1, haystack) {
        let m = choose|m: int|
            0 <= m < t1.len() && #[trigger] bytes_match_at(
                haystack,
                char_bytes(t1[m]),
                haystack.len() - char_bytes(t1[m]).len(),
            );
        if m < k {
            assert(t0[m] == chars[m]);
            assert(bytes_match_at(haystack, char_bytes(t0[m]), haystack.len() - char_bytes(t0[m]).len()));
        }
    }
    if any_char_matches_suffix(t0, haystack) {
        let m = choose|m: int|
            0 <= m < t0.len() && #[trigger] bytes_match_at(
                haystack,
                char_bytes(t0[m]),
                haystack.len() - char_bytes(t0[m]).len(),
            );
        assert(t1[m] == chars[m]);
        assert(bytes_match_at(haystack, char_bytes(t1[m]), haystack.len() - char_bytes(t1[m]).len()));
    }
    if bytes_match_at(haystack, char_bytes(chars[k]), haystack.len() - char_bytes(chars[k]).len()) {
        assert(t1[k] == chars[k]);
        assert(bytes_match_at(haystack, char_bytes(t1[k]), haystack.len() - char_bytes(t1[k]).len()));
    }
}

/// Whether one of `chars` matches at the back of `haystack`.
fn any_char_is_suffix(chars: &[char], haystack: &FuriString) -> (r: bool)
    ensures
        r == any_char_matches_suffix(chars@, haystack@),
{
    let mut k: usize = 0;
    while k < chars.len()
        invariant
            k <= chars@.len(),
            !any_char_matches_suffix(chars@.take(k as int), haystack@),
        decreases chars@.len() - k,
    {
        proof {
            lemma_any_suffix_step(chars@, haystack@, k as int);
        }
        if chars[k].is_suffix_of(haystack) {
            return true;
        }
        k = k + 1;
    }
    assert(chars@.take(k as int) =~= chars@);
    false
}

/// Removes from the front of `haystack` the first of `chars` (in their order) that
/// matches there, if any does.
fn strip_any_char_prefix(chars: &[char], haystack: &mut FuriString) -> (r: bool)
    ensures
        r == any_char_matches_at(chars@, old(haystack)@, 0),
        r ==> final(haystack)@ == old(haystack)@.skip(first_prefix_len(chars@, old(haystack)@)),
        !r ==> final(haystack)@ == old(haystack)@,
{
    let ghost h = haystack@;
    let mut k: usize = 0;
    assert(chars@.skip(0) =~= chars@);
    while k < chars.len()
        invariant
            k <= chars@.len(),
            haystack@ == h,
            h == old(haystack)@,
            !any_char_matches_at(chars@.take(k as int), h, 0),
            first_prefix_len(chars@, h) == first_prefix_len(chars@.skip(k as int), h),
        decreases chars@.len() - k,
    {
        proof {
            lemma_any_char_step(chars@, h, k as int, 0);
            assert(chars@.skip(k as int).drop_first() =~= chars@.skip(k + 1));
            assert(chars@.skip(k as int)[0] == chars@[k as int]);
        }
        if chars[k].strip_prefix_of(haystack) {
            assert(bytes_match_at(h, char_bytes(chars@[k as int]), 0));
            assert(first_prefix_len(chars@.skip(k as int), h) == char_bytes(chars@[k as int]).len());
            return true;
        }
        k = k + 1;
    }
    assert(chars@.take(k as int) =~= chars@);
    false
}

/// Removes from the back of `haystack` the first of `chars` (in their order) that matches
/// there, if any does.
fn strip_any_char_suffix(chars: &[char], haystack: &mut FuriString) -> (r: bool)
    ensures
        r == any_char_matches_suffix(chars@, old(haystack)@),
        r ==> final(haystack)@ == old(haystack)@.take(old(haystack)@.len() - first_suffix_len(chars@, old(haystack)@)),
        !r ==> final(haystack)@ == old(haystack)@,
{
    let ghost h = haystack@;
    let mut k: usize = 0;
    assert(chars@.skip(0) =~= chars@);
    while k < chars.len()
        invariant
            k <= chars@.len(),
            haystack@ == h,
            h == old(haystack)@,
            !any_char_matches_suffix(chars@.take(k as int), h),
            first_suffix_len(chars@, h) == first_suffix_len(chars@.skip(k as int), h),
        decreases chars@.len() - k,
    {
        proof {
            lemma_any_suffix_step(chars@, h, k as int);
            assert(chars@.skip(k as int).drop_first() =~= chars@.skip(k + 1));
            assert(chars@.skip(k as int)[0] == chars@[k as int]);
        }
        if chars[k].strip_suffix_of(haystack) {
            assert(bytes_match_at(
                h,
                char_bytes(chars@[k as int]),
                h.len() - char_bytes(chars@[k as int]).len(),
            ));
            assert(first_suffix_len(chars@.skip(k as int), h) == char_bytes(chars@[k as int]).len());
            return true;
        }
        k = k + 1;
    }
    assert(chars@.take(k as int) =~= chars@);
    false
}

/// Searches for bytes that are equal to any of the [`char`]s in the slice.
impl<'a> Pattern for &'a [char] {
    open spec fn matches_at(&self, haystack: Seq<u8>, i: int) -> bool {
        any_char_matches_at((*self)@, haystack, i)
    }

    open spec fn matches_suffix(&self, haystack: Seq<u8>) -> bool {
        any_char_matches_suffix((*self)@, haystack)
    }

    open spec fn without_prefix(&self, haystack: Seq<u8>) -> Seq<u8> {
        haystack.skip(first_prefix_len((*self)@, haystack))
    }

    open spec fn without_suffix(&self, haystack: Seq<u8>) -> Seq<u8> {
        haystack.take(haystack.len() - first_suffix_len((*self)@, haystack))
    }

    fn is_prefix_of(self, haystack: &FuriString) -> (r: bool) {
        any_char_is_prefix(self, haystack)
    }

    fn is_suffix_of(self, haystack: &FuriString) -> (r: bool) {
        any_char_is_suffix(self, haystack)
    }

    fn find_in(self, haystack: &FuriString) -> (r: Option<usize>) {
        find_any_char(self, haystack)
    }

    fn rfind_in(self, haystack: &FuriString) -> (r: Option<usize>) {
        rfind_any_char(self, haystack)
    }

    fn strip_prefix_of(self, haystack: &mut FuriString) -> (r: bool) {
        strip_any_char_prefix(self, haystack)
    }

    fn strip_suffix_of(self, haystack: &mut FuriString) -> (r: bool) {
        strip_any_char_suffix(self, haystack)
    }
}

/// Searches for bytes that are equal to any of the [`char`]s in the array.
impl<const N: usize> Pattern for [char; N] {
    open spec fn matches_at(&self, haystack: Seq<u8>, i: int) -> bool {
        any_char_matches_at(self@, haystack, i)
    }

    open spec fn matches_suffix(&self, haystack: Seq<u8>) -> bool {
        any_char_matches_suffix(self@, haystack)
    }

    open spec fn without_prefix(&self, haystack: Seq<u8>) -> Seq<u8> {
        haystack.skip(first_prefix_len(self@, haystack))
    }

    open spec fn without_suffix(&self, haystack: Seq<u8>) -> Seq<u8> {
        haystack.take(haystack.len() - first_suffix_len(self@, haystack))
    }

    fn is_prefix_of(self, haystack: &FuriString) -> (r: bool) {
        any_char_is_prefix(self.as_slice(), haystack)
    }

    fn is_suffix_of(self, haystack: &FuriString) -> (r: bool) {
        any_char_is_suffix(self.as_slice(), haystack)
    }

    fn find_in(self, haystack: &FuriString) -> (r: Option<usize>) {
        find_any_char(self.as_slice(), haystack)
    }

    fn rfind_in(self, haystack: &FuriString) -> (r: Option<usize>) {
        rfind_any_char(self.as_slice(), haystack)
    }

    fn strip_prefix_of(self, haystack: &mut FuriString) -> (r: bool) {
        strip_any_char_prefix(self.as_slice(), haystack)
    }

    fn strip_suffix_of(self, haystack: &mut FuriString) -> (r: bool) {
        strip_any_char_suffix(self.as_slice(), haystack)
    }
}

/// Searches for bytes that are equal to any of the [`char`]s in the array.
impl<'a, const N: usize> Pattern for &'a [char; N] {
    open spec fn matches_at(&self, haystack: Seq<u8>, i: int) -> bool {
        any_char_matches_at((*self)@, haystack, i)
    }

    open spec fn matches_suffix(&self, haystack: Seq<u8>) -> bool {
        any_char_matches_suffix((*self)@, haystack)
    }

    open spec fn without_prefix(&self, haystack: Seq<u8>) -> Seq<u8> {
        haystack.skip(first_prefix_len((*self)@, haystack))
    }

    open spec fn without_suffix(&self, haystack: Seq<u8>) -> Seq<u8> {
        haystack.take(haystack.len() - first_suffix_len((*self)@, haystack))
    }

    fn is_prefix_of(self, haystack: &FuriString) -> (r: bool) {
        any_char_is_prefix(self.as_slice(), haystack)
    }

    fn is_suffix_of(self, haystack: &FuriString) -> (r: bool) {
        any_char_is_suffix(self.as_slice(), haystack)
    }

    fn find_in(self, haystack: &FuriString) -> (r: Option<usize>) {
        find_any_char(self.as_slice(), haystack)
    }

    fn rfind_in(self, haystack: &FuriString) -> (r: Option<usize>) {
        rfind_any_char(self.as_slice(), haystack)
    }

    fn strip_prefix_of(self, haystack: &mut FuriString) -> (r: bool) {
        strip_any_char_prefix(self.as_slice(), haystack)
    }

    fn strip_suffix_of(self, haystack: &mut FuriString) -> (r: bool) {
        strip_any_char_suffix(self.as_slice(), haystack)
    }
}

/// Removing a matching byte string from the front (or back) of a haystack leaves the rest:
/// the needle and what remains make up the haystack again.
pub proof fn lemma_strip_restores(needle: Seq<u8>, haystack: Seq<u8>)
    ensures
        bytes_match_at(haystack, needle, 0) ==> needle + haystack.skip(needle.len() as int) == haystack,
        bytes_match_at(haystack, needle, haystack.len() - needle.len()) ==> haystack.take(
            haystack.len() - needle.len(),
        ) + needle == haystack,
{
    if bytes_match_at(haystack, needle, 0) {
        assert(needle + haystack.skip(needle.len() as int) =~= haystack);
    }
    if bytes_match_at(haystack, needle, haystack.len() - needle.len()) {
        assert(haystack.take(haystack.len() - needle.len()) + needle =~= haystack);
    }
}

/// The empty byte string matches at every position of a haystack, its end included, and
/// nowhere else.
pub proof fn lemma_empty_needle(haystack: Seq<u8>, i: int)
    ensures
        bytes_match_at(haystack, Seq::<u8>::empty(), i) == (0 <= i <= haystack.len()),
{
    if 0 <= i <= haystack.len() {
        assert(haystack.subrange(i, i) =~= Seq::<u8>::empty());
    }
}

/// An ASCII character matches exactly where its byte does.
pub proof fn lemma_ascii_char_is_byte(c: char, haystack: Seq<u8>, i: int)
    requires
        (c as u32) < 128,
    ensures
        c.matches_at(haystack, i) == ((c as u32) as u8).matches_at(haystack, i),
        c.matches_suffix(haystack) == ((c as u32) as u8).matches_suffix(haystack),
{
    lemma_ascii_char_bytes(c);
    lemma_single_byte_match(haystack, (c as u32) as u8, i);
    lemma_single_byte_match(haystack, (c as u32) as u8, haystack.len() - 1);
}

/// For any pattern, the first match does not come after the last one, and the two are the
/// same match exactly when the pattern matches in one place only.
pub proof fn lemma_first_not_after_last<P: Pattern>(p: P, haystack: Seq<u8>, first: int, last: int)
    requires
        p.matches_at(haystack, first),
        forall|j: int| j < first ==> !#[trigger] p.matches_at(haystack, j),
        p.matches_at(haystack, last),
        forall|j: int| last < j ==> !#[trigger] p.matches_at(haystack, j),
    ensures
        first <= last,
        first == last <==> forall|j: int| #[trigger] p.matches_at(haystack, j) ==> j == first,
{
}

/// A set of characters matches at a position exactly when one of its characters does.
pub proof fn lemma_char_set_matches(chars: Seq<char>, haystack: Seq<u8>, i: int)
    ensures
        any_char_matches_at(chars, haystack, i) == exists|k: int|
            0 <= k < chars.len() && #[trigger] chars[k].matches_at(haystack, i),
{
    if any_char_matches_at(chars, haystack, i) {
        let k = choose|k: int|
            0 <= k < chars.len() && #[trigger] bytes_match_at(haystack, char_bytes(chars[k]), i);
        assert(chars[k].matches_at(haystack, i));
    }
    if exists|k: int| 0 <= k < chars.len() && #[trigger] chars[k].matches_at(haystack, i) {
        let k = choose|k: int| 0 <= k < chars.len() && #[trigger] chars[k].matches_at(haystack, i);
        assert(bytes_match_at(haystack, char_bytes(chars[k]), i));
    }
}


/// A character is one to four UTF-8 bytes.
pub proof fn lemma_char_bytes_len(c: char)
    ensures
        1 <= char_bytes(c).len() <= 4,
{
}

/// Stripping a set of characters from the front removes the bytes of exactly one
/// character: the first of the set, in its order, that matches at the front. Nothing is
/// removed when none matches, and never more than four bytes.
pub proof fn lemma_first_prefix_len_one_char(chars: Seq<char>, haystack: Seq<u8>)
    ensures
        !any_char_matches_at(chars, haystack, 0) ==> first_prefix_len(chars, haystack) == 0,
        any_char_matches_at(chars, haystack, 0) ==> exists|k: int|
            0 <= k < chars.len() && #[trigger] bytes_match_at(haystack, char_bytes(chars[k]), 0)
                && first_prefix_len(chars, haystack) == char_bytes(chars[k]).len() && forall|j: int|
                0 <= j < k ==> !bytes_match_at(haystack, char_bytes(#[trigger] chars[j]), 0),
        0 <= first_prefix_len(chars, haystack) <= 4,
    decreases chars.len(),
{
    if chars.len() > 0 {
        let rest = chars.drop_first();
        lemma_first_prefix_len_one_char(rest, haystack);
        lemma_char_bytes_len(chars[0]);
        if bytes_match_at(haystack, char_bytes(chars[0]), 0) {
            assert(bytes_match_at(haystack, char_bytes(chars[0]), 0));
        } else {
            if any_char_matches_at(chars, haystack, 0) {
                let k = choose|k: int|
                    0 <= k < chars.len() && #[trigger] bytes_match_at(haystack, char_bytes(chars[k]), 0);
                assert(k > 0);
                assert(rest[k - 1] == chars[k]);
                assert(bytes_match_at(haystack, char_bytes(rest[k - 1]), 0));
                assert(any_char_matches_at(rest, haystack, 0));
                let k2 = choose|k2: int|
                    0 <= k2 < rest.len() && #[trigger] bytes_match_at(haystack, char_bytes(rest[k2]), 0)
                        && first_prefix_len(rest, haystack) == char_bytes(rest[k2]).len() && forall|j: int|
                        0 <= j < k2 ==> !bytes_match_at(haystack, char_bytes(#[trigger] rest[j]), 0);
                assert(rest[k2] == chars[k2 + 1]);
                assert(bytes_match_at(haystack, char_bytes(chars[k2 + 1]), 0));
                assert forall|j: int| 0 <= j < k2 + 1 implies !bytes_match_at(
                    haystack,
                    char_bytes(#[trigger] chars[j]),
                    0,
                ) by {
                    if j > 0 {
                        assert(rest[j - 1] == chars[j]);
                    }
                }
            } else {
                assert forall|k: int| 0 <= k < rest.len() implies !#[trigger] bytes_match_at(
                    haystack,
                    char_bytes(rest[k]),
                    0,
                ) by {
                    assert(rest[k] == chars[k + 1]);
                    if bytes_match_at(haystack, char_bytes(rest[k]), 0) {
                        assert(bytes_match_at(haystack, char_bytes(chars[k + 1]), 0));
                    }
                }
            }
        }
    }
}

/// Stripping a set of characters from the back removes the bytes of exactly one
/// character: the first of the set, in its order, that matches at the back. Nothing is
/// removed when none matches, and never more than four bytes.
pub proof fn lemma_first_suffix_len_one_char(chars: Seq<char>, haystack: Seq<u8>)
    ensures
        !any_char_matches_suffix(chars, haystack) ==> first_suffix_len(chars, haystack) == 0,
        any_char_matches_suffix(chars, haystack) ==> exists|k: int|
            0 <= k < chars.len() && #[trigger] bytes_match_at(
                haystack,
                char_bytes(chars[k]),
                haystack.len() - char_bytes(chars[k]).len(),
            ) && first_suffix_len(chars, haystack) == char_bytes(chars[k]).len() && forall|j: int|
                0 <= j < k ==> !bytes_match_at(
                    haystack,
                    char_bytes(#[trigger] chars[j]),
                    haystack.len() - char_bytes(chars[j]).len(),
                ),
        0 <= first_suffix_len(chars, haystack) <= 4,
    decreases chars.len(),
{
    if chars.len() > 0 {
        let rest = chars.drop_first();
        let n = haystack.len();
        lemma_first_suffix_len_one_char(rest, haystack);
        lemma_char_bytes_len(chars[0]);
        if bytes_match_at(haystack, char_bytes(chars[0]), n - char_bytes(chars[0]).len()) {
            assert(bytes_match_at(haystack, char_bytes(chars[0]), n - char_bytes(chars[0]).len()));
        } else {
            if any_char_matches_suffix(chars, haystack) {
                let k = choose|k: int|
                    0 <= k < chars.len() && #[trigger] bytes_match_at(
                        haystack,
                        char_bytes(chars[k]),
                        n - char_bytes(chars[k]).len(),
                    );
                assert(k > 0);
                assert(rest[k - 1] == chars[k]);
                assert(bytes_match_at(haystack, char_bytes(rest[k - 1]), n - char_bytes(rest[k - 1]).len()));
                assert(any_char_matches_suffix(rest, haystack));
                let k2 = choose|k2: int|
                    0 <= k2 < rest.len() && #[trigger] bytes_match_at(
                        haystack,
                        char_bytes(rest[k2]),
                        n - char_bytes(rest[k2]).len(),
                    ) && first_suffix_len(rest, haystack) == char_bytes(rest[k2]).len() && forall|j: int|
                        0 <= j < k2 ==> !bytes_match_at(
                            haystack,
                            char_bytes(#[trigger] rest[j]),
                            n - char_bytes(rest[j]).len(),
                        );
                assert(rest[k2] == chars[k2 + 1]);
                assert(bytes_match_at(haystack, char_bytes(chars[k2 + 1]), n - char_bytes(chars[k2 + 1]).len()));
                assert forall|j: int| 0 <= j < k2 + 1 implies !bytes_match_at(
                    haystack,
                    char_bytes(#[trigger] chars[j]),
                    n - char_bytes(chars[j]).len(),
                ) by {
                    if j > 0 {
                        assert(rest[j - 1] == chars[j]);
                    }
                }
            } else {
                assert forall|k: int| 0 <= k < rest.len() implies !#[trigger] bytes_match_at(
                    haystack,
                    char_bytes(rest[k]),
                    n - char_bytes(rest[k]).len(),
                ) by {
                    assert(rest[k] == chars[k + 1]);
                    if bytes_match_at(haystack, char_bytes(rest[k]), n - char_bytes(rest[k]).len()) {
                        assert(bytes_match_at(haystack, char_bytes(chars[k + 1]), n - char_bytes(chars[k + 1]).len()));
                    }
                }
            }
        }
    }
}

} // verus!
