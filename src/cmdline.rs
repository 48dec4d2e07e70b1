//! The kernel command line: an append-only buffer of printable ASCII with a
//! fixed capacity, which rejects an append that would not fit rather than
//! truncating it.

use vstd::prelude::*;
use vstd::string::StrSliceExecFns;
use crate::fmt::string_of_chars;

verus! {

/// Why a command-line append was rejected.
#[derive(Clone, Copy, Debug, PartialEq, Eq, Structural)]
pub enum CmdlineError {
    /// A character is outside printable ASCII.
    InvalidAscii,
    /// A key or value holds a space.
    HasSpace,
    /// A key holds an equals sign.
    HasEquals,
    /// The line would not fit in the capacity, which also holds a terminator.
    TooLarge,
}

impl CmdlineError {
    pub open spec fn spec_message(self) -> Seq<char> {
        match self {
            CmdlineError::InvalidAscii => "String contains an invalid ASCII character."@,
            CmdlineError::HasSpace => "String contains a space."@,
            CmdlineError::HasEquals => "String contains an equals sign."@,
            CmdlineError::TooLarge => "Inserting string would make command line too long."@,
        }
    }

    /// A one-line description of the error.
    pub fn message(&self) -> (r: String)
        ensures
            r@ == self.spec_message(),
    {
        match self {
            CmdlineError::InvalidAscii => String::from_str("String contains an invalid ASCII character."),
            CmdlineError::HasSpace => String::from_str("String contains a space."),
            CmdlineError::HasEquals => String::from_str("String contains an equals sign."),
            CmdlineError::TooLarge => String::from_str("Inserting string would make command line too long."),
        }
    }
}

pub open spec fn valid_char(c: char) -> bool {
    ' ' <= c && c <= '~'
}

pub open spec fn valid_chars(s: Seq<char>) -> bool {
    forall|i: int| 0 <= i < s.len() ==> valid_char(#[trigger] s[i])
}

pub open spec fn has_char(s: Seq<char>, c: char) -> bool {
    exists|i: int| 0 <= i < s.len() && #[trigger] s[i] == c
}

/// `line` followed by `part`, separated by a space unless `line` is empty.
pub open spec fn joined(line: Seq<char>, part: Seq<char>) -> Seq<char> {
    if line.len() == 0 {
        part
    } else {
        line.push(' ') + part
    }
}

/// Appending `part` (already validated) to `line` under `capacity`.
pub open spec fn spec_append(line: Seq<char>, capacity: int, part: Seq<char>) -> Result<
    Seq<char>,
    CmdlineError,
> {
    if joined(line, part).len() >= capacity {
        Err(CmdlineError::TooLarge)
    } else {
        Ok(joined(line, part))
    }
}

/// The outcome of `insert_str(s)` on a line.
pub open spec fn spec_insert_str(line: Seq<char>, capacity: int, s: Seq<char>) -> Result<
    Seq<char>,
    CmdlineError,
> {
    if !valid_chars(s) {
        Err(CmdlineError::InvalidAscii)
    } else {
        spec_append(line, capacity, s)
    }
}

/// The outcome of `insert(key, val)` on a line: `key=val` is appended.
pub open spec fn spec_insert(line: Seq<char>, capacity: int, key: Seq<char>, val: Seq<char>) -> Result<
    Seq<char>,
    CmdlineError,
> {
    if !valid_chars(key) {
        Err(CmdlineError::InvalidAscii)
    } else if has_char(key, ' ') {
        Err(CmdlineError::HasSpace)
    } else if has_char(key, '=') {
        Err(CmdlineError::HasEquals)
    } else if !valid_chars(val) {
        Err(CmdlineError::InvalidAscii)
    } else if has_char(val, ' ') {
        Err(CmdlineError::HasSpace)
    } else {
        spec_append(line, capacity, key.push('=') + val)
    }
}

/// An append never leaves a line at or past its capacity, and refuses for
/// size exactly when the joined line would reach it; nothing is truncated.
pub proof fn lemma_cmdline_bounded(line: Seq<char>, capacity: int, s: Seq<char>)
    requires
        line.len() < capacity,
        valid_chars(line),
    ensures
        match spec_insert_str(line, capacity, s) {
            Ok(l) => l.len() < capacity && l == joined(line, s) && l.len() >= line.len() + s.len(),
            Err(e) => (e == CmdlineError::TooLarge) == (valid_chars(s) && joined(line, s).len() >= capacity),
        },
{
}

/// Copies the characters of `s` into a vector.
pub fn chars_of(s: &str) -> (r: Vec<char>)
    ensures
        r@ == s@,
{
    let n = s.unicode_len();
    let mut out: Vec<char> = Vec::new();
    let mut i: usize = 0;
    while i < n
        invariant
            n == s@.len(),
            i <= n,
            out@ == s@.subrange(0, i as int),
        decreases n - i,
    {
        out.push(s.get_char(i));
        i += 1;
        assert(out@ =~= s@.subrange(0, i as int));
    }
    assert(out@ =~= s@);
    out
}

/// Whether every character of `s` is printable ASCII.
fn all_valid(s: &Vec<char>) -> (r: bool)
    ensures
        r == valid_chars(s@),
{
    let mut i: usize = 0;
    while i < s.len()
        invariant
            i <= s@.len(),
            forall|j: int| 0 <= j < i ==> valid_char(#[trigger] s@[j]),
        decreases s@.len() - i,
    {
        if !(' ' <= s[i] && s[i] <= '~') {
            return false;
        }
        i += 1;
    }
    true
}

/// Whether `c` occurs in `s`.
fn contains(s: &Vec<char>, c: char) -> (r: bool)
    ensures
        r == has_char(s@, c),
{
    let mut i: usize = 0;
    while i < s.len()
        invariant
            i <= s@.len(),
            forall|j: int| 0 <= j < i ==> #[trigger] s@[j] != c,
        decreases s@.len() - i,
    {
        if s[i] == c {
            return true;
        }
        i += 1;
    }
    false
}

/// A kernel command line with a fixed capacity.
pub struct Cmdline {
    line: Vec<char>,
    capacity: usize,
}

impl View for Cmdline {
    type V = Seq<char>;

    closed spec fn view(&self) -> Seq<char> {
        self.line@
    }
}

impl Cmdline {
    pub closed spec fn spec_capacity(&self) -> usize {
        self.capacity
    }

    /// The line is printable ASCII and leaves room for its terminator.
    pub open spec fn wf(&self) -> bool {
        self@.len() < self.spec_capacity() && valid_chars(self@)
    }

    /// An empty command line holding fewer than `capacity` characters.
    pub fn new(capacity: usize) -> (r: Cmdline)
        requires
            capacity > 0,
        ensures
            r@ == Seq::<char>::empty(),
            r.spec_capacity() == capacity,
            r.wf(),
    {
        Cmdline { line: Vec::new(), capacity }
    }

    pub fn capacity(&self) -> (r: usize)
        ensures
            r == self.spec_capacity(),
    {
        self.capacity
    }

    pub fn len(&self) -> (r: usize)
        ensures
            r == self@.len(),
    {
        self.line.len()
    }

    /// A copy of the line's characters.
    pub fn chars(&self) -> (r: Vec<char>)
        ensures
            r@ == self@,
    {
        let mut out: Vec<char> = Vec::new();
        let mut i: usize = 0;
        while i < self.line.len()
            invariant
                i <= self.line@.len(),
                out@ == self.line@.subrange(0, i as int),
            decreases self.line@.len() - i,
        {
            out.push(self.line[i]);
            i += 1;
            assert(out@ =~= self.line@.subrange(0, i as int));
        }
        assert(out@ =~= self.line@);
        out
    }

    /// The line as a string.
    pub fn as_string(&self) -> (r: String)
        ensures
            r@ == self@,
    {
        string_of_chars(&self.line)
    }

    /// Appends `part`, preceded by a space unless the line is empty.
    fn append(&mut self, part: &Vec<char>) -> (r: Result<(), CmdlineError>)
        requires
            old(self).wf(),
            valid_chars(part@),
        ensures
            final(self).spec_capacity() == old(self).spec_capacity(),
            final(self).wf(),
            match spec_append(old(self)@, old(self).spec_capacity() as int, part@) {
                Ok(l) => r is Ok && final(self)@ == l,
                Err(e) => r == Err::<(), CmdlineError>(e) && final(self)@ == old(self)@,
            },
    {
        let sep: usize = if self.line.len() == 0 { 0 } else { 1 };
        if part.len() >= self.capacity - self.line.len() - sep {
            return Err(CmdlineError::TooLarge);
        }
        if sep == 1 {
            self.line.push(' ');
        }
        let ghost mid = self.line@;
        let mut i: usize = 0;
        while i < part.len()
            invariant
                i <= part@.len(),
                self.line@ == mid + part@.subrange(0, i as int),
                self.capacity == old(self).capacity,
            decreases part@.len() - i,
        {
            self.line.push(part[i]);
            i += 1;
            assert(self.line@ =~= mid + part@.subrange(0, i as int));
        }
        assert(self.line@ =~= joined(old(self)@, part@));
        assert(valid_chars(self@)) by {
            assert forall|j: int| 0 <= j < self@.len() implies valid_char(#[trigger] self@[j]) by {
                if j < old(self)@.len() {
                    assert(self@[j] == old(self)@[j]);
                } else if old(self)@.len() > 0 && j == old(self)@.len() {
                } else {
                    assert(self@[j] == part@[j - mid.len()]);
                }
            }
        }
        Ok(())
    }

    /// Appends `s` as one more argument.
    pub fn insert_str(&mut self, s: &str) -> (r: Result<(), CmdlineError>)
        requires
            old(self).wf(),
        ensures
            final(self).spec_capacity() == old(self).spec_capacity(),
            final(self).wf(),
            match spec_insert_str(old(self)@, old(self).spec_capacity() as int, s@) {
                Ok(l) => r is Ok && final(self)@ == l,
                Err(e) => r == Err::<(), CmdlineError>(e) && final(self)@ == old(self)@,
            },
    {
        let chars = chars_of(s);
        if !all_valid(&chars) {
            return Err(CmdlineError::InvalidAscii);
        }
        self.append(&chars)
    }

    /// Appends the argument `key=val`.
    pub fn insert(&mut self, key: &str, val: &str) -> (r: Result<(), CmdlineError>)
        requires
            old(self).wf(),
        ensures
            final(self).spec_capacity() == old(self).spec_capacity(),
            final(self).wf(),
            match spec_insert(old(self)@, old(self).spec_capacity() as int, key@, val@) {
                Ok(l) => r is Ok && final(self)@ == l,
                Err(e) => r == Err::<(), CmdlineError>(e) && final(self)@ == old(self)@,
            },
    {
        let k = chars_of(key);
        let v = chars_of(val);
        self.insert_chars(k, &v)
    }

    /// Appends the argument `key=val`, both given as characters.
    pub fn insert_chars(&mut self, key: Vec<char>, val: &Vec<char>) -> (r: Result<(), CmdlineError>)
        requires
            old(self).wf(),
        ensures
            final(self).spec_capacity() == old(self).spec_capacity(),
            final(self).wf(),
            match spec_insert(old(self)@, old(self).spec_capacity() as int, key@, val@) {
                Ok(l) => r is Ok && final(self)@ == l,
                Err(e) => r == Err::<(), CmdlineError>(e) && final(self)@ == old(self)@,
            },
    {
        if !all_valid(&key) {
            return Err(CmdlineError::InvalidAscii);
        }
        if contains(&key, ' ') {
            return Err(CmdlineError::HasSpace);
        }
        if contains(&key, '=') {
            return Err(CmdlineError::HasEquals);
        }
        if !all_valid(val) {
            return Err(CmdlineError::InvalidAscii);
        }
        if contains(val, ' ') {
            return Err(CmdlineError::HasSpace);
        }
        let ghost k0 = key@;
        let mut part = key;
        part.push('=');
        let mut i: usize = 0;
        while i < val.len()
            invariant
                i <= val@.len(),
                part@ == k0.push('=') + val@.subrange(0, i as int),
            decreases val@.len() - i,
        {
            part.push(val[i]);
            i += 1;
            assert(part@ =~= k0.push('=') + val@.subrange(0, i as int));
        }
        assert(part@ =~= k0.push('=') + val@);
        assert(valid_chars(part@)) by {
            assert forall|j: int| 0 <= j < part@.len() implies valid_char(#[trigger] part@[j]) by {
                if j < k0.len() {
                    assert(part@[j] == k0[j]);
                } else if j > k0.len() {
                    assert(part@[j] == val@[j - k0.len() - 1]);
                }
            }
        }
        self.append(&part)
    }
}

} // verus!
