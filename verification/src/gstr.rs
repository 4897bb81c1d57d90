//! Strings as the native side holds them: bytes up to the first zero.

use vstd::prelude::*;
use vstd::slice::slice_to_vec;
use vstd::string::StringSliceAdditionalSpecFns;
use vstd::utf8::{encode_utf8_valid_utf8, valid_utf8};

verus! {

/// How many bytes of `raw` come before its first zero; all of them where
/// it has none.
pub open spec fn strlen(raw: Seq<u8>) -> nat
    decreases raw.len(),
{
    if raw.len() == 0 || raw[0] == 0 {
        0
    } else {
        1 + strlen(raw.drop_first())
    }
}

/// The string that the native side reads at the beginning of `raw`.
pub open spec fn content(raw: Seq<u8>) -> Seq<u8> {
    raw.subrange(0, strlen(raw) as int)
}

/// `n` is the place of the first zero of `raw` exactly when no byte
/// before it is zero and either a zero is there or `raw` ends there.
pub proof fn lemma_strlen_is_first_zero(raw: Seq<u8>, n: int)
    requires
        0 <= n <= raw.len(),
        forall|j: int| 0 <= j < n ==> raw[j] != 0,
        n == raw.len() || raw[n] == 0,
    ensures
        strlen(raw) == n,
    decreases raw.len(),
{
    if n > 0 {
        let rest = raw.drop_first();
        assert forall|j: int| 0 <= j < n - 1 implies rest[j] != 0 by {
            assert(rest[j] == raw[j + 1]);
        }
        lemma_strlen_is_first_zero(rest, n - 1);
    }
}

/// The string at the beginning of `raw` is within `raw` and holds no
/// zero; where it ends, `raw` ends or has a zero.
pub proof fn lemma_strlen_bounds(raw: Seq<u8>)
    ensures
        strlen(raw) <= raw.len(),
        forall|j: int| 0 <= j < strlen(raw) ==> raw[j] != 0,
        strlen(raw) == raw.len() || raw[strlen(raw) as int] == 0,
    decreases raw.len(),
{
    if raw.len() != 0 && raw[0] != 0 {
        let rest = raw.drop_first();
        lemma_strlen_bounds(rest);
        assert forall|j: int| 0 <= j < strlen(raw) implies raw[j] != 0 by {
            if j > 0 {
                assert(rest[j - 1] == raw[j]);
            }
        }
        assert(strlen(raw) < raw.len() ==> raw[strlen(raw) as int] == rest[strlen(rest) as int]);
    }
}

/// Counts the bytes of `raw` before its first zero.
pub fn length(raw: &[u8]) -> (n: usize)
    ensures
        n == strlen(raw@),
        n <= raw@.len(),
{
    let mut n: usize = 0;
    while n < raw.len() && raw[n] != 0
        invariant
            n <= raw.len(),
            forall|j: int| 0 <= j < n ==> raw@[j] != 0,
        decreases raw.len() - n,
    {
        n += 1;
    }
    proof {
        lemma_strlen_is_first_zero(raw@, n as int);
    }
    n
}

/// A string could not go to the native side: it holds a zero, where the
/// native side would take it to end.
#[derive(Clone, Copy, PartialEq, Eq, Structural, Debug)]
pub struct NulError {
    /// The place of the first zero among the bytes of the string.
    pub position: usize,
}

/// A string in the form in which the native side takes one: its bytes in
/// UTF-8, none of them zero, and one zero after them.
#[derive(Debug)]
pub struct Utf8 {
    bytes: Vec<u8>,
}

impl View for Utf8 {
    type V = Seq<u8>;

    /// The bytes of the string, without the zero that ends them.
    closed spec fn view(&self) -> Seq<u8> {
        self.bytes@.drop_last()
    }
}

impl Utf8 {
    #[verifier::type_invariant]
    spec fn well_formed(&self) -> bool {
        &&& self.bytes@.len() > 0
        &&& strlen(self.bytes@) == self.bytes@.len() - 1
        &&& valid_utf8(self.bytes@.drop_last())
    }

    /// Puts `s` into the form in which the native side takes a string.
    /// A string that holds a zero byte has no such form.
    pub fn new(s: &str) -> (r: Result<Utf8, NulError>)
        ensures
            match r {
                Ok(u) => u@ == s.spec_bytes() && strlen(s.spec_bytes()) == s.spec_bytes().len(),
                Err(e) => e.position == strlen(s.spec_bytes()) && e.position
                    < s.spec_bytes().len(),
            },
    {
        let raw = s.as_bytes();
        let n = length(raw);
        if n < raw.len() {
            return Err(NulError { position: n });
        }
        let mut bytes = slice_to_vec(raw);
        bytes.push(0);
        proof {
            lemma_strlen_bounds(raw@);
            lemma_strlen_is_first_zero(bytes@, n as int);
            assert(bytes@.drop_last() =~= raw@);
            encode_utf8_valid_utf8(s@);
        }
        Ok(Utf8 { bytes })
    }

    /// The bytes that go to the native side: the string and the zero
    /// that ends it.
    pub fn as_bytes_with_nul(&self) -> (raw: &[u8])
        ensures
            raw@ == self@.push(0),
            content(raw@) == self@,
            valid_utf8(self@),
    {
        proof {
            use_type_invariant(self);
            lemma_strlen_bounds(self.bytes@);
            assert(self.bytes@ =~= self@.push(0));
            assert(content(self.bytes@) =~= self@);
        }
        self.bytes.as_slice()
    }
}

/// A string that the native side made, copied to where this side owns it.
#[derive(Debug)]
pub struct OwnedGStr {
    bytes: Vec<u8>,
}

impl View for OwnedGStr {
    type V = Seq<u8>;

    /// The bytes of the string, without the zero that ended them.
    closed spec fn view(&self) -> Seq<u8> {
        self.bytes@
    }
}

impl OwnedGStr {
    /// Copies the string that the native side holds at the beginning of
    /// `raw`: the bytes before the first zero.
    pub fn from_raw(raw: &[u8]) -> (s: OwnedGStr)
        ensures
            s@ == content(raw@),
    {
        let n = length(raw);
        let mut bytes: Vec<u8> = Vec::new();
        let mut i: usize = 0;
        while i < n
            invariant
                i <= n <= raw.len(),
                bytes@ == raw@.subrange(0, i as int),
            decreases n - i,
        {
            bytes.push(raw[i]);
            assert(bytes@ =~= raw@.subrange(0, i + 1));
            i += 1;
        }
        OwnedGStr { bytes }
    }

    /// The bytes of the string.
    pub fn to_bytes(&self) -> (b: &[u8])
        ensures
            b@ == self@,
    {
        self.bytes.as_slice()
    }
}

} // verus!
