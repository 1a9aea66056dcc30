//! Fixed-capacity strings.
//!
//! An [`AiString`] stores up to `MAXLEN - 1` bytes of text in a backing array
//! of `MAXLEN` bytes, together with the number of bytes in use. Every byte
//! past the text is zero, so the stored bytes are always followed by a NUL.

use vstd::prelude::*;
use vstd::slice::slice_subrange;
use vstd::std_specs::cmp::PartialEqSpec;
use vstd::string::StringSliceAdditionalSpecFns;
use vstd::utf8::*;

verus! {

/// Size in bytes of the backing array of an [`AiString`].
pub const MAXLEN: usize = 1024;

/// A length-prefixed string with a fixed backing array of [`MAXLEN`] bytes.
#[derive(Clone, Copy, Debug, Eq)]
pub struct AiString {
    length: usize,
    data: [u8; MAXLEN],
}

/// `core::str::from_utf8`: succeeds exactly on well-formed UTF-8, and the
/// string it returns is made of the very bytes it was given.
#[verifier::external_body]
pub(crate) fn str_from_utf8<'a>(bytes: &'a [u8]) -> (r: Option<&'a str>)
    ensures
        r is Some <==> valid_utf8(bytes@),
        r is Some ==> r->0.spec_bytes() == bytes@,
{
    core::str::from_utf8(bytes).ok()
}

impl View for AiString {
    type V = Seq<char>;

    /// The text held by the string; meaningful when [`AiString::is_utf8`].
    open spec fn view(&self) -> Seq<char> {
        decode_utf8(self.bytes())
    }
}

/// The array that starts with the first `k` bytes of `bytes` and is zero from
/// there on.
spec fn padded(bytes: Seq<u8>, k: nat) -> [u8; MAXLEN]
    decreases k,
{
    if k == 0 {
        vstd::array::spec_array_fill_for_copy_type::<u8, MAXLEN>(0u8)
    } else {
        vstd::array::spec_array_update(padded(bytes, (k - 1) as nat), k - 1, bytes[k - 1])
    }
}

proof fn lemma_padded(bytes: Seq<u8>, k: nat)
    requires
        k <= bytes.len(),
        k <= MAXLEN,
    ensures
        forall|i: int| 0 <= i < k ==> padded(bytes, k)@[i] == bytes[i],
        forall|i: int| k <= i < MAXLEN ==> padded(bytes, k)@[i] == 0u8,
    decreases k,
{
    broadcast use vstd::array::group_array_axioms;

    if k > 0 {
        lemma_padded(bytes, (k - 1) as nat);
        assert(padded(bytes, k)@ == padded(bytes, (k - 1) as nat)@.update(k - 1, bytes[k - 1]));
    } else {
        assert(padded(bytes, k) == vstd::array::spec_array_fill_for_copy_type::<u8, MAXLEN>(0u8));
    }
}

impl AiString {
    /// The string that holds exactly `bytes`, which must be fewer than
    /// `MAXLEN`.
    pub closed spec fn spec_from_bytes(bytes: Seq<u8>) -> AiString {
        AiString { length: bytes.len() as usize, data: padded(bytes, bytes.len()) }
    }

    /// The string that holds the UTF-8 encoding of `text`, which must take
    /// fewer than `MAXLEN` bytes.
    pub open spec fn spec_from_str(text: Seq<char>) -> AiString {
        Self::spec_from_bytes(encode_utf8(text))
    }

    /// `spec_from_bytes` gives a well-formed string with the bytes asked for.
    pub proof fn lemma_spec_from_bytes(bytes: Seq<u8>)
        requires
            bytes.len() < MAXLEN,
        ensures
            Self::spec_from_bytes(bytes).wf(),
            Self::spec_from_bytes(bytes).bytes() == bytes,
    {
        lemma_padded(bytes, bytes.len());
    }

    /// A well-formed string is the one that `spec_from_bytes` gives for its
    /// bytes.
    pub proof fn lemma_wf_is_spec_from_bytes(a: AiString)
        requires
            a.wf(),
        ensures
            a == Self::spec_from_bytes(a.bytes()),
    {
        Self::lemma_spec_from_bytes(a.bytes());
        Self::lemma_eq_is_identity(a, Self::spec_from_bytes(a.bytes()));
    }

    /// The bytes in use: the first `length` bytes of the backing array.
    pub closed spec fn bytes(&self) -> Seq<u8> {
        self.data@.subrange(0, self.length as int)
    }

    /// The representation invariant: the text leaves room for a terminating
    /// NUL, and everything past the text is zero.
    #[verifier::type_invariant]
    pub closed spec fn wf(&self) -> bool {
        &&& self.length < MAXLEN
        &&& forall|i: int| self.length <= i < MAXLEN ==> self.data@[i] == 0u8
    }

    /// Whether the bytes in use are well-formed UTF-8.
    pub open spec fn is_utf8(&self) -> bool {
        valid_utf8(self.bytes())
    }

    /// The empty string.
    pub fn empty() -> (r: AiString)
        ensures
            r == Self::spec_from_bytes(Seq::<u8>::empty()),
            r.wf(),
            r.bytes() == Seq::<u8>::empty(),
    {
        let r = AiString { length: 0, data: [0u8; MAXLEN] };
        proof {
            Self::lemma_wf_is_spec_from_bytes(r);
        }
        r
    }

    /// Stores the given bytes, or returns `None` when they do not leave room
    /// for the terminating NUL.
    pub fn from_bytes(bytes: &[u8]) -> (r: Option<AiString>)
        ensures
            r == (if bytes@.len() < MAXLEN {
                Some(Self::spec_from_bytes(bytes@))
            } else {
                None
            }),
            r is Some ==> r->0.wf() && r->0.bytes() == bytes@,
    {
        let n = bytes.len();
        if n >= MAXLEN {
            return None;
        }
        let mut data = [0u8; MAXLEN];
        let mut i: usize = 0;
        while i < n
            invariant
                n == bytes@.len(),
                n < MAXLEN,
                i <= n,
                forall|k: int| 0 <= k < i ==> data@[k] == bytes@[k],
                forall|k: int| i <= k < MAXLEN ==> data@[k] == 0u8,
            decreases n - i,
        {
            data[i] = bytes[i];
            i += 1;
        }
        let r = AiString { length: n, data };
        proof {
            assert(r.bytes() =~= bytes@);
            Self::lemma_wf_is_spec_from_bytes(r);
        }
        Some(r)
    }

    /// Stores the text of `s`, or returns `None` when its UTF-8 encoding takes
    /// `MAXLEN` bytes or more.
    pub fn try_from_str(s: &str) -> (r: Option<AiString>)
        ensures
            r == (if s.spec_bytes().len() < MAXLEN {
                Some(Self::spec_from_str(s@))
            } else {
                None
            }),
            r is Some ==> r->0.wf() && r->0.bytes() == s.spec_bytes() && r->0.is_utf8() && r->0@
                == s@,
    {
        let r = Self::from_bytes(s.as_bytes());
        proof {
            encode_utf8_valid_utf8(s@);
            encode_utf8_decode_utf8(s@);
        }
        r
    }

    /// Stores the text of `s`, whose UTF-8 encoding must be shorter than
    /// `MAXLEN` bytes.
    pub fn from_str(s: &str) -> (r: AiString)
        requires
            s.spec_bytes().len() < MAXLEN,
        ensures
            r == Self::spec_from_str(s@),
            r.wf(),
            r.bytes() == s.spec_bytes(),
            r.is_utf8(),
            r@ == s@,
    {
        match Self::try_from_str(s) {
            Some(r) => r,
            None => Self::empty(),
        }
    }

    /// Number of bytes in use.
    pub fn len(&self) -> (n: usize)
        ensures
            n == self.bytes().len(),
            n < MAXLEN,
    {
        proof {
            use_type_invariant(self);
        }
        self.length
    }

    /// The bytes in use.
    pub fn as_bytes(&self) -> (r: &[u8])
        ensures
            r@ == self.bytes(),
    {
        proof {
            use_type_invariant(self);
        }
        slice_subrange(self.data.as_slice(), 0, self.length)
    }

    /// The backing array: the bytes in use, followed by zeros.
    pub fn data(&self) -> (r: &[u8; MAXLEN])
        ensures
            r@.subrange(0, self.bytes().len() as int) == self.bytes(),
            forall|i: int| self.bytes().len() <= i < MAXLEN ==> r@[i] == 0u8,
    {
        proof {
            use_type_invariant(self);
        }
        &self.data
    }

    /// The text, or `None` when the bytes in use are not UTF-8.
    pub fn to_str(&self) -> (r: Option<&str>)
        ensures
            r is Some <==> self.is_utf8(),
            r is Some ==> r->0@ == self@ && r->0.spec_bytes() == self.bytes(),
    {
        let r = str_from_utf8(self.as_bytes());
        proof {
            if let Some(s) = r {
                encode_utf8_decode_utf8(s@);
            }
        }
        r
    }

    /// The text of a string whose bytes are UTF-8.
    pub fn as_str(&self) -> (r: &str)
        requires
            self.is_utf8(),
        ensures
            r@ == self@,
            r.spec_bytes() == self.bytes(),
    {
        match self.to_str() {
            Some(s) => s,
            None => "",
        }
    }

    /// Text shorter than the capacity survives being stored and read back:
    /// the string made from it is well-formed UTF-8, and reads as the same
    /// text.
    pub proof fn lemma_from_str_round_trip(text: Seq<char>)
        requires
            encode_utf8(text).len() < MAXLEN,
        ensures
            Self::spec_from_str(text).wf(),
            Self::spec_from_str(text).is_utf8(),
            Self::spec_from_str(text)@ == text,
    {
        Self::lemma_spec_from_bytes(encode_utf8(text));
        encode_utf8_valid_utf8(text);
        encode_utf8_decode_utf8(text);
    }

    /// Strings made from two texts, both shorter than the capacity, compare
    /// equal exactly when the texts are equal.
    pub proof fn lemma_from_str_eq(s: Seq<char>, t: Seq<char>)
        requires
            encode_utf8(s).len() < MAXLEN,
            encode_utf8(t).len() < MAXLEN,
        ensures
            Self::spec_from_str(s).eq_spec(&Self::spec_from_str(t)) <==> s == t,
            Self::spec_from_str(s) == Self::spec_from_str(t) <==> s == t,
    {
        Self::lemma_spec_from_bytes(encode_utf8(s));
        Self::lemma_spec_from_bytes(encode_utf8(t));
        encode_utf8_decode_utf8(s);
        encode_utf8_decode_utf8(t);
    }

    /// Well-formed strings with the same bytes in use are the same value.
    pub proof fn lemma_eq_is_identity(a: AiString, b: AiString)
        requires
            a.wf(),
            b.wf(),
        ensures
            a.eq_spec(&b) <==> a == b,
    {
        if a.eq_spec(&b) {
            assert(a.bytes().len() == b.bytes().len());
            assert forall|i: int| 0 <= i < MAXLEN implies a.data@[i] == b.data@[i] by {
                if i < a.length {
                    assert(a.bytes()[i] == b.bytes()[i]);
                }
            }
            assert(a.data =~= b.data);
        }
    }
}

impl vstd::std_specs::cmp::PartialEqSpecImpl for AiString {
    open spec fn obeys_eq_spec() -> bool {
        true
    }

    open spec fn eq_spec(&self, other: &AiString) -> bool {
        self.bytes() == other.bytes()
    }
}

impl PartialEq for AiString {
    /// Two strings are equal when their bytes in use are.
    fn eq(&self, other: &AiString) -> (r: bool) {
        proof {
            use_type_invariant(self);
            use_type_invariant(other);
        }
        if self.length != other.length {
            assert(self.bytes().len() != other.bytes().len());
            return false;
        }
        let n = self.length;
        let mut i: usize = 0;
        while i < n
            invariant
                n == self.length,
                n == other.length,
                n < MAXLEN,
                i <= n,
                forall|k: int| 0 <= k < i ==> self.data@[k] == other.data@[k],
            decreases n - i,
        {
            if self.data[i] != other.data[i] {
                assert(self.bytes()[i as int] != other.bytes()[i as int]);
                return false;
            }
            i += 1;
        }
        assert(self.bytes() =~= other.bytes());
        true
    }
}

} // verus!
