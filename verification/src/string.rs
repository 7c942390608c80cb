//! Platform-native strings.
//!
//! The native shell takes strings as NUL-terminated UTF-16 unit buffers.
//! [`NativeString`] owns such a buffer, built from a Rust string by the
//! UTF-16 encoding written out below: one unit for a scalar value below
//! `0x10000`, a surrogate pair for the rest.
//!
//! Convention for character counts: [`NativeString::len`] counts every unit
//! *including* the trailing NUL; descriptor fields that want the text length
//! alone subtract one (see the popup-menu builder).

use vstd::prelude::*;

verus! {

/// The UTF-16 units that encode one Unicode scalar value.
pub open spec fn utf16_char(c: char) -> Seq<u16> {
    let u = c as u32;
    if u < 0x10000 {
        seq![u as u16]
    } else {
        seq![
            (0xD800 + (u - 0x10000) / 0x400) as u16,
            (0xDC00 + (u - 0x10000) % 0x400) as u16,
        ]
    }
}

/// The UTF-16 encoding of a character sequence, without a terminator.
pub open spec fn utf16(s: Seq<char>) -> Seq<u16>
    decreases s.len(),
{
    if s.len() == 0 {
        Seq::empty()
    } else {
        utf16_char(s[0]) + utf16(s.drop_first())
    }
}

/// Encoding distributes over concatenation.
pub proof fn lemma_utf16_append(a: Seq<char>, b: Seq<char>)
    ensures
        utf16(a + b) == utf16(a) + utf16(b),
    decreases a.len(),
{
    if a.len() == 0 {
        assert(a + b =~= b);
        assert(utf16(a) + utf16(b) =~= utf16(b));
    } else {
        assert((a + b).drop_first() =~= a.drop_first() + b);
        lemma_utf16_append(a.drop_first(), b);
        assert(utf16(a + b) =~= utf16(a) + utf16(b));
    }
}

/// Every character contributes at most two units.
pub proof fn lemma_utf16_len(s: Seq<char>)
    ensures
        utf16(s).len() <= 2 * s.len(),
    decreases s.len(),
{
    if s.len() > 0 {
        lemma_utf16_len(s.drop_first());
    }
}

/// An owned, NUL-terminated UTF-16 buffer for the native shell.
///
/// The view is the whole unit sequence, terminator included.
pub struct NativeString {
    units: Vec<u16>,
}

impl View for NativeString {
    type V = Seq<u16>;

    closed spec fn view(&self) -> Seq<u16> {
        self.units@
    }
}

impl NativeString {
    /// A buffer is well formed when it ends in the NUL terminator and its
    /// unit count fits the 32-bit length fields of the native descriptors.
    pub open spec fn wf(&self) -> bool {
        &&& self@.len() >= 1
        &&& self@[self@.len() - 1] == 0u16
        &&& self@.len() <= u32::MAX
    }

    /// Encode a string for the native shell: its UTF-16 units plus a NUL.
    pub fn new(s: &str) -> (r: NativeString)
        requires
            2 * s@.len() + 1 <= u32::MAX,
        ensures
            r@ == utf16(s@).push(0u16),
            r.wf(),
    {
        let mut units: Vec<u16> = Vec::new();
        proof {
            assert(s@.take(0int) =~= Seq::<char>::empty());
        }
        for c in it: s.chars()
            invariant
                it.seq() == s@,
                units@ == utf16(s@.take(it.index() as int)),
                2 * s@.len() + 1 <= u32::MAX,
        {
            proof {
                lemma_utf16_len(s@.take(it.index() as int));
            }
            proof {
                vstd::utf8::char_is_scalar(c);
            }
            let u = c as u32;
            if u < 0x10000 {
                units.push(u as u16);
            } else {
                let w = u - 0x10000;
                proof {
                    assert((w >> 10) == w / 0x400 && (w & 0x3FF) == w % 0x400 && (w >> 10)
                        < 0x400) by (bit_vector)
                        requires
                            w <= 0xFFFFF,
                    ;
                }
                units.push((0xD800 + (w >> 10)) as u16);
                units.push((0xDC00 + (w & 0x3FF)) as u16);
            }
            proof {
                let i = it.index() as int;
                assert(s@.take(i + 1) =~= s@.take(i) + seq![s@[i]]);
                lemma_utf16_append(s@.take(i), seq![s@[i]]);
                assert(seq![s@[i]].drop_first() =~= Seq::<char>::empty());
                assert(utf16(seq![s@[i]]) =~= utf16_char(s@[i]) + utf16(Seq::<char>::empty()));
                assert(utf16(seq![s@[i]]) =~= utf16_char(s@[i]));
            }
        }
        proof {
            assert(s@.take(s@.len() as int) =~= s@);
            lemma_utf16_len(s@);
        }
        units.push(0u16);
        NativeString { units }
    }

    /// The units the native call reads, terminator included; the caller
    /// takes the buffer's address from this slice.
    pub fn as_ptr(&self) -> (r: &[u16])
        ensures
            r@ == self@,
    {
        self.units.as_slice()
    }

    /// The unit count, terminator included.
    pub fn len(&self) -> (r: u32)
        requires
            self.wf(),
        ensures
            r == self@.len(),
    {
        self.units.len() as u32
    }

    /// The units padded with NULs to a fixed-size native field of `n` units.
    pub fn to_padded(&self, n: usize) -> (r: Vec<u16>)
        requires
            self@.len() <= n,
        ensures
            r@.len() == n,
            r@.take(self@.len() as int) == self@,
            forall|i: int| self@.len() <= i < n ==> r@[i] == 0u16,
    {
        let mut r: Vec<u16> = Vec::new();
        let len = self.units.len();
        for i in 0..len
            invariant
                len == self@.len(),
                len <= n,
                r@ =~= self@.take(i as int),
        {
            r.push(self.units[i]);
        }
        for i in len..n
            invariant
                len == self@.len(),
                r@.len() == i,
                r@.take(len as int) =~= self@,
                forall|j: int| len <= j < i ==> r@[j] == 0u16,
        {
            r.push(0u16);
        }
        r
    }
}

} // verus!
