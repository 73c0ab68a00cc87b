//! Safe wrappers over bootloader-supplied pointers.
//!
//! The bootloader hands the executable raw addresses: possibly-null pointers
//! to single structures, pointers to zero-terminated byte strings, and
//! `(base, count)` pairs describing counted arrays. The protocol guarantees
//! that every non-null pointer is valid, aligned and immutable for the rest
//! of execution, so the wrappers here carry the pointed-at data itself as
//! plain values and expose the only sanctioned read paths: a C-string pointer
//! decodes to the bytes before its first zero byte, and a counted array
//! yields exactly `count` elements — none at all when the count is zero, even
//! if the base is the null sentinel.

use vstd::prelude::*;

verus! {

/// The number of bytes of `bytes` that precede its first zero byte. Equals
/// `bytes.len()` when no zero byte occurs.
pub open spec fn nul_prefix_len(bytes: Seq<u8>) -> nat
    decreases bytes.len(),
{
    if bytes.len() == 0 {
        0
    } else if bytes[0] == 0 {
        0
    } else {
        1 + nul_prefix_len(bytes.skip(1))
    }
}

/// The text a C-string pointer decodes to: every byte before the first zero
/// byte, the zero itself excluded.
pub open spec fn cstr_decoded(bytes: Seq<u8>) -> Seq<u8> {
    bytes.take(nul_prefix_len(bytes) as int)
}

/// `nul_prefix_len` names the first zero byte: every byte before it is
/// non-zero, and the byte at it (when within bounds) is zero.
pub proof fn lemma_nul_prefix_len(bytes: Seq<u8>)
    ensures
        nul_prefix_len(bytes) <= bytes.len(),
        forall|j: int| 0 <= j < nul_prefix_len(bytes) ==> bytes[j] != 0,
        nul_prefix_len(bytes) < bytes.len() ==> bytes[nul_prefix_len(bytes) as int] == 0,
        bytes.contains(0) ==> nul_prefix_len(bytes) < bytes.len(),
    decreases bytes.len(),
{
    if bytes.len() == 0 {
    } else if bytes[0] == 0 {
    } else {
        let rest = bytes.skip(1);
        lemma_nul_prefix_len(rest);
        assert(forall|j: int| 0 <= j < rest.len() ==> rest[j] == bytes[j + 1]);
        assert forall|j: int| 0 <= j < nul_prefix_len(bytes) implies bytes[j] != 0 by {
            if j > 0 {
                assert(rest[j - 1] == bytes[j]);
            }
        }
        if bytes.contains(0) {
            let i = choose|i: int| 0 <= i < bytes.len() && bytes[i] == 0;
            assert(rest[i - 1] == 0);
            assert(rest.contains(0));
        }
    }
}

/// Appending bytes beyond an existing terminator does not move the
/// terminator.
proof fn lemma_nul_prefix_len_append(bytes: Seq<u8>, tail: Seq<u8>)
    requires
        bytes.contains(0),
    ensures
        nul_prefix_len(bytes + tail) == nul_prefix_len(bytes),
    decreases bytes.len(),
{
    let joined = bytes + tail;
    assert(bytes.len() > 0);
    if bytes[0] == 0 {
        assert(joined[0] == 0);
    } else {
        let rest = bytes.skip(1);
        let i = choose|i: int| 0 <= i < bytes.len() && bytes[i] == 0;
        assert(rest[i - 1] == 0);
        assert(rest.contains(0));
        lemma_nul_prefix_len_append(rest, tail);
        assert(joined[0] != 0);
        assert(joined.skip(1) =~= rest + tail);
    }
}

/// Decoding never reads past the first zero byte: whatever foreign memory
/// holds beyond the terminator, the decoded text is the same.
pub proof fn lemma_cstr_decoded_ignores_tail(bytes: Seq<u8>, tail: Seq<u8>)
    requires
        bytes.contains(0),
    ensures
        cstr_decoded(bytes + tail) == cstr_decoded(bytes),
{
    lemma_nul_prefix_len_append(bytes, tail);
    lemma_nul_prefix_len(bytes);
    assert((bytes + tail).take(nul_prefix_len(bytes) as int) =~= bytes.take(
        nul_prefix_len(bytes) as int,
    ));
}

/// A non-null pointer to a zero-terminated byte string in foreign memory.
///
/// The wrapper carries the bytes visible at the address, the terminator
/// included and possibly followed by further foreign bytes. The protocol
/// guarantees a terminator exists; [`CStrPtr::new`] requires exactly that.
pub struct CStrPtr {
    bytes: Vec<u8>,
}

impl View for CStrPtr {
    type V = Seq<u8>;

    closed spec fn view(&self) -> Seq<u8> {
        self.bytes@
    }
}

impl CStrPtr {
    /// The protocol guarantee this wrapper relies on: a terminator exists.
    pub open spec fn wf(&self) -> bool {
        self@.contains(0)
    }

    /// Wrap the bytes visible at a C-string pointer's address.
    pub fn new(bytes: Vec<u8>) -> (r: Self)
        requires
            bytes@.contains(0),
        ensures
            r@ == bytes@,
            r.wf(),
    {
        Self { bytes }
    }

    /// Decide [`CStrPtr::wf`]: whether a terminator exists. A caller outside
    /// verified code can test the decoder's precondition with this before
    /// decoding.
    pub fn is_wf(&self) -> (r: bool)
        ensures
            r == self.wf(),
    {
        let mut i: usize = 0;
        while i < self.bytes.len()
            invariant
                i <= self.bytes@.len(),
                forall|j: int| 0 <= j < i ==> self.bytes@[j] != 0,
            decreases self.bytes@.len() - i,
        {
            if self.bytes[i] == 0 {
                proof {
                    assert(self@[i as int] == 0);
                }
                return true;
            }
            i = i + 1;
        }
        proof {
            assert(!self@.contains(0));
        }
        false
    }

    /// Decode the pointed-at text: every byte before the first zero byte. No
    /// byte at or past the terminator is read.
    pub fn to_bytes(&self) -> (r: Vec<u8>)
        requires
            self.wf(),
        ensures
            r@ == cstr_decoded(self@),
    {
        proof {
            lemma_nul_prefix_len(self@);
        }
        let mut out: Vec<u8> = Vec::new();
        let mut i: usize = 0;
        proof {
            assert(out@ =~= self@.take(0));
        }
        while self.bytes[i] != 0
            invariant
                self.wf(),
                i <= nul_prefix_len(self@),
                nul_prefix_len(self@) < self@.len(),
                out@ == self@.take(i as int),
            decreases self@.len() - i,
        {
            proof {
                lemma_nul_prefix_len(self@);
                if i == nul_prefix_len(self@) {
                    assert(self@[i as int] == 0);
                }
                assert(vstd::std_specs::vec::spec_vec_len(&self.bytes) == self.bytes@.len());
            }
            out.push(self.bytes[i]);
            i = i + 1;
            proof {
                assert(out@ =~= self@.take(i as int));
            }
        }
        proof {
            lemma_nul_prefix_len(self@);
            assert(i == nul_prefix_len(self@));
        }
        out
    }
}

/// A counted run of elements in foreign memory: the `(base, count)` pair a
/// response publishes, read together from one snapshot of that response.
///
/// A null base pointer is carried as `None`; the protocol produces it only
/// alongside a zero count, and a zero count yields no elements without the
/// base ever being dereferenced.
pub struct CountedPtr<T> {
    count: u64,
    base: Option<Vec<T>>,
}

impl<T> View for CountedPtr<T> {
    type V = Seq<T>;

    closed spec fn view(&self) -> Seq<T> {
        match self.base {
            Option::Some(v) => v@.take(self.count as int),
            Option::None => Seq::empty(),
        }
    }
}

impl<T> CountedPtr<T> {
    /// The published element count.
    pub closed spec fn spec_count(&self) -> u64 {
        self.count
    }

    /// The protocol guarantee this wrapper relies on: a non-zero count comes
    /// with a base pointer to at least that many elements.
    pub closed spec fn wf(&self) -> bool {
        match self.base {
            Option::Some(v) => self.count <= v@.len(),
            Option::None => self.count == 0,
        }
    }

    /// Wrap a published `(base, count)` pair. The elements visible at a
    /// non-null base are carried in `base`; a null base is `None`.
    pub fn new(count: u64, base: Option<Vec<T>>) -> (r: Self)
        requires
            match base {
                Option::Some(v) => count <= v@.len(),
                Option::None => count == 0,
            },
        ensures
            r.wf(),
            r.spec_count() == count,
            r@ == match base {
                Option::Some(v) => v@.take(count as int),
                Option::None => Seq::<T>::empty(),
            },
    {
        Self { count, base }
    }

    /// An empty run: zero count, null base.
    pub fn empty() -> (r: Self)
        ensures
            r.wf(),
            r.spec_count() == 0,
            r@ == Seq::<T>::empty(),
    {
        Self { count: 0, base: None }
    }

    /// A run's length is its count, and the count of a well-formed run fits
    /// the machine's address space.
    pub proof fn lemma_len(&self)
        requires
            self.wf(),
        ensures
            self@.len() == self.spec_count(),
            self.spec_count() as int <= usize::MAX as int,
    {
        match self.base {
            Option::Some(v) => {
                assert(vstd::std_specs::vec::spec_vec_len(&v) == v@.len());
            },
            Option::None => {},
        }
    }

    /// The published count.
    pub fn len(&self) -> (r: u64)
        ensures
            r == self.spec_count(),
    {
        self.count
    }

    /// Whether the run has no elements.
    pub fn is_empty(&self) -> (r: bool)
        ensures
            r == (self.spec_count() == 0),
    {
        self.count == 0
    }

    /// Read the element at `i`.
    pub fn get(&self, i: usize) -> (r: &T)
        requires
            self.wf(),
            (i as int) < self.spec_count() as int,
        ensures
            *r == self@[i as int],
    {
        match &self.base {
            Some(v) => &v[i],
            None => {
                proof {
                    assert(false);
                }
                vstd::pervasive::unreached()
            },
        }
    }

    /// Whether the base pointer is the null sentinel.
    pub closed spec fn is_null(&self) -> bool {
        self.base is None
    }

    /// Decide [`CountedPtr::wf`]: whether the count stays within the run
    /// behind the base. A caller outside verified code can test the
    /// accessors' precondition with this before reading.
    pub fn is_wf(&self) -> (r: bool)
        ensures
            r == self.wf(),
    {
        match &self.base {
            Some(v) => self.count <= (v.len() as u64),
            None => self.count == 0,
        }
    }

    /// Whether the base pointer is non-null.
    pub fn has_base(&self) -> (r: bool)
        ensures
            r == !self.is_null(),
    {
        self.base.is_some()
    }

    /// Borrow the element at `i` mutably. The protocol designates some
    /// published arrays as writable by the executable after handoff; the
    /// caller must hold the response exclusively.
    pub fn get_mut(&mut self, i: usize) -> (r: &mut T)
        requires
            old(self).wf(),
            (i as int) < old(self).spec_count() as int,
        ensures
            *r == old(self)@[i as int],
            final(self).wf(),
            final(self).spec_count() == old(self).spec_count(),
            final(self)@ == old(self)@.update(i as int, *final(r)),
    {
        match &mut self.base {
            Some(v) => &mut v[i],
            None => {
                proof {
                    assert(false);
                }
                vstd::pervasive::unreached()
            },
        }
    }

    /// Overwrite the element at `i`. The protocol designates some published
    /// arrays as writable by the executable after handoff; the caller must
    /// hold the response exclusively.
    pub fn set(&mut self, i: usize, value: T)
        requires
            old(self).wf(),
            (i as int) < old(self).spec_count() as int,
        ensures
            final(self).wf(),
            final(self).spec_count() == old(self).spec_count(),
            final(self)@ == old(self)@.update(i as int, value),
    {
        match &mut self.base {
            Some(v) => {
                v[i] = value;
                proof {
                    assert(self@ =~= old(self)@.update(i as int, value));
                }
            },
            None => {
                proof {
                    assert(false);
                }
            },
        }
    }
}

impl<T: Copy> CountedPtr<T> {
    /// Copy the run out as a vector of exactly `count` elements.
    pub fn to_vec(&self) -> (r: Vec<T>)
        requires
            self.wf(),
        ensures
            r@ == self@,
    {
        proof {
            self.lemma_len();
        }
        let n_u64 = self.len();
        let n = n_u64 as usize;
        let mut out: Vec<T> = Vec::new();
        let mut i: usize = 0;
        while i < n
            invariant
                self.wf(),
                n == self.spec_count(),
                self@.len() == self.spec_count(),
                i <= n,
                out@ == self@.take(i as int),
            decreases n - i,
        {
            out.push(*self.get(i));
            i = i + 1;
            proof {
                assert(out@ =~= self@.take(i as int));
            }
        }
        proof {
            assert(out@ =~= self@);
        }
        out
    }
}

} // verus!
