//! The field-access engine: typed register access over a dword-only channel.
//!
//! A [`DwordAccessor`] names a field of a configuration space — a region
//! address, a byte offset, and a value type — the way a pointer names a
//! location in memory.  Reading and writing through it is reconciled with
//! the channel's dword granularity: a sub-dword field is carried by the
//! little-endian bytes of its containing dword, a larger field by the
//! bytes of its ascending sequence of dwords.

use core::marker::PhantomData;
use vstd::bytes::*;
use vstd::prelude::*;
use vstd::slice::slice_subrange;

use crate::access::Access;
use crate::address::{DwordAccessMethod, PciAddress};

verus! {

/// The byte at byte index `i` of the space of `a`, under the channel's
/// dword model and little-endian dword layout.
pub open spec fn byte_at<M: DwordAccessMethod>(m: M, a: PciAddress, i: int) -> u8 {
    spec_u32_to_le_bytes(m.dword_at(a, i / 4))[i % 4]
}

/// The `n` bytes of the space of `a` starting at byte offset `off`, in
/// ascending offset order.
pub open spec fn bytes_at<M: DwordAccessMethod>(
    m: M,
    a: PciAddress,
    off: int,
    n: nat,
) -> Seq<u8> {
    Seq::new(n, |k: int| byte_at(m, a, off + k))
}

/// The `u32` value the four bytes at aligned byte offset `off` denote:
/// what a dword-sized register read there returns.
pub open spec fn spec_dword_value<M: DwordAccessMethod>(m: M, a: PciAddress, off: int) -> u32 {
    <u32 as RegisterValue>::of_bytes(bytes_at(m, a, off, 4))
}

/// Between the two channel states, every byte outside the range
/// `[lo, hi)` of the space of `a` is unchanged — bytes of other dwords,
/// bytes of the containing dwords outside the field, and all bytes of
/// every other function — and the set of functions is unchanged.
pub open spec fn preserved_outside<M: DwordAccessMethod>(
    m0: M,
    m1: M,
    a: PciAddress,
    lo: int,
    hi: int,
) -> bool {
    &&& forall|b: PciAddress, i: int|
        b != a || i < lo || i >= hi ==> #[trigger] byte_at(m1, b, i) == byte_at(m0, b, i)
    &&& forall|b: PciAddress|
        #[trigger] m1.spec_function_exists(b) == m0.spec_function_exists(b)
    &&& forall|b: PciAddress|
        #[trigger] m1.spec_has_multiple_functions(b) == m0.spec_has_multiple_functions(b)
}

/// Between the two channel states, nothing observable changed: every
/// dword of every function's space is the same, and so are the
/// function-presence queries.
pub open spec fn same_device_state<M: DwordAccessMethod>(m0: M, m1: M) -> bool {
    &&& forall|b: PciAddress, i: int| #[trigger] m1.dword_at(b, i) == m0.dword_at(b, i)
    &&& forall|b: PciAddress|
        #[trigger] m1.spec_function_exists(b) == m0.spec_function_exists(b)
    &&& forall|b: PciAddress|
        #[trigger] m1.spec_has_multiple_functions(b) == m0.spec_has_multiple_functions(b)
}

/// A field layout the engine accepts: the field lies inside the 4096-byte
/// configuration space, and either it is smaller than a dword and does
/// not cross a dword boundary, or it starts 4-byte aligned and its size
/// is a multiple of 4.  A sub-dword span that crosses a dword boundary is
/// a static layout bug and is refused here rather than misread.
pub open spec fn layout_ok(offset: int, size: nat) -> bool {
    &&& 0 <= offset
    &&& 1 <= size
    &&& offset + size <= 4096
    &&& if size < 4 {
        offset % 4 + size <= 4
    } else {
        offset % 4 == 0 && size % 4 == 0
    }
}

/// Runtime check of [`layout_ok`] for a field of `size` bytes at `offset`.
pub fn check_layout(offset: u16, size: u16) -> (r: bool)
    ensures
        r == layout_ok(offset as int, size as nat),
{
    let off: u32 = offset as u32;
    let sz: u32 = size as u32;
    if sz < 1 || off + sz > 4096 {
        false
    } else if sz < 4 {
        off % 4 + sz <= 4
    } else {
        off % 4 == 0 && sz % 4 == 0
    }
}

/// A value type that can live in configuration space: it has a fixed
/// byte size and a little-endian byte image, and is exactly determined
/// by that image.
pub trait RegisterValue: Sized {
    /// The size of the value's image in bytes.
    spec fn spec_size() -> nat;

    /// The little-endian byte image of the value.
    spec fn as_bytes(self) -> Seq<u8>;

    /// The value a byte image of the right length denotes.
    spec fn of_bytes(b: Seq<u8>) -> Self;

    /// The byte image has the declared length and determines the value.
    proof fn lemma_round_trip(v: Self)
        ensures
            v.as_bytes().len() == Self::spec_size(),
            Self::of_bytes(v.as_bytes()) == v,
    ;

    /// The size of the value's image in bytes.  The engine accepts only
    /// sub-dword sizes and multiples of a dword.
    fn byte_size() -> (n: u16)
        ensures
            n as nat == Self::spec_size(),
            1 <= n <= 4096,
            n < 4 || n % 4 == 0,
    ;

    /// Builds the value denoted by the given byte image.
    fn from_bytes(b: &[u8]) -> (r: Self)
        requires
            b@.len() == Self::spec_size(),
        ensures
            r == Self::of_bytes(b@),
            r.as_bytes() == b@,
    ;

    /// The byte image of the value.
    fn to_bytes(&self) -> (b: Vec<u8>)
        ensures
            b@ == self.as_bytes(),
    ;
}

impl RegisterValue for u8 {
    open spec fn spec_size() -> nat {
        1
    }

    open spec fn as_bytes(self) -> Seq<u8> {
        seq![self]
    }

    open spec fn of_bytes(b: Seq<u8>) -> u8 {
        b[0]
    }

    proof fn lemma_round_trip(v: u8) {
    }

    fn byte_size() -> (n: u16) {
        1
    }

    fn from_bytes(b: &[u8]) -> (r: u8) {
        let r = b[0];
        proof {
            assert(r.as_bytes() =~= b@);
        }
        r
    }

    fn to_bytes(&self) -> (b: Vec<u8>) {
        let mut v: Vec<u8> = Vec::new();
        v.push(*self);
        proof {
            assert(v@ =~= self.as_bytes());
        }
        v
    }
}

impl RegisterValue for u16 {
    open spec fn spec_size() -> nat {
        2
    }

    open spec fn as_bytes(self) -> Seq<u8> {
        spec_u16_to_le_bytes(self)
    }

    open spec fn of_bytes(b: Seq<u8>) -> u16 {
        spec_u16_from_le_bytes(b)
    }

    proof fn lemma_round_trip(v: u16) {
        lemma_auto_spec_u16_to_from_le_bytes();
        assert(spec_u16_to_le_bytes(v).len() == 2);
    }

    fn byte_size() -> (n: u16) {
        2
    }

    fn from_bytes(b: &[u8]) -> (r: u16) {
        proof {
            lemma_auto_spec_u16_to_from_le_bytes();
        }
        u16_from_le_bytes(b)
    }

    fn to_bytes(&self) -> (b: Vec<u8>) {
        u16_to_le_bytes(*self)
    }
}

impl RegisterValue for u32 {
    open spec fn spec_size() -> nat {
        4
    }

    open spec fn as_bytes(self) -> Seq<u8> {
        spec_u32_to_le_bytes(self)
    }

    open spec fn of_bytes(b: Seq<u8>) -> u32 {
        spec_u32_from_le_bytes(b)
    }

    proof fn lemma_round_trip(v: u32) {
        lemma_auto_spec_u32_to_from_le_bytes();
        assert(spec_u32_to_le_bytes(v).len() == 4);
    }

    fn byte_size() -> (n: u16) {
        4
    }

    fn from_bytes(b: &[u8]) -> (r: u32) {
        proof {
            lemma_auto_spec_u32_to_from_le_bytes();
        }
        u32_from_le_bytes(b)
    }

    fn to_bytes(&self) -> (b: Vec<u8>) {
        u32_to_le_bytes(*self)
    }
}

/// An accessor to one field of one function's configuration space, just
/// like a pointer accesses main memory.  Accessors are cheap immutable
/// values; rebasing — an offset change, a type reinterpretation, a
/// permission downgrade — always builds a new accessor.
pub struct DwordAccessor<T> {
    region: PciAddress,
    start_offset: u16,
    access: Access,
    value_type: PhantomData<T>,
}

impl<T> DwordAccessor<T> {
    /// The region (function address) this accessor reaches into.
    pub closed spec fn spec_region(self) -> PciAddress {
        self.region
    }

    /// The byte offset of the field inside the region.
    pub closed spec fn spec_offset(self) -> u16 {
        self.start_offset
    }

    /// The permission this accessor carries.
    pub closed spec fn spec_access(self) -> Access {
        self.access
    }

    /// Creates a new accessor to the given field.
    pub fn new(region: PciAddress, start_offset: u16, access: Access) -> (r: Self)
        ensures
            r.spec_region() == region,
            r.spec_offset() == start_offset,
            r.spec_access() == access,
    {
        DwordAccessor { region, start_offset, access, value_type: PhantomData }
    }

    /// Extracts the region address from an accessor.
    pub fn region(&self) -> (r: PciAddress)
        ensures
            r == self.spec_region(),
    {
        self.region
    }

    /// Extracts the start offset from an accessor.
    pub fn start_offset(&self) -> (r: u16)
        ensures
            r == self.spec_offset(),
    {
        self.start_offset
    }

    /// Extracts the permission from an accessor.
    pub fn access(&self) -> (r: Access)
        ensures
            r == self.spec_access(),
    {
        self.access
    }

    /// Constructs a new accessor of the same type at a different offset.
    pub fn with_offset(&self, new_offset: u16) -> (r: Self)
        ensures
            r.spec_region() == self.spec_region(),
            r.spec_offset() == new_offset,
            r.spec_access() == self.spec_access(),
    {
        DwordAccessor {
            region: self.region,
            start_offset: new_offset,
            access: self.access,
            value_type: PhantomData,
        }
    }

    /// Reinterprets the accessor at the same offset as a different type.
    pub fn cast<U>(&self) -> (r: DwordAccessor<U>)
        ensures
            r.spec_region() == self.spec_region(),
            r.spec_offset() == self.spec_offset(),
            r.spec_access() == self.spec_access(),
    {
        DwordAccessor {
            region: self.region,
            start_offset: self.start_offset,
            access: self.access,
            value_type: PhantomData,
        }
    }

    /// Constructs a new accessor for a field of the pointed-to value, at
    /// the given relative byte offset.  This is the explicit form of
    /// field projection: overlay types declare their layout through
    /// fixed offsets, and each projection adds one of them.
    pub fn field<U>(&self, relative_offset: u16) -> (r: DwordAccessor<U>)
        requires
            self.spec_offset() + relative_offset <= 0xffff,
        ensures
            r.spec_region() == self.spec_region(),
            r.spec_offset() == self.spec_offset() + relative_offset,
            r.spec_access() == self.spec_access(),
    {
        DwordAccessor {
            region: self.region,
            start_offset: self.start_offset + relative_offset,
            access: self.access,
            value_type: PhantomData,
        }
    }

    /// One-way capability downgrade to a read-only accessor.
    pub fn read_only(self) -> (r: DwordAccessor<T>)
        ensures
            r.spec_region() == self.spec_region(),
            r.spec_offset() == self.spec_offset(),
            r.spec_access() == Access::ReadOnly,
    {
        DwordAccessor {
            region: self.region,
            start_offset: self.start_offset,
            access: Access::ReadOnly,
            value_type: PhantomData,
        }
    }
}

/// Accessors are plain values: two accessors to the same field of the
/// same region with the same permission are equal.
pub proof fn lemma_accessor_eq<T>(a: DwordAccessor<T>, b: DwordAccessor<T>)
    requires
        a.spec_region() == b.spec_region(),
        a.spec_offset() == b.spec_offset(),
        a.spec_access() == b.spec_access(),
    ensures
        a == b,
{
}

/// Index arithmetic for a byte `j` of the dword `d` dwords past an
/// aligned base offset.
pub(crate) proof fn lemma_aligned_index(off: int, d: int, j: int)
    by (nonlinear_arith)
    requires
        off >= 0,
        off % 4 == 0,
        d >= 0,
        0 <= j < 4,
    ensures
        (off + 4 * d) % 4 == 0,
        (off + 4 * d + j) / 4 == off / 4 + d,
        (off + 4 * d + j) % 4 == j,
{
}

impl<T: RegisterValue> DwordAccessor<T> {
    /// Reads the field's value: the value denoted by the bytes the field
    /// occupies in the modelled space.
    ///
    /// A sub-dword field is served by one dword read of the containing
    /// aligned dword; a larger field by its dword reads at ascending
    /// offsets, whose little-endian byte images are concatenated.
    pub fn read<M: DwordAccessMethod>(&self, m: &M) -> (r: T)
        requires
            self.spec_access().spec_readable(),
            m.spec_function_exists(self.spec_region()),
            layout_ok(self.spec_offset() as int, T::spec_size()),
        ensures
            r == T::of_bytes(
                bytes_at(*m, self.spec_region(), self.spec_offset() as int, T::spec_size()),
            ),
            r.as_bytes() == bytes_at(
                *m,
                self.spec_region(),
                self.spec_offset() as int,
                T::spec_size(),
            ),
    {
        let ghost gbytes = bytes_at(
            *m,
            self.spec_region(),
            self.spec_offset() as int,
            T::spec_size(),
        );
        let size: u16 = T::byte_size();
        let off: u16 = self.start_offset;
        let region: PciAddress = self.region;
        let mut field: Vec<u8> = Vec::new();
        if size < 4 {
            let pos: u16 = off % 4;
            let base: u16 = off - pos;
            proof {
                lemma_aligned_index(off as int - pos as int, 0, pos as int);
            }
            let raw: u32 = m.read_dword(region, base);
            let raw_bytes: Vec<u8> = u32_to_le_bytes(raw);
            let mut k: u16 = 0;
            while k < size
                invariant
                    k <= size,
                    size == T::spec_size(),
                    1 <= size < 4,
                    pos == off % 4,
                    base == off - pos,
                    pos + size <= 4,
                    raw_bytes@ == spec_u32_to_le_bytes(m.dword_at(region, base as int / 4)),
                    raw_bytes@.len() == 4,
                    field@.len() == k,
                    forall|i: int| 0 <= i < k ==> field@[i] == raw_bytes@[pos + i],
                decreases size - k,
            {
                field.push(raw_bytes[(pos + k) as usize]);
                k += 1;
            }
            proof {
                assert forall|i: int| 0 <= i < size as int implies field@[i] == gbytes[i] by {
                    lemma_aligned_index(base as int, 0, pos as int + i);
                }
                assert(field@ =~= gbytes);
            }
        } else {
            let ndw: u16 = size / 4;
            let mut d: u16 = 0;
            while d < ndw
                invariant
                    d <= ndw,
                    ndw == size / 4,
                    size == T::spec_size(),
                    size >= 4,
                    size % 4 == 0,
                    off % 4 == 0,
                    off as int + size as int <= 4096,
                    m.spec_function_exists(region),
                    field@.len() == 4 * d,
                    forall|i: int| 0 <= i < 4 * d ==> field@[i] == byte_at(*m, region, off as int + i),
                decreases ndw - d,
            {
                proof {
                    lemma_aligned_index(off as int, d as int, 0);
                    assert(4 * (d as int) < size as int) by (nonlinear_arith)
                        requires
                            d < ndw,
                            ndw == size as int / 4,
                            size as int % 4 == 0,
                            size >= 4,
                    ;
                }
                let raw: u32 = m.read_dword(region, off + 4 * d);
                let mut raw_bytes: Vec<u8> = u32_to_le_bytes(raw);
                field.append(&mut raw_bytes);
                proof {
                    assert forall|j: int| 0 <= j < 4 implies spec_u32_to_le_bytes(raw)[j] == byte_at(
                        *m,
                        region,
                        off as int + 4 * (d as int) + j,
                    ) by {
                        lemma_aligned_index(off as int, d as int, j);
                    }
                    assert forall|i: int| 0 <= i < 4 * (d as int) + 4 implies field@[i] == byte_at(
                        *m,
                        region,
                        off as int + i,
                    ) by {
                    }
                }
                d += 1;
            }
            proof {
                assert(4 * (ndw as int) == size as int) by (nonlinear_arith)
                    requires
                        ndw == size as int / 4,
                        size as int % 4 == 0,
                        size >= 0,
                ;
                assert(field@ =~= gbytes);
            }
        }
        T::from_bytes(field.as_slice())
    }

    /// Writes a value into the field, replacing exactly the bytes the
    /// field occupies and nothing else.
    ///
    /// A sub-dword write is a read-modify-write of the containing dword
    /// — which is why write permission alone is not enough — and a
    /// larger write issues its constituent dword writes in ascending
    /// offset order.  There is no atomicity across multiple dwords.
    pub fn write<M: DwordAccessMethod>(&self, m: &mut M, value: T)
        requires
            self.spec_access().spec_readable(),
            self.spec_access().spec_writable(),
            old(m).spec_function_exists(self.spec_region()),
            layout_ok(self.spec_offset() as int, T::spec_size()),
        ensures
            bytes_at(*final(m), self.spec_region(), self.spec_offset() as int, T::spec_size())
                == value.as_bytes(),
            preserved_outside(
                *old(m),
                *final(m),
                self.spec_region(),
                self.spec_offset() as int,
                self.spec_offset() as int + T::spec_size(),
            ),
    {
        let ghost m0 = *m;
        let size: u16 = T::byte_size();
        let off: u16 = self.start_offset;
        let region: PciAddress = self.region;
        let vbytes: Vec<u8> = value.to_bytes();
        proof {
            T::lemma_round_trip(value);
        }
        if size < 4 {
            let pos: u16 = off % 4;
            let base: u16 = off - pos;
            proof {
                lemma_aligned_index(off as int - pos as int, 0, pos as int);
            }
            let raw: u32 = m.read_dword(region, base);
            let raw_bytes: Vec<u8> = u32_to_le_bytes(raw);
            let mut merged: Vec<u8> = Vec::new();
            let mut j: u16 = 0;
            while j < 4
                invariant
                    j <= 4,
                    size == T::spec_size(),
                    1 <= size < 4,
                    pos + size <= 4,
                    vbytes@.len() == size,
                    vbytes@ == value.as_bytes(),
                    raw_bytes@.len() == 4,
                    merged@.len() == j,
                    forall|i: int|
                        0 <= i < j ==> merged@[i] == if pos <= i < pos + size {
                            vbytes@[i - pos]
                        } else {
                            raw_bytes@[i]
                        },
                decreases 4 - j,
            {
                if j >= pos && j < pos + size {
                    merged.push(vbytes[(j - pos) as usize]);
                } else {
                    merged.push(raw_bytes[j as usize]);
                }
                j += 1;
            }
            let new_raw: u32 = u32_from_le_bytes(merged.as_slice());
            m.write_dword(region, base, new_raw);
            proof {
                lemma_auto_spec_u32_to_from_le_bytes();
                assert(spec_u32_to_le_bytes(new_raw) =~= merged@);
                assert forall|k: int| 0 <= k < size as int implies byte_at(
                    *m,
                    region,
                    off as int + k,
                ) == vbytes@[k] by {
                    lemma_aligned_index(base as int, 0, pos as int + k);
                }
                assert(bytes_at(*m, region, off as int, T::spec_size()) =~= value.as_bytes());
                assert forall|b: PciAddress, i: int|
                    b != region || i < off as int || i >= off as int + size as int implies byte_at(
                    *m,
                    b,
                    i,
                ) == byte_at(m0, b, i) by {
                    if b == region && i / 4 == base as int / 4 {
                        vstd::arithmetic::div_mod::lemma_fundamental_div_mod(i, 4);
                        assert(i == base as int + i % 4);
                    }
                }
            }
        } else {
            let ndw: u16 = size / 4;
            proof {
                assert(4 * (ndw as int) == size as int) by (nonlinear_arith)
                    requires
                        ndw == size as int / 4,
                        size as int % 4 == 0,
                        size >= 0,
                ;
            }
            let mut d: u16 = 0;
            while d < ndw
                invariant
                    d <= ndw,
                    ndw == size / 4,
                    4 * (ndw as int) == size as int,
                    size == T::spec_size(),
                    size >= 4,
                    size % 4 == 0,
                    off % 4 == 0,
                    off as int + size as int <= 4096,
                    vbytes@.len() == size,
                    vbytes@ == value.as_bytes(),
                    m0.spec_function_exists(region),
                    forall|e: int|
                        0 <= e < d ==> #[trigger] (*m).dword_at(region, off as int / 4 + e)
                            == spec_u32_from_le_bytes(vbytes@.subrange(4 * e, 4 * e + 4)),
                    forall|b: PciAddress, i: int|
                        b != region || !(off as int / 4 <= i < off as int / 4 + d)
                            ==> #[trigger] (*m).dword_at(b, i) == m0.dword_at(b, i),
                    forall|b: PciAddress|
                        #[trigger] (*m).spec_function_exists(b) == m0.spec_function_exists(b),
                    forall|b: PciAddress|
                        #[trigger] (*m).spec_has_multiple_functions(b)
                            == m0.spec_has_multiple_functions(b),
                decreases ndw - d,
            {
                let chunk: u32 = u32_from_le_bytes(
                    slice_subrange(vbytes.as_slice(), (4 * d) as usize, (4 * d + 4) as usize),
                );
                proof {
                    lemma_aligned_index(off as int, d as int, 0);
                }
                m.write_dword(region, off + 4 * d, chunk);
                d += 1;
            }
            proof {
                lemma_auto_spec_u32_to_from_le_bytes();
                assert forall|k: int| 0 <= k < size as int implies byte_at(
                    *m,
                    region,
                    off as int + k,
                ) == vbytes@[k] by {
                    let e = k / 4;
                    let j = k % 4;
                    vstd::arithmetic::div_mod::lemma_fundamental_div_mod(k, 4);
                    lemma_aligned_index(off as int, e, j);
                    let chunk = vbytes@.subrange(4 * e, 4 * e + 4);
                    assert(spec_u32_to_le_bytes(spec_u32_from_le_bytes(chunk)) =~= chunk);
                }
                assert(bytes_at(*m, region, off as int, T::spec_size()) =~= value.as_bytes());
                assert forall|b: PciAddress, i: int|
                    b != region || i < off as int || i >= off as int + size as int implies byte_at(
                    *m,
                    b,
                    i,
                ) == byte_at(m0, b, i) by {
                    if b == region {
                        vstd::arithmetic::div_mod::lemma_fundamental_div_mod(i, 4);
                        if off as int / 4 <= i / 4 < off as int / 4 + ndw as int {
                            assert(4 * (off as int / 4) == off as int);
                            assert(i >= off as int);
                            assert(i <= 4 * (i / 4) + 3);
                            assert(4 * (i / 4) <= 4 * (off as int / 4 + ndw as int - 1))
                                by (nonlinear_arith)
                                requires
                                    i / 4 < off as int / 4 + ndw as int,
                            ;
                            assert(i < off as int + size as int);
                        }
                    }
                }
            }
        }
    }

    /// Reads the field, applies `f`, and writes the result back: a
    /// read-modify-write without atomicity.
    pub fn update<M: DwordAccessMethod, F: FnOnce(T) -> T>(&self, m: &mut M, f: F)
        requires
            self.spec_access().spec_readable(),
            self.spec_access().spec_writable(),
            old(m).spec_function_exists(self.spec_region()),
            layout_ok(self.spec_offset() as int, T::spec_size()),
            call_requires(
                f,
                (
                    T::of_bytes(
                        bytes_at(
                            *old(m),
                            self.spec_region(),
                            self.spec_offset() as int,
                            T::spec_size(),
                        ),
                    ),
                ),
            ),
        ensures
            exists|u: T|
                {
                    &&& #[trigger] call_ensures(
                        f,
                        (
                            T::of_bytes(
                                bytes_at(
                                    *old(m),
                                    self.spec_region(),
                                    self.spec_offset() as int,
                                    T::spec_size(),
                                ),
                            ),
                        ),
                        u,
                    )
                    &&& bytes_at(
                        *final(m),
                        self.spec_region(),
                        self.spec_offset() as int,
                        T::spec_size(),
                    ) == u.as_bytes()
                    &&& preserved_outside(
                        *old(m),
                        *final(m),
                        self.spec_region(),
                        self.spec_offset() as int,
                        self.spec_offset() as int + T::spec_size(),
                    )
                },
    {
        let v: T = self.read(m);
        let w: T = f(v);
        self.write(m, w);
    }
}

/// Writing a value through an accessor and reading the same field back
/// yields that value again, whatever the device held before: the write
/// lays down exactly the value's byte image and the read denotes it.
pub proof fn lemma_write_then_read_round_trip<T: RegisterValue, M: DwordAccessMethod>(
    m1: M,
    region: PciAddress,
    offset: int,
    v: T,
    r: T,
)
    requires
        bytes_at(m1, region, offset, T::spec_size()) == v.as_bytes(),
        r == T::of_bytes(bytes_at(m1, region, offset, T::spec_size())),
    ensures
        r == v,
{
    T::lemma_round_trip(v);
}

/// After an aligned multi-dword write, each constituent dword of the
/// device holds the little-endian image of the corresponding 4-byte
/// chunk of the written value, in ascending offset order.
pub proof fn lemma_aligned_write_dword_image<T: RegisterValue, M: DwordAccessMethod>(
    m1: M,
    region: PciAddress,
    offset: int,
    v: T,
    k: int,
)
    requires
        layout_ok(offset, T::spec_size()),
        T::spec_size() >= 4,
        bytes_at(m1, region, offset, T::spec_size()) == v.as_bytes(),
        0 <= k < T::spec_size() / 4,
    ensures
        m1.dword_at(region, offset / 4 + k) == spec_u32_from_le_bytes(
            v.as_bytes().subrange(4 * k, 4 * k + 4),
        ),
{
    T::lemma_round_trip(v);
    lemma_auto_spec_u32_to_from_le_bytes();
    let d = m1.dword_at(region, offset / 4 + k);
    let chunk = v.as_bytes().subrange(4 * k, 4 * k + 4);
    assert(4 * k + 4 <= T::spec_size()) by (nonlinear_arith)
        requires
            0 <= k < T::spec_size() / 4,
            T::spec_size() % 4 == 0,
    ;
    assert forall|j: int| 0 <= j < 4 implies spec_u32_to_le_bytes(d)[j] == chunk[j] by {
        lemma_aligned_index(offset, k, j);
        assert(byte_at(m1, region, offset + 4 * k + j) == spec_u32_to_le_bytes(d)[j]);
        assert(bytes_at(m1, region, offset, T::spec_size())[4 * k + j] == byte_at(
            m1,
            region,
            offset + 4 * k + j,
        ));
    }
    assert(spec_u32_to_le_bytes(d) =~= chunk);
    assert(spec_u32_from_le_bytes(spec_u32_to_le_bytes(d)) == d);
}

} // verus!

