//! Traversal of the linked list of optional feature blocks.

use vstd::bytes::*;
use vstd::prelude::*;
use vstd::slice::slice_subrange;

use crate::accessor::{bytes_at, lemma_accessor_eq, DwordAccessor, RegisterValue};
use crate::address::{DwordAccessMethod, PciAddress};

verus! {

/// One entry of the capability linked list: a capability id, the byte
/// offset of the following entry (0 terminates the list), and a 16-bit
/// extension word whose meaning depends on the capability type.
///
/// Offset 0 is a safe terminator because the predefined header — not a
/// capability — always occupies offset 0.
#[derive(Clone, Copy, Debug, PartialEq, Eq, Structural)]
pub struct CapabilityHeader<EXT = u16> {
    /// The capability id.
    pub id: u8,
    /// The byte offset of the next entry; 0 terminates the list.
    pub next: u8,
    /// The 16-bit extension word; its semantics is type-dependent.
    pub extension: EXT,
}

impl RegisterValue for CapabilityHeader<u16> {
    open spec fn spec_size() -> nat {
        4
    }

    open spec fn as_bytes(self) -> Seq<u8> {
        seq![self.id, self.next] + spec_u16_to_le_bytes(self.extension)
    }

    open spec fn of_bytes(b: Seq<u8>) -> CapabilityHeader<u16> {
        CapabilityHeader { id: b[0], next: b[1], extension: spec_u16_from_le_bytes(b.subrange(2, 4)) }
    }

    proof fn lemma_round_trip(v: CapabilityHeader<u16>) {
        lemma_auto_spec_u16_to_from_le_bytes();
        let e = spec_u16_to_le_bytes(v.extension);
        assert(e.len() == 2);
        assert((seq![v.id, v.next] + e).subrange(2, 4) =~= e);
    }

    fn byte_size() -> (n: u16) {
        4
    }

    fn from_bytes(b: &[u8]) -> (r: CapabilityHeader<u16>) {
        let extension: u16 = u16_from_le_bytes(slice_subrange(b, 2, 4));
        let r = CapabilityHeader { id: b[0], next: b[1], extension };
        proof {
            lemma_auto_spec_u16_to_from_le_bytes();
            assert(spec_u16_to_le_bytes(extension) == b@.subrange(2, 4));
            assert(r.as_bytes() =~= b@);
        }
        r
    }

    fn to_bytes(&self) -> (b: Vec<u8>) {
        let mut v: Vec<u8> = Vec::new();
        v.push(self.id);
        v.push(self.next);
        let mut e: Vec<u8> = u16_to_le_bytes(self.extension);
        v.append(&mut e);
        proof {
            assert(v@ =~= self.as_bytes());
        }
        v
    }
}

/// The capability header stored at byte offset `offset` of `region`'s
/// space, under the channel model.
pub open spec fn spec_capability_header_at<M: DwordAccessMethod>(
    m: M,
    region: PciAddress,
    offset: int,
) -> CapabilityHeader<u16> {
    CapabilityHeader::<u16>::of_bytes(bytes_at(m, region, offset, 4))
}

/// An iterator over the capability linked list.  Its state is an
/// accessor positioned at a capability header; offset 0 means the
/// traversal has ended.
///
/// No cycle or bound check is performed: the `next` offsets come from
/// the very space being documented, and a malformed or hostile chain
/// keeps yielding entries forever.  Callers that cannot trust the device
/// must bound their number of steps themselves.
pub struct CapabilityIterator {
    acc: DwordAccessor<CapabilityHeader<u16>>,
}

impl CapabilityIterator {
    /// The accessor holding the iterator's current position.
    pub closed spec fn spec_acc(self) -> DwordAccessor<CapabilityHeader<u16>> {
        self.acc
    }

    /// Starts a traversal at the position of the given accessor.
    pub fn new(acc: DwordAccessor<CapabilityHeader<u16>>) -> (r: CapabilityIterator)
        ensures
            r.spec_acc() == acc,
    {
        CapabilityIterator { acc }
    }

    /// One step of the traversal.  At offset 0 the traversal has ended.
    /// Otherwise the entry's header is read, an accessor at the
    /// *current* offset is yielded for typed interpretation by the
    /// caller, and the iterator advances to the header's `next` offset
    /// for the following call.
    pub fn next<M: DwordAccessMethod>(&mut self, m: &M) -> (r: Option<
        DwordAccessor<CapabilityHeader<u16>>,
    >)
        requires
            old(self).spec_acc().spec_access().spec_readable(),
            m.spec_function_exists(old(self).spec_acc().spec_region()),
            old(self).spec_acc().spec_offset() + 4 <= 4096,
            old(self).spec_acc().spec_offset() % 4 == 0,
        ensures
            old(self).spec_acc().spec_offset() == 0 ==> r is None && final(self).spec_acc() == old(
                self,
            ).spec_acc(),
            old(self).spec_acc().spec_offset() != 0 ==> {
                let hdr = spec_capability_header_at(
                    *m,
                    old(self).spec_acc().spec_region(),
                    old(self).spec_acc().spec_offset() as int,
                );
                &&& r == Some(old(self).spec_acc())
                &&& final(self).spec_acc().spec_region() == old(self).spec_acc().spec_region()
                &&& final(self).spec_acc().spec_access() == old(self).spec_acc().spec_access()
                &&& final(self).spec_acc().spec_offset() == hdr.next
            },
    {
        let cur: u16 = self.acc.start_offset();
        if cur == 0 {
            return None;
        }
        let hdr: CapabilityHeader<u16> = self.acc.read(m);
        let yielded: DwordAccessor<CapabilityHeader<u16>> = self.acc.with_offset(cur);
        proof {
            lemma_accessor_eq(yielded, old(self).spec_acc());
        }
        self.acc = self.acc.with_offset(hdr.next as u16);
        Some(yielded)
    }
}

} // verus!
