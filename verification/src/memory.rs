//! The memory that holds the template region and the per-CPU areas.
//!
//! Memory is addressed by plain addresses. It consists of two regions that
//! never overlap: the linked region, which starts at the run-time address of
//! the template and holds what the loader placed there, and the heap region,
//! which is empty until a buffer for the areas is allocated. An access names
//! an address and a length, and is served by the region that covers the
//! whole range.
use vstd::prelude::*;
use vstd::slice::slice_subrange;

verus! {

/// `s` with the bytes `data` written over the positions `at ..
/// at + data.len()`.
pub open spec fn splice(s: Seq<u8>, at: int, data: Seq<u8>) -> Seq<u8> {
    Seq::new(
        s.len(),
        |k: int|
            if at <= k < at + data.len() {
                data[k - at]
            } else {
                s[k]
            },
    )
}

/// The mathematical model of a `Memory`: where each region starts and the
/// bytes it holds.
pub struct MemoryView {
    /// Address of the first byte of the linked region.
    pub linked_base: int,
    /// The bytes of the linked region.
    pub linked: Seq<u8>,
    /// Address of the first byte of the heap region.
    pub heap_base: int,
    /// The bytes of the heap region.
    pub heap: Seq<u8>,
}

impl MemoryView {
    /// The range `addr .. addr + len` lies in the linked region.
    pub open spec fn in_linked(self, addr: int, len: int) -> bool {
        &&& 0 <= len
        &&& self.linked_base <= addr
        &&& addr + len <= self.linked_base + self.linked.len()
    }

    /// The range `addr .. addr + len` lies in the heap region.
    pub open spec fn in_heap(self, addr: int, len: int) -> bool {
        &&& 0 <= len
        &&& self.heap_base <= addr
        &&& addr + len <= self.heap_base + self.heap.len()
    }

    /// The range `addr .. addr + len` lies in one of the two regions.
    pub open spec fn mapped(self, addr: int, len: int) -> bool {
        self.in_linked(addr, len) || self.in_heap(addr, len)
    }

    /// The regions lie in the address space and share no byte.
    pub open spec fn wf(self) -> bool {
        &&& 0 <= self.linked_base
        &&& self.linked_base + self.linked.len() <= usize::MAX
        &&& 0 <= self.heap_base
        &&& self.heap_base + self.heap.len() <= usize::MAX
        &&& {
            ||| self.heap.len() == 0
            ||| self.linked.len() == 0
            ||| self.linked_base + self.linked.len() <= self.heap_base
            ||| self.heap_base + self.heap.len() <= self.linked_base
        }
    }

    /// The bytes at `addr .. addr + len`.
    pub open spec fn bytes_at(self, addr: int, len: int) -> Seq<u8> {
        if self.in_linked(addr, len) {
            self.linked.subrange(addr - self.linked_base, addr - self.linked_base + len)
        } else {
            self.heap.subrange(addr - self.heap_base, addr - self.heap_base + len)
        }
    }

    /// The memory after `data` was written at `addr`. A write to a range
    /// that is not mapped changes nothing.
    pub open spec fn write(self, addr: int, data: Seq<u8>) -> MemoryView {
        if self.in_linked(addr, data.len() as int) {
            MemoryView { linked: splice(self.linked, addr - self.linked_base, data), ..self }
        } else if self.in_heap(addr, data.len() as int) {
            MemoryView { heap: splice(self.heap, addr - self.heap_base, data), ..self }
        } else {
            self
        }
    }

    /// The memory after the heap region was replaced by `len` zero bytes at
    /// `base`.
    pub open spec fn map_heap(self, base: int, len: int) -> MemoryView {
        MemoryView { heap_base: base, heap: Seq::new(len as nat, |k: int| 0u8), ..self }
    }

    /// Both memories map the same addresses.
    pub open spec fn same_mapping(self, other: MemoryView) -> bool {
        &&& self.linked_base == other.linked_base
        &&& self.linked.len() == other.linked.len()
        &&& self.heap_base == other.heap_base
        &&& self.heap.len() == other.heap.len()
    }

    /// A write keeps the regions where they are.
    pub proof fn lemma_write_mapping(self, addr: int, data: Seq<u8>)
        ensures
            self.write(addr, data).same_mapping(self),
            self.wf() ==> self.write(addr, data).wf(),
    {
    }

    /// What was written is read back.
    pub proof fn lemma_write_read(self, addr: int, data: Seq<u8>)
        requires
            self.wf(),
            self.mapped(addr, data.len() as int),
        ensures
            self.write(addr, data).bytes_at(addr, data.len() as int) == data,
    {
        assert(self.write(addr, data).bytes_at(addr, data.len() as int) =~= data);
    }

    /// A write leaves every range that it does not touch as it was.
    pub proof fn lemma_write_frame(self, addr: int, data: Seq<u8>, other: int, len: int)
        requires
            self.wf(),
            self.mapped(other, len),
            other + len <= addr || addr + data.len() <= other,
        ensures
            self.write(addr, data).bytes_at(other, len) == self.bytes_at(other, len),
    {
        assert(self.write(addr, data).bytes_at(other, len) =~= self.bytes_at(other, len));
    }

    /// A range inside a mapped range is mapped, and holds the matching part
    /// of its bytes.
    pub proof fn lemma_sub_range(self, addr: int, len: int, off: int, sub: int)
        requires
            self.wf(),
            self.mapped(addr, len),
            0 <= off,
            0 <= sub,
            off + sub <= len,
        ensures
            self.mapped(addr + off, sub),
            self.bytes_at(addr + off, sub) == self.bytes_at(addr, len).subrange(off, off + sub),
    {
        assert(self.bytes_at(addr + off, sub) =~= self.bytes_at(addr, len).subrange(
            off,
            off + sub,
        ));
    }
}

/// The memory of the template region and the per-CPU areas.
pub struct Memory {
    linked_base: usize,
    linked: Vec<u8>,
    heap_base: usize,
    heap: Vec<u8>,
}

impl View for Memory {
    type V = MemoryView;

    closed spec fn view(&self) -> MemoryView {
        MemoryView {
            linked_base: self.linked_base as int,
            linked: self.linked@,
            heap_base: self.heap_base as int,
            heap: self.heap@,
        }
    }
}

impl Memory {
    /// Makes a memory whose linked region holds `linked` at `linked_base`
    /// and whose heap region is empty. Returns `None` exactly when the
    /// linked region would reach beyond the address space.
    pub fn new(linked_base: usize, linked: Vec<u8>) -> (memory: Option<Memory>)
        ensures
            memory is Some <==> linked_base + linked@.len() <= usize::MAX,
            memory matches Some(m) ==> m@ == (MemoryView {
                linked_base: linked_base as int,
                linked: linked@,
                heap_base: 0,
                heap: Seq::<u8>::empty(),
            }) && m@.wf(),
    {
        if linked.len() > usize::MAX - linked_base {
            return None;
        }
        let memory = Memory { linked_base, linked, heap_base: 0, heap: Vec::new() };
        assert(memory@.heap =~= Seq::<u8>::empty());
        Some(memory)
    }

    /// Tells whether the range `addr .. addr + len` lies in one region.
    pub fn is_mapped(&self, addr: usize, len: usize) -> (mapped: bool)
        requires
            self@.wf(),
        ensures
            mapped == self@.mapped(addr as int, len as int),
    {
        (self.linked_base <= addr && len <= self.linked.len() && addr - self.linked_base
            <= self.linked.len() - len) || (self.heap_base <= addr && len <= self.heap.len()
            && addr - self.heap_base <= self.heap.len() - len)
    }

    /// Tells whether the range `addr .. addr + len` lies in the linked
    /// region.
    pub fn is_linked(&self, addr: usize, len: usize) -> (linked: bool)
        requires
            self@.wf(),
        ensures
            linked == self@.in_linked(addr as int, len as int),
    {
        self.linked_base <= addr && len <= self.linked.len() && addr - self.linked_base
            <= self.linked.len() - len
    }

    /// Tells whether a buffer of `len` bytes at `base` lies in the address
    /// space and shares no byte with the linked region.
    pub fn heap_fits(&self, base: usize, len: usize) -> (fits: bool)
        requires
            self@.wf(),
        ensures
            fits == self@.map_heap(base as int, len as int).wf(),
    {
        len <= usize::MAX - base && (len == 0 || self.linked.len() == 0 || self.linked_base
            + self.linked.len() <= base || base + len <= self.linked_base)
    }

    /// Replaces the heap region by a fresh buffer of `len` zero bytes at
    /// `base`.
    pub fn map_heap(&mut self, base: usize, len: usize)
        requires
            old(self)@.wf(),
            old(self)@.map_heap(base as int, len as int).wf(),
        ensures
            final(self)@ == old(self)@.map_heap(base as int, len as int),
    {
        let heap = vec![0u8; len];
        self.heap_base = base;
        self.heap = heap;
        assert(self@.heap =~= Seq::new(len as nat, |k: int| 0u8));
    }

    /// Returns the `len` bytes at `addr`.
    pub fn read(&self, addr: usize, len: usize) -> (bytes: Vec<u8>)
        requires
            self@.wf(),
            self@.mapped(addr as int, len as int),
        ensures
            bytes@ == self@.bytes_at(addr as int, len as int),
    {
        let in_linked = self.linked_base <= addr && len <= self.linked.len() && addr
            - self.linked_base <= self.linked.len() - len;
        let mut bytes: Vec<u8> = Vec::new();
        let mut k: usize = 0;
        if in_linked {
            let start = addr - self.linked_base;
            while k < len
                invariant
                    k <= len,
                    start + len <= self.linked.len(),
                    bytes@ == self.linked@.subrange(start as int, start + k),
                decreases len - k,
            {
                bytes.push(self.linked[start + k]);
                k += 1;
                assert(bytes@ =~= self.linked@.subrange(start as int, start + k));
            }
        } else {
            let start = addr - self.heap_base;
            while k < len
                invariant
                    k <= len,
                    start + len <= self.heap.len(),
                    bytes@ == self.heap@.subrange(start as int, start + k),
                decreases len - k,
            {
                bytes.push(self.heap[start + k]);
                k += 1;
                assert(bytes@ =~= self.heap@.subrange(start as int, start + k));
            }
        }
        bytes
    }

    /// Returns a view of the `len` bytes at `addr`.
    pub fn slice(&self, addr: usize, len: usize) -> (bytes: &[u8])
        requires
            self@.wf(),
            self@.mapped(addr as int, len as int),
        ensures
            bytes@ == self@.bytes_at(addr as int, len as int),
    {
        if self.linked_base <= addr && len <= self.linked.len() && addr - self.linked_base
            <= self.linked.len() - len {
            let start = addr - self.linked_base;
            slice_subrange(self.linked.as_slice(), start, start + len)
        } else {
            let start = addr - self.heap_base;
            slice_subrange(self.heap.as_slice(), start, start + len)
        }
    }

    /// Returns a mutable view of the `len` bytes at `addr`. What the view
    /// holds when it is given up is what the memory holds there.
    pub fn slice_mut(&mut self, addr: usize, len: usize) -> (bytes: &mut [u8])
        requires
            old(self)@.wf(),
            old(self)@.mapped(addr as int, len as int),
        ensures
            bytes@ == old(self)@.bytes_at(addr as int, len as int),
            final(bytes)@.len() == len ==> final(self)@ == old(self)@.write(
                addr as int,
                final(bytes)@,
            ),
    {
        if self.linked_base <= addr && len <= self.linked.len() && addr - self.linked_base
            <= self.linked.len() - len {
            let start = addr - self.linked_base;
            let ghost before = self.linked@;
            let whole = self.linked.as_mut_slice();
            let (_, rest) = whole.split_at_mut(start);
            let (bytes, _) = rest.split_at_mut(len);
            assert(final(bytes)@.len() == len ==> before.subrange(0, start as int) + (final(bytes)@
                + before.subrange(start as int, before.len() as int).subrange(
                len as int,
                before.len() - start,
            )) =~= splice(before, start as int, final(bytes)@));
            bytes
        } else {
            let start = addr - self.heap_base;
            let ghost before = self.heap@;
            let whole = self.heap.as_mut_slice();
            let (_, rest) = whole.split_at_mut(start);
            let (bytes, _) = rest.split_at_mut(len);
            assert(final(bytes)@.len() == len ==> before.subrange(0, start as int) + (final(bytes)@
                + before.subrange(start as int, before.len() as int).subrange(
                len as int,
                before.len() - start,
            )) =~= splice(before, start as int, final(bytes)@));
            bytes
        }
    }

    /// Writes `data` at `addr`.
    pub fn write(&mut self, addr: usize, data: &[u8])
        requires
            old(self)@.wf(),
            old(self)@.mapped(addr as int, data@.len() as int),
        ensures
            final(self)@ == old(self)@.write(addr as int, data@),
            final(self)@.wf(),
    {
        let len = data.len();
        let in_linked = self.linked_base <= addr && len <= self.linked.len() && addr
            - self.linked_base <= self.linked.len() - len;
        let ghost before = self@;
        let mut k: usize = 0;
        if in_linked {
            let start = addr - self.linked_base;
            assert(self@.linked =~= splice(before.linked, start as int, data@.subrange(0, 0)));
            while k < len
                invariant
                    k <= len,
                    len == data@.len(),
                    start + len <= self.linked.len(),
                    self@ == (MemoryView {
                        linked: splice(before.linked, start as int, data@.subrange(0, k as int)),
                        ..before
                    }),
                decreases len - k,
            {
                let byte = data[k];
                self.linked[start + k] = byte;
                k += 1;
                assert(self@.linked =~= splice(
                    before.linked,
                    start as int,
                    data@.subrange(0, k as int),
                ));
            }
            assert(data@.subrange(0, len as int) =~= data@);
        } else {
            let start = addr - self.heap_base;
            assert(self@.heap =~= splice(before.heap, start as int, data@.subrange(0, 0)));
            while k < len
                invariant
                    k <= len,
                    len == data@.len(),
                    start + len <= self.heap.len(),
                    self@ == (MemoryView {
                        heap: splice(before.heap, start as int, data@.subrange(0, k as int)),
                        ..before
                    }),
                decreases len - k,
            {
                let byte = data[k];
                self.heap[start + k] = byte;
                k += 1;
                assert(self@.heap =~= splice(
                    before.heap,
                    start as int,
                    data@.subrange(0, k as int),
                ));
            }
            assert(data@.subrange(0, len as int) =~= data@);
        }
    }

    /// Copies the `len` bytes at `src` to `dst`. The two ranges must not
    /// overlap.
    pub fn copy(&mut self, src: usize, dst: usize, len: usize)
        requires
            old(self)@.wf(),
            old(self)@.mapped(src as int, len as int),
            old(self)@.mapped(dst as int, len as int),
            src + len <= dst || dst + len <= src,
        ensures
            final(self)@ == old(self)@.write(
                dst as int,
                old(self)@.bytes_at(src as int, len as int),
            ),
            final(self)@.wf(),
    {
        let bytes = self.read(src, len);
        self.write(dst, bytes.as_slice());
    }
}

} // verus!
