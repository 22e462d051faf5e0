//! The per-CPU areas and the protocol that initializes them.
//!
//! `PerCpuAreas` is the state that a process has exactly once: the link-time
//! facts, the flag that tells whether initialization has run, the base
//! address of the areas, and the memory that holds the template and the
//! areas. Initialization replicates the template into one area per CPU; a
//! second initialization changes nothing and returns zero.
//!
//! Whoever holds the state exclusively is the only one that can initialize
//! it, so among any number of callers exactly one performs the
//! initialization and every later one finds the flag set.
use crate::layout::area_stride;
use crate::layout::percpu_area_size;
use crate::layout::spec_stride;
use crate::layout::spec_template_addr;
use crate::layout::template_addr;
use crate::layout::Layout;
use crate::layout::LinkSymbols;
use crate::layout::Mode;
use crate::memory::Memory;
use crate::memory::MemoryView;
use crate::once::once_call_once;
use crate::once::once_get;
use crate::once::once_new;
use crate::once::once_poisoned;
use crate::once::once_value;
use crate::register::Impl;
use vstd::prelude::*;

verus! {

/// The mathematical model of a `PerCpuAreas`.
pub struct AreasView {
    /// The deployment mode.
    pub mode: Mode,
    /// The link-time facts.
    pub symbols: LinkSymbols,
    /// Whether initialization has run.
    pub is_init: bool,
    /// The base address of area 0. Before initialization it is the start of
    /// the reserved region on bare metal, and zero in the other modes.
    pub base: usize,
    /// The number of areas that were initialized.
    pub count: usize,
    /// The memory.
    pub memory: MemoryView,
}

impl AreasView {
    /// The size of one area: the size of the template region.
    pub open spec fn area_size(self) -> int {
        self.symbols.spec_section_size()
    }

    /// The distance between the bases of two consecutive areas.
    pub open spec fn stride(self) -> int {
        spec_stride(self.mode, self.area_size())
    }

    /// The run-time address of the template.
    pub open spec fn template_addr(self) -> int {
        spec_template_addr(self.mode, self.symbols)
    }

    /// The bytes of the template.
    pub open spec fn template(self) -> Seq<u8> {
        self.memory.bytes_at(self.template_addr(), self.area_size())
    }

    /// The base address of the areas is known: always on bare metal, after
    /// initialization in the other modes.
    pub open spec fn resolved(self) -> bool {
        self.mode == Mode::BareMetal || self.is_init
    }

    /// The base address of area `cpu_id`.
    pub open spec fn area_base(self, cpu_id: int) -> int {
        self.base + cpu_id * self.stride()
    }

    /// The bytes of area `cpu_id`.
    pub open spec fn area(self, cpu_id: int) -> Seq<u8> {
        self.memory.bytes_at(self.area_base(cpu_id), self.area_size())
    }

    /// The layout of `n` areas at the base of this state.
    pub open spec fn layout_of(self, n: int) -> Layout {
        Layout {
            areas_base: self.base,
            area_size: self.area_size() as usize,
            stride: self.stride() as usize,
            area_count: n as usize,
        }
    }

    /// The layout of the areas that were initialized.
    pub open spec fn layout(self) -> Layout {
        self.layout_of(self.count as int)
    }

    /// The base address that initialization resolves, where `imp_base` is
    /// the base that the host supplies: on bare metal the start of the
    /// reserved region, the host's base in the other modes.
    pub open spec fn actual_base(self, imp_base: usize) -> usize {
        match self.mode {
            Mode::BareMetal => self.symbols.area_start,
            Mode::Hosted => imp_base,
            Mode::Custom => imp_base,
        }
    }

    /// `n` areas at `base` can be initialized: they end inside the address
    /// space, and either they start at the template and lie in the linked
    /// region, or a fresh buffer for them shares no byte with the linked
    /// region.
    pub open spec fn can_init(self, base: int, n: int) -> bool {
        &&& base + n * self.stride() <= usize::MAX
        &&& if base == self.template_addr() {
            self.memory.in_linked(base, n * self.stride())
        } else {
            self.memory.map_heap(base, n * self.stride()).wf()
        }
    }

    /// The memory in which initialization starts to copy: the memory as it
    /// is where the areas start at the template, the memory with a fresh
    /// buffer of zero bytes for the areas everywhere else.
    pub open spec fn init_memory(self, base: int, n: int) -> MemoryView {
        if base == self.template_addr() {
            self.memory
        } else {
            self.memory.map_heap(base, n * self.stride())
        }
    }

    /// What a call of `init` does: `self` is the state before the call,
    /// `imp_base` the base that the host supplies, `n` the number of CPUs,
    /// `after` the state after the call and `ret` the value returned.
    ///
    /// A state that was initialized before stays as it is and zero is
    /// returned. Otherwise `n` is returned, every one of the `n` areas holds
    /// the bytes of the template, and every byte outside the areas is what
    /// it was when copying started.
    pub open spec fn init_result(self, imp_base: usize, n: usize, after: AreasView, ret: usize) -> bool {
        if self.is_init {
            after == self && ret == 0
        } else {
            let base = self.actual_base(imp_base);
            let start = self.init_memory(base as int, n as int);
            &&& ret == n
            &&& after.mode == self.mode
            &&& after.symbols == self.symbols
            &&& after.is_init
            &&& after.base == base
            &&& after.count == n
            &&& after.memory.same_mapping(start)
            &&& forall|cpu_id: int| 0 <= cpu_id < n ==> #[trigger] after.area(cpu_id) == self.template()
            &&& forall|addr: int|
                start.mapped(addr, 1) && !after.layout().spec_in_areas(n as int, addr)
                    ==> #[trigger] after.memory.bytes_at(addr, 1) == start.bytes_at(addr, 1)
        }
    }

    /// The state is consistent.
    pub open spec fn wf(self) -> bool {
        &&& self.symbols.wf()
        &&& self.memory.wf()
        &&& self.area_size() + 63 <= usize::MAX
        &&& self.memory.linked_base == self.template_addr()
        &&& self.memory.linked.len() >= self.area_size()
        &&& self.mode == Mode::BareMetal ==> {
            &&& self.base == self.symbols.area_start
            &&& self.memory.linked.len() == self.symbols.spec_reserved_size()
        }
        &&& !self.is_init ==> {
            &&& self.count == 0
            &&& self.memory.heap.len() == 0
            &&& self.mode != Mode::BareMetal ==> self.base == 0
        }
        &&& self.is_init ==> {
            &&& self.base + self.count * self.stride() <= usize::MAX
            &&& self.memory.mapped(self.base as int, self.count * self.stride())
        }
    }

    /// In a consistent state the layout of the initialized areas is well
    /// formed, and it computes the same area bases as the state.
    pub proof fn lemma_layout(self)
        requires
            self.wf(),
        ensures
            self.layout().wf(),
            self.layout().spec_areas_base() == self.base,
            self.layout().spec_area_size() == self.area_size(),
            self.layout().spec_stride() == self.stride(),
            self.layout().spec_area_count() == self.count,
            forall|cpu_id: int| #[trigger]
                self.layout().spec_area_base(cpu_id) == self.area_base(cpu_id),
    {
        crate::layout::lemma_stride_bounds(self.mode, self.area_size());
        let s = self.stride();
        let n = self.count as int;
        assert(0 <= n * s && (n == 0 ==> n * s == 0)) by (nonlinear_arith)
            requires
                0 <= n,
                0 <= s,
        ;
    }

    /// The bases of two consecutive areas are one stride apart, whatever
    /// the index.
    pub proof fn lemma_stride_constant(self, cpu_id: int)
        ensures
            self.area_base(cpu_id + 1) - self.area_base(cpu_id) == self.stride(),
    {
        let s = self.stride();
        assert((cpu_id + 1) * s == cpu_id * s + s) by (nonlinear_arith);
    }

    /// Of two calls of `init` in a row the second returns zero and changes
    /// nothing. The first returns the number of CPUs if the state was not
    /// initialized before, and zero if it was.
    pub proof fn lemma_init_once(
        self,
        imp_base: usize,
        n: usize,
        middle: AreasView,
        first: usize,
        again_base: usize,
        m: usize,
        after: AreasView,
        second: usize,
    )
        requires
            self.init_result(imp_base, n, middle, first),
            middle.init_result(again_base, m, after, second),
        ensures
            first == (if self.is_init { 0 } else { n }),
            middle.is_init,
            second == 0,
            after == middle,
    {
    }

    /// Every byte range inside an initialized area is mapped.
    pub proof fn lemma_slot_mapped(self, cpu_id: int, offset: int, len: int)
        requires
            self.wf(),
            self.is_init,
            0 <= cpu_id < self.count,
            0 <= offset,
            0 <= len,
            offset + len <= self.area_size(),
        ensures
            self.memory.mapped(self.area_base(cpu_id) + offset, len),
            self.area_base(cpu_id) + offset + len <= usize::MAX,
            self.memory.bytes_at(self.area_base(cpu_id) + offset, len) == self.area(
                cpu_id,
            ).subrange(offset, offset + len),
    {
        self.lemma_layout();
        self.layout().lemma_area_in_range(cpu_id);
        let total = self.count * self.stride();
        let rel = cpu_id * self.stride();
        self.memory.lemma_sub_range(self.base as int, total, rel, self.area_size());
        self.memory.lemma_sub_range(self.area_base(cpu_id), self.area_size(), offset, len);
    }
}

/// The per-CPU state of a process.
pub struct PerCpuAreas {
    mode: Mode,
    symbols: LinkSymbols,
    is_init: bool,
    base: spin::once::Once<usize>,
    count: usize,
    memory: Memory,
}

impl View for PerCpuAreas {
    type V = AreasView;

    closed spec fn view(&self) -> AreasView {
        AreasView {
            mode: self.mode,
            symbols: self.symbols,
            is_init: self.is_init,
            base: match once_value(self.base) {
                Some(base) => base,
                None => match self.mode {
                    Mode::BareMetal => self.symbols.area_start,
                    Mode::Hosted => 0,
                    Mode::Custom => 0,
                },
            },
            count: self.count,
            memory: self.memory@,
        }
    }
}

/// The conditions under which a state can be made of `linked_len` bytes of
/// linked memory: the markers are in order, the area size can be rounded
/// up, the memory holds the whole template and ends inside the address
/// space, and on bare metal it is exactly the reserved region.
pub open spec fn spec_new_ok(mode: Mode, symbols: LinkSymbols, linked_len: int) -> bool {
    &&& symbols.wf()
    &&& symbols.spec_section_size() + 63 <= usize::MAX
    &&& symbols.spec_section_size() <= linked_len
    &&& spec_template_addr(mode, symbols) + linked_len <= usize::MAX
    &&& mode == Mode::BareMetal ==> linked_len == symbols.spec_reserved_size()
}

impl PerCpuAreas {
    /// The state is consistent, and the cell that records the base holds a
    /// value exactly when initialization has run.
    pub closed spec fn wf(&self) -> bool {
        &&& self@.wf()
        &&& !once_poisoned(self.base)
        &&& once_value(self.base) is Some <==> self.is_init
    }

    /// A consistent state has a consistent model.
    pub proof fn lemma_wf(&self)
        requires
            self.wf(),
        ensures
            self@.wf(),
    {
    }

    /// Makes the state of a process that has not initialized its per-CPU
    /// areas. `linked` is the memory at the run-time address of the
    /// template: the template itself, followed by whatever the linker
    /// reserved behind it. Returns `None` exactly when the markers are out
    /// of order, the area size cannot be rounded up, `linked` is shorter
    /// than the template or reaches beyond the address space, or on bare
    /// metal is not as long as the reserved region.
    pub fn new(mode: Mode, symbols: LinkSymbols, linked: Vec<u8>) -> (areas: Option<PerCpuAreas>)
        ensures
            areas is Some <==> spec_new_ok(mode, symbols, linked@.len() as int),
            areas matches Some(a) ==> {
                &&& a.wf()
                &&& a@.mode == mode
                &&& a@.symbols == symbols
                &&& !a@.is_init
                &&& a@.count == 0
                &&& a@.memory == (MemoryView {
                    linked_base: spec_template_addr(mode, symbols),
                    linked: linked@,
                    heap_base: 0,
                    heap: Seq::<u8>::empty(),
                })
            },
    {
        if symbols.load_start > symbols.load_end || symbols.area_start > symbols.area_end {
            return None;
        }
        let size = symbols.load_end - symbols.load_start;
        if size > usize::MAX - 63 || linked.len() < size {
            return None;
        }
        match mode {
            Mode::BareMetal => {
                if linked.len() != symbols.area_end - symbols.area_start {
                    return None;
                }
            },
            Mode::Hosted => {},
            Mode::Custom => {},
        }
        let addr = template_addr(mode, &symbols);
        match Memory::new(addr, linked) {
            None => None,
            Some(memory) => {
                let base = once_new();
                Some(PerCpuAreas { mode, symbols, is_init: false, base, count: 0, memory })
            },
        }
    }

    /// Returns the deployment mode.
    pub fn mode(&self) -> (mode: Mode)
        ensures
            mode == self@.mode,
    {
        self.mode
    }

    /// Returns the link-time facts.
    pub fn symbols(&self) -> (symbols: LinkSymbols)
        ensures
            symbols == self@.symbols,
    {
        self.symbols
    }

    /// Tells whether initialization has run.
    pub fn is_init(&self) -> (is_init: bool)
        ensures
            is_init == self@.is_init,
    {
        self.is_init
    }

    /// Returns the number of areas that were initialized.
    pub fn cpu_count(&self) -> (count: usize)
        ensures
            count == self@.count,
    {
        self.count
    }

    /// Returns the layout of the areas that were initialized.
    pub fn layout(&self) -> (layout: Layout)
        requires
            self.wf(),
            self@.resolved(),
        ensures
            layout == self@.layout(),
            layout.wf(),
    {
        proof {
            self@.lemma_layout();
        }
        let size = percpu_area_size(&self.symbols);
        Layout {
            areas_base: percpu_base(self),
            area_size: size,
            stride: area_stride(self.mode, size),
            area_count: self.count,
        }
    }

    /// Tells whether the range `addr .. addr + len` is mapped.
    pub fn is_mapped(&self, addr: usize, len: usize) -> (mapped: bool)
        requires
            self.wf(),
        ensures
            mapped == self@.memory.mapped(addr as int, len as int),
    {
        self.memory.is_mapped(addr, len)
    }

    /// Returns the `len` bytes at `addr`.
    pub fn read_bytes(&self, addr: usize, len: usize) -> (bytes: Vec<u8>)
        requires
            self.wf(),
            self@.memory.mapped(addr as int, len as int),
        ensures
            bytes@ == self@.memory.bytes_at(addr as int, len as int),
    {
        self.memory.read(addr, len)
    }

    /// Returns a view of the `len` bytes at `addr`.
    pub fn bytes(&self, addr: usize, len: usize) -> (bytes: &[u8])
        requires
            self.wf(),
            self@.memory.mapped(addr as int, len as int),
        ensures
            bytes@ == self@.memory.bytes_at(addr as int, len as int),
    {
        self.memory.slice(addr, len)
    }

    /// Returns a mutable view of the `len` bytes at `addr`. What the view
    /// holds when it is given up is what the memory holds there; nothing
    /// but the memory changes.
    pub fn bytes_mut(&mut self, addr: usize, len: usize) -> (bytes: &mut [u8])
        requires
            old(self).wf(),
            old(self)@.memory.mapped(addr as int, len as int),
        ensures
            bytes@ == old(self)@.memory.bytes_at(addr as int, len as int),
            final(bytes)@.len() == len ==> final(self).wf() && final(self)@ == (AreasView {
                memory: old(self)@.memory.write(addr as int, final(bytes)@),
                ..old(self)@
            }),
    {
        let bytes = self.memory.slice_mut(addr, len);
        assert(final(bytes)@.len() == len ==> old(self)@.memory.write(
            addr as int,
            final(bytes)@,
        ).same_mapping(old(self)@.memory) && old(self)@.memory.write(
            addr as int,
            final(bytes)@,
        ).wf());
        bytes
    }

    /// Writes `data` at `addr`. Nothing but the memory changes.
    pub fn write_bytes(&mut self, addr: usize, data: &[u8])
        requires
            old(self).wf(),
            old(self)@.memory.mapped(addr as int, data@.len() as int),
        ensures
            final(self).wf(),
            final(self)@ == (AreasView {
                memory: old(self)@.memory.write(addr as int, data@),
                ..old(self)@
            }),
    {
        proof {
            self@.memory.lemma_write_mapping(addr as int, data@);
        }
        self.memory.write(addr, data);
    }
}

/// Returns the base address of all per-CPU data areas.
pub fn percpu_base(areas: &PerCpuAreas) -> (base: usize)
    requires
        areas.wf(),
        areas@.resolved(),
    ensures
        base == areas@.base,
{
    match areas.mode {
        Mode::BareMetal => areas.symbols.area_start,
        Mode::Hosted => once_get(&areas.base).unwrap(),
        Mode::Custom => once_get(&areas.base).unwrap(),
    }
}

/// Returns the base address that initialization records: the start of the
/// reserved region on bare metal, the base that the host supplies in the
/// other modes.
pub fn get_actual_percpu_base<I: Impl>(areas: &PerCpuAreas, imp: &I) -> (base: usize)
    ensures
        base == areas@.actual_base(imp.spec_percpu_base()),
{
    match areas.mode {
        Mode::BareMetal => areas.symbols.area_start,
        Mode::Hosted => imp.percpu_base(),
        Mode::Custom => imp.percpu_base(),
    }
}

/// Returns the base address of the per-CPU data area on the given CPU.
///
/// if `cpu_id` is 0, it returns the base address of all per-CPU data areas.
pub fn percpu_area_base(areas: &PerCpuAreas, cpu_id: usize) -> (base: usize)
    requires
        areas.wf(),
        areas@.resolved(),
        areas@.area_base(cpu_id as int) <= usize::MAX,
    ensures
        base == areas@.area_base(cpu_id as int),
{
    let stride = area_stride(areas.mode, percpu_area_size(&areas.symbols));
    assert(0 <= cpu_id * stride) by (nonlinear_arith);
    percpu_base(areas) + cpu_id * stride
}

/// Tells whether `init` may be called with `cpu_count`: the state was
/// initialized before, or `cpu_count` areas can be initialized at the base
/// that `init` would resolve.
pub fn init_fits<I: Impl>(areas: &PerCpuAreas, imp: &I, cpu_count: usize) -> (fits: bool)
    requires
        areas.wf(),
    ensures
        fits == (areas@.is_init || areas@.can_init(
            areas@.actual_base(imp.spec_percpu_base()) as int,
            cpu_count as int,
        )),
{
    if areas.is_init {
        return true;
    }
    let base = get_actual_percpu_base(areas, imp);
    let stride = area_stride(areas.mode, percpu_area_size(&areas.symbols));
    assert(0 <= cpu_count * stride) by (nonlinear_arith);
    match cpu_count.checked_mul(stride) {
        None => false,
        Some(total) => {
            if total > usize::MAX - base {
                false
            } else if base == template_addr(areas.mode, &areas.symbols) {
                areas.memory.is_linked(base, total)
            } else {
                areas.memory.heap_fits(base, total)
            }
        },
    }
}

/// Initialize all per-CPU data areas.
///
/// Returns the number of areas initialized. If this function has been called
/// before, it does nothing and returns 0.
///
/// The base of the areas is resolved and recorded, a buffer for the areas
/// is allocated where they do not start at the template, and the template
/// is copied into each area. Area 0 is not copied where it is the template
/// itself.
pub fn init<I: Impl>(areas: &mut PerCpuAreas, imp: &I, cpu_count: usize) -> (n: usize)
    requires
        old(areas).wf(),
        !old(areas)@.is_init ==> old(areas)@.can_init(
            old(areas)@.actual_base(imp.spec_percpu_base()) as int,
            cpu_count as int,
        ),
    ensures
        final(areas).wf(),
        old(areas)@.init_result(imp.spec_percpu_base(), cpu_count, final(areas)@, n),
{
    // avoid re-initialization.
    if areas.is_init {
        return 0;
    }
    areas.is_init = true;

    let ghost before = old(areas)@;
    let ghost tmpl = before.template();
    let actual = get_actual_percpu_base(areas, imp);
    let size = percpu_area_size(&areas.symbols);
    let stride = area_stride(areas.mode, size);
    let src = template_addr(areas.mode, &areas.symbols);
    proof {
        crate::layout::lemma_stride_bounds(areas.mode, size as int);
        assert(0 <= cpu_count * stride) by (nonlinear_arith);
    }
    let total = cpu_count * stride;
    let base = once_call_once(&mut areas.base, actual);
    if base != src {
        // the areas do not start at the template: allocate them.
        areas.memory.map_heap(base, total);
    }
    let ghost start = areas.memory@;
    let ghost lay = Layout { areas_base: base, area_size: size, stride, area_count: cpu_count };
    proof {
        assert(start == before.init_memory(base as int, cpu_count as int));
        assert(start.mapped(base as int, total as int));
        assert(start.bytes_at(src as int, size as int) =~= tmpl);
        if base != src && cpu_count > 0 && size > 0 {
            assert(total >= stride) by (nonlinear_arith)
                requires
                    total == cpu_count * stride,
                    cpu_count > 0,
                    0 <= stride,
            ;
        }
    }

    let mut i: usize = 0;
    while i < cpu_count
        invariant
            i <= cpu_count,
            lay == (Layout { areas_base: base, area_size: size, stride, area_count: cpu_count }),
            lay.wf(),
            total == cpu_count * stride,
            base + total <= usize::MAX,
            size <= stride,
            tmpl.len() == size,
            start.wf(),
            start.mapped(base as int, total as int),
            start.mapped(src as int, size as int),
            base != src ==> cpu_count == 0 || size == 0 || src + size <= base || base + total
                <= src,
            areas.memory@.wf(),
            areas.memory@.same_mapping(start),
            areas.memory@.bytes_at(src as int, size as int) == tmpl,
            forall|cpu_id: int|
                0 <= cpu_id < i ==> #[trigger] areas.memory@.bytes_at(
                    lay.spec_area_base(cpu_id),
                    size as int,
                ) == tmpl,
            forall|addr: int|
                start.mapped(addr, 1) && !lay.spec_in_areas(i as int, addr)
                    ==> #[trigger] areas.memory@.bytes_at(addr, 1) == start.bytes_at(addr, 1),
            areas.mode == before.mode,
            areas.symbols == before.symbols,
            areas.is_init,
            areas.count == 0,
            once_value(areas.base) == Some(base),
            !once_poisoned(areas.base),
        decreases cpu_count - i,
    {
        proof {
            lay.lemma_area_in_range(i as int);
        }
        assert(0 <= i * stride <= total) by (nonlinear_arith)
            requires
                i < cpu_count,
                total == cpu_count * stride,
                0 <= stride,
        ;
        let dst = base + i * stride;
        let ghost m0 = areas.memory@;
        proof {
            m0.lemma_sub_range(base as int, total as int, i * stride, size as int);
        }
        if i == 0 && dst == src {
            // area 0 is the template itself: nothing to copy.
        } else {
            proof {
                if base == src {
                    assert(i == 0 ==> i * stride == 0) by (nonlinear_arith);
                    assert(i * stride >= stride) by (nonlinear_arith)
                        requires
                            i >= 1,
                            0 <= stride,
                    ;
                } else {
                    assert((i + 1) * stride <= total && (i + 1) * stride == i * stride + stride)
                        by (nonlinear_arith)
                        requires
                            i < cpu_count,
                            total == cpu_count * stride,
                            0 <= stride,
                    ;
                }
            }
            // copy the template to the area of this CPU.
            areas.memory.copy(src, dst, size);
            proof {
                let m1 = areas.memory@;
                m0.lemma_write_mapping(dst as int, tmpl);
                m0.lemma_write_read(dst as int, tmpl);
                m0.lemma_write_frame(dst as int, tmpl, src as int, size as int);
                assert forall|cpu_id: int| 0 <= cpu_id < i implies #[trigger] m1.bytes_at(
                    lay.spec_area_base(cpu_id),
                    size as int,
                ) == tmpl by {
                    lay.lemma_area_in_range(cpu_id);
                    lay.lemma_areas_disjoint(cpu_id, i as int, 0, size as int, 0, size as int);
                    m0.lemma_sub_range(
                        base as int,
                        total as int,
                        cpu_id * stride,
                        size as int,
                    );
                    m0.lemma_write_frame(
                        dst as int,
                        tmpl,
                        lay.spec_area_base(cpu_id),
                        size as int,
                    );
                }
                assert forall|addr: int|
                    start.mapped(addr, 1) && !lay.spec_in_areas(
                        i + 1,
                        addr,
                    ) implies #[trigger] m1.bytes_at(addr, 1) == start.bytes_at(addr, 1) by {
                    lay.lemma_in_areas_step(i as int, addr);
                    m0.lemma_write_frame(dst as int, tmpl, addr, 1);
                }
            }
        }
        proof {
            assert forall|addr: int|
                start.mapped(addr, 1) && !lay.spec_in_areas(
                    i + 1,
                    addr,
                ) implies #[trigger] areas.memory@.bytes_at(addr, 1) == start.bytes_at(addr, 1) by {
                lay.lemma_in_areas_step(i as int, addr);
            }
        }
        i += 1;
    }
    areas.count = cpu_count;
    proof {
        let after = areas@;
        assert(after.layout() == lay);
        assert forall|cpu_id: int| 0 <= cpu_id < cpu_count implies #[trigger] after.area(cpu_id)
            == before.template() by {
            assert(after.area_base(cpu_id) == lay.spec_area_base(cpu_id));
        }
    }
    cpu_count
}

/// Initializes the per-CPU data register.
///
/// It is equivalent to `write_percpu_reg(percpu_area_base(cpu_id))`, which set
/// the architecture-specific per-CPU data register to the base address of the
/// corresponding per-CPU data area.
///
/// `cpu_id` indicates which per-CPU data area to use.
pub fn init_percpu_reg<I: Impl>(areas: &PerCpuAreas, imp: &mut I, cpu_id: usize)
    requires
        areas.wf(),
        areas@.resolved(),
        areas@.area_base(cpu_id as int) <= usize::MAX,
    ensures
        final(imp).spec_cpu_local_ptr() == areas@.area_base(cpu_id as int),
        final(imp).spec_percpu_base() == old(imp).spec_percpu_base(),
{
    let tp = percpu_area_base(areas, cpu_id);
    imp.set_cpu_local_ptr(tp);
}

} // verus!
