//! The layout model: address arithmetic that derives the size of one per-CPU
//! data area, the distance between consecutive areas and the base address of
//! each area from facts fixed at link time or at allocation time.
//!
//! Two stride policies exist and the deployment mode selects one of them
//! explicitly. On bare metal the areas are laid out in a region that the
//! linker reserved, and consecutive areas are `align_up_64(area_size)` bytes
//! apart. In the hosted and custom modes the areas are packed into a buffer
//! of exactly `cpu_count * area_size` bytes, so the stride is `area_size`.
use vstd::prelude::*;

verus! {

/// The alignment, in bytes, of the per-CPU areas on bare metal.
pub const SIZE_64BIT: usize = 0x40;

/// The deployment mode. It is fixed when the per-CPU state is created and
/// never changes afterwards.
#[derive(Clone, Copy, Debug, PartialEq, Eq, Structural)]
pub enum Mode {
    /// The areas live in a region reserved by the linker; area 0 is the
    /// loaded template itself.
    BareMetal,
    /// The areas live in a buffer allocated once at initialization.
    Hosted,
    /// The host supplies the base of the areas and the per-context register.
    Custom,
}

/// The addresses that the linker script defines.
#[derive(Clone, Copy, Debug, PartialEq, Eq, Structural)]
pub struct LinkSymbols {
    /// Start marker of the template region.
    pub load_start: usize,
    /// End marker of the template region.
    pub load_end: usize,
    /// Start of the region reserved for the areas (bare metal).
    pub area_start: usize,
    /// End of the region reserved for the areas (bare metal).
    pub area_end: usize,
}

impl LinkSymbols {
    /// The markers of each region are ordered.
    pub open spec fn wf(&self) -> bool {
        &&& self.load_start <= self.load_end
        &&& self.area_start <= self.area_end
    }

    /// Size of the template region: the distance between its two markers.
    pub open spec fn spec_section_size(&self) -> int {
        self.load_end - self.load_start
    }

    /// Size of the region reserved for the areas.
    pub open spec fn spec_reserved_size(&self) -> int {
        self.area_end - self.area_start
    }
}

/// `val` rounded up to the next multiple of 64.
pub open spec fn spec_align_up_64(val: int) -> int {
    (val + 63) / 64 * 64
}

/// The distance between the bases of two consecutive areas.
pub open spec fn spec_stride(mode: Mode, area_size: int) -> int {
    match mode {
        Mode::BareMetal => spec_align_up_64(area_size),
        Mode::Hosted => area_size,
        Mode::Custom => area_size,
    }
}

/// The address at which the bytes of the template region are found at run
/// time. On bare metal the template is loaded at the start of the reserved
/// region and the link markers only measure offsets; otherwise the template
/// sits at its link address.
pub open spec fn spec_template_addr(mode: Mode, symbols: LinkSymbols) -> int {
    match mode {
        Mode::BareMetal => symbols.area_start as int,
        Mode::Hosted => symbols.load_start as int,
        Mode::Custom => symbols.load_start as int,
    }
}

/// The number of areas that fit into the reserved region.
pub open spec fn spec_area_num(symbols: LinkSymbols) -> int {
    symbols.spec_reserved_size() / spec_align_up_64(symbols.spec_section_size())
}

/// Rounding up to a multiple of 64 moves a value by less than 64.
pub proof fn lemma_align_up_64(val: int)
    requires
        0 <= val,
    ensures
        val <= spec_align_up_64(val) < val + 64,
        spec_align_up_64(val) % 64 == 0,
        val % 64 == 0 ==> spec_align_up_64(val) == val,
{
}

/// The stride of every mode is at least the area size, and exceeds it by
/// less than 64 bytes.
pub proof fn lemma_stride_bounds(mode: Mode, area_size: int)
    requires
        0 <= area_size,
    ensures
        area_size <= spec_stride(mode, area_size) < area_size + 64,
        mode == Mode::BareMetal ==> spec_stride(mode, area_size) % 64 == 0,
        mode != Mode::BareMetal ==> spec_stride(mode, area_size) == area_size,
{
    lemma_align_up_64(area_size);
}

/// Rounds `val` up to the next multiple of 64.
pub fn align_up_64(val: usize) -> (r: usize)
    requires
        val + 63 <= usize::MAX,
    ensures
        r == spec_align_up_64(val as int),
{
    let x: usize = val + (SIZE_64BIT - 1);
    assert(x & !63usize == x / 64 * 64) by (bit_vector);
    x & !(SIZE_64BIT - 1)
}

/// Returns the size of the template region, which is the size of one area.
pub fn percpu_section_size(symbols: &LinkSymbols) -> (size: usize)
    requires
        symbols.wf(),
    ensures
        size == symbols.spec_section_size(),
{
    symbols.load_end - symbols.load_start
}

/// Returns the start marker of the template region, from which the offsets
/// of the per-CPU variables are measured.
pub fn percpu_link_start(symbols: &LinkSymbols) -> (start: usize)
    ensures
        start == symbols.load_start,
{
    symbols.load_start
}

/// Returns the per-CPU data area size for one CPU.
pub fn percpu_area_size(symbols: &LinkSymbols) -> (size: usize)
    requires
        symbols.wf(),
    ensures
        size == symbols.spec_section_size(),
{
    percpu_section_size(symbols)
}

/// Returns the number of per-CPU data areas that the reserved region holds:
/// its size divided by the 64-byte aligned area size.
pub fn percpu_area_num(symbols: &LinkSymbols) -> (num: usize)
    requires
        symbols.wf(),
        symbols.load_start < symbols.load_end,
        symbols.spec_section_size() + 63 <= usize::MAX,
    ensures
        num == spec_area_num(*symbols),
{
    proof {
        lemma_align_up_64(symbols.spec_section_size());
    }
    (symbols.area_end - symbols.area_start) / align_up_64(percpu_area_size(symbols))
}

/// Returns the distance between the bases of two consecutive areas under
/// the policy of `mode`.
pub fn area_stride(mode: Mode, area_size: usize) -> (stride: usize)
    requires
        mode == Mode::BareMetal ==> area_size + 63 <= usize::MAX,
    ensures
        stride == spec_stride(mode, area_size as int),
{
    match mode {
        Mode::BareMetal => align_up_64(area_size),
        Mode::Hosted => area_size,
        Mode::Custom => area_size,
    }
}

/// Returns the run-time address of the template region.
pub fn template_addr(mode: Mode, symbols: &LinkSymbols) -> (addr: usize)
    ensures
        addr == spec_template_addr(mode, *symbols),
{
    match mode {
        Mode::BareMetal => symbols.area_start,
        Mode::Hosted => symbols.load_start,
        Mode::Custom => symbols.load_start,
    }
}

/// The facts that initialization establishes for the whole process.
///
/// `Layout::new` checks that all areas lie inside the address space; the
/// functions that compute with a layout require `wf()`.
#[derive(Clone, Copy, Debug, PartialEq, Eq, Structural)]
pub struct Layout {
    /// Address of area 0.
    pub areas_base: usize,
    /// Size of one area.
    pub area_size: usize,
    /// Distance between the bases of two consecutive areas.
    pub stride: usize,
    /// Number of areas.
    pub area_count: usize,
}

impl Layout {
    /// Address of area 0.
    pub open spec fn spec_areas_base(&self) -> int {
        self.areas_base as int
    }

    /// Size of one area.
    pub open spec fn spec_area_size(&self) -> int {
        self.area_size as int
    }

    /// Distance between the bases of two consecutive areas.
    pub open spec fn spec_stride(&self) -> int {
        self.stride as int
    }

    /// Number of areas.
    pub open spec fn spec_area_count(&self) -> int {
        self.area_count as int
    }

    /// Base address of area `cpu_id`.
    pub open spec fn spec_area_base(&self, cpu_id: int) -> int {
        self.spec_areas_base() + cpu_id * self.spec_stride()
    }

    /// `addr` lies in the first `spec_area_size()` bytes of area `cpu_id`.
    pub open spec fn spec_in_area(&self, cpu_id: int, addr: int) -> bool {
        self.spec_area_base(cpu_id) <= addr < self.spec_area_base(cpu_id) + self.spec_area_size()
    }

    /// `addr` lies in one of the areas `0 .. n`.
    pub open spec fn spec_in_areas(&self, n: int, addr: int) -> bool {
        exists|cpu_id: int| 0 <= cpu_id < n && #[trigger] self.spec_in_area(cpu_id, addr)
    }

    /// The address just behind the last area.
    pub open spec fn spec_areas_end(&self) -> int {
        self.spec_area_base(self.spec_area_count())
    }

    /// An area is at least as wide as the template, and all areas lie in
    /// the address space.
    pub open spec fn wf(&self) -> bool {
        &&& 0 <= self.spec_area_size() <= self.spec_stride()
        &&& 0 <= self.spec_area_count()
        &&& 0 <= self.spec_areas_base()
        &&& self.spec_areas_end() <= usize::MAX
    }

    /// Makes the layout of `area_count` areas of `area_size` bytes that start
    /// at `areas_base` and are `stride` bytes apart. Returns `None` exactly
    /// when the stride is smaller than an area or the areas do not fit below
    /// the end of the address space.
    pub fn new(areas_base: usize, area_size: usize, stride: usize, area_count: usize) -> (layout:
        Option<Layout>)
        ensures
            layout is Some <==> area_size <= stride && areas_base + area_count * stride
                <= usize::MAX,
            layout matches Some(l) ==> {
                &&& l.wf()
                &&& l.spec_areas_base() == areas_base
                &&& l.spec_area_size() == area_size
                &&& l.spec_stride() == stride
                &&& l.spec_area_count() == area_count
            },
    {
        if area_size > stride {
            return None;
        }
        match area_count.checked_mul(stride) {
            None => None,
            Some(total) => match areas_base.checked_add(total) {
                None => None,
                Some(_end) => Some(Layout { areas_base, area_size, stride, area_count }),
            },
        }
    }

    /// Returns the address of area 0.
    pub fn areas_base(&self) -> (base: usize)
        ensures
            base == self.spec_areas_base(),
    {
        self.areas_base
    }

    /// Returns the size of one area.
    pub fn area_size(&self) -> (size: usize)
        ensures
            size == self.spec_area_size(),
    {
        self.area_size
    }

    /// Returns the distance between two consecutive areas.
    pub fn stride(&self) -> (stride: usize)
        ensures
            stride == self.spec_stride(),
    {
        self.stride
    }

    /// Returns the number of areas.
    pub fn area_count(&self) -> (count: usize)
        ensures
            count == self.spec_area_count(),
    {
        self.area_count
    }

    /// Returns the base address of area `cpu_id`.
    pub fn area_base(&self, cpu_id: usize) -> (base: usize)
        requires
            self.wf(),
            self.spec_area_base(cpu_id as int) <= usize::MAX,
        ensures
            base == self.spec_area_base(cpu_id as int),
    {
        assert(0 <= cpu_id * self.stride) by (nonlinear_arith);
        self.areas_base + cpu_id * self.stride
    }

    /// An address lies in one of the areas `0 .. n + 1` exactly when it
    /// lies in one of the areas `0 .. n` or in area `n`.
    pub proof fn lemma_in_areas_step(&self, n: int, addr: int)
        requires
            0 <= n,
        ensures
            self.spec_in_areas(n + 1, addr) <==> self.spec_in_areas(n, addr) || self.spec_in_area(
                n,
                addr,
            ),
    {
        if self.spec_in_areas(n + 1, addr) {
            let c = choose|c: int| 0 <= c < n + 1 && #[trigger] self.spec_in_area(c, addr);
            assert(c < n ==> self.spec_in_area(c, addr));
        }
        if self.spec_in_areas(n, addr) {
            let c = choose|c: int| 0 <= c < n && #[trigger] self.spec_in_area(c, addr);
            assert(self.spec_in_area(c, addr));
        }
    }

    /// Every area with a valid index lies between the base of area 0 and
    /// the end of the areas.
    pub proof fn lemma_area_in_range(&self, cpu_id: int)
        requires
            self.wf(),
            0 <= cpu_id < self.spec_area_count(),
        ensures
            self.spec_areas_base() <= self.spec_area_base(cpu_id),
            self.spec_area_base(cpu_id) + self.spec_stride() <= self.spec_areas_end(),
            self.spec_area_base(cpu_id) + self.spec_area_size() <= usize::MAX,
    {
        let s = self.spec_stride();
        let n = self.spec_area_count();
        assert(0 <= cpu_id * s && (cpu_id + 1) * s <= n * s && (cpu_id + 1) * s == cpu_id * s
            + s) by (nonlinear_arith)
            requires
                0 <= cpu_id < n,
                0 <= s,
        ;
    }

    /// The bases of two consecutive areas are exactly one stride apart,
    /// whatever the index.
    pub proof fn lemma_stride_constant(&self, cpu_id: int)
        ensures
            self.spec_area_base(cpu_id + 1) - self.spec_area_base(cpu_id) == self.spec_stride(),
    {
        let s = self.spec_stride();
        assert((cpu_id + 1) * s == cpu_id * s + s) by (nonlinear_arith);
    }

    /// Two byte ranges that lie inside the areas of two different CPUs do
    /// not overlap.
    pub proof fn lemma_areas_disjoint(&self, i: int, j: int, off_i: int, len_i: int, off_j: int, len_j: int)
        requires
            self.wf(),
            0 <= i,
            0 <= j,
            i != j,
            0 <= off_i,
            0 <= len_i,
            off_i + len_i <= self.spec_area_size(),
            0 <= off_j,
            0 <= len_j,
            off_j + len_j <= self.spec_area_size(),
        ensures
            self.spec_area_base(i) + off_i + len_i <= self.spec_area_base(j) + off_j
                || self.spec_area_base(j) + off_j + len_j <= self.spec_area_base(i) + off_i,
    {
        let s = self.spec_stride();
        if i < j {
            assert((i + 1) * s <= j * s && (i + 1) * s == i * s + s) by (nonlinear_arith)
                requires
                    i + 1 <= j,
                    0 <= s,
            ;
        } else {
            assert((j + 1) * s <= i * s && (j + 1) * s == j * s + s) by (nonlinear_arith)
                requires
                    j + 1 <= i,
                    0 <= s,
            ;
        }
    }
}

} // verus!
