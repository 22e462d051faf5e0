//! The template region: the one master copy of all declared per-CPU
//! variables, with the bytes of their initial values.
//!
//! Variables are declared one after the other. Each declaration places the
//! variable directly behind the one declared before, so no two variables of
//! one template region share a byte.
use crate::areas::spec_new_ok;
use crate::areas::AreasView;
use crate::areas::PerCpuAreas;
use crate::handle::PerCpuData;
use crate::layout::spec_template_addr;
use crate::layout::LinkSymbols;
use crate::layout::Mode;
use crate::value::Plain;
use vstd::prelude::*;

verus! {

/// A template region under construction.
pub struct TemplateRegion {
    link_start: usize,
    image: Vec<u8>,
    slots: Ghost<Seq<(int, int)>>,
}

impl TemplateRegion {
    /// The link-time address of the start of the region.
    pub closed spec fn spec_link_start(&self) -> usize {
        self.link_start
    }

    /// The bytes of the region.
    pub closed spec fn spec_image(&self) -> Seq<u8> {
        self.image@
    }

    /// The offset and the size of each declared variable, in the order of
    /// the declarations.
    pub closed spec fn spec_slots(&self) -> Seq<(int, int)> {
        self.slots@
    }

    /// The link markers of the region, with the given reserved region.
    pub open spec fn spec_symbols(&self, area_start: usize, area_end: usize) -> LinkSymbols {
        LinkSymbols {
            load_start: self.spec_link_start(),
            load_end: (self.spec_link_start() + self.spec_image().len()) as usize,
            area_start,
            area_end,
        }
    }

    /// The region ends inside the address space, every variable lies inside
    /// the region, and a variable declared later starts where the ones
    /// declared before it have ended.
    pub open spec fn wf(&self) -> bool {
        &&& self.spec_link_start() + self.spec_image().len() <= usize::MAX
        &&& forall|i: int|
            0 <= i < self.spec_slots().len() ==> {
                &&& 0 <= (#[trigger] self.spec_slots()[i]).0
                &&& 0 <= self.spec_slots()[i].1
                &&& self.spec_slots()[i].0 + self.spec_slots()[i].1 <= self.spec_image().len()
            }
        &&& forall|i: int, j: int|
            0 <= i < j < self.spec_slots().len() ==> (#[trigger] self.spec_slots()[i]).0
                + self.spec_slots()[i].1 <= (#[trigger] self.spec_slots()[j]).0
    }

    /// `handle` is the variable that the declaration number `index` made:
    /// it is stored in the slot of that declaration, and the region holds
    /// the bytes of its initial value there.
    pub open spec fn declares<T: Plain>(&self, handle: PerCpuData<T>, index: int) -> bool {
        let offset = handle.spec_addr() - self.spec_link_start();
        &&& 0 <= index < self.spec_slots().len()
        &&& self.spec_slots()[index] == (offset, T::spec_size() as int)
        &&& self.spec_image().subrange(offset, offset + T::spec_size())
            == handle.spec_data().spec_to_bytes()
    }

    /// `self` is `earlier` with more variables declared.
    pub open spec fn extends(&self, earlier: &TemplateRegion) -> bool {
        &&& self.spec_link_start() == earlier.spec_link_start()
        &&& earlier.spec_image().len() <= self.spec_image().len()
        &&& self.spec_image().subrange(0, earlier.spec_image().len() as int)
            == earlier.spec_image()
        &&& earlier.spec_slots().len() <= self.spec_slots().len()
        &&& self.spec_slots().subrange(0, earlier.spec_slots().len() as int)
            == earlier.spec_slots()
    }

    /// Makes an empty template region that the linker places at
    /// `link_start`.
    pub fn new(link_start: usize) -> (template: TemplateRegion)
        ensures
            template.wf(),
            template.spec_link_start() == link_start,
            template.spec_image() == Seq::<u8>::empty(),
            template.spec_slots() == Seq::<(int, int)>::empty(),
    {
        TemplateRegion { link_start, image: Vec::new(), slots: Ghost(Seq::empty()) }
    }

    /// Declares a per-CPU variable with the initial value `data` and
    /// returns its handle. The variable is placed behind the variables
    /// declared so far. Returns `None`, and changes nothing, exactly when
    /// the variable would end beyond the address space.
    pub fn declare<T: Plain>(&mut self, data: T) -> (handle: Option<PerCpuData<T>>)
        requires
            old(self).wf(),
        ensures
            final(self).wf(),
            final(self).extends(old(self)),
            handle is Some <==> old(self).spec_link_start() + old(self).spec_image().len()
                + T::spec_size() <= usize::MAX,
            handle is None ==> {
                &&& final(self).spec_image() == old(self).spec_image()
                &&& final(self).spec_slots() == old(self).spec_slots()
            },
            handle matches Some(h) ==> {
                &&& h.spec_addr() == old(self).spec_link_start() + old(self).spec_image().len()
                &&& h.spec_data() == data
                &&& final(self).spec_image() == old(self).spec_image() + data.spec_to_bytes()
                &&& final(self).spec_slots() == old(self).spec_slots().push(
                    (old(self).spec_image().len() as int, T::spec_size() as int),
                )
                &&& final(self).declares(h, old(self).spec_slots().len() as int)
            },
    {
        proof {
            T::lemma_round_trip(data);
        }
        let mut bytes = data.to_bytes();
        let offset = self.image.len();
        let size = bytes.len();
        if size > usize::MAX - self.link_start - offset {
            assert(self.image@.subrange(0, offset as int) =~= self.image@);
            assert(self.slots@.subrange(0, self.slots@.len() as int) =~= self.slots@);
            return None;
        }
        let ghost before_image = self.image@;
        let ghost before_slots = self.slots@;
        self.image.append(&mut bytes);
        self.slots = Ghost(before_slots.push((offset as int, size as int)));
        let handle = PerCpuData::new(self.link_start + offset, data);
        proof {
            assert(self.image@.subrange(0, offset as int) =~= before_image);
            assert(self.slots@.subrange(0, before_slots.len() as int) =~= before_slots);
            assert(self.image@.subrange(offset as int, offset + size) =~= data.spec_to_bytes());
        }
        Some(handle)
    }

    /// Returns the link markers of the region, with the given reserved
    /// region.
    pub fn symbols(&self, area_start: usize, area_end: usize) -> (symbols: LinkSymbols)
        requires
            self.wf(),
        ensures
            symbols == self.spec_symbols(area_start, area_end),
    {
        LinkSymbols {
            load_start: self.link_start,
            load_end: self.link_start + self.image.len(),
            area_start,
            area_end,
        }
    }

    /// Returns the number of bytes that the declared variables occupy.
    pub fn size(&self) -> (size: usize)
        ensures
            size == self.spec_image().len(),
    {
        self.image.len()
    }

    /// Loads the region and returns the per-CPU state of a process that has
    /// not initialized its areas. The memory at the run-time address of the
    /// template holds the bytes of the region, followed by zero bytes up to
    /// `reserved` bytes in all. The reserved region starts at `area_start`
    /// and is `reserved` bytes long. Returns `None` exactly when the
    /// reserved region ends beyond the address space or the state cannot be
    /// made of that memory.
    pub fn load(self, mode: Mode, area_start: usize, reserved: usize) -> (areas: Option<
        PerCpuAreas,
    >)
        requires
            self.wf(),
        ensures
            areas is Some <==> area_start + reserved <= usize::MAX && spec_new_ok(
                mode,
                self.spec_symbols(area_start, (area_start + reserved) as usize),
                spec_loaded(self.spec_image(), reserved as int).len() as int,
            ),
            areas matches Some(a) ==> {
                &&& a.wf()
                &&& a@.mode == mode
                &&& a@.symbols == self.spec_symbols(area_start, (area_start + reserved) as usize)
                &&& !a@.is_init
                &&& a@.count == 0
                &&& a@.memory.linked_base == spec_template_addr(mode, a@.symbols)
                &&& a@.memory.linked == spec_loaded(self.spec_image(), reserved as int)
                &&& a@.memory.heap.len() == 0
                &&& a@.template() == self.spec_image()
            },
    {
        if reserved > usize::MAX - area_start {
            return None;
        }
        let symbols = self.symbols(area_start, area_start + reserved);
        let ghost image = self.image@;
        let mut linked = self.image;
        let mut k: usize = linked.len();
        while k < reserved
            invariant
                image.len() <= k,
                k == image.len() || k <= reserved,
                linked@.len() == k,
                forall|p: int| 0 <= p < image.len() ==> linked@[p] == image[p],
                forall|p: int| image.len() <= p < k ==> linked@[p] == 0u8,
            decreases reserved - k,
        {
            linked.push(0u8);
            k += 1;
        }
        assert(linked@ =~= spec_loaded(image, reserved as int));
        let areas = PerCpuAreas::new(mode, symbols, linked);
        proof {
            if areas is Some {
                let a = areas->0;
                a.lemma_wf();
                assert(a@.template() =~= image);
            }
        }
        areas
    }

    /// A variable that was declared stays declared when more variables are
    /// declared.
    pub proof fn lemma_extends_keeps<T: Plain>(
        &self,
        earlier: &TemplateRegion,
        handle: PerCpuData<T>,
        index: int,
    )
        requires
            earlier.wf(),
            self.extends(earlier),
            earlier.declares(handle, index),
        ensures
            self.declares(handle, index),
    {
        let offset = handle.spec_addr() - self.spec_link_start();
        let size = T::spec_size() as int;
        assert(earlier.spec_slots()[index] == self.spec_slots().subrange(
            0,
            earlier.spec_slots().len() as int,
        )[index]);
        let n = earlier.spec_image().len() as int;
        assert forall|k: int| 0 <= k < n implies #[trigger] self.spec_image()[k]
            == earlier.spec_image()[k] by {
            assert(self.spec_image().subrange(0, n)[k] == self.spec_image()[k]);
        }
        assert(self.spec_image().subrange(offset, offset + size) =~= earlier.spec_image().subrange(
            offset,
            offset + size,
        ));
    }

    /// In a state whose template is this region, the template holds the
    /// initial value of every declared variable.
    pub proof fn lemma_loaded_default<T: Plain>(
        &self,
        handle: PerCpuData<T>,
        index: int,
        areas: AreasView,
    )
        requires
            self.wf(),
            self.declares(handle, index),
            areas.symbols.load_start == self.spec_link_start(),
            areas.symbols.load_end == self.spec_link_start() + self.spec_image().len(),
            areas.template() == self.spec_image(),
        ensures
            handle.default_in(areas),
    {
        assert(0 <= self.spec_slots()[index].0);
    }

    /// The variables of two different declarations share no byte.
    pub proof fn lemma_slots_disjoint<A: Plain, B: Plain>(
        &self,
        a: PerCpuData<A>,
        i: int,
        b: PerCpuData<B>,
        j: int,
    )
        requires
            self.wf(),
            self.declares(a, i),
            self.declares(b, j),
            i != j,
        ensures
            a.spec_addr() + A::spec_size() <= b.spec_addr() || b.spec_addr() + B::spec_size()
                <= a.spec_addr(),
    {
        if i < j {
            assert(self.spec_slots()[i].0 + self.spec_slots()[i].1 <= self.spec_slots()[j].0);
        } else {
            assert(self.spec_slots()[j].0 + self.spec_slots()[j].1 <= self.spec_slots()[i].0);
        }
    }
}

/// The memory that the loader sets up for a template: the bytes of the
/// template, followed by zero bytes up to `reserved` bytes in all.
pub open spec fn spec_loaded(image: Seq<u8>, reserved: int) -> Seq<u8> {
    Seq::new(
        if image.len() <= reserved {
            reserved as nat
        } else {
            image.len()
        },
        |p: int|
            if p < image.len() {
                image[p]
            } else {
                0u8
            },
    )
}

} // verus!
