//! The handle of one per-CPU variable.
//!
//! A handle owns no data. It knows where the variable is stored in the
//! template region, and so at which offset the copy of every CPU is found in
//! that CPU's area. The accessors come in two flavours: those for the
//! current CPU find the area through the per-context register, those for a
//! remote CPU take the index of the CPU. The accessors without `raw` in
//! their name hold a guard against preemption for the whole access.
use crate::areas::percpu_area_base;
use crate::areas::AreasView;
use crate::areas::PerCpuAreas;
use crate::guard::no_preempt;
use crate::layout::percpu_link_start;
use crate::layout::LinkSymbols;
use crate::register::Impl;
use crate::value::Plain;
use vstd::prelude::*;

verus! {

/// The handle of a per-CPU variable of type `T`.
pub struct PerCpuData<T> {
    addr: usize,
    data: T,
}

impl<T> PerCpuData<T> {
    /// The link-time address at which the variable is stored in the
    /// template region.
    pub closed spec fn spec_addr(&self) -> usize {
        self.addr
    }

    /// The value that the variable was declared with.
    pub closed spec fn spec_data(&self) -> T {
        self.data
    }

    /// The offset of the variable relative to the start of the template
    /// region, which is its offset in every area.
    pub open spec fn spec_offset(&self, symbols: LinkSymbols) -> int {
        self.spec_addr() - symbols.load_start
    }

    /// The address of the variable on the CPU `cpu_idx`.
    pub open spec fn spec_remote_ptr(&self, areas: AreasView, cpu_idx: int) -> int {
        areas.area_base(cpu_idx) + self.spec_offset(areas.symbols)
    }

    /// The address of the variable in the area that starts at `tp`.
    pub open spec fn spec_current_ptr(&self, areas: AreasView, tp: usize) -> int {
        tp + self.spec_offset(areas.symbols)
    }

    /// Creates a new per-CPU static variable with the given initial value,
    /// stored at the link-time address `addr`.
    pub fn new(addr: usize, data: T) -> (handle: PerCpuData<T>)
        ensures
            handle.spec_addr() == addr,
            handle.spec_data() == data,
    {
        PerCpuData { addr, data }
    }

    /// Returns the link-time address of the variable.
    pub fn addr(&self) -> (addr: usize)
        ensures
            addr == self.spec_addr(),
    {
        self.addr
    }

    /// Returns the value that the variable was declared with.
    pub fn initial(&self) -> (data: &T)
        ensures
            *data == self.spec_data(),
    {
        &self.data
    }

    /// Returns the offset relative to the per-CPU data area base.
    pub fn offset(&self, areas: &PerCpuAreas) -> (offset: usize)
        requires
            areas@.symbols.load_start <= self.spec_addr(),
        ensures
            offset == self.spec_offset(areas@.symbols),
    {
        self.addr - percpu_link_start(&areas.symbols())
    }

    /// Returns the address of this per-CPU static variable on the given CPU.
    pub fn remote_ptr(&self, areas: &PerCpuAreas, cpu_idx: usize) -> (addr: usize)
        requires
            areas.wf(),
            areas@.resolved(),
            areas@.symbols.load_start <= self.spec_addr(),
            self.spec_remote_ptr(areas@, cpu_idx as int) <= usize::MAX,
        ensures
            addr == self.spec_remote_ptr(areas@, cpu_idx as int),
    {
        percpu_area_base(areas, cpu_idx) + self.offset(areas)
    }

    /// Returns the address of this per-CPU static variable on the current
    /// CPU.
    ///
    /// The address is only good for as long as the calling context is not
    /// moved to another CPU: the caller keeps preemption disabled.
    pub fn current_ptr<I: Impl>(&self, areas: &PerCpuAreas, imp: &I) -> (addr: usize)
        requires
            areas@.symbols.load_start <= self.spec_addr(),
            self.spec_current_ptr(areas@, imp.spec_cpu_local_ptr()) <= usize::MAX,
        ensures
            addr == self.spec_current_ptr(areas@, imp.spec_cpu_local_ptr()),
    {
        imp.get_cpu_local_ptr() + self.offset(areas)
    }
}

impl<T: Plain> PerCpuData<T> {
    /// The variable lies inside the template region.
    pub open spec fn declared_in(&self, areas: AreasView) -> bool {
        &&& areas.symbols.load_start <= self.spec_addr()
        &&& self.spec_addr() + T::spec_size() <= areas.symbols.load_end
    }

    /// The template holds the declared value of the variable.
    pub open spec fn default_in(&self, areas: AreasView) -> bool {
        &&& self.declared_in(areas)
        &&& areas.template().subrange(
            self.spec_offset(areas.symbols),
            self.spec_offset(areas.symbols) + T::spec_size(),
        ) == self.spec_data().spec_to_bytes()
    }

    /// The CPU `cpu_idx` has an area and the variable lies inside it.
    pub open spec fn remote_ok(&self, areas: AreasView, cpu_idx: int) -> bool {
        &&& areas.is_init
        &&& 0 <= cpu_idx < areas.count
        &&& self.declared_in(areas)
    }

    /// The variable can be accessed in the area that starts at `tp`: its
    /// bytes there are mapped.
    pub open spec fn current_ok(&self, areas: AreasView, tp: usize) -> bool {
        &&& areas.symbols.load_start <= self.spec_addr()
        &&& self.spec_current_ptr(areas, tp) + T::spec_size() <= usize::MAX
        &&& areas.memory.mapped(self.spec_current_ptr(areas, tp), T::spec_size() as int)
    }

    /// The value that the bytes at `addr` represent.
    pub open spec fn spec_value_at(areas: AreasView, addr: int) -> T {
        T::spec_from_bytes(areas.memory.bytes_at(addr, T::spec_size() as int))
    }

    /// The value of the variable on the CPU `cpu_idx`.
    pub open spec fn spec_read_remote(&self, areas: AreasView, cpu_idx: int) -> T {
        Self::spec_value_at(areas, self.spec_remote_ptr(areas, cpu_idx))
    }

    /// The value of the variable in the area that starts at `tp`.
    pub open spec fn spec_read_current(&self, areas: AreasView, tp: usize) -> T {
        Self::spec_value_at(areas, self.spec_current_ptr(areas, tp))
    }

    /// The state after `val` was stored at `addr`.
    pub open spec fn spec_write_at(areas: AreasView, addr: int, val: T) -> AreasView {
        AreasView { memory: areas.memory.write(addr, val.spec_to_bytes()), ..areas }
    }

    /// The state after `val` was stored in the variable on the CPU
    /// `cpu_idx`.
    pub open spec fn spec_write_remote(&self, areas: AreasView, cpu_idx: int, val: T) -> AreasView {
        Self::spec_write_at(areas, self.spec_remote_ptr(areas, cpu_idx), val)
    }

    /// The state after `val` was stored in the variable in the area that
    /// starts at `tp`.
    pub open spec fn spec_write_current(&self, areas: AreasView, tp: usize, val: T) -> AreasView {
        Self::spec_write_at(areas, self.spec_current_ptr(areas, tp), val)
    }

    /// Returns a view of the bytes of the per-CPU static variable on the
    /// current CPU, directly in the area.
    ///
    /// Caller must ensure that preemption is disabled on the current CPU.
    pub fn current_ref_raw<'a, I: Impl>(&self, areas: &'a PerCpuAreas, imp: &I) -> (bytes: &'a [u8])
        requires
            areas.wf(),
            self.current_ok(areas@, imp.spec_cpu_local_ptr()),
        ensures
            bytes@.len() == T::spec_size(),
            T::spec_from_bytes(bytes@) == self.spec_read_current(areas@, imp.spec_cpu_local_ptr()),
    {
        let addr = self.current_ptr(areas, imp);
        areas.bytes(addr, T::size())
    }

    /// Returns a mutable view of the bytes of the per-CPU static variable
    /// on the current CPU, directly in the area. The bytes that the view
    /// holds when it is given up are the bytes of the variable.
    ///
    /// Caller must ensure that preemption is disabled on the current CPU.
    pub fn current_ref_mut_raw<'a, I: Impl>(&self, areas: &'a mut PerCpuAreas, imp: &I) -> (bytes:
        &'a mut [u8])
        requires
            old(areas).wf(),
            self.current_ok(old(areas)@, imp.spec_cpu_local_ptr()),
        ensures
            bytes@.len() == T::spec_size(),
            T::spec_from_bytes(bytes@) == self.spec_read_current(
                old(areas)@,
                imp.spec_cpu_local_ptr(),
            ),
            final(bytes)@.len() == T::spec_size() ==> final(areas).wf() && final(areas)@ == (
            AreasView {
                memory: old(areas)@.memory.write(
                    self.spec_current_ptr(old(areas)@, imp.spec_cpu_local_ptr()),
                    final(bytes)@,
                ),
                ..old(areas)@
            }),
    {
        let addr = self.current_ptr(areas, imp);
        areas.bytes_mut(addr, T::size())
    }

    /// Returns a view of the bytes of the per-CPU static variable on the
    /// given CPU, directly in the area.
    pub fn remote_ref_raw<'a>(&self, areas: &'a PerCpuAreas, cpu_id: usize) -> (bytes: &'a [u8])
        requires
            areas.wf(),
            self.remote_ok(areas@, cpu_id as int),
        ensures
            bytes@.len() == T::spec_size(),
            T::spec_from_bytes(bytes@) == self.spec_read_remote(areas@, cpu_id as int),
    {
        proof {
            areas.lemma_wf();
            areas@.lemma_slot_mapped(
                cpu_id as int,
                self.spec_offset(areas@.symbols),
                T::spec_size() as int,
            );
        }
        let addr = self.remote_ptr(areas, cpu_id);
        areas.bytes(addr, T::size())
    }

    /// Returns a mutable view of the bytes of the per-CPU static variable
    /// on the given CPU, directly in the area. The bytes that the view
    /// holds when it is given up are the bytes of the variable.
    pub fn remote_ref_mut_raw<'a>(&self, areas: &'a mut PerCpuAreas, cpu_id: usize) -> (bytes:
        &'a mut [u8])
        requires
            old(areas).wf(),
            self.remote_ok(old(areas)@, cpu_id as int),
        ensures
            bytes@.len() == T::spec_size(),
            T::spec_from_bytes(bytes@) == self.spec_read_remote(old(areas)@, cpu_id as int),
            final(bytes)@.len() == T::spec_size() ==> final(areas).wf() && final(areas)@ == (
            AreasView {
                memory: old(areas)@.memory.write(
                    self.spec_remote_ptr(old(areas)@, cpu_id as int),
                    final(bytes)@,
                ),
                ..old(areas)@
            }),
    {
        proof {
            areas.lemma_wf();
            areas@.lemma_slot_mapped(
                cpu_id as int,
                self.spec_offset(areas@.symbols),
                T::spec_size() as int,
            );
        }
        let addr = self.remote_ptr(areas, cpu_id);
        areas.bytes_mut(addr, T::size())
    }

    /// Returns the value of the per-CPU static variable on the current CPU.
    ///
    /// Caller must ensure that preemption is disabled on the current CPU.
    pub fn read_current_raw<I: Impl>(&self, areas: &PerCpuAreas, imp: &I) -> (val: T)
        requires
            areas.wf(),
            self.current_ok(areas@, imp.spec_cpu_local_ptr()),
        ensures
            val == self.spec_read_current(areas@, imp.spec_cpu_local_ptr()),
    {
        let addr = self.current_ptr(areas, imp);
        let bytes = areas.read_bytes(addr, T::size());
        T::from_bytes(bytes.as_slice())
    }

    /// Returns the value of the per-CPU static variable on the current CPU.
    /// Preemption will be disabled during the call.
    pub fn read_current<I: Impl>(&self, areas: &PerCpuAreas, imp: &I) -> (val: T)
        requires
            areas.wf(),
            self.current_ok(areas@, imp.spec_cpu_local_ptr()),
        ensures
            val == self.spec_read_current(areas@, imp.spec_cpu_local_ptr()),
    {
        let _g = no_preempt();
        self.read_current_raw(areas, imp)
    }

    /// Returns the value of the per-CPU static variable on the given CPU.
    pub fn read_remote(&self, areas: &PerCpuAreas, cpu_idx: usize) -> (val: T)
        requires
            areas.wf(),
            self.remote_ok(areas@, cpu_idx as int),
        ensures
            val == self.spec_read_remote(areas@, cpu_idx as int),
    {
        let _g = no_preempt();
        proof {
            areas.lemma_wf();
            areas@.lemma_slot_mapped(
                cpu_idx as int,
                self.spec_offset(areas@.symbols),
                T::spec_size() as int,
            );
        }
        let addr = self.remote_ptr(areas, cpu_idx);
        let bytes = areas.read_bytes(addr, T::size());
        T::from_bytes(bytes.as_slice())
    }

    /// Set the value of the per-CPU static variable on the current CPU.
    ///
    /// Caller must ensure that preemption is disabled on the current CPU.
    pub fn write_current_raw<I: Impl>(&self, areas: &mut PerCpuAreas, imp: &I, val: T)
        requires
            old(areas).wf(),
            self.current_ok(old(areas)@, imp.spec_cpu_local_ptr()),
        ensures
            final(areas).wf(),
            final(areas)@ == self.spec_write_current(old(areas)@, imp.spec_cpu_local_ptr(), val),
    {
        proof {
            T::lemma_round_trip(val);
        }
        let addr = self.current_ptr(areas, imp);
        let bytes = val.to_bytes();
        areas.write_bytes(addr, bytes.as_slice());
    }

    /// Set the value of the per-CPU static variable on the current CPU.
    /// Preemption will be disabled during the call.
    pub fn write_current<I: Impl>(&self, areas: &mut PerCpuAreas, imp: &I, val: T)
        requires
            old(areas).wf(),
            self.current_ok(old(areas)@, imp.spec_cpu_local_ptr()),
        ensures
            final(areas).wf(),
            final(areas)@ == self.spec_write_current(old(areas)@, imp.spec_cpu_local_ptr(), val),
    {
        let _g = no_preempt();
        self.write_current_raw(areas, imp, val);
    }

    /// Write the value to the per-CPU variable on the specified CPU.
    ///
    /// The library does not synchronize with accesses from the target CPU:
    /// this function should be called with a mutex or before the CPU is
    /// online.
    pub fn write_remote(&self, areas: &mut PerCpuAreas, cpu_idx: usize, val: T)
        requires
            old(areas).wf(),
            self.remote_ok(old(areas)@, cpu_idx as int),
        ensures
            final(areas).wf(),
            final(areas)@ == self.spec_write_remote(old(areas)@, cpu_idx as int, val),
    {
        let _g = no_preempt();
        proof {
            T::lemma_round_trip(val);
            areas.lemma_wf();
            areas@.lemma_slot_mapped(
                cpu_idx as int,
                self.spec_offset(areas@.symbols),
                T::spec_size() as int,
            );
        }
        let addr = self.remote_ptr(areas, cpu_idx);
        let bytes = val.to_bytes();
        areas.write_bytes(addr, bytes.as_slice());
    }
}

impl<T: Plain> PerCpuData<T> {
    /// Manipulate the per-CPU data on the current CPU in the given closure.
    /// Preemption will be disabled during the call.
    ///
    /// The closure is handed the value of the variable; what it leaves
    /// there is stored in the variable when it returns. Writers on other
    /// CPUs are not kept out meanwhile.
    pub fn with_current<I: Impl, F, R>(&self, areas: &mut PerCpuAreas, imp: &I, f: F) -> (r: R) where
        F: FnOnce(&mut T) -> R,

        requires
            old(areas).wf(),
            self.current_ok(old(areas)@, imp.spec_cpu_local_ptr()),
            forall|x: &mut T|
                *x == self.spec_read_current(old(areas)@, imp.spec_cpu_local_ptr())
                    ==> #[trigger] f.requires((x,)),
        ensures
            final(areas).wf(),
            (exists|x: &mut T|
                {
                    &&& *x == self.spec_read_current(old(areas)@, imp.spec_cpu_local_ptr())
                    &&& #[trigger] f.ensures((x,), r)
                    &&& final(areas)@ == self.spec_write_current(
                        old(areas)@,
                        imp.spec_cpu_local_ptr(),
                        *final(x),
                    )
                }),
    {
        let _g = no_preempt();
        let mut val = self.read_current_raw(areas, imp);
        let r = f(&mut val);
        self.write_current_raw(areas, imp, val);
        r
    }
}

impl<T: Plain> PerCpuData<T> {
    /// Immediately after initialization every CPU reads the value that the
    /// variable was declared with.
    pub proof fn lemma_default_after_init(
        &self,
        before: AreasView,
        imp_base: usize,
        cpu_count: usize,
        after: AreasView,
        ret: usize,
        cpu_idx: int,
    )
        requires
            before.wf(),
            after.wf(),
            !before.is_init,
            self.default_in(before),
            before.init_result(imp_base, cpu_count, after, ret),
            0 <= cpu_idx < cpu_count,
        ensures
            self.remote_ok(after, cpu_idx),
            self.spec_read_remote(after, cpu_idx) == self.spec_data(),
    {
        let offset = self.spec_offset(before.symbols);
        let size = T::spec_size() as int;
        after.lemma_slot_mapped(cpu_idx, offset, size);
        assert(after.area(cpu_idx) == before.template());
        T::lemma_round_trip(self.spec_data());
    }

    /// A value written to the variable on a CPU is the value read there.
    pub proof fn lemma_write_remote_read(&self, areas: AreasView, cpu_idx: int, val: T)
        requires
            areas.wf(),
            self.remote_ok(areas, cpu_idx),
        ensures
            self.spec_write_remote(areas, cpu_idx, val).wf(),
            self.remote_ok(self.spec_write_remote(areas, cpu_idx, val), cpu_idx),
            self.spec_read_remote(self.spec_write_remote(areas, cpu_idx, val), cpu_idx) == val,
    {
        let offset = self.spec_offset(areas.symbols);
        let size = T::spec_size() as int;
        let addr = self.spec_remote_ptr(areas, cpu_idx);
        T::lemma_round_trip(val);
        areas.lemma_slot_mapped(cpu_idx, offset, size);
        areas.memory.lemma_write_mapping(addr, val.spec_to_bytes());
        areas.memory.lemma_write_read(addr, val.spec_to_bytes());
    }

    /// A write to the variable on one CPU leaves every variable on every
    /// other CPU as it was.
    pub proof fn lemma_write_remote_other<U: Plain>(
        &self,
        other: PerCpuData<U>,
        areas: AreasView,
        cpu_idx: int,
        other_idx: int,
        val: T,
    )
        requires
            areas.wf(),
            self.remote_ok(areas, cpu_idx),
            other.remote_ok(areas, other_idx),
            cpu_idx != other_idx,
        ensures
            other.remote_ok(self.spec_write_remote(areas, cpu_idx, val), other_idx),
            other.spec_read_remote(self.spec_write_remote(areas, cpu_idx, val), other_idx)
                == other.spec_read_remote(areas, other_idx),
    {
        let offset = self.spec_offset(areas.symbols);
        let size = T::spec_size() as int;
        let other_offset = other.spec_offset(areas.symbols);
        let other_size = U::spec_size() as int;
        T::lemma_round_trip(val);
        areas.lemma_layout();
        areas.lemma_slot_mapped(cpu_idx, offset, size);
        areas.lemma_slot_mapped(other_idx, other_offset, other_size);
        areas.layout().lemma_areas_disjoint(
            cpu_idx,
            other_idx,
            offset,
            size,
            other_offset,
            other_size,
        );
        areas.memory.lemma_write_frame(
            self.spec_remote_ptr(areas, cpu_idx),
            val.spec_to_bytes(),
            other.spec_remote_ptr(areas, other_idx),
            other_size,
        );
    }

    /// A write to one variable leaves another variable as it was, on the
    /// same CPU too, where the two variables share no byte of the template
    /// region.
    pub proof fn lemma_write_remote_other_variable<U: Plain>(
        &self,
        other: PerCpuData<U>,
        areas: AreasView,
        cpu_idx: int,
        val: T,
    )
        requires
            areas.wf(),
            self.remote_ok(areas, cpu_idx),
            other.remote_ok(areas, cpu_idx),
            self.spec_addr() + T::spec_size() <= other.spec_addr() || other.spec_addr()
                + U::spec_size() <= self.spec_addr(),
        ensures
            other.spec_read_remote(self.spec_write_remote(areas, cpu_idx, val), cpu_idx)
                == other.spec_read_remote(areas, cpu_idx),
    {
        T::lemma_round_trip(val);
        areas.lemma_slot_mapped(cpu_idx, self.spec_offset(areas.symbols), T::spec_size() as int);
        areas.lemma_slot_mapped(cpu_idx, other.spec_offset(areas.symbols), U::spec_size() as int);
        areas.memory.lemma_write_frame(
            self.spec_remote_ptr(areas, cpu_idx),
            val.spec_to_bytes(),
            other.spec_remote_ptr(areas, cpu_idx),
            U::spec_size() as int,
        );
    }

    /// On a context that is bound to the area of a CPU, the accessors for
    /// the current CPU reach the copy of that CPU: a read gives what a
    /// remote read of that CPU gives, and a value written is the value that
    /// a remote read of that CPU gives afterwards.
    pub proof fn lemma_current_is_remote(&self, areas: AreasView, cpu_idx: int, tp: usize, val: T)
        requires
            areas.wf(),
            self.remote_ok(areas, cpu_idx),
            tp == areas.area_base(cpu_idx),
        ensures
            self.current_ok(areas, tp),
            self.spec_read_current(areas, tp) == self.spec_read_remote(areas, cpu_idx),
            self.spec_write_current(areas, tp, val) == self.spec_write_remote(areas, cpu_idx, val),
            self.spec_read_remote(self.spec_write_current(areas, tp, val), cpu_idx) == val,
    {
        areas.lemma_slot_mapped(cpu_idx, self.spec_offset(areas.symbols), T::spec_size() as int);
        self.lemma_write_remote_read(areas, cpu_idx, val);
    }
}

} // verus!
