//! Per-CPU data areas: one independent copy of every declared variable for
//! each CPU, found by address arithmetic alone.
//!
//! - `layout`: the arithmetic of area size, stride and area base.
//! - `memory`: the memory that holds the template and the areas.
//! - `value`: the byte representation of the values stored in an area.
//! - `template`: the template region and the declaration of variables.
//! - `register`: the per-context register that names the current area.
//! - `areas`: the per-CPU state of a process and its initialization.
//! - `handle`: the handle of one variable and its accessors.
//! - `once`, `guard`: what the library takes from `spin` and `kernel_guard`.
pub mod areas;
pub mod guard;
pub mod handle;
pub mod layout;
pub mod memory;
pub mod once;
pub mod register;
pub mod template;
pub mod value;

pub use crate::areas::get_actual_percpu_base;
pub use crate::areas::init;
pub use crate::areas::init_fits;
pub use crate::areas::init_percpu_reg;
pub use crate::areas::percpu_area_base;
pub use crate::areas::percpu_base;
pub use crate::areas::AreasView;
pub use crate::areas::PerCpuAreas;
pub use crate::handle::PerCpuData;
pub use crate::layout::align_up_64;
pub use crate::layout::area_stride;
pub use crate::layout::percpu_area_num;
pub use crate::layout::percpu_area_size;
pub use crate::layout::percpu_link_start;
pub use crate::layout::percpu_section_size;
pub use crate::layout::template_addr;
pub use crate::layout::Layout;
pub use crate::layout::LinkSymbols;
pub use crate::layout::Mode;
pub use crate::memory::Memory;
pub use crate::memory::MemoryView;
pub use crate::register::percpu_register;
pub use crate::register::read_percpu_reg;
pub use crate::register::write_percpu_reg;
pub use crate::register::Arch;
pub use crate::register::Impl;
pub use crate::register::Os;
pub use crate::register::Register;
pub use crate::register::RegisterFile;
pub use crate::template::TemplateRegion;
pub use crate::value::Plain;
