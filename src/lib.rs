//! A typed resource and memory model for an accelerator driver.
//!
//! The driver itself is reached through raw handles and pointers; this
//! library holds the decisions around those calls: which context must be
//! current, how the thread's context stack evolves, which transfer primitive a
//! copy needs, when an allocation or a copy is refused, and how names and
//! code blobs are encoded for the driver.
pub mod context;
pub mod device;
pub mod error;
pub mod grid;
pub mod memory;
pub mod module;

pub use context::{Context, ContextFault, ContextGuard, ContextStack};
pub use device::Device;
pub use grid::{Block, Grid};
pub use error::{status_to_result, AccelError};
pub use memory::{
    allocation_bytes, copy_elements, fill_elements, fill_plan, plan_copy, AllocError, CopyError,
    CopyPlan, FillPlan, MemoryType, Region,
};
pub use module::{c_string, Instruction, LoadSource};

