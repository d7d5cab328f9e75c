//! Register interface and video address space of the NES picture processing
//! unit, as the CPU bus sees them.
//!
//! The register bank decodes and latches the bytes that the CPU writes, the
//! address space maps a 16-bit video address onto pattern, nametable and
//! palette storage, and the dispatcher routes a CPU-bus write to the register
//! it addresses.

pub mod error;
pub mod mem;
pub mod ppu;
pub mod regs;
pub mod vram;

pub use error::PpuError;
pub use mem::Mem;
pub use ppu::Ppu;
pub use regs::PpuCtrl;
pub use regs::PpuMask;
pub use regs::PpuScroll;
pub use regs::PpuScrollDir;
pub use regs::PpuStatus;
pub use regs::Regs;
pub use regs::SpriteSize;
pub use vram::PpuMem;
pub use vram::PpuMemView;
pub use vram::Rom;
