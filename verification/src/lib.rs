//! The core of a small kernel for 32-bit x86, as far as it decides and
//! computes: the allocators of physical memory, the processor's descriptor
//! tables and interrupt controllers, PCI configuration space, the driver of
//! an Intel 8254x Ethernet controller, and Ethernet and ARP framing.
//!
//! Nothing here touches the machine. Where the machine is read, what was
//! read comes in as a value; where it is written, the writes to make go out
//! as values, in their order.

pub mod bits;
pub mod memory;
pub mod multiboot;
pub mod mutex;
pub mod network_stack;
pub mod pci;
pub mod vga_buffer;
pub mod x86;
