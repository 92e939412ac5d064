//! The verified core of a small x86-64 kernel.
//!
//! At its centre stand three things that depend on one another: the map of
//! physical memory ([`phys`]), the typed addresses and page-table entries
//! that virtual memory is made of ([`addr`], [`paging`], [`vm`]), and the
//! tasks that the scheduler switches between ([`task`], [`scheduler`]).
//! Around them stand the small containers and the device and disk formats
//! that the kernel and its boot loader read.
//!
//! Nothing here touches the machine. Whatever has to be read from a port,
//! a register or a disk is handed in as a plain value, and whatever has to
//! be done to the machine is handed out as one.

pub mod addr;
pub mod ata;
pub mod ata_disk;
pub mod bios;
pub mod bitarray;
pub mod bitqueue;
pub mod bits;
pub mod boolvec;
pub mod boot;
pub mod border_map;
pub mod bytes;
pub mod compressedbool;
pub mod constvec;
pub mod cpu;
pub mod debug_names;
pub mod descriptor;
pub mod elf;
pub mod error;
pub mod fat;
pub mod fat_dir;
pub mod gfx;
pub mod idt;
pub mod inode;
pub mod mbr;
pub mod paging;
pub mod phys;
pub mod phys_laws;
pub mod scheduler;
mod sealed;
pub mod sizes;
pub mod stream;
pub mod task;
pub mod vm;
