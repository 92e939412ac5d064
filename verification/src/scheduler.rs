//! The list of processes, and how a process is made from an ELF image.

use crate::elf::highest_vaddr;
use crate::elf::image_fault;
use crate::elf::lowest_vaddr;
use crate::elf::program_headers;
use crate::elf::program_headers_spec;
use crate::elf::vaddr_range;
use crate::error::MemoryError;
use crate::vm::init_page_spec;
use crate::vm::lemma_map_pages_agree;
use crate::vm::map_object_spec;
use crate::vm::map_pages_spec;
use crate::vm::page_images;
use crate::vm::ElfBacked;
use crate::vm::MappedPage;
use crate::vm::PhysicalBacking;
use crate::vm::VmRegionObject;
use crate::vm::PageImage;
use crate::vm::VmPermissions;
use crate::vm::VmProcess;
use crate::vm::VmRegion;
use crate::vm::PAGE_LIMIT;
use vstd::prelude::*;

verus! {

/// Where the image of the first user process is expected to start.
pub const EXPECTED_START_ADDR: u64 = 0x00400000;

/// Where the stack of the first user process is expected.
pub const EXPECTED_STACK_ADDR: u64 = 0x10000000;

/// The length of that stack.
pub const EXPECTED_STACK_LEN: u64 = 4096;

/// What backs the memory of the processes that the scheduler knows: the
/// image that a process was loaded from, or plain memory.
pub enum Backing {
    Elf(ElfBacked),
    Physical(PhysicalBacking),
}

impl VmRegionObject for Backing {
    open spec fn region_spec(&self) -> VmRegion {
        match self {
            Backing::Elf(elf) => elf.region_spec(),
            Backing::Physical(physical) => physical.region_spec(),
        }
    }

    open spec fn permissions_spec(&self) -> VmPermissions {
        match self {
            Backing::Elf(elf) => elf.permissions_spec(),
            Backing::Physical(physical) => physical.permissions_spec(),
        }
    }

    open spec fn page_spec(&self, vpage: u64) -> Result<Seq<u8>, MemoryError> {
        match self {
            Backing::Elf(elf) => elf.page_spec(vpage),
            Backing::Physical(physical) => physical.page_spec(vpage),
        }
    }

    fn vm_region(&self) -> (r: VmRegion) {
        match self {
            Backing::Elf(elf) => elf.vm_region(),
            Backing::Physical(physical) => physical.vm_region(),
        }
    }

    fn vm_permissions(&self) -> (r: VmPermissions) {
        match self {
            Backing::Elf(elf) => elf.vm_permissions(),
            Backing::Physical(physical) => physical.vm_permissions(),
        }
    }

    fn init_page(&self, vpage: u64, page: &mut Vec<u8>) -> (r: Result<(), MemoryError>) {
        match self {
            Backing::Elf(elf) => elf.init_page(vpage, page),
            Backing::Physical(physical) => physical.init_page(vpage, page),
        }
    }
}

/// A process: a number and an address space.
pub struct Process {
    id: usize,
    vm: VmProcess<Backing>,
}

impl Process {
    pub closed spec fn id_spec(&self) -> usize {
        self.id
    }

    pub closed spec fn vm_spec(&self) -> VmProcess<Backing> {
        self.vm
    }

    /// The number of the process. The kernel is process 0.
    pub fn id(&self) -> (r: usize)
        ensures
            r == self.id_spec(),
    {
        self.id
    }

    /// The address space of the process.
    pub fn vm(&self) -> (r: &VmProcess<Backing>)
        ensures
            *r == self.vm_spec(),
    {
        &self.vm
    }
}

/// The kernel's own process and the user processes.
pub struct Scheduler {
    kernel: Process,
    process_list: Vec<Process>,
}

/// What loading the init image answers: the pages of the image, from the
/// lowest address of its loadable segments to the highest, each with full
/// permissions. An image whose program headers cannot be read, or that has
/// nothing to load, is not supported.
pub open spec fn add_initfs_spec(image: Seq<u8>) -> Result<Seq<PageImage>, MemoryError> {
    let headers = program_headers_spec(image);
    let low = lowest_vaddr(headers, headers.len() as int);
    let high = highest_vaddr(headers, headers.len() as int);
    if image_fault(image) is Some || low is None || high->Some_0 > u64::MAX {
        Err(MemoryError::NotSupported)
    } else {
        let region = VmRegion {
            start: (low->Some_0 / 4096) as u64,
            end: ((high->Some_0 + 4095) / 4096) as u64,
        };
        map_pages_spec(
            region,
            VmPermissions { read: true, write: true, execute: true, user: true },
            |vpage: u64| init_page_spec(headers, image, vpage),
            region.start,
        )
    }
}

impl Scheduler {
    pub closed spec fn kernel(&self) -> Process {
        self.kernel
    }

    pub closed spec fn processes(&self) -> Seq<Process> {
        self.process_list@
    }

    /// The kernel's own process.
    pub fn kernel_process(&self) -> (r: &Process)
        ensures
            *r == self.kernel(),
    {
        &self.kernel
    }

    /// The number of user processes.
    pub fn process_count(&self) -> (r: usize)
        ensures
            r == self.processes().len(),
    {
        self.process_list.len()
    }

    /// A scheduler that knows the kernel's process and no other.
    pub fn new(kernel_process: VmProcess<Backing>) -> (r: Self)
        ensures
            r.kernel().id_spec() == 0,
            r.kernel().vm_spec() == kernel_process,
            r.processes().len() == 0,
    {
        Self { kernel: Process { id: 0, vm: kernel_process }, process_list: Vec::new() }
    }

    /// Makes the address space of the init process from its ELF image and
    /// gives every page of it its contents. The address space takes over
    /// the kernel's regions and holds the image as its one backing object;
    /// its page tables will stand at `page_tables`.
    pub fn add_initfs(&mut self, initfs: Vec<u8>, page_tables: u64) -> (r: Result<
        Vec<MappedPage>,
        MemoryError,
    >)
        ensures
            final(self).kernel() == old(self).kernel(),
            final(self).processes() == old(self).processes(),
            match add_initfs_spec(initfs@) {
                Ok(pages) => r is Ok && page_images(r->Ok_0@) == pages,
                Err(e) => r == Err::<Vec<MappedPage>, MemoryError>(e),
            },
    {
        let headers = match program_headers(initfs.as_slice()) {
            Ok(headers) => headers,
            Err(_) => {
                return Err(MemoryError::NotSupported);
            },
        };
        let (vaddr_low, vaddr_hi) = match vaddr_range(&headers) {
            Ok(range) => range,
            Err(_) => {
                return Err(MemoryError::NotSupported);
            },
        };
        let mut process = VmProcess::new_from(&self.kernel.vm, page_tables);
        let region = VmRegion::from_vaddr(vaddr_low, vaddr_hi - vaddr_low);
        let permissions = VmPermissions { read: false, write: true, execute: false, user: false }.union(
            VmPermissions { read: true, write: false, execute: false, user: false },
        ).union(VmPermissions { read: false, write: false, execute: false, user: true }).union(
            VmPermissions { read: false, write: false, execute: true, user: false },
        );
        let ghost image = initfs@;
        let ghost parsed = headers@;
        let object = Backing::Elf(ElfBacked::new(region, permissions, headers, initfs));
        let added = process.add_vm_object(object);
        assert(added is Ok);
        assert(process.objects() =~= seq![object]);
        let r = process.map_all_now();
        proof {
            reveal_with_fuel(crate::vm::map_all_spec, 3);
            let one = map_object_spec(object, object.region_spec().start);
            lemma_map_pages_agree(
                region,
                permissions,
                |vpage: u64| object.page_spec(vpage),
                |vpage: u64| init_page_spec(parsed, image, vpage),
                region.start,
            );
            if one is Ok {
                assert(one->Ok_0 + Seq::<PageImage>::empty() =~= one->Ok_0);
            }
        }
        r
    }
}

} // verus!
