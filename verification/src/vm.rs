//! Virtual memory regions and what backs them.
//!
//! A process owns a list of backing objects, each answerable for a range of
//! virtual pages. Mapping a process asks every object for the contents of
//! every one of its pages.

use crate::addr::PAGE_4K;
use crate::error::MemoryError;
use vstd::prelude::*;

verus! {

/// The number of 4 KiB pages in a 64-bit address space. Page indices stay
/// below it.
pub const PAGE_LIMIT: u64 = 0x10_0000_0000_0000;

/// What may be done with the pages of a region.
#[derive(Debug, Clone, Copy, PartialEq, Eq, Structural)]
pub struct VmPermissions {
    pub read: bool,
    pub write: bool,
    pub execute: bool,
    pub user: bool,
}

impl VmPermissions {
    /// No permission at all.
    pub fn none() -> (r: Self)
        ensures
            r == (VmPermissions { read: false, write: false, execute: false, user: false }),
    {
        VmPermissions { read: false, write: false, execute: false, user: false }
    }

    /// Every permission.
    pub fn all() -> (r: Self)
        ensures
            r == (VmPermissions { read: true, write: true, execute: true, user: true }),
    {
        VmPermissions { read: true, write: true, execute: true, user: true }
    }

    /// The permissions that either side grants.
    pub fn union(self, other: Self) -> (r: Self)
        ensures
            r == (VmPermissions {
                read: self.read || other.read,
                write: self.write || other.write,
                execute: self.execute || other.execute,
                user: self.user || other.user,
            }),
    {
        VmPermissions {
            read: self.read || other.read,
            write: self.write || other.write,
            execute: self.execute || other.execute,
            user: self.user || other.user,
        }
    }
}

/// The virtual pages from `start` up to, but not including, `end`, counted
/// in 4 KiB pages.
#[derive(Debug, Clone, Copy, PartialEq, Eq, Structural)]
pub struct VmRegion {
    pub start: u64,
    pub end: u64,
}

impl VmRegion {
    /// The number of pages in the region.
    pub open spec fn pages(self) -> int {
        if self.start <= self.end {
            self.end - self.start
        } else {
            0
        }
    }

    pub open spec fn has_page(self, vpage: u64) -> bool {
        self.start <= vpage < self.end
    }

    pub open spec fn has_vaddr(self, vaddr: u64) -> bool {
        self.has_page(vaddr / PAGE_4K)
    }

    pub open spec fn meets(self, other: VmRegion) -> bool {
        self.start < other.end && other.start < self.end
    }

    /// The smallest run of whole pages that holds the `len` bytes from
    /// `vaddr` on.
    pub fn from_vaddr(vaddr: u64, len: u64) -> (r: Self)
        requires
            vaddr + len <= u64::MAX,
        ensures
            r.start == vaddr / PAGE_4K,
            r.end == (vaddr + len + PAGE_4K - 1) / (PAGE_4K as int),
            forall|a: u64| vaddr <= a < vaddr + len ==> r.has_vaddr(a),
    {
        let last: u64 = vaddr + len;
        let end: u64 = if last % PAGE_4K == 0 {
            last / PAGE_4K
        } else {
            last / PAGE_4K + 1
        };
        VmRegion { start: vaddr / PAGE_4K, end }
    }

    /// Whether the page with the given index belongs to the region.
    pub fn contains_page(&self, vpage: u64) -> (r: bool)
        ensures
            r == self.has_page(vpage),
    {
        self.start <= vpage && vpage < self.end
    }

    /// Whether the byte at `vaddr` belongs to the region.
    pub fn contains_vaddr(&self, vaddr: u64) -> (r: bool)
        ensures
            r == self.has_vaddr(vaddr),
    {
        self.contains_page(vaddr / PAGE_4K)
    }

    /// Whether the two regions share a page.
    pub fn overlaps(&self, other: &VmRegion) -> (r: bool)
        ensures
            r == self.meets(*other),
    {
        self.start < other.end && other.start < self.end
    }
}

/// The kinds of segment that a program header can announce.
#[derive(Debug, Clone, Copy, PartialEq, Eq, Structural)]
pub enum SegmentKind {
    Unused,
    Load,
    Dynamic,
    Interp,
    Note,
    Other,
}

/// What the loader needs to know of one program header of an ELF image.
#[derive(Debug, Clone, Copy, PartialEq, Eq, Structural)]
pub struct ProgramHeader {
    pub kind: SegmentKind,
    /// The virtual address where the segment is expected.
    pub vaddr: u64,
    /// The number of bytes that the segment takes up in memory.
    pub mem_size: u64,
    /// Where in the image the bytes of the segment start.
    pub file_offset: u64,
    /// How many bytes of the segment the image holds. What lies beyond
    /// them, up to `mem_size`, is zero.
    pub file_size: u64,
}

impl ProgramHeader {
    /// Whether the segment is loadable and shares a byte with the page that
    /// starts at `page_addr`.
    pub open spec fn covers(self, page_addr: u64) -> bool {
        &&& self.kind == SegmentKind::Load
        &&& self.vaddr < page_addr + PAGE_4K
        &&& page_addr < self.vaddr + self.mem_size
    }

    /// Whether the image has all the bytes that the header speaks of.
    pub open spec fn within(self, image_len: nat) -> bool {
        self.file_offset + self.file_size <= image_len
    }

    /// The byte that belongs at virtual address `vaddr`: the byte of the
    /// image, as long as the image has bytes for the segment, and zero
    /// beyond them.
    pub open spec fn byte_at(self, image: Seq<u8>, vaddr: int) -> u8 {
        if self.vaddr <= vaddr < self.vaddr + self.file_size {
            image[self.file_offset + (vaddr - self.vaddr)]
        } else {
            0
        }
    }
}

/// The first header that covers the page at `page_addr`, from `from` on.
pub open spec fn covering_header(headers: Seq<ProgramHeader>, page_addr: u64, from: int) -> Option<
    int,
>
    decreases headers.len() - from,
{
    if from < 0 || from >= headers.len() {
        None
    } else if headers[from].covers(page_addr) {
        Some(from)
    } else {
        covering_header(headers, page_addr, from + 1)
    }
}

/// A page of zeroes, as the allocator hands pages out.
pub open spec fn fresh_page() -> Seq<u8> {
    Seq::new(PAGE_4K as nat, |i: int| 0u8)
}

/// What filling the page at index `vpage` answers, and the contents of the
/// page afterwards.
pub open spec fn init_page_spec(headers: Seq<ProgramHeader>, image: Seq<u8>, vpage: u64) -> Result<
    Seq<u8>,
    MemoryError,
> {
    let page_addr = (vpage * PAGE_4K) as u64;
    match covering_header(headers, page_addr, 0) {
        None => Err(MemoryError::NotFound),
        Some(i) => if !headers[i].within(image.len()) {
            Err(MemoryError::DidNotHandleException)
        } else {
            Ok(Seq::new(PAGE_4K as nat, |k: int| headers[i].byte_at(image, page_addr + k)))
        },
    }
}

/// Anything that answers for a range of virtual pages and can say what a
/// page of the range holds when it is first touched.
pub trait VmRegionObject {
    /// The pages that the object answers for.
    spec fn region_spec(&self) -> VmRegion;

    /// What may be done with those pages.
    spec fn permissions_spec(&self) -> VmPermissions;

    /// The contents of the page at index `vpage`, or why the object cannot
    /// supply it.
    spec fn page_spec(&self, vpage: u64) -> Result<Seq<u8>, MemoryError>;

    fn vm_region(&self) -> (r: VmRegion)
        ensures
            r == self.region_spec(),
    ;

    fn vm_permissions(&self) -> (r: VmPermissions)
        ensures
            r == self.permissions_spec(),
    ;

    /// Fills the fresh page that will stand at page index `vpage`. Where
    /// the object cannot supply the page, the page stays as it is.
    fn init_page(&self, vpage: u64, page: &mut Vec<u8>) -> (r: Result<(), MemoryError>)
        requires
            vpage < PAGE_LIMIT,
            old(page)@ == fresh_page(),
        ensures
            match self.page_spec(vpage) {
                Ok(contents) => r is Ok && final(page)@ == contents && contents.len() == PAGE_4K,
                Err(e) => r == Err::<(), MemoryError>(e) && final(page)@ == old(page)@,
            },
    ;
}

/// A range of virtual pages backed by fresh physical memory: every page
/// starts out as zeroes.
#[derive(Debug, Clone, Copy, PartialEq, Eq, Structural)]
pub struct PhysicalBacking {
    pub region: VmRegion,
    pub permissions: VmPermissions,
}

impl VmRegionObject for PhysicalBacking {
    open spec fn region_spec(&self) -> VmRegion {
        self.region
    }

    open spec fn permissions_spec(&self) -> VmPermissions {
        self.permissions
    }

    open spec fn page_spec(&self, vpage: u64) -> Result<Seq<u8>, MemoryError> {
        if self.region.has_page(vpage) {
            Ok(fresh_page())
        } else {
            Err(MemoryError::NotFound)
        }
    }

    fn vm_region(&self) -> (r: VmRegion) {
        self.region
    }

    fn vm_permissions(&self) -> (r: VmPermissions) {
        self.permissions
    }

    fn init_page(&self, vpage: u64, page: &mut Vec<u8>) -> (r: Result<(), MemoryError>) {
        if self.region.contains_page(vpage) {
            Ok(())
        } else {
            Err(MemoryError::NotFound)
        }
    }
}

/// A range of virtual pages whose contents come from an ELF image.
#[derive(Debug)]
pub struct ElfBacked {
    region: VmRegion,
    permissions: VmPermissions,
    headers: Vec<ProgramHeader>,
    image: Vec<u8>,
}

impl ElfBacked {
    pub closed spec fn region(&self) -> VmRegion {
        self.region
    }

    pub closed spec fn permissions(&self) -> VmPermissions {
        self.permissions
    }

    pub closed spec fn headers(&self) -> Seq<ProgramHeader> {
        self.headers@
    }

    pub closed spec fn image(&self) -> Seq<u8> {
        self.image@
    }

    /// A backing object for `region`, fed from the ELF image `image` whose
    /// program headers are `headers`.
    pub fn new(
        region: VmRegion,
        permissions: VmPermissions,
        headers: Vec<ProgramHeader>,
        image: Vec<u8>,
    ) -> (r: Self)
        ensures
            r.region() == region,
            r.permissions() == permissions,
            r.headers() == headers@,
            r.image() == image@,
    {
        ElfBacked { region, permissions, headers, image }
    }

    /// Finds the first loadable segment that shares a byte with the page at
    /// `page_addr`.
    fn find_header(&self, page_addr: u64) -> (r: Option<usize>)
        ensures
            match r {
                Some(i) => covering_header(self.headers(), page_addr, 0) == Some(i as int) && i
                    < self.headers().len(),
                None => covering_header(self.headers(), page_addr, 0) is None,
            },
    {
        let mut i: usize = 0;
        while i < self.headers.len()
            invariant
                i <= self.headers().len(),
                covering_header(self.headers(), page_addr, i as int) == covering_header(
                    self.headers(),
                    page_addr,
                    0,
                ),
            decreases self.headers().len() - i,
        {
            let h = self.headers[i];
            let covers = h.kind == SegmentKind::Load && (h.vaddr as u128) < page_addr as u128
                + PAGE_4K as u128 && (page_addr as u128) < h.vaddr as u128 + h.mem_size as u128;
            if covers {
                return Some(i);
            }
            i += 1;
        }
        None
    }

}

impl VmRegionObject for ElfBacked {
    open spec fn region_spec(&self) -> VmRegion {
        self.region()
    }

    open spec fn permissions_spec(&self) -> VmPermissions {
        self.permissions()
    }

    open spec fn page_spec(&self, vpage: u64) -> Result<Seq<u8>, MemoryError> {
        init_page_spec(self.headers(), self.image(), vpage)
    }

    fn vm_region(&self) -> (r: VmRegion) {
        self.region
    }

    fn vm_permissions(&self) -> (r: VmPermissions) {
        self.permissions
    }

    /// Fills the page with what the image holds for it: the bytes of the
    /// segment that covers the page, and zero wherever the image has no
    /// byte.
    fn init_page(&self, vpage: u64, page: &mut Vec<u8>) -> (r: Result<(), MemoryError>)
    {
        let page_addr: u64 = vpage * PAGE_4K;
        let index = match self.find_header(page_addr) {
            Some(i) => i,
            None => {
                return Err(MemoryError::NotFound);
            },
        };
        let h = self.headers[index];
        if h.file_offset as u128 + h.file_size as u128 > self.image.len() as u128 {
            return Err(MemoryError::DidNotHandleException);
        }
        let image_len: usize = self.image.len();
        let mut k: usize = 0;
        while k < 4096
            invariant
                k <= 4096,
                page_addr + PAGE_4K - 1 <= u64::MAX,
                image_len == self.image().len(),
                h.within(self.image().len()),
                page@.len() == PAGE_4K,
                forall|j: int| 0 <= j < k ==> #[trigger] page@[j] == h.byte_at(self.image(), page_addr + j),
                forall|j: int| k <= j < PAGE_4K ==> #[trigger] page@[j] == 0,
            decreases 4096 - k,
        {
            let at: u64 = page_addr + k as u64;
            if h.vaddr <= at && at - h.vaddr < h.file_size {
                let byte = self.image[(h.file_offset + (at - h.vaddr)) as usize];
                page.set(k, byte);
            }
            k += 1;
        }
        assert(page@ =~= Seq::new(PAGE_4K as nat, |k: int| h.byte_at(self.image(), page_addr + k)));
        Ok(())
    }
}

/// A page that lies wholly inside a loadable segment gets exactly the
/// bytes that the image holds for it, and zero wherever the image holds
/// none.
pub proof fn lemma_elf_backing_fill(
    headers: Seq<ProgramHeader>,
    image: Seq<u8>,
    vpage: u64,
    i: int,
    k: int,
)
    requires
        vpage < PAGE_LIMIT,
        covering_header(headers, (vpage * PAGE_4K) as u64, 0) == Some(i),
        headers[i].vaddr <= vpage * PAGE_4K,
        vpage * PAGE_4K + PAGE_4K <= headers[i].vaddr + headers[i].mem_size,
        headers[i].within(image.len()),
        0 <= k < PAGE_4K,
    ensures
        init_page_spec(headers, image, vpage) is Ok,
        init_page_spec(headers, image, vpage)->Ok_0.len() == PAGE_4K,
        init_page_spec(headers, image, vpage)->Ok_0[k] == if vpage * PAGE_4K + k - headers[i].vaddr
            < headers[i].file_size {
            image[headers[i].file_offset + (vpage * PAGE_4K + k - headers[i].vaddr)]
        } else {
            0
        },
{
}

/// A page that has been given its contents and waits to be entered into
/// the page tables.
#[derive(Debug)]
pub struct MappedPage {
    pub vpage: u64,
    pub permissions: VmPermissions,
    pub contents: Vec<u8>,
}

/// A [`MappedPage`] as a plain value.
pub struct PageImage {
    pub vpage: u64,
    pub permissions: VmPermissions,
    pub contents: Seq<u8>,
}

impl MappedPage {
    pub open spec fn view(&self) -> PageImage {
        PageImage { vpage: self.vpage, permissions: self.permissions, contents: self.contents@ }
    }
}

/// The views of a run of mapped pages.
pub open spec fn page_images(pages: Seq<MappedPage>) -> Seq<PageImage> {
    pages.map_values(|p: MappedPage| p@)
}

/// What mapping the pages of a region from page `from` on answers, where
/// `page_of` says what each page holds: the pages in order, or the error
/// of the first page that cannot be supplied.
pub open spec fn map_pages_spec(
    region: VmRegion,
    permissions: VmPermissions,
    page_of: spec_fn(u64) -> Result<Seq<u8>, MemoryError>,
    from: u64,
) -> Result<Seq<PageImage>, MemoryError>
    decreases region.end - from,
{
    if from >= region.end {
        Ok(Seq::empty())
    } else {
        match page_of(from) {
            Err(e) => Err(e),
            Ok(contents) => match map_pages_spec(region, permissions, page_of, (from + 1) as u64) {
                Err(e) => Err(e),
                Ok(rest) => Ok(seq![PageImage { vpage: from, permissions, contents }] + rest),
            },
        }
    }
}

/// What mapping the pages of one backing object from page `from` on
/// answers.
pub open spec fn map_object_spec<O: VmRegionObject>(object: O, from: u64) -> Result<
    Seq<PageImage>,
    MemoryError,
> {
    map_pages_spec(
        object.region_spec(),
        object.permissions_spec(),
        |vpage: u64| object.page_spec(vpage),
        from,
    )
}

/// Two ways of saying what each page holds that agree on every page give
/// the same mapping.
pub proof fn lemma_map_pages_agree(
    region: VmRegion,
    permissions: VmPermissions,
    one: spec_fn(u64) -> Result<Seq<u8>, MemoryError>,
    other: spec_fn(u64) -> Result<Seq<u8>, MemoryError>,
    from: u64,
)
    requires
        forall|vpage: u64| #[trigger] one(vpage) == other(vpage),
    ensures
        map_pages_spec(region, permissions, one, from) == map_pages_spec(
            region,
            permissions,
            other,
            from,
        ),
    decreases region.end - from,
{
    if from < region.end {
        lemma_map_pages_agree(region, permissions, one, other, (from + 1) as u64);
    }
}

/// What mapping every backing object from object `from` on answers.
pub open spec fn map_all_spec<O: VmRegionObject>(objects: Seq<O>, from: int) -> Result<
    Seq<PageImage>,
    MemoryError,
>
    decreases objects.len() - from,
{
    if from < 0 || from >= objects.len() {
        Ok(Seq::empty())
    } else {
        match map_object_spec(objects[from], objects[from].region_spec().start) {
            Err(e) => Err(e),
            Ok(pages) => match map_all_spec(objects, from + 1) {
                Err(e) => Err(e),
                Ok(rest) => Ok(pages + rest),
            },
        }
    }
}

/// Gives every page of the object's region its contents, in order of
/// address. The first page that cannot be supplied ends the work with its
/// error.
pub fn map_object_now<O: VmRegionObject>(object: &O) -> (r: Result<Vec<MappedPage>, MemoryError>)
    requires
        object.region_spec().end <= PAGE_LIMIT,
    ensures
        match map_object_spec(*object, object.region_spec().start) {
            Ok(pages) => r is Ok && page_images(r->Ok_0@) == pages,
            Err(e) => r == Err::<Vec<MappedPage>, MemoryError>(e),
        },
{
    let region = object.vm_region();
    let permissions = object.vm_permissions();
    let ghost whole = map_object_spec(*object, region.start);
    let mut pages: Vec<MappedPage> = Vec::new();
    let mut vpage: u64 = region.start;
    assert(page_images(pages@) =~= Seq::empty());
    while vpage < region.end
        invariant
            region == object.region_spec(),
            permissions == object.permissions_spec(),
            region.end <= PAGE_LIMIT,
            whole == map_object_spec(*object, region.start),
            match map_object_spec(*object, vpage) {
                Ok(rest) => whole == Ok::<Seq<PageImage>, MemoryError>(page_images(pages@) + rest),
                Err(e) => whole == Err::<Seq<PageImage>, MemoryError>(e),
            },
        decreases region.end - vpage,
    {
        let mut contents: Vec<u8> = Vec::new();
        let mut k: usize = 0;
        while k < 4096
            invariant
                k <= 4096,
                contents@.len() == k,
                forall|j: int| 0 <= j < k ==> #[trigger] contents@[j] == 0,
            decreases 4096 - k,
        {
            contents.push(0u8);
            k += 1;
        }
        assert(contents@ =~= fresh_page());
        match object.init_page(vpage, &mut contents) {
            Err(e) => {
                return Err(e);
            },
            Ok(_) => {},
        }
        let ghost before = pages@;
        let ghost image = PageImage { vpage, permissions, contents: contents@ };
        pages.push(MappedPage { vpage, permissions, contents });
        proof {
            assert(page_images(pages@) =~= page_images(before).push(image));
            let rest = map_object_spec(*object, (vpage + 1) as u64);
            if rest is Ok {
                assert(page_images(before) + (seq![image] + rest->Ok_0) =~= page_images(pages@)
                    + rest->Ok_0);
            }
        }
        vpage += 1;
    }
    assert(page_images(pages@) + Seq::<PageImage>::empty() =~= page_images(pages@));
    Ok(pages)
}

/// The address space of a process: the kernel's regions, which every
/// process shares, and the backing objects of the process itself.
pub struct VmProcess<O: VmRegionObject> {
    page_tables: u64,
    kernel: Vec<VmRegion>,
    objects: Vec<O>,
}

impl<O: VmRegionObject> VmProcess<O> {
    pub closed spec fn kernel_regions(&self) -> Seq<VmRegion> {
        self.kernel@
    }

    pub closed spec fn objects(&self) -> Seq<O> {
        self.objects@
    }

    /// The physical address of the root of the process's page tables.
    pub closed spec fn root(&self) -> u64 {
        self.page_tables
    }

    /// Whether no backing object of the process shares a page with
    /// `region`.
    pub open spec fn is_free_spec(&self, region: VmRegion) -> bool {
        forall|i: int| 0 <= i < self.objects().len() ==> !(#[trigger] self.objects()[i]).region_spec().meets(region)
    }

    /// No two backing objects share a page, and no page index is beyond
    /// the address space.
    pub open spec fn wf(&self) -> bool {
        &&& forall|i: int, j: int|
            0 <= i < j < self.objects().len() ==> !(#[trigger] self.objects()[i]).region_spec().meets(
                (#[trigger] self.objects()[j]).region_spec(),
            )
        &&& forall|i: int|
            0 <= i < self.objects().len() ==> (#[trigger] self.objects()[i]).region_spec().end
                <= PAGE_LIMIT
    }

    /// The address space of the kernel itself, with the regions that the
    /// kernel has mapped.
    pub fn new(page_tables: u64, kernel_regions: Vec<VmRegion>) -> (r: Self)
        ensures
            r.wf(),
            r.root() == page_tables,
            r.kernel_regions() == kernel_regions@,
            r.objects().len() == 0,
    {
        VmProcess { page_tables, kernel: kernel_regions, objects: Vec::new() }
    }

    /// The physical address of the root of the process's page tables.
    pub fn page_table_root(&self) -> (r: u64)
        ensures
            r == self.root(),
    {
        self.page_tables
    }

    /// Whether the page tables of the process are the ones in use, given
    /// the root that the processor holds.
    pub fn is_loaded(&self, current_root: u64) -> (r: bool)
        ensures
            r == (self.root() == current_root),
    {
        self.page_tables == current_root
    }

    /// A new address space, with page tables of its own at `page_tables`,
    /// that shares the kernel's regions with `parent` and has no backing
    /// object of its own yet.
    pub fn new_from(parent: &VmProcess<O>, page_tables: u64) -> (r: Self)
        ensures
            r.wf(),
            r.root() == page_tables,
            r.kernel_regions() == parent.kernel_regions(),
            r.objects().len() == 0,
    {
        let mut kernel: Vec<VmRegion> = Vec::new();
        let mut i: usize = 0;
        while i < parent.kernel.len()
            invariant
                i <= parent.kernel@.len(),
                kernel@ == parent.kernel@.subrange(0, i as int),
            decreases parent.kernel@.len() - i,
        {
            kernel.push(parent.kernel[i]);
            assert(kernel@ =~= parent.kernel@.subrange(0, i + 1));
            i += 1;
        }
        assert(kernel@ =~= parent.kernel@);
        VmProcess { page_tables, kernel, objects: Vec::new() }
    }

    /// The number of backing objects.
    pub fn object_count(&self) -> (r: usize)
        ensures
            r == self.objects().len(),
    {
        self.objects.len()
    }

    /// The number of regions that the kernel has mapped.
    pub fn kernel_region_count(&self) -> (r: usize)
        ensures
            r == self.kernel_regions().len(),
    {
        self.kernel.len()
    }

    /// Whether `region` shares no page with any backing object.
    pub fn is_free(&self, region: &VmRegion) -> (r: bool)
        ensures
            r == self.is_free_spec(*region),
    {
        let mut i: usize = 0;
        while i < self.objects.len()
            invariant
                i <= self.objects().len(),
                forall|j: int| 0 <= j < i ==> !(#[trigger] self.objects()[j]).region_spec().meets(*region),
            decreases self.objects().len() - i,
        {
            let other = self.objects[i].vm_region();
            if other.overlaps(region) {
                return false;
            }
            i += 1;
        }
        true
    }

    /// Makes `object` answerable for the pages of its region. The region
    /// must be free, and must end within the address space; otherwise the
    /// object is turned away.
    pub fn add_vm_object(&mut self, object: O) -> (r: Result<(), MemoryError>)
        requires
            old(self).wf(),
        ensures
            final(self).wf(),
            final(self).root() == old(self).root(),
            final(self).kernel_regions() == old(self).kernel_regions(),
            old(self).is_free_spec(object.region_spec()) && object.region_spec().end <= PAGE_LIMIT ==> r is Ok
                && final(self).objects() == old(self).objects().push(object),
            !(old(self).is_free_spec(object.region_spec()) && object.region_spec().end <= PAGE_LIMIT) ==> r
                == Err::<(), MemoryError>(MemoryError::NotSupported) && final(self).objects() == old(
                self,
            ).objects(),
    {
        let region = object.vm_region();
        if region.end > PAGE_LIMIT || !self.is_free(&region) {
            return Err(MemoryError::NotSupported);
        }
        self.objects.push(object);
        Ok(())
    }

    /// Gives every page of every backing object its contents, object by
    /// object in the order in which they were added.
    pub fn map_all_now(&self) -> (r: Result<Vec<MappedPage>, MemoryError>)
        requires
            self.wf(),
        ensures
            match map_all_spec(self.objects(), 0) {
                Ok(pages) => r is Ok && page_images(r->Ok_0@) == pages,
                Err(e) => r == Err::<Vec<MappedPage>, MemoryError>(e),
            },
    {
        let mut pages: Vec<MappedPage> = Vec::new();
        let mut i: usize = 0;
        assert(page_images(pages@) =~= Seq::empty());
        while i < self.objects.len()
            invariant
                i <= self.objects().len(),
                forall|j: int|
                    0 <= j < self.objects().len() ==> (#[trigger] self.objects()[j]).region_spec().end
                        <= PAGE_LIMIT,
                match map_all_spec(self.objects(), i as int) {
                    Ok(rest) => map_all_spec(self.objects(), 0) == Ok::<Seq<PageImage>, MemoryError>(
                        page_images(pages@) + rest,
                    ),
                    Err(e) => map_all_spec(self.objects(), 0) == Err::<Seq<PageImage>, MemoryError>(e),
                },
            decreases self.objects().len() - i,
        {
            let mut more = match map_object_now(&self.objects[i]) {
                Ok(more) => more,
                Err(e) => {
                    return Err(e);
                },
            };
            let ghost before = pages@;
            let ghost added = more@;
            pages.append(&mut more);
            proof {
                assert(page_images(pages@) =~= page_images(before) + page_images(added));
                let rest = map_all_spec(self.objects(), i + 1);
                if rest is Ok {
                    assert(page_images(before) + (page_images(added) + rest->Ok_0) =~= page_images(
                        pages@,
                    ) + rest->Ok_0);
                }
            }
            i += 1;
        }
        assert(page_images(pages@) + Seq::<PageImage>::empty() =~= page_images(pages@));
        Ok(pages)
    }
}

} // verus!
