//! Typed machine addresses.
//!
//! An [`Addr`] is a 64-bit offset tagged, at the type level only, with the
//! address space it lives in (physical or logical) and with an alignment.
//! The tags cost nothing at run time and take no part in comparisons.

use crate::sealed::Sealed;
use core::cmp::Ordering;
use core::marker::PhantomData;
use vstd::prelude::*;
use vstd::std_specs::cmp::PartialEqSpecImpl;
use vstd::std_specs::cmp::PartialOrdSpecImpl;

verus! {

pub const PAGE_4K: u64 = 4096;

pub const PAGE_2M: u64 = 2097152;

pub const PAGE_1G: u64 = 1073741824;

/// The number of implemented address bits of each address space, as the
/// processor reports them. A width of zero means "not yet known".
#[derive(Clone, Copy, Debug)]
pub struct AddressWidths {
    physical_bits: u8,
    logical_bits: u8,
}

/// The low byte of the identification word: implemented physical bits.
pub open spec fn cpuid_physical_bits(cpuid_eax: u32) -> u8 {
    (cpuid_eax & 0xFF) as u8
}

/// The second byte of the identification word: implemented logical bits.
pub open spec fn cpuid_logical_bits(cpuid_eax: u32) -> u8 {
    ((cpuid_eax >> 8) & 0xFF) as u8
}

impl AddressWidths {
    pub closed spec fn physical(&self) -> u8 {
        self.physical_bits
    }

    pub closed spec fn logical(&self) -> u8 {
        self.logical_bits
    }

    /// Both widths are known and usable as a shift amount on a 64-bit word.
    pub open spec fn wf(&self) -> bool {
        &&& 1 <= self.physical() <= 64
        &&& 1 <= self.logical() <= 64
    }

    /// Widths that nobody has asked the processor for yet.
    pub fn unpopulated() -> (r: Self)
        ensures
            r.physical() == 0,
            r.logical() == 0,
    {
        AddressWidths { physical_bits: 0, logical_bits: 0 }
    }

    /// Widths given directly, for machines whose widths are known up front.
    pub fn with_bits(physical_bits: u8, logical_bits: u8) -> (r: Self)
        ensures
            r.physical() == physical_bits,
            r.logical() == logical_bits,
    {
        AddressWidths { physical_bits, logical_bits }
    }
}

/// Fills in whichever width is still unknown from the processor's
/// identification word `cpuid_eax`; a width that is already known is kept.
pub fn populate_address_width(widths: &mut AddressWidths, cpuid_eax: u32)
    ensures
        final(widths).physical() == if old(widths).physical() != 0 {
            old(widths).physical()
        } else {
            cpuid_physical_bits(cpuid_eax)
        },
        final(widths).logical() == if old(widths).logical() != 0 {
            old(widths).logical()
        } else {
            cpuid_logical_bits(cpuid_eax)
        },
{
    if widths.physical_bits != 0 && widths.logical_bits != 0 {
        return ;
    }
    let physical_bits: u8 = (cpuid_eax & 0xFF) as u8;
    let logical_bits: u8 = ((cpuid_eax >> 8) & 0xFF) as u8;
    if widths.physical_bits == 0 {
        widths.physical_bits = physical_bits;
    }
    if widths.logical_bits == 0 {
        widths.logical_bits = logical_bits;
    }
}

/// The logical address width, populating the cache on first use.
pub fn logical_addr_width_bits(widths: &mut AddressWidths, cpuid_eax: u32) -> (r: u8)
    ensures
        r == final(widths).logical(),
        final(widths).physical() == if old(widths).physical() != 0 {
            old(widths).physical()
        } else {
            cpuid_physical_bits(cpuid_eax)
        },
        final(widths).logical() == if old(widths).logical() != 0 {
            old(widths).logical()
        } else {
            cpuid_logical_bits(cpuid_eax)
        },
{
    populate_address_width(widths, cpuid_eax);
    widths.logical_bits
}

/// The physical address width, populating the cache on first use.
pub fn physical_addr_width_bits(widths: &mut AddressWidths, cpuid_eax: u32) -> (r: u8)
    ensures
        r == final(widths).physical(),
        final(widths).physical() == if old(widths).physical() != 0 {
            old(widths).physical()
        } else {
            cpuid_physical_bits(cpuid_eax)
        },
        final(widths).logical() == if old(widths).logical() != 0 {
            old(widths).logical()
        } else {
            cpuid_logical_bits(cpuid_eax)
        },
{
    populate_address_width(widths, cpuid_eax);
    widths.physical_bits
}

/// `addr` is canonical for a `width_bits`-bit address space: every bit from
/// bit `width_bits - 1` upward is zero, or every such bit is one.
pub open spec fn is_canonical(addr: u64, width_bits: u8) -> bool
    recommends
        1 <= width_bits <= 64,
{
    let half: u64 = 1u64 << ((width_bits - 1) as u64);
    addr < half || addr > u64::MAX - half
}

pub open spec fn is_power_of_two(n: u64) -> bool {
    n != 0 && n & ((n - 1) as u64) == 0
}

/// Alignment tag.
pub trait AddrAlign: Sealed {
    spec fn spec_align() -> u64;

    fn align() -> (r: u64)
        ensures
            r == Self::spec_align(),
    ;
}

/// Address-space tag.
pub trait AddrKind: Sealed {
    spec fn spec_addr_width_bits(widths: AddressWidths) -> u8;

    fn addr_width_bits(widths: &AddressWidths) -> (r: u8)
        ensures
            r == Self::spec_addr_width_bits(*widths),
    ;

    /// The name of the address space as people say it.
    spec fn spec_name_human() -> Seq<char>;

    /// The name of the address space as the code writes it.
    spec fn spec_name_machine() -> Seq<char>;

    fn addr_name_human() -> (r: &'static str)
        ensures
            r@ == Self::spec_name_human(),
    ;

    fn addr_name_machine() -> (r: &'static str)
        ensures
            r@ == Self::spec_name_machine(),
    ;

    /// Whether `addr` can be represented in this address space.
    fn check_address(addr: u64, widths: &AddressWidths) -> (r: bool)
        requires
            1 <= Self::spec_addr_width_bits(*widths) <= 64,
        ensures
            r == is_canonical(addr, Self::spec_addr_width_bits(*widths)),
    {
        let shift: u8 = Self::addr_width_bits(widths) - 1;
        assert(((addr >> shift) == 0 || (addr >> shift) == (u64::MAX >> shift)) <==> (addr < (1u64
            << (shift as u64)) || addr > u64::MAX - (1u64 << (shift as u64)))) by (bit_vector)
            requires
                shift < 64,
        ;
        (addr >> shift) == 0 || (addr >> shift) == (u64::MAX >> shift)
    }
}

/// Tag of page-sized alignments.
pub trait AddrPage: AddrAlign {
    /// A page is never empty.
    proof fn page_size_is_positive()
        ensures
            Self::spec_align() > 0,
    ;
}

#[derive(Debug, Clone, Copy)]
pub struct Unaligned;

#[derive(Debug, Clone, Copy)]
pub struct Aligned<const ALIGN: u64>;

#[derive(Debug, Clone, Copy)]
pub struct PhysicalAddr;

#[derive(Debug, Clone, Copy)]
pub struct LogicalAddr;

impl Sealed for PhysicalAddr {
}

impl Sealed for LogicalAddr {
}

impl Sealed for Unaligned {
}

impl<const ALIGN: u64> Sealed for Aligned<ALIGN> {
}

impl AddrAlign for Unaligned {
    open spec fn spec_align() -> u64 {
        1
    }

    fn align() -> (r: u64) {
        1
    }
}

impl<const ALIGN: u64> AddrAlign for Aligned<ALIGN> {
    open spec fn spec_align() -> u64 {
        ALIGN
    }

    fn align() -> (r: u64) {
        ALIGN
    }
}

impl AddrKind for PhysicalAddr {
    open spec fn spec_addr_width_bits(widths: AddressWidths) -> u8 {
        widths.physical()
    }

    fn addr_width_bits(widths: &AddressWidths) -> (r: u8) {
        widths.physical_bits
    }

    open spec fn spec_name_human() -> Seq<char> {
        "Physical Address"@
    }

    open spec fn spec_name_machine() -> Seq<char> {
        "PhysicalAddr"@
    }

    fn addr_name_human() -> (r: &'static str) {
        "Physical Address"
    }

    fn addr_name_machine() -> (r: &'static str) {
        "PhysicalAddr"
    }
}

impl AddrKind for LogicalAddr {
    open spec fn spec_addr_width_bits(widths: AddressWidths) -> u8 {
        widths.logical()
    }

    fn addr_width_bits(widths: &AddressWidths) -> (r: u8) {
        widths.logical_bits
    }

    open spec fn spec_name_human() -> Seq<char> {
        "Logical/Virtual Address"@
    }

    open spec fn spec_name_machine() -> Seq<char> {
        "LogicalAddr"@
    }

    fn addr_name_human() -> (r: &'static str) {
        "Logical/Virtual Address"
    }

    fn addr_name_machine() -> (r: &'static str) {
        "LogicalAddr"
    }
}

impl AddrPage for Aligned<4096> {
    proof fn page_size_is_positive() {
    }
}

impl AddrPage for Aligned<2097152> {
    proof fn page_size_is_positive() {
    }
}

impl AddrPage for Aligned<1073741824> {
    proof fn page_size_is_positive() {
    }
}

/// Why an address could not be constructed.
#[derive(Debug)]
pub enum AddrError<Kind: AddrKind> {
    /// The raw value is not a multiple of the alignment the type demands.
    InvalidAlignment { expected_alignmnet: u64, given: u64 },
    /// The raw value cannot be represented in this address space.
    InvalidAddr { given: u64, _ph: PhantomData<Kind> },
}

#[derive(Debug)]
pub struct Addr<Kind: AddrKind, Align: AddrAlign = Unaligned> {
    addr: u64,
    _ph: PhantomData<(Kind, Align)>,
}

impl<Kind: AddrKind, Align: AddrAlign> Clone for Addr<Kind, Align> {
    fn clone(&self) -> (r: Self)
        ensures
            r == *self,
    {
        Self { addr: self.addr, _ph: PhantomData }
    }
}

impl<Kind: AddrKind, Align: AddrAlign> Copy for Addr<Kind, Align> {
}

impl<Kind: AddrKind> Clone for AddrError<Kind> {
    fn clone(&self) -> (r: Self)
        ensures
            r == *self,
    {
        match self {
            AddrError::InvalidAlignment { expected_alignmnet, given } => {
                AddrError::InvalidAlignment {
                    expected_alignmnet: *expected_alignmnet,
                    given: *given,
                }
            },
            AddrError::InvalidAddr { given, _ph } => {
                AddrError::InvalidAddr { given: *given, _ph: PhantomData }
            },
        }
    }
}

impl<Kind: AddrKind> Copy for AddrError<Kind> {
}

pub type PhysAddr<Align = Unaligned> = Addr<PhysicalAddr, Align>;

pub type VirtAddr<Align = Unaligned> = Addr<LogicalAddr, Align>;

pub type PhysPage<const ALIGN: u64> = Addr<PhysicalAddr, Aligned<ALIGN>>;

pub type VirtPage<const ALIGN: u64> = Addr<LogicalAddr, Aligned<ALIGN>>;

/// What `verify_addr` answers for a raw value: the alignment is tested
/// first, the representable range second.
pub open spec fn verify_addr_spec<Kind: AddrKind, Align: AddrAlign>(
    addr: u64,
    widths: AddressWidths,
) -> Result<(), AddrError<Kind>> {
    if addr % Align::spec_align() != 0 {
        Err(
            AddrError::InvalidAlignment { expected_alignmnet: Align::spec_align(), given: addr },
        )
    } else if !is_canonical(addr, Kind::spec_addr_width_bits(widths)) {
        Err(AddrError::InvalidAddr { given: addr, _ph: PhantomData })
    } else {
        Ok(())
    }
}

impl<Kind: AddrKind, Align: AddrAlign> Addr<Kind, Align> {
    /// The raw value.
    pub closed spec fn view(&self) -> u64 {
        self.addr
    }

    /// The address whose raw value is `addr`.
    pub closed spec fn with_raw(addr: u64) -> Self {
        Addr { addr, _ph: PhantomData }
    }

    /// An address is its raw value and nothing more.
    pub broadcast proof fn lemma_with_raw(addr: u64)
        ensures
            (#[trigger] Self::with_raw(addr))@ == addr,
    {
    }

    /// Two addresses of one type with the same raw value are the same.
    pub proof fn lemma_view_is_identity(a: Self, b: Self)
        requires
            a@ == b@,
        ensures
            a == b,
    {
    }

    /// The raw value is a multiple of the alignment that the type carries.
    pub open spec fn wf(&self) -> bool {
        self@ % Align::spec_align() == 0
    }

    pub fn verify_addr(addr: u64, widths: &AddressWidths) -> (r: Result<(), AddrError<Kind>>)
        requires
            is_power_of_two(Align::spec_align()),
            1 <= Kind::spec_addr_width_bits(*widths) <= 64,
        ensures
            r == verify_addr_spec::<Kind, Align>(addr, *widths),
    {
        let align: u64 = Align::align();
        assert(align != 0) by (bit_vector)
            requires
                align != 0 && align & ((align - 1) as u64) == 0,
        ;
        if addr % align != 0 {
            return Err(AddrError::InvalidAlignment { expected_alignmnet: align, given: addr });
        }
        if !Kind::check_address(addr, widths) {
            return Err(AddrError::InvalidAddr { given: addr, _ph: PhantomData });
        }
        Ok(())
    }

    pub fn get(&self) -> (r: u64)
        ensures
            r == self@,
    {
        self.addr
    }

    /// Whether every address of this type is also aligned to `alignment`.
    pub fn is_aligned_to(&self, alignment: u64) -> (r: bool)
        ensures
            r == (Align::spec_align() >= alignment),
    {
        Align::align() >= alignment
    }

    /// The number of bytes between two addresses, whichever comes first.
    pub fn addr_distance(&self, rhs: Self) -> (r: u64)
        ensures
            r == if self@ <= rhs@ {
                rhs@ - self@
            } else {
                self@ - rhs@
            },
    {
        let usized_lhs: u64 = self.get();
        let usized_rhs: u64 = rhs.get();
        if usized_rhs >= usized_lhs {
            usized_rhs - usized_lhs
        } else {
            usized_lhs - usized_rhs
        }
    }
}

impl<Kind: AddrKind> Addr<Kind, Unaligned> {
    pub fn null_unaligned() -> (r: Self)
        ensures
            r@ == 0,
            r == Self::with_raw(0),
    {
        Self { addr: 0, _ph: PhantomData }
    }

    pub fn try_unaligned(addr: u64, widths: &AddressWidths) -> (r: Result<Self, AddrError<Kind>>)
        requires
            1 <= Kind::spec_addr_width_bits(*widths) <= 64,
        ensures
            match verify_addr_spec::<Kind, Unaligned>(addr, *widths) {
                Ok(_) => r is Ok && r->Ok_0@ == addr,
                Err(e) => r == Err::<Self, AddrError<Kind>>(e),
            },
    {
        assert(is_power_of_two(1)) by (bit_vector);
        match Self::verify_addr(addr, widths) {
            Ok(_) => Ok(Self { addr, _ph: PhantomData }),
            Err(e) => Err(e),
        }
    }

    pub fn unaligned(addr: u64, widths: &AddressWidths) -> (r: Self)
        requires
            1 <= Kind::spec_addr_width_bits(*widths) <= 64,
            is_canonical(addr, Kind::spec_addr_width_bits(*widths)),
        ensures
            r@ == addr,
    {
        match Self::try_unaligned(addr, widths) {
            Ok(a) => a,
            Err(_) => Self::null_unaligned(),
        }
    }
}

impl<Kind: AddrKind, const ALIGN: u64> Addr<Kind, Aligned<ALIGN>> {
    pub fn null_aligned() -> (r: Self)
        ensures
            r@ == 0,
            ALIGN != 0 ==> r.wf(),
    {
        assert(ALIGN != 0 ==> 0int % (ALIGN as int) == 0) by (nonlinear_arith);
        Self { addr: 0, _ph: PhantomData }
    }

    pub fn try_aligned(addr: u64, widths: &AddressWidths) -> (r: Result<Self, AddrError<Kind>>)
        requires
            is_power_of_two(ALIGN),
            1 <= Kind::spec_addr_width_bits(*widths) <= 64,
        ensures
            match verify_addr_spec::<Kind, Aligned<ALIGN>>(addr, *widths) {
                Ok(_) => r is Ok && r->Ok_0@ == addr && r->Ok_0.wf(),
                Err(e) => r == Err::<Self, AddrError<Kind>>(e),
            },
    {
        match Self::verify_addr(addr, widths) {
            Ok(_) => Ok(Self { addr, _ph: PhantomData }),
            Err(e) => Err(e),
        }
    }

    pub fn aligned(addr: u64, widths: &AddressWidths) -> (r: Self)
        requires
            is_power_of_two(ALIGN),
            1 <= Kind::spec_addr_width_bits(*widths) <= 64,
            addr % ALIGN == 0,
            is_canonical(addr, Kind::spec_addr_width_bits(*widths)),
        ensures
            r@ == addr,
            r.wf(),
    {
        match Self::try_aligned(addr, widths) {
            Ok(a) => a,
            Err(_) => Self::null_aligned(),
        }
    }
}

impl<Kind: AddrKind> From<u64> for Addr<Kind, Unaligned> {
    /// Takes a raw value as it is, without asking whether the machine can
    /// address it.
    fn from(addr: u64) -> (r: Self)
        ensures
            r@ == addr,
            r == Self::with_raw(addr),
    {
        Self { addr, _ph: PhantomData }
    }
}

impl<Kind: AddrKind> vstd::std_specs::convert::FromSpecImpl<u64> for Addr<Kind, Unaligned> {
    open spec fn obeys_from_spec() -> bool {
        true
    }

    open spec fn from_spec(addr: u64) -> Self {
        Self::with_raw(addr)
    }
}

impl<Kind: AddrKind> Addr<Kind, Aligned<4096>> {
    /// The address of the 4 KiB page with the given index.
    pub fn page_4k(page_id: u64, widths: &AddressWidths) -> (r: Self)
        requires
            1 <= Kind::spec_addr_width_bits(*widths) <= 64,
            page_id * PAGE_4K <= u64::MAX,
            is_canonical((page_id * PAGE_4K) as u64, Kind::spec_addr_width_bits(*widths)),
        ensures
            r == Self::with_raw((page_id * PAGE_4K) as u64),
            r.wf(),
    {
        assert(is_power_of_two(4096)) by (bit_vector);
        Self::aligned(page_id * PAGE_4K, widths)
    }
}

impl<Kind: AddrKind> Addr<Kind, Aligned<2097152>> {
    /// The address of the 2 MiB page with the given index.
    pub fn page_2m(page_id: u64, widths: &AddressWidths) -> (r: Self)
        requires
            1 <= Kind::spec_addr_width_bits(*widths) <= 64,
            page_id * PAGE_2M <= u64::MAX,
            is_canonical((page_id * PAGE_2M) as u64, Kind::spec_addr_width_bits(*widths)),
        ensures
            r == Self::with_raw((page_id * PAGE_2M) as u64),
            r.wf(),
    {
        assert(is_power_of_two(2097152)) by (bit_vector);
        Self::aligned(page_id * PAGE_2M, widths)
    }
}

impl<Kind: AddrKind> Addr<Kind, Aligned<1073741824>> {
    /// The address of the 1 GiB page with the given index.
    pub fn page_1g(page_id: u64, widths: &AddressWidths) -> (r: Self)
        requires
            1 <= Kind::spec_addr_width_bits(*widths) <= 64,
            page_id * PAGE_1G <= u64::MAX,
            is_canonical((page_id * PAGE_1G) as u64, Kind::spec_addr_width_bits(*widths)),
        ensures
            r == Self::with_raw((page_id * PAGE_1G) as u64),
            r.wf(),
    {
        assert(is_power_of_two(1073741824)) by (bit_vector);
        Self::aligned(page_id * PAGE_1G, widths)
    }
}

impl<Kind: AddrKind, Page: AddrPage + AddrAlign> Addr<Kind, Page> {
    pub open spec fn page_id_spec(&self) -> u64 {
        (self@ / Page::spec_align()) as u64
    }

    /// The index of the page that starts at this address.
    pub fn page_id(&self) -> (r: u64)
        ensures
            r == self.page_id_spec(),
    {
        proof {
            Page::page_size_is_positive();
        }
        self.addr / Page::align()
    }
}

/// A raw value that is not a multiple of the alignment is rejected for its
/// alignment, and a raw value that reaches into the gap between the low
/// and the high half of the address space is rejected as not addressable,
/// if not already for its alignment. Nothing else is rejected.
pub proof fn lemma_address_rejection<Kind: AddrKind, Align: AddrAlign>(addr: u64, widths: AddressWidths)
    requires
        1 <= Kind::spec_addr_width_bits(widths) <= 64,
        Align::spec_align() > 0,
    ensures
        addr % Align::spec_align() != 0 ==> verify_addr_spec::<Kind, Align>(addr, widths)
            is Err,
        (1u64 << ((Kind::spec_addr_width_bits(widths) - 1) as u64)) <= addr <= u64::MAX - (1u64 << ((
        Kind::spec_addr_width_bits(widths) - 1) as u64)) ==> verify_addr_spec::<Kind, Align>(
            addr,
            widths,
        ) is Err,
        verify_addr_spec::<Kind, Align>(addr, widths) is Ok <==> addr % Align::spec_align() == 0
            && is_canonical(addr, Kind::spec_addr_width_bits(widths)),
{
}

/// Building a page address from an index and reading the index back gives
/// the index, for each of the three page sizes.
pub proof fn lemma_page_round_trip<Kind: AddrKind>(page_id: u64)
    ensures
        page_id * PAGE_4K <= u64::MAX ==> Addr::<Kind, Aligned<4096>>::with_raw(
            (page_id * PAGE_4K) as u64,
        ).page_id_spec() == page_id,
        page_id * PAGE_2M <= u64::MAX ==> Addr::<Kind, Aligned<2097152>>::with_raw(
            (page_id * PAGE_2M) as u64,
        ).page_id_spec() == page_id,
        page_id * PAGE_1G <= u64::MAX ==> Addr::<Kind, Aligned<1073741824>>::with_raw(
            (page_id * PAGE_1G) as u64,
        ).page_id_spec() == page_id,
{
}

impl<KindO: AddrKind, AlignO: AddrAlign, KindI: AddrKind, AlignI: AddrAlign> PartialEq<
    Addr<KindI, AlignI>,
> for Addr<KindO, AlignO> {
    fn eq(&self, other: &Addr<KindI, AlignI>) -> (r: bool) {
        self.addr == other.addr
    }
}

impl<KindO: AddrKind, AlignO: AddrAlign, KindI: AddrKind, AlignI: AddrAlign> PartialEqSpecImpl<
    Addr<KindI, AlignI>,
> for Addr<KindO, AlignO> {
    open spec fn obeys_eq_spec() -> bool {
        true
    }

    open spec fn eq_spec(&self, other: &Addr<KindI, AlignI>) -> bool {
        self@ == other@
    }
}

impl<KindO: AddrKind, AlignO: AddrAlign> Eq for Addr<KindO, AlignO> {
}

impl<KindO: AddrKind, AlignO: AddrAlign, KindI: AddrKind, AlignI: AddrAlign> PartialOrd<
    Addr<KindI, AlignI>,
> for Addr<KindO, AlignO> {
    fn partial_cmp(&self, other: &Addr<KindI, AlignI>) -> (r: Option<Ordering>) {
        if self.addr < other.addr {
            Some(Ordering::Less)
        } else if self.addr == other.addr {
            Some(Ordering::Equal)
        } else {
            Some(Ordering::Greater)
        }
    }
}

impl<KindO: AddrKind, AlignO: AddrAlign, KindI: AddrKind, AlignI: AddrAlign> PartialOrdSpecImpl<
    Addr<KindI, AlignI>,
> for Addr<KindO, AlignO> {
    open spec fn obeys_partial_cmp_spec() -> bool {
        true
    }

    open spec fn partial_cmp_spec(&self, other: &Addr<KindI, AlignI>) -> Option<Ordering> {
        if self@ < other@ {
            Some(Ordering::Less)
        } else if self@ == other@ {
            Some(Ordering::Equal)
        } else {
            Some(Ordering::Greater)
        }
    }
}

} // verus!
