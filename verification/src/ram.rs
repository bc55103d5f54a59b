//! Guest memory: one host allocation that backs the guest's RAM, laid out as
//! regions that never overlap in guest-physical space, and the translation of
//! guest-physical addresses to host addresses.

use vstd::prelude::*;
use crate::error::VmmError;

verus! {

/// Requested sizes are rounded up to a multiple of this many bytes.
pub const SIZE_ALIGNMENT: usize = 16;

/// Region flag that asks the hypervisor to track the pages the guest dirties.
pub const MEM_LOG_DIRTY_PAGES: u32 = 1;

/// The least multiple of `SIZE_ALIGNMENT` that is not below `size`.
pub open spec fn align_up(size: int) -> int {
    ((size + 15) / 16) * 16
}

/// Whether the half-open guest ranges `(start, size)` share an address.
pub open spec fn ranges_intersect(a: (u64, usize), b: (u64, usize)) -> bool {
    a.0 < b.0 + b.1 && b.0 < a.0 + a.1
}

/// One mapping of guest-physical memory onto host memory, as it is
/// registered with the hypervisor.
#[derive(Debug, Clone, Copy, PartialEq, Eq, Structural)]
pub struct GuestMemoryRegion {
    /// The hypervisor's slot for the mapping.
    pub slot: u32,
    /// First guest-physical address of the region.
    pub guest_phys_addr: u64,
    /// Host address that backs `guest_phys_addr`.
    pub host_addr: u64,
    /// Length in bytes.
    pub size: usize,
    /// Region flags for the hypervisor.
    pub flags: u32,
}

impl GuestMemoryRegion {
    /// One past the last guest-physical address of the region.
    pub open spec fn end(self) -> int {
        self.guest_phys_addr + self.size
    }

    /// Whether the region backs the guest-physical address `guest_addr`.
    pub open spec fn contains(self, guest_addr: u64) -> bool {
        self.guest_phys_addr <= guest_addr < self.end()
    }

    /// Whether the region backs all of `[guest_addr, guest_addr + len)`.
    pub open spec fn contains_range(self, guest_addr: u64, len: usize) -> bool {
        self.guest_phys_addr <= guest_addr && guest_addr + len <= self.end()
    }

    /// Whether two regions share a guest-physical address.
    pub open spec fn overlaps(self, other: GuestMemoryRegion) -> bool {
        self.guest_phys_addr < other.end() && other.guest_phys_addr < self.end()
    }

    /// A region is not empty, does not start at the null host address and
    /// wraps around neither address space.
    pub open spec fn valid(self) -> bool {
        &&& self.size > 0
        &&& self.host_addr > 0
        &&& self.end() <= u64::MAX
        &&& self.host_addr + self.size <= u64::MAX
    }

    /// The part of `[guest_addr, guest_addr + count)` that the region holds,
    /// for an address within the region: its host address and its length.
    pub open spec fn window(self, guest_addr: u64, count: usize) -> (u64, usize) {
        (
            (self.host_addr + (guest_addr - self.guest_phys_addr)) as u64,
            if count <= self.end() - guest_addr {
                count
            } else {
                (self.end() - guest_addr) as usize
            },
        )
    }

    /// What `kvm_allocate_region` answers, if it accepts the request.
    pub open spec fn spec_allocate(
        slot: u32,
        userspace_addr: Option<u64>,
        guest_phys_addr: u64,
        size: usize,
    ) -> Option<GuestMemoryRegion> {
        match userspace_addr {
            Some(host_addr) => {
                let region = GuestMemoryRegion {
                    slot,
                    guest_phys_addr,
                    host_addr,
                    size,
                    flags: MEM_LOG_DIRTY_PAGES,
                };
                if region.valid() {
                    Some(region)
                } else {
                    None
                }
            },
            None => None,
        }
    }
}

/// The invariant of guest memory. The RAM is one host allocation of
/// `mem_size` bytes at `load_addr` that the guest sees at `guest_phys_addr`.
/// Every region is a non-empty window of it, registered under the slot that
/// equals its position, and no two regions share a guest-physical address.
pub open spec fn layout_ok(
    load_addr: u64,
    mem_size: usize,
    guest_phys_addr: u64,
    regions: Seq<GuestMemoryRegion>,
) -> bool {
    &&& mem_size > 0
    &&& load_addr > 0
    &&& load_addr + mem_size <= u64::MAX
    &&& guest_phys_addr + mem_size <= u64::MAX
    &&& 0 < regions.len() <= u32::MAX
    &&& forall|i: int|
        0 <= i < regions.len() ==> {
            let r = #[trigger] regions[i];
            &&& r.size > 0
            &&& guest_phys_addr <= r.guest_phys_addr
            &&& r.end() <= guest_phys_addr + mem_size
            &&& r.host_addr == load_addr + (r.guest_phys_addr - guest_phys_addr)
            &&& r.slot == i
            &&& r.flags == MEM_LOG_DIRTY_PAGES
        }
    &&& forall|i: int, j: int|
        0 <= i < j < regions.len() ==> !(#[trigger] regions[i]).overlaps(#[trigger] regions[j])
}

/// The memory of one guest.
#[derive(Debug)]
pub struct Ram {
    load_addr: u64,
    mem_size: usize,
    guest_phys_addr: u64,
    tss_addr: Option<u64>,
    regions: Vec<GuestMemoryRegion>,
}

impl Ram {
    #[verifier::type_invariant]
    spec fn inv(&self) -> bool {
        self.wf()
    }

    /// Host address of the first byte of RAM.
    pub closed spec fn spec_load_addr(&self) -> u64 {
        self.load_addr
    }

    /// Size of the RAM in bytes.
    pub closed spec fn spec_mem_size(&self) -> usize {
        self.mem_size
    }

    /// Guest-physical address of the first byte of RAM.
    pub closed spec fn spec_guest_phys_addr(&self) -> u64 {
        self.guest_phys_addr
    }

    /// Guest-physical address set aside for the task state segment.
    pub closed spec fn spec_tss_addr(&self) -> Option<u64> {
        self.tss_addr
    }

    /// The registered regions, by slot.
    pub closed spec fn spec_regions(&self) -> Seq<GuestMemoryRegion> {
        self.regions@
    }

    /// Every `Ram` that exists at run time satisfies this.
    pub open spec fn wf(&self) -> bool {
        layout_ok(
            self.spec_load_addr(),
            self.spec_mem_size(),
            self.spec_guest_phys_addr(),
            self.spec_regions(),
        )
    }

    /// Whether some region backs `guest_addr`.
    pub open spec fn backs(&self, guest_addr: u64) -> bool {
        exists|i: int|
            0 <= i < self.spec_regions().len() && (#[trigger] self.spec_regions()[i]).contains(
                guest_addr,
            )
    }

    /// Whether a single region backs all of `[guest_addr, guest_addr + len)`.
    pub open spec fn backs_range(&self, guest_addr: u64, len: usize) -> bool {
        exists|i: int|
            0 <= i < self.spec_regions().len() && (
            #[trigger] self.spec_regions()[i]).contains_range(guest_addr, len)
    }

    /// The host address for a guest-physical address:
    /// `load_addr + guest_addr - guest_phys_addr` where a region backs the
    /// address, nothing elsewhere.
    pub open spec fn spec_to_host_addr(&self, guest_addr: u64) -> Option<u64> {
        if self.backs(guest_addr) {
            Some((self.spec_load_addr() + (guest_addr - self.spec_guest_phys_addr())) as u64)
        } else {
            None
        }
    }

    /// The host address of a run of `len` guest bytes that one region backs
    /// in full.
    pub open spec fn spec_to_host_range(&self, guest_addr: u64, len: usize) -> Option<u64> {
        if self.backs_range(guest_addr, len) {
            Some((self.spec_load_addr() + (guest_addr - self.spec_guest_phys_addr())) as u64)
        } else {
            None
        }
    }

    /// `window` is what the region that backs `guest_addr` holds of
    /// `[guest_addr, guest_addr + count)`.
    pub open spec fn is_window(&self, guest_addr: u64, count: usize, window: (u64, usize)) -> bool {
        exists|i: int|
            0 <= i < self.spec_regions().len() && (#[trigger] self.spec_regions()[i]).contains(
                guest_addr,
            ) && self.spec_regions()[i].window(guest_addr, count) == window
    }

    /// RAM of `mem_size` bytes that the host holds at `load_addr` and the
    /// guest sees at `guest_phys_addr`, registered as a single region in
    /// slot 0. An empty allocation, a null host address, or one that would
    /// wrap around an address space is refused.
    pub fn new(load_addr: u64, mem_size: usize, guest_phys_addr: u64, tss_addr: Option<u64>) -> (ram:
        Result<Ram, VmmError>)
        ensures
            match ram {
                Ok(ram) => {
                    &&& ram.wf()
                    &&& ram.spec_load_addr() == load_addr
                    &&& ram.spec_mem_size() == mem_size
                    &&& ram.spec_guest_phys_addr() == guest_phys_addr
                    &&& ram.spec_tss_addr() == tss_addr
                    &&& ram.spec_regions() == seq![
                        GuestMemoryRegion {
                            slot: 0,
                            guest_phys_addr,
                            host_addr: load_addr,
                            size: mem_size,
                            flags: MEM_LOG_DIRTY_PAGES,
                        },
                    ]
                },
                Err(e) => e == VmmError::Allocation,
            },
            ram is Ok <==> mem_size > 0 && load_addr > 0 && load_addr + mem_size <= u64::MAX
                && guest_phys_addr + mem_size <= u64::MAX,
    {
        match RamBuilder::kvm_allocate_region(0, Some(load_addr), guest_phys_addr, mem_size) {
            Ok(region) => {
                let mut regions: Vec<GuestMemoryRegion> = Vec::new();
                regions.push(region);
                Ok(Ram { load_addr, mem_size, guest_phys_addr, tss_addr, regions })
            },
            Err(e) => Err(e),
        }
    }

    /// Size of the RAM in bytes.
    #[inline(always)]
    pub fn mem_size(&self) -> (size: usize)
        ensures
            size == self.spec_mem_size(),
            self.wf(),
    {
        proof {
            use_type_invariant(self);
        }
        self.mem_size
    }

    /// Host address of the first byte of RAM.
    #[inline(always)]
    pub fn load_addr(&self) -> (addr: u64)
        ensures
            addr == self.spec_load_addr(),
            self.wf(),
    {
        proof {
            use_type_invariant(self);
        }
        self.load_addr
    }

    /// Guest-physical address of the first byte of RAM.
    #[inline(always)]
    pub fn guest_phys_addr(&self) -> (addr: u64)
        ensures
            addr == self.spec_guest_phys_addr(),
            self.wf(),
    {
        proof {
            use_type_invariant(self);
        }
        self.guest_phys_addr
    }

    /// Guest-physical address set aside for the task state segment.
    pub fn tss_addr(&self) -> (addr: Option<u64>)
        ensures
            addr == self.spec_tss_addr(),
    {
        self.tss_addr
    }

    /// The regions to register with the hypervisor, by slot.
    pub fn regions(&self) -> (regions: &Vec<GuestMemoryRegion>)
        ensures
            regions@ == self.spec_regions(),
            self.wf(),
    {
        proof {
            use_type_invariant(self);
        }
        &self.regions
    }

    /// Translates a guest-physical address to the host address that backs
    /// it. An address that no region backs is `OutOfRange`.
    pub fn to_host_addr(&self, guest_addr: u64) -> (host_addr: Result<u64, VmmError>)
        ensures
            host_addr == match self.spec_to_host_addr(guest_addr) {
                Some(addr) => Ok::<u64, VmmError>(addr),
                None => Err(VmmError::OutOfRange),
            },
    {
        self.to_host_range(guest_addr, 1)
    }

    /// Translates the first address of `[guest_addr, guest_addr + len)`,
    /// provided that one region backs the whole run; `OutOfRange` otherwise.
    /// An empty run is backed wherever its address lies within a region or
    /// at its end.
    pub fn to_host_range(&self, guest_addr: u64, len: usize) -> (host_addr: Result<u64, VmmError>)
        ensures
            host_addr == match self.spec_to_host_range(guest_addr, len) {
                Some(addr) => Ok::<u64, VmmError>(addr),
                None => Err(VmmError::OutOfRange),
            },
            len == 1 ==> self.spec_to_host_range(guest_addr, len) == self.spec_to_host_addr(
                guest_addr,
            ),
    {
        proof {
            use_type_invariant(self);
            if len == 1 {
                assert(self.backs(guest_addr) <==> self.backs_range(guest_addr, len)) by {
                    if self.backs(guest_addr) {
                        let i = choose|i: int|
                            0 <= i < self.spec_regions().len() && (
                            #[trigger] self.spec_regions()[i]).contains(guest_addr);
                        assert(self.spec_regions()[i].contains_range(guest_addr, len));
                    }
                    if self.backs_range(guest_addr, len) {
                        let i = choose|i: int|
                            0 <= i < self.spec_regions().len() && (
                            #[trigger] self.spec_regions()[i]).contains_range(guest_addr, len);
                        assert(self.spec_regions()[i].contains(guest_addr));
                    }
                }
            }
        }
        let mut i: usize = 0;
        while i < self.regions.len()
            invariant
                0 <= i <= self.regions@.len(),
                self.wf(),
                forall|k: int| 0 <= k < i ==> !(#[trigger] self.regions@[k]).contains_range(guest_addr, len),
            decreases self.regions@.len() - i,
        {
            let region = self.regions[i];
            if region.guest_phys_addr <= guest_addr {
                let offset: u64 = guest_addr - region.guest_phys_addr;
                if offset <= region.size as u64 && len as u64 <= region.size as u64 - offset {
                    assert(region.contains_range(guest_addr, len));
                    return Ok(region.host_addr + offset);
                }
            }
            i += 1;
        }
        Err(VmmError::OutOfRange)
    }
}

impl Ram {
    /// The readable part of `[guest_addr, guest_addr + count)`: the host
    /// address of `guest_addr` and the number of bytes, at most `count`, up
    /// to the end of the region that backs it. `None` where no region backs
    /// `guest_addr`.
    pub fn window_at(&self, guest_addr: u64, count: usize) -> (window: Option<(u64, usize)>)
        ensures
            match window {
                Some(window) => self.is_window(guest_addr, count, window),
                None => !self.backs(guest_addr),
            },
    {
        proof {
            use_type_invariant(self);
        }
        let mut i: usize = 0;
        while i < self.regions.len()
            invariant
                0 <= i <= self.regions@.len(),
                self.wf(),
                forall|k: int| 0 <= k < i ==> !(#[trigger] self.regions@[k]).contains(guest_addr),
            decreases self.regions@.len() - i,
        {
            let region = self.regions[i];
            if region.guest_phys_addr <= guest_addr {
                let offset: u64 = guest_addr - region.guest_phys_addr;
                if offset < region.size as u64 {
                    let room: usize = region.size - offset as usize;
                    let len: usize = if count <= room {
                        count
                    } else {
                        room
                    };
                    assert(region.contains(guest_addr));
                    assert(region.window(guest_addr, count) == (
                        (region.host_addr + offset) as u64,
                        len,
                    ));
                    assert(self.is_window(guest_addr, count, ((region.host_addr + offset) as u64, len)));
                    return Some((region.host_addr + offset, len));
                }
            }
            i += 1;
        }
        None
    }
}

/// Collects the size and the layout of the RAM before it is allocated.
#[derive(Debug)]
pub struct RamBuilder {
    mem_size: usize,
    regions: Vec<(u64, usize)>,
}

/// Whether the declared windows `(start, size)` can be registered for RAM of
/// `mem_size` bytes: each is non-empty and lies within the RAM, no two share
/// an address, and there is a slot for each.
pub open spec fn declared_ok(mem_size: usize, declared: Seq<(u64, usize)>) -> bool {
    &&& declared.len() <= u32::MAX
    &&& forall|i: int|
        0 <= i < declared.len() ==> (#[trigger] declared[i]).1 > 0 && declared[i].0 + declared[i].1
            <= mem_size
    &&& forall|i: int, j: int|
        0 <= i < j < declared.len() ==> !ranges_intersect(
            #[trigger] declared[i],
            #[trigger] declared[j],
        )
}

/// Whether the host allocation succeeded and holds `mem_size` bytes below
/// the top of the address space.
pub open spec fn host_ok(userspace_addr: Option<u64>, mem_size: usize) -> bool {
    userspace_addr matches Some(addr) && addr > 0 && addr + mem_size <= u64::MAX
}

/// The regions registered for RAM at host address `load_addr`: the declared
/// windows in their order, or the whole RAM where none was declared.
pub open spec fn planned_regions(load_addr: u64, mem_size: usize, declared: Seq<(u64, usize)>) -> Seq<
    GuestMemoryRegion,
> {
    if declared.len() == 0 {
        seq![
            GuestMemoryRegion {
                slot: 0,
                guest_phys_addr: 0,
                host_addr: load_addr,
                size: mem_size,
                flags: MEM_LOG_DIRTY_PAGES,
            },
        ]
    } else {
        Seq::new(
            declared.len(),
            |i: int|
                GuestMemoryRegion {
                    slot: i as u32,
                    guest_phys_addr: declared[i].0,
                    host_addr: (load_addr + declared[i].0) as u64,
                    size: declared[i].1,
                    flags: MEM_LOG_DIRTY_PAGES,
                },
        )
    }
}

/// Rounds a requested size up to the next multiple of `SIZE_ALIGNMENT`;
/// `None` where that multiple does not fit in `usize`.
pub fn align_size(size: usize) -> (aligned: Option<usize>)
    ensures
        aligned == if align_up(size as int) <= usize::MAX {
            Some(align_up(size as int) as usize)
        } else {
            None
        },
{
    let rest: usize = size % SIZE_ALIGNMENT;
    if rest == 0 {
        Some(size)
    } else {
        size.checked_add(SIZE_ALIGNMENT - rest)
    }
}

/// Starts the description of RAM of at least `mem_size` bytes: the size is
/// rounded up to a multiple of `SIZE_ALIGNMENT`. A request for no memory, or
/// one whose rounded size does not fit in `usize`, is refused.
pub fn create_ram(mem_size: usize) -> (builder: Result<RamBuilder, VmmError>)
    ensures
        match builder {
            Ok(builder) => {
                &&& builder.spec_mem_size() == align_up(mem_size as int)
                &&& builder.spec_regions() == Seq::<(u64, usize)>::empty()
            },
            Err(e) => e == VmmError::Allocation,
        },
        builder is Ok <==> mem_size > 0 && align_up(mem_size as int) <= usize::MAX,
{
    if mem_size == 0 {
        return Err(VmmError::Allocation);
    }
    match align_size(mem_size) {
        Some(aligned) => Ok(RamBuilder { mem_size: aligned, regions: Vec::new() }),
        None => Err(VmmError::Allocation),
    }
}

impl RamBuilder {
    #[verifier::type_invariant]
    spec fn inv(&self) -> bool {
        self.mem_size > 0 && self.mem_size % 16 == 0
    }

    /// Size of the RAM to allocate, in bytes.
    pub closed spec fn spec_mem_size(&self) -> usize {
        self.mem_size
    }

    /// The windows declared so far, as `(start, size)`.
    pub closed spec fn spec_regions(&self) -> Seq<(u64, usize)> {
        self.regions@
    }

    /// Size of the host allocation the RAM needs: never zero, a multiple of
    /// `SIZE_ALIGNMENT`.
    pub fn mem_size(&self) -> (size: usize)
        ensures
            size == self.spec_mem_size(),
            size > 0,
            size % 16 == 0,
    {
        proof {
            use_type_invariant(self);
        }
        self.mem_size
    }

    /// Declares the window `[start, start + size)` of the RAM as a region of
    /// its own. Whether the windows are acceptable is decided by `build`.
    pub fn add_region(self, start: u64, size: usize) -> (builder: RamBuilder)
        ensures
            builder.spec_mem_size() == self.spec_mem_size(),
            builder.spec_regions() == self.spec_regions().push((start, size)),
    {
        proof {
            use_type_invariant(&self);
        }
        let RamBuilder { mem_size, mut regions } = self;
        regions.push((start, size));
        RamBuilder { mem_size, regions }
    }

    /// Describes the region that maps `size` bytes at host address
    /// `userspace_addr` to the guest-physical address `guest_phys_addr`, with
    /// dirty-page logging on. `userspace_addr` is what the host allocation
    /// gave, `None` where it failed. A failed or null allocation, an empty
    /// region, or one that wraps around an address space is refused.
    pub fn kvm_allocate_region(
        slot: u32,
        userspace_addr: Option<u64>,
        guest_phys_addr: u64,
        size: usize,
    ) -> (region: Result<GuestMemoryRegion, VmmError>)
        ensures
            region == match GuestMemoryRegion::spec_allocate(
                slot,
                userspace_addr,
                guest_phys_addr,
                size,
            ) {
                Some(r) => Ok::<GuestMemoryRegion, VmmError>(r),
                None => Err(VmmError::Allocation),
            },
    {
        match userspace_addr {
            Some(host_addr) => {
                if size == 0 || host_addr == 0 {
                    return Err(VmmError::Allocation);
                }
                let len: u64 = size as u64;
                if len > u64::MAX - host_addr || len > u64::MAX - guest_phys_addr {
                    return Err(VmmError::Allocation);
                }
                Ok(
                    GuestMemoryRegion {
                        slot,
                        guest_phys_addr,
                        host_addr,
                        size,
                        flags: MEM_LOG_DIRTY_PAGES,
                    },
                )
            },
            None => Err(VmmError::Allocation),
        }
    }

    /// Whether the declared windows are acceptable for this RAM.
    fn check_declared(&self) -> (ok: bool)
        ensures
            ok == declared_ok(self.spec_mem_size(), self.spec_regions()),
    {
        let n: usize = self.regions.len();
        if n > u32::MAX as usize {
            return false;
        }
        let limit: u64 = self.mem_size as u64;
        let mut i: usize = 0;
        while i < n
            invariant
                0 <= i <= n,
                n == self.regions@.len(),
                limit == self.mem_size,
                forall|k: int|
                    0 <= k < i ==> (#[trigger] self.regions@[k]).1 > 0 && self.regions@[k].0
                        + self.regions@[k].1 <= self.mem_size,
            decreases n - i,
        {
            let (start, size) = self.regions[i];
            if size == 0 || start > limit || size as u64 > limit - start {
                return false;
            }
            i += 1;
        }
        let mut a: usize = 0;
        while a < n
            invariant
                0 <= a <= n,
                n == self.regions@.len(),
                forall|k: int|
                    0 <= k < n ==> (#[trigger] self.regions@[k]).1 > 0 && self.regions@[k].0
                        + self.regions@[k].1 <= self.mem_size,
                forall|p: int, q: int|
                    0 <= p < a && p < q < n ==> !ranges_intersect(
                        #[trigger] self.regions@[p],
                        #[trigger] self.regions@[q],
                    ),
            decreases n - a,
        {
            let (start_a, size_a) = self.regions[a];
            let mut b: usize = a + 1;
            while b < n
                invariant
                    a < b <= n,
                    n == self.regions@.len(),
                    (start_a, size_a) == self.regions@[a as int],
                    forall|k: int|
                        0 <= k < n ==> (#[trigger] self.regions@[k]).1 > 0 && self.regions@[k].0
                            + self.regions@[k].1 <= self.mem_size,
                    forall|q: int|
                        a < q < b ==> !ranges_intersect(
                            self.regions@[a as int],
                            #[trigger] self.regions@[q],
                        ),
                decreases n - b,
            {
                let (start_b, size_b) = self.regions[b];
                assert(self.regions@[a as int].0 + self.regions@[a as int].1 <= self.mem_size);
                assert(self.regions@[b as int].0 + self.regions@[b as int].1 <= self.mem_size);
                if start_a < start_b + size_b as u64 && start_b < start_a + size_a as u64 {
                    assert(ranges_intersect(self.regions@[a as int], self.regions@[b as int]));
                    return false;
                }
                b += 1;
            }
            a += 1;
        }
        true
    }

    /// Lays out the RAM on the host allocation at `userspace_addr` (`None`
    /// where the allocation failed) and yields the memory with the regions
    /// to register. The RAM starts at guest-physical address 0. Where no
    /// window was declared the whole RAM is one region; otherwise the
    /// declared windows are the regions, in their order. Overlapping, empty
    /// or outlying windows are refused, and so is a failed allocation.
    pub fn build(self, userspace_addr: Option<u64>) -> (ram: Result<Ram, VmmError>)
        ensures
            match ram {
                Ok(ram) => {
                    &&& userspace_addr matches Some(load_addr)
                    &&& ram.wf()
                    &&& ram.spec_load_addr() == load_addr
                    &&& ram.spec_mem_size() == self.spec_mem_size()
                    &&& ram.spec_guest_phys_addr() == 0
                    &&& ram.spec_tss_addr() == None::<u64>
                    &&& ram.spec_regions() == planned_regions(
                        load_addr,
                        self.spec_mem_size(),
                        self.spec_regions(),
                    )
                },
                Err(e) => e == VmmError::Allocation,
            },
            ram is Ok <==> host_ok(userspace_addr, self.spec_mem_size()) && declared_ok(
                self.spec_mem_size(),
                self.spec_regions(),
            ),
    {
        proof {
            use_type_invariant(&self);
        }
        let load_addr: u64 = match userspace_addr {
            Some(addr) => addr,
            None => { return Err(VmmError::Allocation); },
        };
        if load_addr == 0 || self.mem_size as u64 > u64::MAX - load_addr {
            return Err(VmmError::Allocation);
        }
        if !self.check_declared() {
            return Err(VmmError::Allocation);
        }
        let n: usize = self.regions.len();
        let mut regions: Vec<GuestMemoryRegion> = Vec::new();
        if n == 0 {
            regions.push(
                GuestMemoryRegion {
                    slot: 0,
                    guest_phys_addr: 0,
                    host_addr: load_addr,
                    size: self.mem_size,
                    flags: MEM_LOG_DIRTY_PAGES,
                },
            );
        } else {
            let mut i: usize = 0;
            while i < n
                invariant
                    0 <= i <= n,
                    n == self.regions@.len(),
                    n <= u32::MAX,
                    load_addr + self.mem_size <= u64::MAX,
                    declared_ok(self.mem_size, self.regions@),
                    regions@.len() == i,
                    forall|k: int|
                        0 <= k < i ==> #[trigger] regions@[k] == planned_regions(
                            load_addr,
                            self.mem_size,
                            self.regions@,
                        )[k],
                decreases n - i,
            {
                let (start, size) = self.regions[i];
                assert(self.regions@[i as int].0 + self.regions@[i as int].1 <= self.mem_size);
                regions.push(
                    GuestMemoryRegion {
                        slot: i as u32,
                        guest_phys_addr: start,
                        host_addr: load_addr + start,
                        size,
                        flags: MEM_LOG_DIRTY_PAGES,
                    },
                );
                i += 1;
            }
        }
        proof {
            let planned = planned_regions(load_addr, self.mem_size, self.regions@);
            assert(regions@ =~= planned);
            lemma_planned_layout(load_addr, self.mem_size, self.regions@);
        }
        Ok(Ram { load_addr, mem_size: self.mem_size, guest_phys_addr: 0, tss_addr: None, regions })
    }
}

/// Acceptable windows on a good allocation give a well-formed layout.
pub proof fn lemma_planned_layout(load_addr: u64, mem_size: usize, declared: Seq<(u64, usize)>)
    requires
        mem_size > 0,
        host_ok(Some(load_addr), mem_size),
        declared_ok(mem_size, declared),
    ensures
        layout_ok(load_addr, mem_size, 0, planned_regions(load_addr, mem_size, declared)),
{
    let planned = planned_regions(load_addr, mem_size, declared);
    if declared.len() > 0 {
        assert forall|i: int, j: int| 0 <= i < j < planned.len() implies !(
        #[trigger] planned[i]).overlaps(#[trigger] planned[j]) by {
            assert(!ranges_intersect(declared[i], declared[j]));
        }
    }
}

/// Rounding up never shrinks a size, adds fewer than `SIZE_ALIGNMENT` bytes,
/// yields a multiple of `SIZE_ALIGNMENT` and leaves such a multiple alone.
pub proof fn lemma_align_up(size: int)
    requires
        size >= 0,
    ensures
        size <= align_up(size) < size + 16,
        align_up(size) % 16 == 0,
        size % 16 == 0 ==> align_up(size) == size,
        align_up(align_up(size)) == align_up(size),
{
}

/// Translation keeps offsets. For a guest-physical address that lies in
/// region `i`, the host address is as far from the region's host address as
/// the guest address is from the region's guest address; an address that
/// lies in no region has no translation.
pub proof fn lemma_translation_round_trip(ram: Ram, i: int, guest_addr: u64)
    requires
        ram.wf(),
        0 <= i < ram.spec_regions().len(),
    ensures
        ram.spec_regions()[i].contains(guest_addr) ==> {
            &&& ram.spec_to_host_addr(guest_addr) matches Some(host_addr)
            &&& host_addr - ram.spec_regions()[i].host_addr == guest_addr
                - ram.spec_regions()[i].guest_phys_addr
        },
        !ram.backs(guest_addr) ==> ram.spec_to_host_addr(guest_addr) is None,
{
}

/// Regions that share a guest-physical address are never registered: a
/// layout in which two declared windows both hold `guest_addr` is not
/// acceptable, so `build` refuses it whatever the host allocation.
pub proof fn lemma_intersecting_regions_refused(
    mem_size: usize,
    declared: Seq<(u64, usize)>,
    i: int,
    j: int,
    guest_addr: u64,
)
    requires
        0 <= i < declared.len(),
        0 <= j < declared.len(),
        i != j,
        declared[i].0 <= guest_addr < declared[i].0 + declared[i].1,
        declared[j].0 <= guest_addr < declared[j].0 + declared[j].1,
    ensures
        !declared_ok(mem_size, declared),
{
    if i < j {
        assert(ranges_intersect(declared[i], declared[j]));
    } else {
        assert(ranges_intersect(declared[j], declared[i]));
    }
}

/// The regions of a well-formed memory carry distinct slots.
pub proof fn lemma_slots_are_unique(ram: Ram, i: int, j: int)
    requires
        ram.wf(),
        0 <= i < ram.spec_regions().len(),
        0 <= j < ram.spec_regions().len(),
        i != j,
    ensures
        ram.spec_regions()[i].slot != ram.spec_regions()[j].slot,
        !ram.spec_regions()[i].overlaps(ram.spec_regions()[j]),
{
    if i < j {
        assert(!ram.spec_regions()[i].overlaps(ram.spec_regions()[j]));
    } else {
        assert(!ram.spec_regions()[j].overlaps(ram.spec_regions()[i]));
    }
}

} // verus!
