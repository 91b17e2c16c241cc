use vstd::prelude::*;
use itertools::Itertools;

verus! {

/// The access part of a page-protection value.
#[derive(Clone, Copy, Debug, PartialEq, Eq, Structural)]
pub enum MemoryPermissionsRwe {
    Unknown,
    NoAccess,
    Read,
    ReadWrite,
    ReadWriteCow,
    Execute,
    ReadExecute,
    ReadWriteExecute,
}

/// A page-protection value: its access part and whether it is a guard page.
#[derive(Clone, Copy, Debug, PartialEq, Eq, Structural)]
pub struct MemoryPermissions {
    pub rwe: MemoryPermissionsRwe,
    pub is_guard: bool,
}

/// The guard-page flag of a page-protection constant.
pub const PAGE_GUARD_FLAG: u32 = 0x100;

/// The access kind that a page-protection code (the low byte of a constant)
/// stands for, if it stands for one.
pub open spec fn rwe_of_code(code: u32) -> Option<MemoryPermissionsRwe> {
    if code == 0x0 {
        Some(MemoryPermissionsRwe::Unknown)
    } else if code == 0x1 {
        Some(MemoryPermissionsRwe::NoAccess)
    } else if code == 0x2 {
        Some(MemoryPermissionsRwe::Read)
    } else if code == 0x4 {
        Some(MemoryPermissionsRwe::ReadWrite)
    } else if code == 0x8 {
        Some(MemoryPermissionsRwe::ReadWriteCow)
    } else if code == 0x10 {
        Some(MemoryPermissionsRwe::Execute)
    } else if code == 0x20 {
        Some(MemoryPermissionsRwe::ReadExecute)
    } else if code == 0x40 {
        Some(MemoryPermissionsRwe::ReadWriteExecute)
    } else {
        None
    }
}

/// The page-protection code of an access kind.
pub open spec fn code_of_rwe(rwe: MemoryPermissionsRwe) -> u32 {
    match rwe {
        MemoryPermissionsRwe::Unknown => 0x0,
        MemoryPermissionsRwe::NoAccess => 0x1,
        MemoryPermissionsRwe::Read => 0x2,
        MemoryPermissionsRwe::ReadWrite => 0x4,
        MemoryPermissionsRwe::ReadWriteCow => 0x8,
        MemoryPermissionsRwe::Execute => 0x10,
        MemoryPermissionsRwe::ReadExecute => 0x20,
        MemoryPermissionsRwe::ReadWriteExecute => 0x40,
    }
}

/// A constant is understood when its low byte is one of the known access codes.
pub open spec fn is_known_constant(constant: u32) -> bool {
    rwe_of_code(constant & 0xff) is Some
}

/// The numeric page-protection constant of a permission value.
pub open spec fn constant_of(permissions: MemoryPermissions) -> u32 {
    (if permissions.is_guard { PAGE_GUARD_FLAG } else { 0u32 }) | code_of_rwe(permissions.rwe)
}

proof fn lemma_code_bits(code: u32, guard: bool)
    requires
        code == 0x0 || code == 0x1 || code == 0x2 || code == 0x4 || code == 0x8 || code == 0x10
            || code == 0x20 || code == 0x40,
    ensures
        ((if guard { 0x100u32 } else { 0u32 }) | code) & 0xff == code,
        (((if guard { 0x100u32 } else { 0u32 }) | code) & 0x100 != 0) == guard,
{
    if guard {
        assert((0x100u32 | code) & 0xff == code && (0x100u32 | code) & 0x100 != 0) by (bit_vector)
            requires
                code == 0x0 || code == 0x1 || code == 0x2 || code == 0x4 || code == 0x8 || code
                    == 0x10 || code == 0x20 || code == 0x40,
        ;
    } else {
        assert((0u32 | code) & 0xff == code && (0u32 | code) & 0x100 == 0) by (bit_vector)
            requires
                code == 0x0 || code == 0x1 || code == 0x2 || code == 0x4 || code == 0x8 || code
                    == 0x10 || code == 0x20 || code == 0x40,
        ;
    }
}

impl MemoryPermissions {
    /// Decodes a page-protection constant: bit 8 is the guard flag and the low
    /// byte names the access kind. Other high bits are ignored.
    pub fn from_winapi_constant(constant: u32) -> (permissions: Self)
        requires
            is_known_constant(constant),
        ensures
            Some(permissions.rwe) == rwe_of_code(constant & 0xff),
            permissions.is_guard == (constant & 0x100 != 0),
    {
        let guard = constant & 0x100 != 0;
        let code = constant & 0xff;
        let rwe = if code == 0x0 {
            MemoryPermissionsRwe::Unknown
        } else if code == 0x1 {
            MemoryPermissionsRwe::NoAccess
        } else if code == 0x2 {
            MemoryPermissionsRwe::Read
        } else if code == 0x4 {
            MemoryPermissionsRwe::ReadWrite
        } else if code == 0x8 {
            MemoryPermissionsRwe::ReadWriteCow
        } else if code == 0x10 {
            MemoryPermissionsRwe::Execute
        } else if code == 0x20 {
            MemoryPermissionsRwe::ReadExecute
        } else {
            MemoryPermissionsRwe::ReadWriteExecute
        };
        MemoryPermissions { rwe, is_guard: guard }
    }

    /// Encodes the permissions as a page-protection constant.
    pub fn to_winapi_constant(&self) -> (constant: u32)
        ensures
            constant == constant_of(*self),
    {
        let rwe: u32 = match self.rwe {
            MemoryPermissionsRwe::Unknown => 0x0,
            MemoryPermissionsRwe::NoAccess => 0x1,
            MemoryPermissionsRwe::Read => 0x2,
            MemoryPermissionsRwe::ReadWrite => 0x4,
            MemoryPermissionsRwe::ReadWriteCow => 0x8,
            MemoryPermissionsRwe::Execute => 0x10,
            MemoryPermissionsRwe::ReadExecute => 0x20,
            MemoryPermissionsRwe::ReadWriteExecute => 0x40,
        };
        (if self.is_guard { 0x100u32 } else { 0u32 }) | rwe
    }
}

/// Encoding permissions and decoding the constant gives the permissions back.
pub proof fn lemma_permissions_round_trip(permissions: MemoryPermissions)
    ensures
        is_known_constant(constant_of(permissions)),
        rwe_of_code(constant_of(permissions) & 0xff) == Some(permissions.rwe),
        (constant_of(permissions) & 0x100 != 0) == permissions.is_guard,
{
    lemma_code_bits(code_of_rwe(permissions.rwe), permissions.is_guard);
}

/// Decoding a known constant and encoding the result gives back the constant's
/// guard bit and low byte; every other bit is dropped.
pub proof fn lemma_constant_round_trip(constant: u32)
    requires
        is_known_constant(constant),
    ensures
        ({
            let permissions = MemoryPermissions {
                rwe: rwe_of_code(constant & 0xff).unwrap(),
                is_guard: constant & 0x100 != 0,
            };
            constant_of(permissions) == constant & 0x1ff
        }),
{
    let code = constant & 0xff;
    assert(code_of_rwe(rwe_of_code(code).unwrap()) == code);
    if constant & 0x100 != 0 {
        assert(0x100u32 | (constant & 0xff) == constant & 0x1ff) by (bit_vector)
            requires
                constant & 0x100 != 0,
        ;
    } else {
        assert(0u32 | (constant & 0xff) == constant & 0x1ff) by (bit_vector)
            requires
                constant & 0x100 == 0,
        ;
    }
}


/// Page state value of a free region in a memory query.
pub const MEM_FREE: u32 = 0x10000;

/// Page state value of a committed region in a memory query.
pub const MEM_COMMIT: u32 = 0x1000;

/// A range of addresses that no allocation holds.
#[derive(Clone, Copy, Debug, PartialEq, Eq, Structural)]
pub struct FreeMemoryRegion {
    pub address: usize,
    pub size: usize,
}

impl FreeMemoryRegion {
    pub fn address(&self) -> (address: usize)
        ensures
            address == self.address,
    {
        self.address
    }

    pub fn size(&self) -> (size: usize)
        ensures
            size == self.size,
    {
        self.size
    }
}

/// A range of pages, with the same state and protection, inside one allocation.
#[derive(Clone, Copy, Debug, PartialEq, Eq, Structural)]
pub struct ReservedMemoryRegion {
    pub address: usize,
    pub size: usize,
    pub is_committed: bool,
    pub allocation_address: usize,
    pub permissions: MemoryPermissions,
}

impl ReservedMemoryRegion {
    pub fn address(&self) -> (address: usize)
        ensures
            address == self.address,
    {
        self.address
    }

    pub fn size(&self) -> (size: usize)
        ensures
            size == self.size,
    {
        self.size
    }

    pub fn is_committed(&self) -> (is_committed: bool)
        ensures
            is_committed == self.is_committed,
    {
        self.is_committed
    }

    pub fn allocation_address(&self) -> (allocation_address: usize)
        ensures
            allocation_address == self.allocation_address,
    {
        self.allocation_address
    }

    pub fn permissions(&self) -> (permissions: MemoryPermissions)
        ensures
            permissions == self.permissions,
    {
        self.permissions
    }
}

/// The description of the region that contains some queried address.
#[derive(Clone, Copy, Debug, PartialEq, Eq, Structural)]
pub enum MemoryRegion {
    Free(FreeMemoryRegion),
    Reserved(ReservedMemoryRegion),
}

impl MemoryRegion {
    /// Classifies the raw answer of a memory query: a region whose state is
    /// `MEM_FREE` is free; any other region is reserved, committed exactly when
    /// its state is `MEM_COMMIT`, with the protection decoded from `protect`.
    pub fn from_query(
        base_address: usize,
        allocation_base: usize,
        region_size: usize,
        state: u32,
        protect: u32,
    ) -> (region: Self)
        requires
            state == MEM_FREE || is_known_constant(protect),
        ensures
            state == MEM_FREE ==> region == MemoryRegion::Free(
                FreeMemoryRegion { address: base_address, size: region_size },
            ),
            state != MEM_FREE ==> (region matches MemoryRegion::Reserved(r) && r.address
                == base_address && r.size == region_size && r.is_committed == (state
                == MEM_COMMIT) && r.allocation_address == allocation_base && Some(
                r.permissions.rwe,
            ) == rwe_of_code(protect & 0xff) && r.permissions.is_guard == (protect & 0x100
                != 0)),
    {
        if state == MEM_FREE {
            MemoryRegion::Free(FreeMemoryRegion { address: base_address, size: region_size })
        } else {
            MemoryRegion::Reserved(
                ReservedMemoryRegion {
                    address: base_address,
                    size: region_size,
                    is_committed: state == MEM_COMMIT,
                    allocation_address: allocation_base,
                    permissions: MemoryPermissions::from_winapi_constant(protect),
                },
            )
        }
    }

    pub open spec fn spec_address(self) -> usize {
        match self {
            MemoryRegion::Free(r) => r.address,
            MemoryRegion::Reserved(r) => r.address,
        }
    }

    pub open spec fn spec_size(self) -> usize {
        match self {
            MemoryRegion::Free(r) => r.size,
            MemoryRegion::Reserved(r) => r.size,
        }
    }

    pub fn address(&self) -> (address: usize)
        ensures
            address == self.spec_address(),
    {
        match self {
            MemoryRegion::Free(r) => r.address,
            MemoryRegion::Reserved(r) => r.address,
        }
    }

    pub fn size(&self) -> (size: usize)
        ensures
            size == self.spec_size(),
    {
        match self {
            MemoryRegion::Free(r) => r.size,
            MemoryRegion::Reserved(r) => r.size,
        }
    }
}

/// The address at which the walk over the address space queries next, after
/// the query at `address` described the region `region_address`, `region_size`:
/// the end of that region, unless computing it wrapped around below `address`.
pub open spec fn spec_next_query_address(address: usize, region_address: usize, region_size: usize) -> Option<usize> {
    let end = if region_address + region_size > usize::MAX {
        (region_address + region_size - (usize::MAX + 1)) as usize
    } else {
        (region_address + region_size) as usize
    };
    if end < address {
        None
    } else {
        Some(end)
    }
}

pub fn next_query_address(address: usize, region_address: usize, region_size: usize) -> (next: Option<usize>)
    ensures
        next == spec_next_query_address(address, region_address, region_size),
{
    let end = region_address.wrapping_add(region_size);
    if end < address {
        None
    } else {
        Some(end)
    }
}

/// One allocation of a process: the consecutive reserved regions that share
/// an allocation base.
#[derive(Clone, Debug)]
pub struct MemoryAllocation {
    pub address: usize,
    pub size: usize,
    pub regions: Vec<ReservedMemoryRegion>,
}

/// Total size of a sequence of regions.
pub open spec fn total_size(regions: Seq<ReservedMemoryRegion>) -> int
    decreases regions.len(),
{
    if regions.len() == 0 {
        0
    } else {
        total_size(regions.drop_last()) + regions.last().size
    }
}

pub proof fn lemma_total_size_concat(a: Seq<ReservedMemoryRegion>, b: Seq<ReservedMemoryRegion>)
    ensures
        total_size(a + b) == total_size(a) + total_size(b),
    decreases b.len(),
{
    if b.len() == 0 {
        assert(a + b =~= a);
    } else {
        lemma_total_size_concat(a, b.drop_last());
        assert((a + b).drop_last() =~= a + b.drop_last());
    }
}

/// The regions of a sequence of allocations, in order.
pub open spec fn regions_of(allocations: Seq<MemoryAllocation>) -> Seq<ReservedMemoryRegion>
    decreases allocations.len(),
{
    if allocations.len() == 0 {
        Seq::empty()
    } else {
        regions_of(allocations.drop_last()) + allocations.last().regions@
    }
}

/// `allocations` splits `regions` into its maximal runs of consecutive regions
/// with one allocation base, each run with its base as address and the sum of
/// its region sizes as size.
pub open spec fn is_allocation_split(
    regions: Seq<ReservedMemoryRegion>,
    allocations: Seq<MemoryAllocation>,
) -> bool {
    &&& regions_of(allocations) == regions
    &&& forall|i: int|
        0 <= i < allocations.len() ==> {
            let a = #[trigger] allocations[i];
            &&& a.regions@.len() > 0
            &&& forall|j: int|
                0 <= j < a.regions@.len() ==> (#[trigger] a.regions@[j]).allocation_address
                    == a.address
            &&& a.size == total_size(a.regions@)
        }
    &&& forall|i: int|
        0 <= i < allocations.len() - 1 ==> (#[trigger] allocations[i]).address != allocations[i
            + 1].address
}

/// `chunks` splits `regions` into its maximal runs by allocation base.
pub open spec fn is_chunking(
    regions: Seq<ReservedMemoryRegion>,
    chunks: Seq<(usize, Vec<ReservedMemoryRegion>)>,
) -> bool {
    &&& chunk_regions(chunks) == regions
    &&& forall|i: int|
        0 <= i < chunks.len() ==> {
            let c = #[trigger] chunks[i];
            &&& c.1@.len() > 0
            &&& forall|j: int|
                0 <= j < c.1@.len() ==> (#[trigger] c.1@[j]).allocation_address == c.0
        }
    &&& forall|i: int| 0 <= i < chunks.len() - 1 ==> (#[trigger] chunks[i]).0 != chunks[i + 1].0
}

pub open spec fn chunk_regions(chunks: Seq<(usize, Vec<ReservedMemoryRegion>)>) -> Seq<ReservedMemoryRegion>
    decreases chunks.len(),
{
    if chunks.len() == 0 {
        Seq::empty()
    } else {
        chunk_regions(chunks.drop_last()) + chunks.last().1@
    }
}

/// Groups the regions into the runs of consecutive regions that have the same
/// allocation base, by `Itertools::chunk_by` keyed on that base. As the crate
/// documents it, `chunk_by` yields, in order, each maximal run of consecutive
/// items with equal keys, together with that key; this contract says that and
/// no more.
#[verifier::external_body]
fn chunk_regions_by_allocation(regions: Vec<ReservedMemoryRegion>) -> (chunks: Vec<(usize, Vec<ReservedMemoryRegion>)>)
    ensures
        is_chunking(regions@, chunks@),
{
    regions
        .into_iter()
        .chunk_by(|region| region.allocation_address)
        .into_iter()
        .map(|(address, chunk)| (address, chunk.collect()))
        .collect()
}

/// Sums the sizes of the regions.
fn sum_region_sizes(regions: &Vec<ReservedMemoryRegion>) -> (size: usize)
    requires
        total_size(regions@) <= usize::MAX,
    ensures
        size == total_size(regions@),
{
    let mut size: usize = 0;
    let mut i: usize = 0;
    while i < regions.len()
        invariant
            i <= regions@.len(),
            size == total_size(regions@.take(i as int)),
            total_size(regions@) <= usize::MAX,
        decreases regions@.len() - i,
    {
        proof {
            assert(regions@.take(i + 1).drop_last() =~= regions@.take(i as int));
            lemma_total_size_concat(regions@.take(i + 1), regions@.skip(i + 1));
            assert(regions@.take(i + 1) + regions@.skip(i + 1) =~= regions@);
            lemma_total_size_nonnegative(regions@.skip(i + 1));
        }
        size = size + regions[i].size;
        i = i + 1;
    }
    assert(regions@.take(i as int) =~= regions@);
    size
}

pub proof fn lemma_total_size_nonnegative(regions: Seq<ReservedMemoryRegion>)
    ensures
        total_size(regions) >= 0,
    decreases regions.len(),
{
    if regions.len() > 0 {
        lemma_total_size_nonnegative(regions.drop_last());
    }
}

/// The regions all have the allocation base of the first one.
pub open spec fn same_base(regions: Seq<ReservedMemoryRegion>) -> bool {
    forall|k: int| 0 <= k < regions.len() ==> (#[trigger] regions[k]).allocation_address
        == regions[0].allocation_address
}

/// Every run of consecutive regions with one allocation base has a total size
/// that fits in the address width.
pub open spec fn runs_fit(regions: Seq<ReservedMemoryRegion>) -> bool {
    forall|i: int, j: int|
        0 <= i <= j <= regions.len() && #[trigger] same_base(regions.subrange(i, j)) ==> total_size(
            regions.subrange(i, j),
        ) <= usize::MAX
}

/// Groups the reserved regions of a process, in address order, into its
/// allocations: each maximal run of consecutive regions with one allocation
/// base becomes one allocation at that base, whose size is the sum of the
/// sizes of its regions.
pub fn group_memory_allocations(regions: Vec<ReservedMemoryRegion>) -> (allocations: Vec<MemoryAllocation>)
    requires
        runs_fit(regions@),
    ensures
        is_allocation_split(regions@, allocations@),
{
    let ghost all = regions@;
    let chunks = chunk_regions_by_allocation(regions);
    let mut allocations: Vec<MemoryAllocation> = Vec::new();
    let mut chunks = chunks;
    let ghost all_chunks = chunks@;
    let mut i: usize = 0;
    let n = chunks.len();
    while i < n
        invariant
            n == all_chunks.len(),
            i <= n,
            chunks@ == all_chunks.skip(i as int),
            allocations@.len() == i,
            is_chunking(all, all_chunks),
            runs_fit(all),
            regions_of(allocations@) == chunk_regions(all_chunks.take(i as int)),
            forall|k: int|
                0 <= k < i ==> {
                    &&& (#[trigger] allocations@[k]).address == all_chunks[k].0
                    &&& allocations@[k].regions@ == all_chunks[k].1@
                    &&& allocations@[k].size == total_size(all_chunks[k].1@)
                },
        decreases n - i,
    {
        let chunk = chunks.remove(0);
        assert(chunk == all_chunks[i as int]);
        assert(chunks@ =~= all_chunks.skip(i + 1));
        proof {
            lemma_chunk_is_run(all_chunks, i as int);
        }
        let size = sum_region_sizes(&chunk.1);
        let ghost prev = allocations@;
        allocations.push(MemoryAllocation { address: chunk.0, size, regions: chunk.1 });
        proof {
            assert(all_chunks.take(i + 1).drop_last() =~= all_chunks.take(i as int));
            assert(allocations@.drop_last() =~= prev);
        }
        i = i + 1;
    }
    proof {
        assert(all_chunks.take(n as int) =~= all_chunks);
    }
    allocations
}

proof fn lemma_chunk_regions_concat(
    a: Seq<(usize, Vec<ReservedMemoryRegion>)>,
    b: Seq<(usize, Vec<ReservedMemoryRegion>)>,
)
    ensures
        chunk_regions(a + b) == chunk_regions(a) + chunk_regions(b),
    decreases b.len(),
{
    if b.len() == 0 {
        assert(a + b =~= a);
        assert(chunk_regions(a) + chunk_regions(b) =~= chunk_regions(a));
    } else {
        lemma_chunk_regions_concat(a, b.drop_last());
        assert((a + b).drop_last() =~= a + b.drop_last());
        assert((a + b).last() == b.last());
        assert(chunk_regions(a) + chunk_regions(b) =~= chunk_regions(a) + chunk_regions(
            b.drop_last(),
        ) + b.last().1@);
    }
}

/// The regions of chunk `i` are a run of consecutive regions with one base,
/// so their total size fits.
proof fn lemma_chunk_is_run(chunks: Seq<(usize, Vec<ReservedMemoryRegion>)>, i: int)
    requires
        0 <= i < chunks.len(),
        is_chunking(chunk_regions(chunks), chunks),
        runs_fit(chunk_regions(chunks)),
    ensures
        total_size(chunks[i].1@) <= usize::MAX,
{
    let all = chunk_regions(chunks);
    let before = chunks.take(i);
    let after = chunks.skip(i + 1);
    assert(chunks =~= before + seq![chunks[i]] + after);
    lemma_chunk_regions_concat(before + seq![chunks[i]], after);
    lemma_chunk_regions_concat(before, seq![chunks[i]]);
    let single = seq![chunks[i]];
    assert(single.drop_last() =~= Seq::<(usize, Vec<ReservedMemoryRegion>)>::empty());
    assert(single.last() == chunks[i]);
    assert(chunk_regions(single.drop_last()) =~= Seq::<ReservedMemoryRegion>::empty());
    assert(chunk_regions(single) == chunk_regions(single.drop_last()) + single.last().1@);
    assert(chunk_regions(single) =~= chunks[i].1@);
    let start = chunk_regions(before).len() as int;
    let run = chunks[i].1@;
    assert(all == chunk_regions(before) + run + chunk_regions(after));
    assert(all.subrange(start, start + run.len()) =~= run);
    let c = chunks[i];
    assert(c.1@.len() > 0);
    assert forall|k: int| 0 <= k < run.len() implies (#[trigger] run[k]).allocation_address
        == run[0].allocation_address by {
        assert(c.1@[k].allocation_address == c.0);
        assert(c.1@[0].allocation_address == c.0);
    }
    assert(same_base(all.subrange(start, start + run.len())));
}

} // verus!
