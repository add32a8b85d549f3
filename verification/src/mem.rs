//! Memory-map classification and the physical allocator's registration
//! interface.
//!
//! The physical page allocator is a process-wide singleton created in an
//! inert state, armed exactly once with the virtual-memory offset, and then
//! fed free regions from the boot-supplied memory map. Only its registration
//! interface is in scope here: the [`PageAllocator`] type tracks which ranges
//! have been handed over and rejects registrations that would be unsound
//! (unarmed allocator, ranges past the end of the address space, regions
//! smaller than the minimum page size, and ranges that overlap a range
//! already registered).
//!
//! [`classify_memory_map`] walks the map once, counts regions, and forwards
//! every `Free` region to the allocator; a rejected region is reported and
//! counted, never silently dropped, and never aborts classification of the
//! regions after it.

use vstd::prelude::*;

verus! {

/// Classification tag carried by each region of the boot memory map.
#[derive(Clone, Copy, Debug, PartialEq, Eq, Structural)]
pub enum RegionKind {
    /// Usable memory, to be handed to the page allocator.
    Free,
    /// Reserved or otherwise unusable memory.
    Reserved,
}

/// One contiguous range of physical memory reported by the bootloader.
#[derive(Clone, Copy, Debug, PartialEq, Eq, Structural)]
pub struct Region {
    pub base_addr: u64,
    pub size: u64,
    pub kind: RegionKind,
}

/// Why the allocator refused a region registration.
#[derive(Clone, Copy, Debug, PartialEq, Eq, Structural)]
pub enum AllocError {
    /// `add_region` was called before `set_vm_offset`.
    NotArmed,
    /// `set_vm_offset` was called a second time.
    AlreadyArmed,
    /// The region's end does not fit in the physical address space.
    AddressOverflow,
    /// The region is smaller than the configured minimum page size.
    TooSmall,
    /// The region overlaps a range that was already registered.
    Overlap,
}

/// Mathematical model of the allocator's registration state.
#[verifier::ext_equal]
pub ghost struct AllocModel {
    /// Fixed minimum page size the allocator was constructed with.
    pub min_page_size: u64,
    /// The virtual-memory offset, once armed; `None` while inert.
    pub vm_offset: Option<u64>,
    /// Every `(base, size)` range accepted so far, in registration order.
    pub ranges: Seq<(u64, u64)>,
    /// Number of `add_region` invocations issued so far, accepted or not.
    pub attempts: int,
}

/// Two ranges share at least one address.
pub open spec fn spec_ranges_overlap(b1: u64, s1: u64, b2: u64, s2: u64) -> bool {
    (if b1 > b2 {
        b1 as int
    } else {
        b2 as int
    }) < (if b1 + s1 < b2 + s2 {
        b1 + s1
    } else {
        b2 + s2
    })
}

/// Some already-registered range overlaps `(base, size)`.
pub open spec fn spec_overlaps_any(ranges: Seq<(u64, u64)>, base: u64, size: u64) -> bool {
    exists|i: int|
        0 <= i < ranges.len() && spec_ranges_overlap(ranges[i].0, ranges[i].1, base, size)
}

/// The checks `add_region` performs, in order; `None` means the region is
/// accepted.
pub open spec fn spec_add_check(m: AllocModel, r: Region) -> Option<AllocError> {
    if m.vm_offset is None {
        Some(AllocError::NotArmed)
    } else if r.base_addr + r.size > u64::MAX {
        Some(AllocError::AddressOverflow)
    } else if r.size < m.min_page_size {
        Some(AllocError::TooSmall)
    } else if spec_overlaps_any(m.ranges, r.base_addr, r.size) {
        Some(AllocError::Overlap)
    } else {
        None
    }
}

/// State after one `add_region` invocation: the attempt is always counted,
/// and the range is recorded only when every check passes.
pub open spec fn spec_add(m: AllocModel, r: Region) -> AllocModel {
    let counted = AllocModel { attempts: m.attempts + 1, ..m };
    if spec_add_check(m, r) is None {
        AllocModel { ranges: m.ranges.push((r.base_addr, r.size)), ..counted }
    } else {
        counted
    }
}

/// No two accepted ranges share an address: overlap is rejected at
/// registration, so ownership of every registered byte is exclusive.
pub open spec fn ranges_disjoint(ranges: Seq<(u64, u64)>) -> bool {
    forall|i: int, j: int|
        0 <= i < j < ranges.len() ==> !spec_ranges_overlap(
            (#[trigger] ranges[i]).0,
            ranges[i].1,
            (#[trigger] ranges[j]).0,
            ranges[j].1,
        )
}

/// Internal invariant of the registration state: every accepted range ends
/// within the address space and meets the minimum page size, and no two
/// accepted ranges overlap.
pub open spec fn model_wf(m: AllocModel) -> bool {
    &&& m.attempts >= 0
    &&& forall|i: int|
        0 <= i < m.ranges.len() ==> (#[trigger] m.ranges[i]).0 + m.ranges[i].1 <= u64::MAX
            && m.ranges[i].1 >= m.min_page_size
    &&& ranges_disjoint(m.ranges)
}

/// The registration interface of the physical page allocator.
///
/// Constructed inert; `set_vm_offset` arms it exactly once; `add_region`
/// registrations are then accepted or observably rejected, one by one.
pub struct PageAllocator {
    min_page_size: u64,
    vm_offset: Option<u64>,
    ranges: Vec<(u64, u64)>,
    attempts: u64,
}

impl View for PageAllocator {
    type V = AllocModel;

    closed spec fn view(&self) -> AllocModel {
        AllocModel {
            min_page_size: self.min_page_size,
            vm_offset: self.vm_offset,
            ranges: self.ranges@,
            attempts: self.attempts as int,
        }
    }
}

impl PageAllocator {
    pub open spec fn wf(&self) -> bool {
        model_wf(self@)
    }

    /// A new, inert allocator with the given minimum page size: no offset,
    /// no ranges, no attempts.
    pub fn new(min_page_size: u64) -> (r: PageAllocator)
        ensures
            r@ == (AllocModel {
                min_page_size,
                vm_offset: None,
                ranges: Seq::empty(),
                attempts: 0,
            }),
            r.wf(),
    {
        PageAllocator { min_page_size, vm_offset: None, ranges: Vec::new(), attempts: 0 }
    }

    /// Arm the allocator with its virtual-memory offset. This must happen
    /// exactly once, before any region is added; a second call is a
    /// programmer error, reported and ignored rather than applied.
    pub fn set_vm_offset(&mut self, offset: u64) -> (r: Result<(), AllocError>)
        ensures
            old(self)@.vm_offset is Some ==> final(self)@ == old(self)@ && r == Err::<(),
            AllocError>(AllocError::AlreadyArmed),
            old(self)@.vm_offset is None ==> final(self)@ == (AllocModel {
                vm_offset: Some(offset),
                ..old(self)@
            }) && r == Ok::<(), AllocError>(()),
    {
        if self.vm_offset.is_some() {
            Err(AllocError::AlreadyArmed)
        } else {
            self.vm_offset = Some(offset);
            Ok(())
        }
    }

    /// True once `set_vm_offset` has succeeded.
    pub fn is_armed(&self) -> (r: bool)
        ensures
            r == (self@.vm_offset is Some),
    {
        self.vm_offset.is_some()
    }

    /// Register one free region.
    ///
    /// Every invocation is counted, so a caller's bookkeeping can be held
    /// against the allocator's. The region is recorded only if the allocator
    /// is armed, the range ends within the address space, the region is at
    /// least one minimum page large, and it overlaps no range registered
    /// before it; otherwise the exact reason comes back and the state is
    /// otherwise unchanged.
    pub fn add_region(&mut self, region: Region) -> (r: Result<(), AllocError>)
        requires
            old(self).wf(),
            old(self)@.attempts < u64::MAX,
        ensures
            final(self).wf(),
            final(self)@ == spec_add(old(self)@, region),
            (r is Ok) == (spec_add_check(old(self)@, region) is None),
            r matches Err(e) ==> spec_add_check(old(self)@, region) == Some(e),
    {
        self.attempts = self.attempts + 1;
        if self.vm_offset.is_none() {
            return Err(AllocError::NotArmed);
        }
        if region.base_addr.checked_add(region.size).is_none() {
            return Err(AllocError::AddressOverflow);
        }
        if region.size < self.min_page_size {
            return Err(AllocError::TooSmall);
        }
        let n = self.ranges.len();
        let mut i: usize = 0;
        while i < n
            invariant
                n == self.ranges.len(),
                i <= n,
                self.wf(),
                self@ == (AllocModel { attempts: old(self)@.attempts + 1, ..old(self)@ }),
                old(self)@.vm_offset is Some,
                region.base_addr + region.size <= u64::MAX,
                region.size >= old(self)@.min_page_size,
                forall|j: int|
                    0 <= j < i ==> !spec_ranges_overlap(
                        (#[trigger] self.ranges@[j]).0,
                        self.ranges@[j].1,
                        region.base_addr,
                        region.size,
                    ),
            decreases n - i,
        {
            let (b, s) = self.ranges[i];
            proof {
                assert(self@.ranges[i as int].0 + self@.ranges[i as int].1 <= u64::MAX);
            }
            let lo = if b > region.base_addr {
                b
            } else {
                region.base_addr
            };
            let e1 = b + s;
            let e2 = region.base_addr + region.size;
            let hi = if e1 < e2 {
                e1
            } else {
                e2
            };
            if lo < hi {
                proof {
                    assert(spec_overlaps_any(old(self)@.ranges, region.base_addr, region.size))
                        by {
                        assert(spec_ranges_overlap(
                            old(self)@.ranges[i as int].0,
                            old(self)@.ranges[i as int].1,
                            region.base_addr,
                            region.size,
                        ));
                    }
                }
                return Err(AllocError::Overlap);
            }
            i = i + 1;
        }
        proof {
            assert(!spec_overlaps_any(old(self)@.ranges, region.base_addr, region.size));
        }
        self.ranges.push((region.base_addr, region.size));
        proof {
            assert(self@ =~= spec_add(old(self)@, region));
            let rs = self@.ranges;
            assert forall|a: int, b: int| 0 <= a < b < rs.len() implies !spec_ranges_overlap(
                (#[trigger] rs[a]).0,
                rs[a].1,
                (#[trigger] rs[b]).0,
                rs[b].1,
            ) by {
                if b == rs.len() - 1 {
                    assert(!spec_ranges_overlap(
                        old(self)@.ranges[a].0,
                        old(self)@.ranges[a].1,
                        region.base_addr,
                        region.size,
                    ));
                } else {
                    assert(!spec_ranges_overlap(
                        old(self)@.ranges[a].0,
                        old(self)@.ranges[a].1,
                        old(self)@.ranges[b].0,
                        old(self)@.ranges[b].1,
                    ));
                }
            }
        }
        Ok(())
    }

    /// The minimum page size this allocator was constructed with.
    pub fn min_page_size(&self) -> (r: u64)
        ensures
            r == self@.min_page_size,
    {
        self.min_page_size
    }

    /// How many `add_region` invocations have been issued.
    pub fn attempts(&self) -> (r: u64)
        ensures
            r == self@.attempts,
    {
        self.attempts
    }

    /// How many regions have been accepted.
    pub fn region_count(&self) -> (r: usize)
        ensures
            r == self@.ranges.len(),
    {
        self.ranges.len()
    }

    /// The `i`-th accepted `(base, size)` range, in registration order.
    pub fn registered_region(&self, i: usize) -> (r: (u64, u64))
        requires
            i < self@.ranges.len(),
        ensures
            r == self@.ranges[i as int],
    {
        self.ranges[i]
    }
}

/// How many regions of the map are classified `Free`.
pub open spec fn count_free(s: Seq<Region>) -> int
    decreases s.len(),
{
    if s.len() == 0 {
        0
    } else {
        count_free(s.drop_last()) + if s.last().kind is Free {
            1int
        } else {
            0int
        }
    }
}

/// Total byte count of the regions classified `Free`.
pub open spec fn sum_free_bytes(s: Seq<Region>) -> int
    decreases s.len(),
{
    if s.len() == 0 {
        0
    } else {
        sum_free_bytes(s.drop_last()) + if s.last().kind is Free {
            s.last().size as int
        } else {
            0int
        }
    }
}

/// One classification step: a `Free` region is forwarded to the allocator,
/// any other region leaves the allocator untouched.
pub open spec fn spec_step(m: AllocModel, r: Region) -> AllocModel {
    if r.kind is Free {
        spec_add(m, r)
    } else {
        m
    }
}

/// The allocator state after classifying the whole map, region by region,
/// in map order.
pub open spec fn spec_classify(m: AllocModel, s: Seq<Region>) -> AllocModel
    decreases s.len(),
{
    if s.len() == 0 {
        m
    } else {
        spec_step(spec_classify(m, s.drop_last()), s.last())
    }
}

/// What the classifier reports for the `i`-th region of the map, given the
/// allocator state `m` it started from.
pub open spec fn spec_outcome(m: AllocModel, s: Seq<Region>, i: int) -> RegionOutcome {
    if !(s[i].kind is Free) {
        RegionOutcome::NotFree
    } else {
        match spec_add_check(spec_classify(m, s.take(i)), s[i]) {
            None => RegionOutcome::Added,
            Some(e) => RegionOutcome::Rejected(e),
        }
    }
}

/// What became of one region during classification.
#[derive(Clone, Copy, Debug, PartialEq, Eq, Structural)]
pub enum RegionOutcome {
    /// The region was not `Free`; it was only counted.
    NotFree,
    /// The region was `Free` and the allocator accepted it.
    Added,
    /// The region was `Free` and the allocator rejected it for this reason.
    Rejected(AllocError),
}

/// The summary record emitted after the memory map is exhausted.
#[derive(Clone, Copy, Debug, PartialEq, Eq, Structural)]
pub struct RegionSummary {
    /// Every region of the map, whatever its kind.
    pub total: usize,
    /// The regions classified `Free`.
    pub free: usize,
    /// Byte total of the `Free` regions, accumulated independently of the
    /// allocator's own bookkeeping as a diagnostic cross-check.
    pub free_bytes: u128,
    /// `Free` regions the allocator accepted.
    pub added: usize,
    /// `Free` regions the allocator rejected.
    pub rejected: usize,
}

/// Classifier completeness: every region counted `Free` is exactly one
/// `add_region` invocation, so the allocator's attempt counter grows by the
/// `Free` count, whatever the allocator accepted.
pub proof fn lemma_classifier_completeness(m: AllocModel, s: Seq<Region>)
    ensures
        spec_classify(m, s).attempts == m.attempts + count_free(s),
    decreases s.len(),
{
    if s.len() > 0 {
        lemma_classifier_completeness(m, s.drop_last());
    }
}

/// Both counts over a map prefix stay within the prefix length.
pub proof fn lemma_count_free_bounds(s: Seq<Region>)
    ensures
        0 <= count_free(s) <= s.len(),
    decreases s.len(),
{
    if s.len() > 0 {
        lemma_count_free_bounds(s.drop_last());
    }
}

/// The free-byte total of a map is bounded by one maximal region per entry.
pub proof fn lemma_sum_free_bytes_bound(s: Seq<Region>)
    ensures
        0 <= sum_free_bytes(s) <= s.len() * (u64::MAX as int),
    decreases s.len(),
{
    if s.len() > 0 {
        lemma_sum_free_bytes_bound(s.drop_last());
        assert(sum_free_bytes(s) <= s.len() * (u64::MAX as int)) by (nonlinear_arith)
            requires
                sum_free_bytes(s.drop_last()) <= (s.len() - 1) * (u64::MAX as int),
                sum_free_bytes(s) <= sum_free_bytes(s.drop_last()) + u64::MAX,
                s.len() >= 1,
        ;
    }
}

/// Ordering law: before `set_vm_offset` has armed the allocator, every
/// `add_region` invocation is rejected as `NotArmed` and registers nothing.
pub proof fn lemma_add_before_arm_rejected(m: AllocModel, r: Region)
    requires
        m.vm_offset is None,
    ensures
        spec_add_check(m, r) == Some(AllocError::NotArmed),
        spec_add(m, r).ranges == m.ranges,
        spec_add(m, r).attempts == m.attempts + 1,
{
}

/// Boundary law: a region smaller than the configured minimum page size is
/// reported as a rejected addition, never silently dropped nor accepted.
pub proof fn lemma_small_region_rejected(m: AllocModel, r: Region)
    requires
        m.vm_offset is Some,
        r.base_addr + r.size <= u64::MAX,
        r.size < m.min_page_size,
    ensures
        spec_add_check(m, r) == Some(AllocError::TooSmall),
        spec_add(m, r).ranges == m.ranges,
        spec_add(m, r).attempts == m.attempts + 1,
{
}

/// Idempotence-under-misuse law: registering the same non-empty address
/// range twice does not corrupt the allocator's state; the second
/// registration is rejected as an overlap and registers nothing.
pub proof fn lemma_duplicate_registration_rejected(m: AllocModel, r: Region)
    requires
        spec_add_check(m, r) is None,
        r.size > 0,
    ensures
        spec_add_check(spec_add(m, r), r) == Some(AllocError::Overlap),
        spec_add(spec_add(m, r), r).ranges == spec_add(m, r).ranges,
{
    let m1 = spec_add(m, r);
    assert(m1.ranges[m.ranges.len() as int] == (r.base_addr, r.size));
    assert(spec_overlaps_any(m1.ranges, r.base_addr, r.size)) by {
        assert(spec_ranges_overlap(
            m1.ranges[m.ranges.len() as int].0,
            m1.ranges[m.ranges.len() as int].1,
            r.base_addr,
            r.size,
        ));
    }
}

/// Walk the boot memory map once: count every region, forward each `Free`
/// region to the allocator, and report what became of each, together with a
/// summary of the whole map.
///
/// A region the allocator rejects is counted and reported, and does not stop
/// the regions after it from being classified. The free-byte total is
/// accumulated here, independently of the allocator, as a diagnostic
/// cross-check.
pub fn classify_memory_map(alloc: &mut PageAllocator, map: &Vec<Region>) -> (r: (
    RegionSummary,
    Vec<RegionOutcome>,
))
    requires
        old(alloc).wf(),
        old(alloc)@.vm_offset is Some,
        old(alloc)@.attempts + map@.len() <= u64::MAX,
    ensures
        final(alloc).wf(),
        final(alloc)@ == spec_classify(old(alloc)@, map@),
        final(alloc)@.attempts == old(alloc)@.attempts + count_free(map@),
        r.0.total == map@.len(),
        r.0.free == count_free(map@),
        r.0.free_bytes as int == sum_free_bytes(map@),
        r.0.added + r.0.rejected == r.0.free,
        r.0.added + old(alloc)@.ranges.len() == final(alloc)@.ranges.len(),
        r.1@.len() == map@.len(),
        forall|i: int| 0 <= i < map@.len() ==> r.1@[i] == spec_outcome(old(alloc)@, map@, i),
{
    let ghost m0 = old(alloc)@;
    let n = map.len();
    let mut i: usize = 0;
    let mut total: usize = 0;
    let mut free: usize = 0;
    let mut free_bytes: u128 = 0;
    let mut added: usize = 0;
    let mut rejected: usize = 0;
    let mut outcomes: Vec<RegionOutcome> = Vec::new();
    while i < n
        invariant
            n == map@.len(),
            i <= n,
            alloc.wf(),
            alloc@ == spec_classify(m0, map@.take(i as int)),
            alloc@.vm_offset is Some,
            m0 == old(alloc)@,
            m0.attempts + map@.len() <= u64::MAX,
            alloc@.attempts == m0.attempts + count_free(map@.take(i as int)),
            total == i,
            free == count_free(map@.take(i as int)),
            free_bytes as int == sum_free_bytes(map@.take(i as int)),
            added + rejected == free,
            added + m0.ranges.len() == alloc@.ranges.len(),
            outcomes@.len() == i,
            forall|j: int| 0 <= j < i ==> outcomes@[j] == spec_outcome(m0, map@, j),
        decreases n - i,
    {
        let region = map[i];
        proof {
            assert(map@.take(i + 1).drop_last() =~= map@.take(i as int));
            assert(map@.take(i + 1).last() == map@[i as int]);
            lemma_count_free_bounds(map@.take(i as int));
        }
        total = total + 1;
        if region.kind == RegionKind::Free {
            free = free + 1;
            proof {
                lemma_sum_free_bytes_bound(map@.take(i as int));
                assert((i as int) * (u64::MAX as int) + u64::MAX == (i + 1) * (u64::MAX as int))
                    by (nonlinear_arith);
                assert((i + 1) * (u64::MAX as int) <= (u64::MAX as int) * (u64::MAX as int))
                    by (nonlinear_arith)
                    requires
                        0 <= i + 1 <= u64::MAX as int,
                ;
                assert((u64::MAX as int) * (u64::MAX as int) < u128::MAX as int)
                    by (nonlinear_arith);
            }
            free_bytes = free_bytes + region.size as u128;
            let outcome = alloc.add_region(region);
            match outcome {
                Ok(()) => {
                    added = added + 1;
                    outcomes.push(RegionOutcome::Added);
                },
                Err(e) => {
                    rejected = rejected + 1;
                    outcomes.push(RegionOutcome::Rejected(e));
                },
            }
        } else {
            outcomes.push(RegionOutcome::NotFree);
        }
        i = i + 1;
    }
    proof {
        assert(map@.take(n as int) =~= map@);
    }
    let summary = RegionSummary { total, free, free_bytes, added, rejected };
    (summary, outcomes)
}

} // verus!
