//! The boot orchestrator: the fixed one-shot sequence that turns the
//! bootloader's hand-off into a running kernel.
//!
//! The sequence is linear, with no retries and no way back: banner, global
//! diagnostics, interrupt and paging bring-up, arming the physical
//! allocator with the virtual-memory offset, memory-map classification,
//! platform discovery, and — in test configurations — the self-test harness
//! and the exit hand-off.
//!
//! The hardware steps (interrupt table, paging, the firmware table search,
//! the exit primitive) are the caller's; this module fixes the decisions
//! and their order. Arming the allocator before any region is added is
//! enforced here by construction: [`crate::mem::classify_memory_map`]
//! demands an armed allocator, and [`boot_sequence`] arms the one it
//! creates before classifying.

use vstd::prelude::*;
use vstd::string::StringSliceAdditionalSpecFns;

use crate::halt::{push_str_bytes, str_bytes, ExitCode};
use crate::harness::{count_passed, tally_tests, TestRecord, TestTally};
use crate::mem::{
    classify_memory_map, count_free, spec_classify, spec_outcome, sum_free_bytes, AllocModel,
    PageAllocator, Region, RegionOutcome, RegionSummary,
};

verus! {

/// The machine's power profile, as platform discovery reports it.
#[derive(Clone, Copy, Debug, PartialEq, Eq, Structural)]
pub enum PowerProfile {
    Unspecified,
    Desktop,
    Mobile,
    Workstation,
    Server,
}

/// How interrupts are routed on this machine.
#[derive(Clone, Copy, Debug, PartialEq, Eq, Structural)]
pub enum InterruptModel {
    Unknown,
    Pic,
    Apic,
}

/// The processor set, when the platform tables describe one.
#[derive(Clone, Debug)]
pub struct ProcessorTopology {
    pub boot_processor: u32,
    pub application_processors: Vec<u32>,
}

/// Parsed platform information, consumed read-only for diagnostics.
#[derive(Clone, Debug)]
pub struct PlatformInfo {
    pub power_profile: PowerProfile,
    pub interrupt_model: InterruptModel,
    pub processor_info: Option<ProcessorTopology>,
}

/// Where the one-shot boot sequence ended.
#[derive(Clone, Copy, Debug, PartialEq, Eq, Structural)]
pub enum BootDisposition {
    /// Platform-table discovery failed; with no fallback topology source
    /// configured, this is fatal and hands off to the halt protocol.
    PlatformDiscoveryFailed,
    /// A test configuration ran the harness and exits with this code.
    TestExit(ExitCode),
    /// A production configuration reached the non-returning idle state, a
    /// placeholder for a future scheduler rather than a real operating mode.
    Idle,
}

/// Everything the boot sequence decided, for the caller to act on: what to
/// log, the allocator to install, and how to leave.
pub struct BootReport {
    /// Summary of the memory-map walk.
    pub summary: RegionSummary,
    /// What became of each region, in map order.
    pub outcomes: Vec<RegionOutcome>,
    /// The armed and populated physical allocator.
    pub allocator: PageAllocator,
    /// Platform discovery succeeded but reported no processor set; the
    /// caller logs a warning and boot continues degraded.
    pub processor_warning: bool,
    /// The harness tally, in test configurations.
    pub tally: Option<TestTally>,
    /// How the sequence ended.
    pub disposition: BootDisposition,
}

/// The allocator state right after arming: offset set, nothing registered.
pub open spec fn spec_armed_allocator(min_page_size: u64, vm_offset: u64) -> AllocModel {
    AllocModel {
        min_page_size,
        vm_offset: Some(vm_offset),
        ranges: Seq::empty(),
        attempts: 0,
    }
}

/// First banner line: kernel identity and version, and the architecture.
pub open spec fn spec_banner_line1(version: Seq<char>, arch: Seq<char>) -> Seq<u8> {
    "hello from mycelium ".spec_bytes() + str_bytes(version) + " (on ".spec_bytes() + str_bytes(
        arch,
    ) + ")".spec_bytes()
}

/// Second banner line: which bootloader handed control over.
pub open spec fn spec_banner_line2(bootloader: Seq<char>) -> Seq<u8> {
    "booting via ".spec_bytes() + str_bytes(bootloader)
}

/// The two-line banner printed the moment the console works.
pub fn banner_lines(version: &str, arch: &str, bootloader: &str) -> (r: (Vec<u8>, Vec<u8>))
    ensures
        r.0@ == spec_banner_line1(version@, arch@),
        r.1@ == spec_banner_line2(bootloader@),
{
    let mut line1: Vec<u8> = Vec::new();
    push_str_bytes(&mut line1, "hello from mycelium ");
    push_str_bytes(&mut line1, version);
    push_str_bytes(&mut line1, " (on ");
    push_str_bytes(&mut line1, arch);
    push_str_bytes(&mut line1, ")");
    let mut line2: Vec<u8> = Vec::new();
    push_str_bytes(&mut line2, "booting via ");
    push_str_bytes(&mut line2, bootloader);
    proof {
        assert(line1@ =~= spec_banner_line1(version@, arch@));
        assert(line2@ =~= spec_banner_line2(bootloader@));
    }
    (line1, line2)
}

/// Run the decision core of the boot sequence, in its fixed order: create
/// the allocator, arm it with the virtual-memory offset, classify the
/// memory map, consume platform discovery's result, and — when a test
/// configuration hands in self-test outcomes — tally them and decide the
/// exit code.
///
/// `platform` is `None` when platform-table discovery failed; with no
/// fallback topology source configured that is fatal, and the report says
/// so. `tests` is `None` in production configurations, which end in the
/// non-returning idle state.
pub fn boot_sequence(
    min_page_size: u64,
    vm_offset: u64,
    memory_map: &Vec<Region>,
    platform: &Option<PlatformInfo>,
    tests: &Option<Vec<TestRecord>>,
) -> (r: BootReport)
    requires
        memory_map@.len() <= u64::MAX,
    ensures
        r.allocator.wf(),
        r.allocator@ == spec_classify(
            spec_armed_allocator(min_page_size, vm_offset),
            memory_map@,
        ),
        r.allocator@.attempts == count_free(memory_map@),
        r.summary.total == memory_map@.len(),
        r.summary.free == count_free(memory_map@),
        r.summary.free_bytes as int == sum_free_bytes(memory_map@),
        r.summary.added + r.summary.rejected == r.summary.free,
        r.summary.added == r.allocator@.ranges.len(),
        r.outcomes@.len() == memory_map@.len(),
        forall|i: int|
            0 <= i < memory_map@.len() ==> r.outcomes@[i] == spec_outcome(
                spec_armed_allocator(min_page_size, vm_offset),
                memory_map@,
                i,
            ),
        r.processor_warning == (*platform matches Some(p) && p.processor_info is None),
        *platform is None ==> r.disposition == BootDisposition::PlatformDiscoveryFailed
            && r.tally is None,
        *platform is Some && *tests is None ==> r.disposition == BootDisposition::Idle
            && r.tally is None,
        (*platform is Some && *tests is Some) ==> ({
            let ts = tests.unwrap();
            r.tally matches Some(t) && t.passed == count_passed(ts@) && t.passed + t.failed
                == ts@.len() && r.disposition == BootDisposition::TestExit(
                if t.failed == 0 {
                    ExitCode::Success
                } else {
                    ExitCode::Failed
                },
            )
        }),
{
    let mut allocator = PageAllocator::new(min_page_size);
    let armed = allocator.set_vm_offset(vm_offset);
    proof {
        assert(armed is Ok);
    }
    let (summary, outcomes) = classify_memory_map(&mut allocator, memory_map);
    let processor_warning = match platform {
        Some(p) => p.processor_info.is_none(),
        None => false,
    };
    if platform.is_none() {
        return BootReport {
            summary,
            outcomes,
            allocator,
            processor_warning,
            tally: None,
            disposition: BootDisposition::PlatformDiscoveryFailed,
        };
    }
    match tests {
        Some(records) => {
            let tally = tally_tests(records);
            let code = crate::harness::exit_code_for(&tally);
            BootReport {
                summary,
                outcomes,
                allocator,
                processor_warning,
                tally: Some(tally),
                disposition: BootDisposition::TestExit(code),
            }
        },
        None => BootReport {
            summary,
            outcomes,
            allocator,
            processor_warning,
            tally: None,
            disposition: BootDisposition::Idle,
        },
    }
}
} // verus!
