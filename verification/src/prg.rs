//! The program region: its interrupt vectors, and the listing of the
//! interrupt routines that a bounded straight-line trace finds.

use crate::execution::{spec_decode, spec_next_pc, ExecutionContext, RAM_SIZE};
use crate::instructions::{Instruction, InstructionView, Mnemonic};
use std::collections::{BTreeMap, HashMap};
use vstd::prelude::*;
use vstd::relations::injective_on;
use vstd::set_lib::{lemma_int_range, lemma_len_subset, lemma_map_size, set_int_range};

verus! {

/// Bytes in one bank of program ROM.
pub const PRG_BANK_SIZE: usize = 0x4000;

/// The lowest address at which a cartridge can hold code. A vector below it
/// is unused, and a listing counts its offsets from it.
pub const PRG_LOWEST_START_ADDRESS: u16 = 0x6000;

/// Instructions that one trace decodes at most: one for each address. A
/// trace that has not met a return from interrupt by then has come back to
/// an address it stood at before, and never will.
pub const MAX_TRACE_STEPS: usize = 0x1_0000;

/// Why program data could not be disassembled.
#[derive(Debug, Clone, Copy, PartialEq, Eq, Structural)]
pub enum PrgFault {
    /// The length is not a multiple of the bank size.
    Misaligned,
    /// A trace met no return from interrupt within its budget of steps:
    /// the routine never returns.
    TraceIncomplete,
}

/// The program data could not be disassembled.
#[derive(Debug, Clone, Copy, PartialEq, Eq, Structural)]
pub struct InvalidPrgDataError {
    pub fault: PrgFault,
}

impl InvalidPrgDataError {
    /// What went wrong, in words.
    pub open spec fn spec_message(self) -> Seq<char> {
        match self.fault {
            PrgFault::Misaligned => "Invalid PRG ROM data"@,
            PrgFault::TraceIncomplete => "Interrupt routine without return"@,
        }
    }

    /// What went wrong, in words.
    pub fn to_string(&self) -> (text: String)
        ensures
            text@ == self.spec_message(),
    {
        match self.fault {
            PrgFault::Misaligned => "Invalid PRG ROM data".to_owned(),
            PrgFault::TraceIncomplete => "Interrupt routine without return".to_owned(),
        }
    }
}

/// The interrupts whose vectors the last six bytes of the program hold.
#[derive(Debug, Clone, Copy, PartialEq, Eq, Structural)]
pub enum InterruptRoutineType {
    NMI,
    IRQ,
    RESET,
}

/// The listing of a program: the instructions found, by their offset from
/// `PRG_LOWEST_START_ADDRESS`, and the labels of the routines' entry points,
/// by the same offsets.
#[derive(PartialEq, Debug, Clone)]
pub struct PrgData {
    pub instructions: BTreeMap<u16, Instruction>,
    pub labels: HashMap<u16, String>,
}

/// A listing as a value.
pub struct PrgDataView {
    pub instructions: Map<u16, InstructionView>,
    pub labels: Map<u16, Seq<char>>,
}

/// The instructions of a map, each as a value.
pub open spec fn instructions_view(m: Map<u16, Instruction>) -> Map<u16, InstructionView> {
    m.map_values(|i: Instruction| i@)
}

/// The labels of a map, each as its characters.
pub open spec fn labels_view(m: Map<u16, String>) -> Map<u16, Seq<char>> {
    m.map_values(|s: String| s@)
}

impl View for PrgData {
    type V = PrgDataView;

    open spec fn view(&self) -> PrgDataView {
        PrgDataView {
            instructions: instructions_view(self.instructions@),
            labels: labels_view(self.labels@),
        }
    }
}

/// The view of a disassembly result.
pub open spec fn result_view(result: Result<PrgData, InvalidPrgDataError>) -> Result<
    PrgDataView,
    InvalidPrgDataError,
> {
    match result {
        Ok(data) => Ok(data@),
        Err(e) => Err(e),
    }
}

/// The RAM of a context that has just been made: 2 KiB of zeros.
pub open spec fn fresh_ram() -> Seq<u8> {
    Seq::new(RAM_SIZE as nat, |i: int| 0u8)
}

/// How far before the end of the program the vector of an interrupt stands.
pub open spec fn vector_distance(kind: InterruptRoutineType) -> int {
    match kind {
        InterruptRoutineType::NMI => 6,
        InterruptRoutineType::RESET => 4,
        InterruptRoutineType::IRQ => 2,
    }
}

/// The address that the vector of an interrupt holds, a little-endian word.
pub open spec fn spec_isr_location(prg: Seq<u8>, kind: InterruptRoutineType) -> u16 {
    let at = prg.len() - vector_distance(kind);
    (prg[at] + 256 * prg[at + 1]) as u16
}

/// A vector that points below the lowest start address is unused.
pub open spec fn spec_is_isr_unused(addr: u16) -> bool {
    addr < PRG_LOWEST_START_ADDRESS
}

/// The address of the instruction that a trace from `start` decodes at
/// step `n`, the first step being step 0.
pub open spec fn trace_pc(prg: Seq<u8>, start: u16, n: nat) -> u16
    decreases n,
{
    if n == 0 {
        start
    } else {
        spec_next_pc(fresh_ram(), prg, trace_pc(prg, start, (n - 1) as nat))
    }
}

/// The instruction that a trace from `start` decodes at step `n`.
pub open spec fn trace_instruction(prg: Seq<u8>, start: u16, n: nat) -> InstructionView {
    spec_decode(fresh_ram(), prg, trace_pc(prg, start, n))
}

/// Step `n` of the trace decodes a return from interrupt.
pub open spec fn is_rti_step(prg: Seq<u8>, start: u16, n: nat) -> bool {
    trace_instruction(prg, start, n).mnemonic == Mnemonic::Rti
}

/// The first step from `from` on and below `limit` that decodes a return
/// from interrupt.
pub open spec fn rti_step_from(prg: Seq<u8>, start: u16, from: nat, limit: nat) -> Option<nat>
    decreases limit - from,
{
    if from >= limit {
        None
    } else if is_rti_step(prg, start, from) {
        Some(from)
    } else {
        rti_step_from(prg, start, from + 1, limit)
    }
}

/// The step at which the trace ends: the first one within the budget that
/// decodes a return from interrupt.
pub open spec fn spec_rti_step(prg: Seq<u8>, start: u16) -> Option<nat> {
    rti_step_from(prg, start, 0, MAX_TRACE_STEPS as nat)
}

/// What the first `count` steps of a trace record: each instruction at an
/// address from the lowest start address on, by its offset from there.
pub open spec fn trace_records(prg: Seq<u8>, start: u16, count: nat) -> Map<u16, InstructionView>
    decreases count,
{
    if count == 0 {
        Map::empty()
    } else {
        let earlier = trace_records(prg, start, (count - 1) as nat);
        let pc = trace_pc(prg, start, (count - 1) as nat);
        if pc >= PRG_LOWEST_START_ADDRESS {
            earlier.insert(
                (pc - PRG_LOWEST_START_ADDRESS) as u16,
                trace_instruction(prg, start, (count - 1) as nat),
            )
        } else {
            earlier
        }
    }
}

/// The listing of the routine that starts at `start`: what the trace
/// records up to and with the first return from interrupt, or nothing
/// where the budget of steps holds none.
pub open spec fn spec_trace(prg: Seq<u8>, start: u16) -> Option<Map<u16, InstructionView>> {
    match spec_rti_step(prg, start) {
        Some(n) => Some(trace_records(prg, start, n + 1)),
        None => None,
    }
}

/// The listing of the routine of one vector: none for an unused vector.
pub open spec fn spec_routine(prg: Seq<u8>, vector: u16) -> Option<Map<u16, InstructionView>> {
    if spec_is_isr_unused(vector) {
        Some(Map::empty())
    } else {
        spec_trace(prg, vector)
    }
}

/// `labels` with the label of one vector: unchanged for an unused vector.
pub open spec fn with_label(labels: Map<u16, Seq<char>>, vector: u16, name: Seq<char>) -> Map<
    u16,
    Seq<char>,
> {
    if spec_is_isr_unused(vector) {
        labels
    } else {
        labels.insert((vector - PRG_LOWEST_START_ADDRESS) as u16, name)
    }
}

/// What program data disassembles to. The routine of the NMI vector is
/// listed first, then that of the IRQ vector; where both hold an offset,
/// the later entry stands.
pub open spec fn spec_parse(prg: Seq<u8>) -> Result<PrgDataView, InvalidPrgDataError> {
    let nmi = spec_isr_location(prg, InterruptRoutineType::NMI);
    let irq = spec_isr_location(prg, InterruptRoutineType::IRQ);
    if prg.len() % 0x4000 != 0 {
        Err(InvalidPrgDataError { fault: PrgFault::Misaligned })
    } else {
        match (spec_routine(prg, nmi), spec_routine(prg, irq)) {
            (Some(nmi_routine), Some(irq_routine)) => Ok(
                PrgDataView {
                    instructions: nmi_routine.union_prefer_right(irq_routine),
                    labels: with_label(with_label(Map::empty(), nmi, "nmi"@), irq, "irq"@),
                },
            ),
            _ => Err(InvalidPrgDataError { fault: PrgFault::TraceIncomplete }),
        }
    }
}

/// The step at which a search for a return from interrupt ends is the
/// first such step from `from` on, and a search that finds none has met
/// none below `limit`.
pub proof fn lemma_rti_step_from(prg: Seq<u8>, start: u16, from: nat, limit: nat)
    ensures
        match rti_step_from(prg, start, from, limit) {
            Some(n) => {
                &&& from <= n < limit
                &&& is_rti_step(prg, start, n)
                &&& forall|i: nat| from <= i < n ==> !is_rti_step(prg, start, i)
            },
            None => forall|i: nat| from <= i < limit ==> !is_rti_step(prg, start, i),
        },
    decreases limit - from,
{
    if from < limit && !is_rti_step(prg, start, from) {
        lemma_rti_step_from(prg, start, from + 1, limit);
    }
}

/// A trace ends with exactly one return from interrupt: the step at which
/// it ends decodes one, within the budget, and no step before it does. A
/// trace that does not end has met none within the budget.
pub proof fn lemma_trace_ends_at_first_rti(prg: Seq<u8>, start: u16)
    ensures
        match spec_rti_step(prg, start) {
            Some(n) => {
                &&& n < MAX_TRACE_STEPS
                &&& is_rti_step(prg, start, n)
                &&& forall|i: nat| i < n ==> !is_rti_step(prg, start, i)
            },
            None => forall|i: nat| i < MAX_TRACE_STEPS ==> !is_rti_step(prg, start, i),
        },
{
    lemma_rti_step_from(prg, start, 0, MAX_TRACE_STEPS as nat);
}

/// A trace that stands at one address at two steps repeats itself from
/// there on.
proof fn lemma_trace_repeats(prg: Seq<u8>, start: u16, i: nat, j: nat, k: nat)
    requires
        trace_pc(prg, start, i) == trace_pc(prg, start, j),
    ensures
        trace_pc(prg, start, i + k) == trace_pc(prg, start, j + k),
    decreases k,
{
    if k > 0 {
        lemma_trace_repeats(prg, start, i, j, (k - 1) as nat);
    }
}

/// Among the first 65537 steps of a trace, two stand at the same address:
/// there are only 65536 addresses.
proof fn lemma_trace_revisits(prg: Seq<u8>, start: u16)
    ensures
        exists|i: nat, j: nat|
            i < j <= 0x1_0000 && #[trigger] trace_pc(prg, start, i) == #[trigger] trace_pc(
                prg,
                start,
                j,
            ),
{
    let steps = set_int_range(0, 0x1_0001);
    let addresses = set_int_range(0, 0x1_0000);
    let address_at = |i: int| trace_pc(prg, start, i as nat) as int;
    lemma_int_range(0, 0x1_0001);
    lemma_int_range(0, 0x1_0000);
    if injective_on(address_at, steps) {
        let visited = steps.map(address_at);
        lemma_map_size(steps, visited, address_at);
        assert(visited.subset_of(addresses)) by {
            assert forall|a: int| visited.contains(a) implies addresses.contains(a) by {
                let i = choose|i: int| steps.contains(i) && a == address_at(i);
            }
        }
        lemma_len_subset(visited, addresses);
        assert(false);
    }
    let (a, b) = choose|a: int, b: int|
        steps.contains(a) && steps.contains(b) && #[trigger] address_at(a) == #[trigger] address_at(
            b,
        ) && a != b;
    if a < b {
        assert(trace_pc(prg, start, a as nat) == trace_pc(prg, start, b as nat));
    } else {
        assert(trace_pc(prg, start, b as nat) == trace_pc(prg, start, a as nat));
    }
}

/// Where some step decodes a return from interrupt, a first such step
/// exists.
proof fn lemma_first_rti_exists(prg: Seq<u8>, start: u16, n: nat)
    requires
        is_rti_step(prg, start, n),
    ensures
        exists|m: nat|
            m <= n && #[trigger] is_rti_step(prg, start, m) && forall|i: nat|
                i < m ==> !is_rti_step(prg, start, i),
    decreases n,
{
    if exists|i: nat| i < n && is_rti_step(prg, start, i) {
        let i = choose|i: nat| i < n && is_rti_step(prg, start, i);
        lemma_first_rti_exists(prg, start, i);
    }
}

/// The budget cuts no trace short: a trace that decodes a return from
/// interrupt at any step at all decodes one within the budget. A trace that
/// is reported as incomplete belongs to a routine that never returns.
pub proof fn lemma_budget_is_enough(prg: Seq<u8>, start: u16, n: nat)
    requires
        is_rti_step(prg, start, n),
    ensures
        spec_rti_step(prg, start) is Some,
        spec_trace(prg, start) is Some,
{
    lemma_trace_ends_at_first_rti(prg, start);
    if spec_rti_step(prg, start) is None {
        lemma_first_rti_exists(prg, start, n);
        let m = choose|m: nat|
            m <= n && #[trigger] is_rti_step(prg, start, m) && forall|i: nat|
                i < m ==> !is_rti_step(prg, start, i);
        assert(m >= MAX_TRACE_STEPS) by {
            if m < MAX_TRACE_STEPS {
                assert(!is_rti_step(prg, start, m));
            }
        }
        lemma_trace_revisits(prg, start);
        let (i, j) = choose|i: nat, j: nat|
            i < j <= 0x1_0000 && #[trigger] trace_pc(prg, start, i) == #[trigger] trace_pc(
                prg,
                start,
                j,
            );
        let k = (m - j) as nat;
        lemma_trace_repeats(prg, start, i, j, k);
        assert(j + k == m);
        assert(is_rti_step(prg, start, i + k));
        assert(i + k < m);
        assert(false);
    }
}

/// A return from interrupt is only ever decoded in program ROM: below it
/// the bus of a fresh context reads zeros, which decode to a software
/// interrupt. So the instruction that ends a trace is always recorded.
pub proof fn lemma_rti_is_in_rom(prg: Seq<u8>, start: u16, n: nat)
    requires
        is_rti_step(prg, start, n),
    ensures
        trace_pc(prg, start, n) >= 0x8000,
{
    let pc = trace_pc(prg, start, n);
    if pc < 0x8000 {
        assert(crate::execution::bus_read(fresh_ram(), prg, pc) == 0);
        crate::instructions::lemma_return_from_interrupt_is_0x40();
    }
}

/// What a trace records: an offset is recorded exactly when one of the
/// steps stood at its address, and it holds the instruction at that
/// address.
pub proof fn lemma_trace_records(prg: Seq<u8>, start: u16, count: nat)
    ensures
        forall|k: u16| #[trigger]
            trace_records(prg, start, count).contains_key(k) <==> exists|i: nat|
                i < count && #[trigger] trace_pc(prg, start, i) == k + PRG_LOWEST_START_ADDRESS,
        forall|k: u16| #[trigger]
            trace_records(prg, start, count).contains_key(k) ==> trace_records(
                prg,
                start,
                count,
            )[k] == spec_decode(fresh_ram(), prg, (k + PRG_LOWEST_START_ADDRESS) as u16),
    decreases count,
{
    if count > 0 {
        let before = (count - 1) as nat;
        lemma_trace_records(prg, start, before);
        let pc = trace_pc(prg, start, before);
        assert forall|k: u16| #[trigger]
            trace_records(prg, start, count).contains_key(k) <==> exists|i: nat|
                i < count && #[trigger] trace_pc(prg, start, i) == k + PRG_LOWEST_START_ADDRESS by {
            if trace_records(prg, start, count).contains_key(k) {
                if trace_records(prg, start, before).contains_key(k) {
                    let i = choose|i: nat|
                        i < before && #[trigger] trace_pc(prg, start, i) == k
                            + PRG_LOWEST_START_ADDRESS;
                    assert(i < count && trace_pc(prg, start, i) == k + PRG_LOWEST_START_ADDRESS);
                } else {
                    assert(trace_pc(prg, start, before) == k + PRG_LOWEST_START_ADDRESS);
                }
            }
            if exists|i: nat|
                i < count && #[trigger] trace_pc(prg, start, i) == k + PRG_LOWEST_START_ADDRESS {
                let i = choose|i: nat|
                    i < count && #[trigger] trace_pc(prg, start, i) == k
                        + PRG_LOWEST_START_ADDRESS;
                if i < before {
                    assert(trace_records(prg, start, before).contains_key(k));
                }
            }
        }
    }
}

/// A routine that is listed holds its entry point and exactly one return
/// from interrupt, the instruction that ended the trace.
pub proof fn lemma_routine_has_one_rti(prg: Seq<u8>, start: u16)
    requires
        start >= PRG_LOWEST_START_ADDRESS,
        spec_trace(prg, start) is Some,
    ensures
        ({
            let routine = spec_trace(prg, start).unwrap();
            let last = trace_pc(prg, start, spec_rti_step(prg, start).unwrap());
            &&& routine.contains_key((start - PRG_LOWEST_START_ADDRESS) as u16)
            &&& last >= 0x8000
            &&& routine.contains_key((last - PRG_LOWEST_START_ADDRESS) as u16)
            &&& forall|k: u16| #[trigger]
                routine.contains_key(k) ==> (routine[k].mnemonic == Mnemonic::Rti <==> k == last
                    - PRG_LOWEST_START_ADDRESS)
        }),
{
    let n = spec_rti_step(prg, start).unwrap();
    let routine = trace_records(prg, start, n + 1);
    let last = trace_pc(prg, start, n);
    lemma_trace_ends_at_first_rti(prg, start);
    lemma_rti_is_in_rom(prg, start, n);
    lemma_trace_records(prg, start, n + 1);
    assert(trace_pc(prg, start, 0) == start);
    assert(routine.contains_key((start - PRG_LOWEST_START_ADDRESS) as u16));
    assert(routine.contains_key((last - PRG_LOWEST_START_ADDRESS) as u16));
    assert forall|k: u16| #[trigger] routine.contains_key(k) implies (routine[k].mnemonic
        == Mnemonic::Rti <==> k == last - PRG_LOWEST_START_ADDRESS) by {
        let i = choose|i: nat|
            i < n + 1 && #[trigger] trace_pc(prg, start, i) == k + PRG_LOWEST_START_ADDRESS;
        assert(routine[k] == trace_instruction(prg, start, i));
        if i < n {
            assert(!is_rti_step(prg, start, i));
            if k == last - PRG_LOWEST_START_ADDRESS {
                assert(trace_instruction(prg, start, i) == trace_instruction(prg, start, n));
            }
        }
    }
}

/// An unused vector leaves no trace in a listing: with both vectors unused
/// the listing is empty; with one unused, the listing is that of the other
/// alone, and no label bears the unused vector's name.
pub proof fn lemma_unused_vector_is_absent(prg: Seq<u8>)
    requires
        spec_parse(prg) is Ok,
    ensures
        ({
            let nmi = spec_isr_location(prg, InterruptRoutineType::NMI);
            let irq = spec_isr_location(prg, InterruptRoutineType::IRQ);
            let listing = spec_parse(prg).unwrap();
            &&& spec_is_isr_unused(nmi) && spec_is_isr_unused(irq) ==> listing.instructions
                == Map::<u16, InstructionView>::empty() && listing.labels == Map::<
                u16,
                Seq<char>,
            >::empty()
            &&& spec_is_isr_unused(nmi) && !spec_is_isr_unused(irq) ==> {
                &&& Some(listing.instructions) == spec_trace(prg, irq)
                &&& listing.labels == Map::<u16, Seq<char>>::empty().insert(
                    (irq - PRG_LOWEST_START_ADDRESS) as u16,
                    "irq"@,
                )
            }
            &&& !spec_is_isr_unused(nmi) && spec_is_isr_unused(irq) ==> {
                &&& Some(listing.instructions) == spec_trace(prg, nmi)
                &&& listing.labels == Map::<u16, Seq<char>>::empty().insert(
                    (nmi - PRG_LOWEST_START_ADDRESS) as u16,
                    "nmi"@,
                )
            }
            &&& spec_is_isr_unused(nmi) ==> forall|k: u16| #[trigger]
                listing.labels.contains_key(k) ==> listing.labels[k] != "nmi"@
            &&& spec_is_isr_unused(irq) ==> forall|k: u16| #[trigger]
                listing.labels.contains_key(k) ==> listing.labels[k] != "irq"@
        }),
{
    let nmi = spec_isr_location(prg, InterruptRoutineType::NMI);
    let irq = spec_isr_location(prg, InterruptRoutineType::IRQ);
    let listing = spec_parse(prg).unwrap();
    let nmi_routine = spec_routine(prg, nmi).unwrap();
    let irq_routine = spec_routine(prg, irq).unwrap();
    assert(listing.instructions == nmi_routine.union_prefer_right(irq_routine));
    reveal_strlit("nmi");
    reveal_strlit("irq");
    assert("nmi"@[0] != "irq"@[0]);
    if spec_is_isr_unused(nmi) {
        assert(listing.instructions =~= irq_routine);
    }
    if spec_is_isr_unused(irq) {
        assert(listing.instructions =~= nmi_routine);
    }
    if spec_is_isr_unused(nmi) && spec_is_isr_unused(irq) {
        assert(listing.labels =~= Map::<u16, Seq<char>>::empty());
    }
}

/// A used vector is listed: its offset bears a label, the IRQ vector's
/// always its own and the NMI vector's its own unless the IRQ vector
/// points to the same address, and the listing holds the instruction at
/// its entry point.
pub proof fn lemma_used_vector_is_listed(prg: Seq<u8>)
    requires
        spec_parse(prg) is Ok,
    ensures
        ({
            let nmi = spec_isr_location(prg, InterruptRoutineType::NMI);
            let irq = spec_isr_location(prg, InterruptRoutineType::IRQ);
            let listing = spec_parse(prg).unwrap();
            &&& !spec_is_isr_unused(irq) ==> {
                let offset = (irq - PRG_LOWEST_START_ADDRESS) as u16;
                &&& listing.labels.contains_key(offset)
                &&& listing.labels[offset] == "irq"@
                &&& listing.instructions.contains_key(offset)
            }
            &&& !spec_is_isr_unused(nmi) ==> {
                let offset = (nmi - PRG_LOWEST_START_ADDRESS) as u16;
                &&& listing.labels.contains_key(offset)
                &&& listing.labels[offset] == if nmi == irq {
                    "irq"@
                } else {
                    "nmi"@
                }
                &&& listing.instructions.contains_key(offset)
            }
        }),
{
    let nmi = spec_isr_location(prg, InterruptRoutineType::NMI);
    let irq = spec_isr_location(prg, InterruptRoutineType::IRQ);
    if !spec_is_isr_unused(irq) {
        lemma_routine_has_one_rti(prg, irq);
    }
    if !spec_is_isr_unused(nmi) {
        lemma_routine_has_one_rti(prg, nmi);
    }
}

/// Two disassemblies of the same program data are equal.
pub proof fn lemma_parse_is_deterministic(
    prg: Seq<u8>,
    first: Result<PrgData, InvalidPrgDataError>,
    second: Result<PrgData, InvalidPrgDataError>,
)
    requires
        result_view(first) == spec_parse(prg),
        result_view(second) == spec_parse(prg),
    ensures
        result_view(first) == result_view(second),
{
}

impl PrgData {
    /// Disassembles program data: the routines of the NMI and of the IRQ
    /// vector, each traced from its entry point to its first return from
    /// interrupt, and a label for each entry point. A vector below the
    /// lowest start address contributes nothing.
    ///
    /// It fails with `Misaligned` where the length is not a multiple of the
    /// bank size, and with `TraceIncomplete` where a trace meets no return
    /// from interrupt within `MAX_TRACE_STEPS` instructions.
    pub fn parse(prg_data: Vec<u8>) -> (result: Result<PrgData, InvalidPrgDataError>)
        requires
            prg_data@.len() > 0,
        ensures
            result_view(result) == spec_parse(prg_data@),
    {
        if prg_data.len() % PRG_BANK_SIZE != 0 {
            return Err(InvalidPrgDataError { fault: PrgFault::Misaligned });
        }
        let mut instructions = BTreeMap::<u16, Instruction>::new();
        let mut labels = HashMap::<u16, String>::new();

        let nmi_isr_location = PrgData::resolve_isr_location(
            &prg_data,
            InterruptRoutineType::NMI,
        );
        let irq_isr_location = PrgData::resolve_isr_location(
            &prg_data,
            InterruptRoutineType::IRQ,
        );

        if !PrgData::is_isr_unused(nmi_isr_location) {
            PrgData::trace_routine(nmi_isr_location, &prg_data, &mut instructions)?;
            labels.insert(nmi_isr_location - PRG_LOWEST_START_ADDRESS, "nmi".to_owned());
        }
        let ghost nmi_routine = instructions_view(instructions@);
        let ghost nmi_labels = labels_view(labels@);
        assert(nmi_routine =~= spec_routine(prg_data@, nmi_isr_location).unwrap());
        assert(nmi_labels =~= with_label(Map::empty(), nmi_isr_location, "nmi"@));
        if !PrgData::is_isr_unused(irq_isr_location) {
            PrgData::trace_routine(irq_isr_location, &prg_data, &mut instructions)?;
            labels.insert(irq_isr_location - PRG_LOWEST_START_ADDRESS, "irq".to_owned());
        }
        let data = PrgData { instructions, labels };
        proof {
            let irq_routine = spec_routine(prg_data@, irq_isr_location).unwrap();
            assert(data@.instructions =~= nmi_routine.union_prefer_right(irq_routine));
            assert(data@.labels =~= with_label(nmi_labels, irq_isr_location, "irq"@));
        }
        Ok(data)
    }

    /// Traces the routine that starts at `start_addr`: decodes instruction
    /// after instruction, records each one at an address from the lowest
    /// start address on, and ends with the first return from interrupt.
    ///
    /// It fails with `TraceIncomplete` where the trace meets no return from
    /// interrupt within `MAX_TRACE_STEPS` instructions.
    pub fn disassemble_interrupt_until_rti(start_addr: u16, prg_data: &Vec<u8>) -> (result: Result<
        BTreeMap<u16, Instruction>,
        InvalidPrgDataError,
    >)
        requires
            prg_data@.len() > 0,
        ensures
            match result {
                Ok(instructions) => spec_trace(prg_data@, start_addr) == Some(
                    instructions_view(instructions@),
                ),
                Err(e) => e.fault == PrgFault::TraceIncomplete && spec_trace(prg_data@, start_addr)
                    is None,
            },
    {
        let mut instructions = BTreeMap::<u16, Instruction>::new();
        match PrgData::trace_routine(start_addr, prg_data, &mut instructions) {
            Ok(()) => {
                assert(instructions_view(instructions@) =~= spec_trace(
                    prg_data@,
                    start_addr,
                ).unwrap());
                Ok(instructions)
            },
            Err(e) => Err(e),
        }
    }

    /// Traces the routine that starts at `start_addr` into a listing that
    /// may hold other routines already: an instruction of this routine
    /// replaces one that the listing holds at the same offset.
    fn trace_routine(
        start_addr: u16,
        prg_data: &Vec<u8>,
        instructions: &mut BTreeMap<u16, Instruction>,
    ) -> (result: Result<(), InvalidPrgDataError>)
        requires
            prg_data@.len() > 0,
        ensures
            match result {
                Ok(_) => spec_trace(prg_data@, start_addr) is Some && instructions_view(
                    final(instructions)@,
                ) == instructions_view(old(instructions)@).union_prefer_right(
                    spec_trace(prg_data@, start_addr).unwrap(),
                ),
                Err(e) => e.fault == PrgFault::TraceIncomplete && spec_trace(prg_data@, start_addr)
                    is None,
            },
    {
        let ghost before = instructions_view(instructions@);
        let mut context = ExecutionContext::new(start_addr, prg_data);
        let mut steps: usize = 0;
        assert(instructions_view(instructions@) =~= before.union_prefer_right(
            trace_records(prg_data@, start_addr, 0),
        ));
        while steps < MAX_TRACE_STEPS
            invariant
                steps <= MAX_TRACE_STEPS,
                before == instructions_view(old(instructions)@),
                context.well_formed(),
                context@.ram == fresh_ram(),
                context@.prg == prg_data@,
                context@.pc == trace_pc(prg_data@, start_addr, steps as nat),
                instructions_view(instructions@) == before.union_prefer_right(
                    trace_records(prg_data@, start_addr, steps as nat),
                ),
                spec_rti_step(prg_data@, start_addr) == rti_step_from(
                    prg_data@,
                    start_addr,
                    steps as nat,
                    MAX_TRACE_STEPS as nat,
                ),
            decreases MAX_TRACE_STEPS - steps,
        {
            let address = context.get_current_pc();
            let instruction = context.execute_instruction();
            let is_rti = instruction.mnemonic == Mnemonic::Rti;
            let ghost recorded = instructions@;
            if address >= PRG_LOWEST_START_ADDRESS {
                let relative_address = address - PRG_LOWEST_START_ADDRESS;
                instructions.insert(relative_address, instruction);
                assert(instructions_view(instructions@) =~= instructions_view(recorded).insert(
                    relative_address,
                    instruction@,
                ));
            }
            steps += 1;
            assert(instructions_view(instructions@) =~= before.union_prefer_right(
                trace_records(prg_data@, start_addr, steps as nat),
            ));
            if is_rti {
                return Ok(());
            }
        }
        Err(InvalidPrgDataError { fault: PrgFault::TraceIncomplete })
    }

    /// The address that the vector of an interrupt holds.
    pub fn resolve_isr_location(prg_data: &Vec<u8>, kind: InterruptRoutineType) -> (location: u16)
        requires
            prg_data@.len() >= 6,
        ensures
            location == spec_isr_location(prg_data@, kind),
    {
        let vector_location: usize = match kind {
            InterruptRoutineType::NMI => prg_data.len() - 6,
            InterruptRoutineType::RESET => prg_data.len() - 4,
            InterruptRoutineType::IRQ => prg_data.len() - 2,
        };
        let lo: u8 = prg_data[vector_location];
        let hi: u8 = prg_data[vector_location + 1];
        assert((lo as u16) | ((hi as u16) << 8) == lo + 256 * hi) by (bit_vector);
        (lo as u16) | ((hi as u16) << 8)
    }

    /// Tells whether a vector is unused: whether it points below the lowest
    /// start address.
    pub fn is_isr_unused(addr: u16) -> (unused: bool)
        ensures
            unused == spec_is_isr_unused(addr),
    {
        addr < PRG_LOWEST_START_ADDRESS
    }
}

} // verus!
