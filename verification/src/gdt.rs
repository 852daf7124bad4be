//! The segment table, the task state that goes with it, and the frame for
//! the one-way drop to user privilege.
//!
//! The table itself is the `GlobalDescriptorTable` of the x86_64 crate. This
//! module fills it once and says which selectors go into which registers.
//! Loading the table and the registers is left to the kernel.

use crate::addr::{is_canonical, offset_address};
use crate::mem::MapRequest;
use vstd::prelude::*;
use x86_64::structures::gdt::GlobalDescriptorTable;

verus! {

/// The slot of the interrupt stack table that holds the double-fault stack.
pub const DOUBLE_FAULT_IST_INDEX: u16 = 0;

/// Size in bytes of each of the two privileged stacks: five pages.
pub const STACK_SIZE: u64 = 4096 * 5;

/// The descriptor of the 64-bit kernel code segment.
pub const KERNEL_CODE_SEGMENT: u64 = 0x00af_9b00_0000_ffff;

/// The descriptor of the 64-bit user code segment.
pub const USER_CODE_SEGMENT: u64 = 0x00af_fb00_0000_ffff;

/// The descriptor of the user data segment.
pub const USER_DATA_SEGMENT: u64 = 0x00cf_f300_0000_ffff;

/// The selector of the kernel code segment: entry 1 at privilege level 0.
pub const KERNEL_CODE_SELECTOR: u16 = 0x08;

/// The selector of the user code segment: entry 4 at privilege level 3.
pub const USER_CODE_SELECTOR: u16 = 0x23;

/// The selector of the user data segment: entry 5 at privilege level 3.
pub const USER_DATA_SELECTOR: u16 = 0x2b;

/// The value a segment register holds: the index of a table entry in the
/// bits from 3 on, and a requested privilege level in bits 0 and 1.
#[derive(Clone, Copy, PartialEq, Eq, Structural, Debug)]
pub struct SegmentSelector(pub u16);

impl SegmentSelector {
    /// Index of the table entry the selector names.
    pub open spec fn table_index(self) -> int {
        self.0 as int / 8
    }

    /// The privilege level the selector asks for.
    pub open spec fn privilege_level(self) -> int {
        self.0 as int % 4
    }

    /// Index of the table entry the selector names.
    pub fn index(&self) -> (index: u16)
        ensures
            index == self.table_index(),
    {
        let raw = self.0;
        assert(raw >> 3 == raw / 8) by (bit_vector);
        raw >> 3
    }

    /// The privilege level the selector asks for.
    pub fn rpl(&self) -> (level: u16)
        ensures
            level == self.privilege_level(),
    {
        let raw = self.0;
        assert(raw & 3 == raw % 4) by (bit_vector);
        raw & 3
    }
}

/// The selectors of the four segments of the table.
#[derive(Clone, Copy, PartialEq, Eq, Structural, Debug)]
pub struct Selectors {
    /// The kernel code segment.
    pub code_selector: SegmentSelector,
    /// The task state segment.
    pub tss_selector: SegmentSelector,
    /// The user code segment.
    pub user_code: SegmentSelector,
    /// The user data segment.
    pub user_data: SegmentSelector,
}

/// A segment descriptor: what one or two entries of the table hold.
#[derive(Clone, Copy, PartialEq, Eq, Structural, Debug)]
pub enum Descriptor {
    /// A code or data segment: one entry.
    UserSegment(u64),
    /// A system segment such as a task state segment: a low and a high entry.
    SystemSegment(u64, u64),
}

impl Descriptor {
    /// The descriptor's first entry.
    pub open spec fn low(self) -> u64 {
        match self {
            Descriptor::UserSegment(value) => value,
            Descriptor::SystemSegment(low, _) => low,
        }
    }

    /// The descriptor's privilege level: bits 45 and 46 of its first entry.
    pub open spec fn dpl(self) -> int {
        (self.low() as int / 0x2000_0000_0000) % 4
    }

    /// The entries the descriptor takes up in the table.
    pub open spec fn entries(self) -> Seq<u64> {
        match self {
            Descriptor::UserSegment(value) => seq![value],
            Descriptor::SystemSegment(low, high) => seq![low, high],
        }
    }
}

/// The segment table of the x86_64 crate. The proofs see nothing of what
/// is inside it but what [`table_entries`] names.
#[verifier::external_type_specification]
#[verifier::external_body]
pub struct ExGlobalDescriptorTable<const MAX: usize>(GlobalDescriptorTable<MAX>);

/// The entries of a table that are in use, first the null entry: the raw
/// values of what `GlobalDescriptorTable::entries` of the x86_64 crate
/// returns.
pub uninterp spec fn table_entries(table: GlobalDescriptorTable) -> Seq<u64>;

/// A table with room for eight entries that holds the null entry only.
///
/// Calls `GlobalDescriptorTable::new` of the x86_64 crate, which sets every
/// entry to zero and the length to one.
#[verifier::external_body]
fn new_table() -> (table: GlobalDescriptorTable)
    ensures
        table_entries(table) == seq![0u64],
{
    GlobalDescriptorTable::new()
}

/// Appends `descriptor` to the table and returns the selector of its first
/// entry as a number.
///
/// Calls `GlobalDescriptorTable::append` of the x86_64 crate. It panics
/// where the table of eight has no room for the descriptor's entries. Else
/// it stores them behind those in use and returns a selector made of the
/// index of the first one and the descriptor's privilege level.
#[verifier::external_body]
fn append(table: &mut GlobalDescriptorTable, descriptor: Descriptor) -> (selector: u16)
    requires
        table_entries(*old(table)).len() + descriptor.entries().len() <= 8,
    ensures
        table_entries(*final(table)) == table_entries(*old(table)) + descriptor.entries(),
        selector == table_entries(*old(table)).len() * 8 + descriptor.dpl(),
{
    let entry = match descriptor {
        Descriptor::UserSegment(value) => x86_64::structures::gdt::Descriptor::UserSegment(value),
        Descriptor::SystemSegment(low, high) => {
            x86_64::structures::gdt::Descriptor::SystemSegment(low, high)
        },
    };
    table.append(entry).0
}

/// The descriptor of the 64-bit kernel code segment.
///
/// Calls `Descriptor::kernel_code_segment` of the x86_64 crate, a user
/// segment with the flags `KERNEL_CODE64`.
#[verifier::external_body]
fn kernel_code_segment() -> (descriptor: Descriptor)
    ensures
        descriptor == Descriptor::UserSegment(KERNEL_CODE_SEGMENT),
{
    match x86_64::structures::gdt::Descriptor::kernel_code_segment() {
        x86_64::structures::gdt::Descriptor::UserSegment(value) => Descriptor::UserSegment(value),
        x86_64::structures::gdt::Descriptor::SystemSegment(low, high) => {
            Descriptor::SystemSegment(low, high)
        },
    }
}

/// The descriptor of the 64-bit user code segment.
///
/// Calls `Descriptor::user_code_segment` of the x86_64 crate, a user segment
/// with the flags `USER_CODE64`.
#[verifier::external_body]
fn user_code_segment() -> (descriptor: Descriptor)
    ensures
        descriptor == Descriptor::UserSegment(USER_CODE_SEGMENT),
{
    match x86_64::structures::gdt::Descriptor::user_code_segment() {
        x86_64::structures::gdt::Descriptor::UserSegment(value) => Descriptor::UserSegment(value),
        x86_64::structures::gdt::Descriptor::SystemSegment(low, high) => {
            Descriptor::SystemSegment(low, high)
        },
    }
}

/// The descriptor of the user data segment.
///
/// Calls `Descriptor::user_data_segment` of the x86_64 crate, a user segment
/// with the flags `USER_DATA`.
#[verifier::external_body]
fn user_data_segment() -> (descriptor: Descriptor)
    ensures
        descriptor == Descriptor::UserSegment(USER_DATA_SEGMENT),
{
    match x86_64::structures::gdt::Descriptor::user_data_segment() {
        x86_64::structures::gdt::Descriptor::UserSegment(value) => Descriptor::UserSegment(value),
        x86_64::structures::gdt::Descriptor::SystemSegment(low, high) => {
            Descriptor::SystemSegment(low, high)
        },
    }
}

/// The stack pointers of the task state segment that this kernel sets.
#[derive(Clone, Copy, PartialEq, Eq, Structural, Debug)]
pub struct TaskState {
    /// Stack pointer the processor takes when a transition lands at
    /// privilege level 0: entry 0 of the privilege stack table.
    pub privilege_stack: u64,
    /// Stack pointer the processor takes on a double fault: entry
    /// `DOUBLE_FAULT_IST_INDEX` of the interrupt stack table.
    pub double_fault_stack: u64,
}

/// Whether the two stacks of `STACK_SIZE` bytes that start at the given
/// addresses have no byte in common.
pub open spec fn stacks_apart(first_start: int, second_start: int) -> bool {
    first_start + STACK_SIZE <= second_start || second_start + STACK_SIZE <= first_start
}

impl TaskState {
    /// Whether both stack pointers are canonical addresses with room for a
    /// whole stack below them, and the two stacks have no byte in common:
    /// the double-fault stack serves nothing else.
    pub open spec fn wf(self) -> bool {
        &&& is_canonical(self.privilege_stack as int)
        &&& is_canonical(self.double_fault_stack as int)
        &&& self.privilege_stack >= STACK_SIZE
        &&& self.double_fault_stack >= STACK_SIZE
        &&& stacks_apart(
            self.privilege_stack - STACK_SIZE,
            self.double_fault_stack - STACK_SIZE,
        )
    }
}

/// Whether the two stacks of `STACK_SIZE` bytes that start at the given
/// addresses have no byte in common.
pub fn are_stacks_apart(first_start: u64, second_start: u64) -> (apart: bool)
    ensures
        apart == stacks_apart(first_start as int, second_start as int),
{
    if first_start <= second_start {
        second_start - first_start >= STACK_SIZE
    } else {
        first_start - second_start >= STACK_SIZE
    }
}

/// The task state for the two privileged stacks that start at the given
/// addresses. A stack grows downwards, so each pointer is the end of its
/// stack: the start plus `STACK_SIZE`. The two stacks must not overlap, or
/// a double fault would be handled on memory that is in use.
pub fn task_state(kernel_stack_start: u64, fault_stack_start: u64) -> (state: TaskState)
    requires
        is_canonical(kernel_stack_start as int),
        is_canonical(kernel_stack_start + STACK_SIZE),
        is_canonical(fault_stack_start as int),
        is_canonical(fault_stack_start + STACK_SIZE),
        stacks_apart(kernel_stack_start as int, fault_stack_start as int),
    ensures
        state.privilege_stack == kernel_stack_start + STACK_SIZE,
        state.double_fault_stack == fault_stack_start + STACK_SIZE,
        state.wf(),
{
    TaskState {
        privilege_stack: offset_address(kernel_stack_start, STACK_SIZE),
        double_fault_stack: offset_address(fault_stack_start, STACK_SIZE),
    }
}

/// The descriptor tables as the contracts see them.
pub struct TablesModel {
    /// The entries of the segment table that are in use.
    pub entries: Seq<u64>,
    /// The selectors of its segments.
    pub selectors: Selectors,
    /// The stacks of the task state segment.
    pub task_state: TaskState,
}

/// The tables this kernel builds for the given task state and the
/// descriptor of its segment: after the null entry come the kernel code
/// segment, the task state segment, the user code segment and the user data
/// segment.
pub open spec fn built_tables(task_state: TaskState, tss: Descriptor) -> TablesModel {
    TablesModel {
        entries: seq![0u64, KERNEL_CODE_SEGMENT] + tss.entries() + seq![
            USER_CODE_SEGMENT,
            USER_DATA_SEGMENT,
        ],
        selectors: Selectors {
            code_selector: SegmentSelector(KERNEL_CODE_SELECTOR),
            tss_selector: SegmentSelector((16 + tss.dpl()) as u16),
            user_code: SegmentSelector(((2 + tss.entries().len()) * 8 + 3) as u16),
            user_data: SegmentSelector(((3 + tss.entries().len()) * 8 + 3) as u16),
        },
        task_state,
    }
}

/// The tables after an initialisation: those that were there before, or
/// else the tables built for `task_state` and `tss`.
pub open spec fn initialized(
    before: Option<TablesModel>,
    task_state: TaskState,
    tss: Descriptor,
) -> TablesModel {
    match before {
        Some(tables) => tables,
        None => built_tables(task_state, tss),
    }
}

/// What the kernel is to load once the table register points to the table.
#[derive(Clone, Copy, PartialEq, Eq, Structural, Debug)]
pub struct GdtLoad {
    /// The selector for the code segment register.
    pub code_selector: SegmentSelector,
    /// The selector for the task register.
    pub tss_selector: SegmentSelector,
}

/// What the kernel loads for the given tables.
pub open spec fn load_of(tables: TablesModel) -> GdtLoad {
    GdtLoad {
        code_selector: tables.selectors.code_selector,
        tss_selector: tables.selectors.tss_selector,
    }
}

struct DescriptorTables {
    table: GlobalDescriptorTable,
    selectors: Selectors,
    task_state: TaskState,
}

/// The descriptor tables of the kernel: empty until the first `init_gdt`,
/// and never changed after it.
pub struct Gdt {
    tables: Option<DescriptorTables>,
}

impl View for Gdt {
    type V = Option<TablesModel>;

    closed spec fn view(&self) -> Option<TablesModel> {
        match self.tables {
            Some(tables) => Some(
                TablesModel {
                    entries: table_entries(tables.table),
                    selectors: tables.selectors,
                    task_state: tables.task_state,
                },
            ),
            None => None,
        }
    }
}

impl Gdt {
    /// Tables that are not built yet.
    pub fn new() -> (gdt: Gdt)
        ensures
            gdt@ is None,
    {
        Gdt { tables: None }
    }

    /// Whether the tables are built.
    pub fn is_initialized(&self) -> (built: bool)
        ensures
            built == (self@ is Some),
    {
        self.tables.is_some()
    }

    /// The segment table, once it is built.
    pub fn table(&self) -> (table: Option<&GlobalDescriptorTable>)
        ensures
            match table {
                Some(table) => self@ is Some && table_entries(*table) == self@->0.entries,
                None => self@ is None,
            },
    {
        match &self.tables {
            Some(tables) => Some(&tables.table),
            None => None,
        }
    }

    /// The selectors of the table's segments, once it is built.
    pub fn selectors(&self) -> (selectors: Option<Selectors>)
        ensures
            match selectors {
                Some(selectors) => self@ is Some && selectors == self@->0.selectors,
                None => self@ is None,
            },
    {
        match &self.tables {
            Some(tables) => Some(tables.selectors),
            None => None,
        }
    }

    /// The stacks of the task state segment, once the tables are built.
    pub fn task_state(&self) -> (task_state: Option<TaskState>)
        ensures
            match task_state {
                Some(task_state) => self@ is Some && task_state == self@->0.task_state,
                None => self@ is None,
            },
    {
        match &self.tables {
            Some(tables) => Some(tables.task_state),
            None => None,
        }
    }
}

/// Builds the descriptor tables on the first call and says what to load.
///
/// The first call builds the tables of [`built_tables`] for `task_state`
/// and `tss`, the descriptor of the segment that holds it. Every later call
/// leaves the tables as they are, whatever it is given, and returns the
/// same selectors again: loading twice changes neither the selectors in use
/// nor the stacks of the task state.
pub fn init_gdt(gdt: &mut Gdt, task_state: TaskState, tss: Descriptor) -> (load: GdtLoad)
    requires
        task_state.wf(),
    ensures
        final(gdt)@ == Some(initialized(old(gdt)@, task_state, tss)),
        load == load_of(initialized(old(gdt)@, task_state, tss)),
{
    match &gdt.tables {
        Some(tables) => GdtLoad {
            code_selector: tables.selectors.code_selector,
            tss_selector: tables.selectors.tss_selector,
        },
        None => {
            let mut table = new_table();
            let code_selector = SegmentSelector(append(&mut table, kernel_code_segment()));
            let tss_selector = SegmentSelector(append(&mut table, tss));
            let user_code = SegmentSelector(append(&mut table, user_code_segment()));
            let user_data = SegmentSelector(append(&mut table, user_data_segment()));
            let selectors = Selectors { code_selector, tss_selector, user_code, user_data };
            assert(table_entries(table) =~= built_tables(task_state, tss).entries);
            gdt.tables = Some(DescriptorTables { table, selectors, task_state });
            GdtLoad { code_selector, tss_selector }
        },
    }
}

/// If the descriptor of the task state segment is a system segment at
/// privilege level 0, as the processor wants it, the selectors of the built
/// tables are 0x08, 0x10, 0x23 and 0x2b.
pub proof fn lemma_built_selectors(task_state: TaskState, tss: Descriptor)
    requires
        tss is SystemSegment,
        tss.dpl() == 0,
    ensures
        built_tables(task_state, tss).selectors == (Selectors {
            code_selector: SegmentSelector(KERNEL_CODE_SELECTOR),
            tss_selector: SegmentSelector(0x10),
            user_code: SegmentSelector(USER_CODE_SELECTOR),
            user_data: SegmentSelector(USER_DATA_SELECTOR),
        }),
        built_tables(task_state, tss).selectors.user_code.privilege_level() == 3,
        built_tables(task_state, tss).selectors.user_data.privilege_level() == 3,
        built_tables(task_state, tss).selectors.code_selector.privilege_level() == 0,
{
}

/// Initialising twice is initialising once: a second call changes neither
/// the table nor the selectors nor the stacks of the task state, whatever it
/// is given, and asks for the same selectors to be loaded.
pub proof fn lemma_init_twice(
    before: Option<TablesModel>,
    task_state: TaskState,
    tss: Descriptor,
    other_state: TaskState,
    other_tss: Descriptor,
)
    ensures
        initialized(Some(initialized(before, task_state, tss)), other_state, other_tss)
            == initialized(before, task_state, tss),
        load_of(initialized(Some(initialized(before, task_state, tss)), other_state, other_tss))
            == load_of(initialized(before, task_state, tss)),
{
}

/// The five machine words the processor takes from the stack when it
/// returns from an interrupt to another privilege level.
#[derive(Clone, Copy, PartialEq, Eq, Structural, Debug)]
pub struct ModeTransitionFrame {
    /// The stack pointer of the target.
    pub stack_pointer: u64,
    /// The stack segment selector of the target.
    pub stack_selector: SegmentSelector,
    /// The flags register of the target.
    pub flags: u64,
    /// The code segment selector of the target.
    pub code_selector: SegmentSelector,
    /// The instruction pointer of the target.
    pub instruction_pointer: u64,
}

impl ModeTransitionFrame {
    /// The frame as five words in the order of its fields: stack pointer,
    /// stack selector, flags, code selector, instruction pointer.
    pub open spec fn word_seq(self) -> Seq<u64> {
        seq![
            self.stack_pointer,
            self.stack_selector.0 as u64,
            self.flags,
            self.code_selector.0 as u64,
            self.instruction_pointer,
        ]
    }

    /// The frame for the given target.
    pub fn new(
        stack_pointer: u64,
        stack_selector: SegmentSelector,
        flags: u64,
        code_selector: SegmentSelector,
        instruction_pointer: u64,
    ) -> (frame: ModeTransitionFrame)
        ensures
            frame == (ModeTransitionFrame {
                stack_pointer,
                stack_selector,
                flags,
                code_selector,
                instruction_pointer,
            }),
            frame.word_seq() == seq![
                stack_pointer,
                stack_selector.0 as u64,
                flags,
                code_selector.0 as u64,
                instruction_pointer,
            ],
    {
        ModeTransitionFrame {
            stack_pointer,
            stack_selector,
            flags,
            code_selector,
            instruction_pointer,
        }
    }

    /// The frame as five words in the order of its fields.
    pub fn words(&self) -> (words: [u64; 5])
        ensures
            words@ == self.word_seq(),
    {
        let words = [
            self.stack_pointer,
            self.stack_selector.0 as u64,
            self.flags,
            self.code_selector.0 as u64,
            self.instruction_pointer,
        ];
        assert(words@ =~= self.word_seq());
        words
    }
}

/// Reading the five words of a frame back in their order gives what the
/// frame was made from.
pub proof fn lemma_frame_round_trip(
    stack_pointer: u64,
    stack_selector: SegmentSelector,
    flags: u64,
    code_selector: SegmentSelector,
    instruction_pointer: u64,
)
    ensures
        ({
            let frame = ModeTransitionFrame {
                stack_pointer,
                stack_selector,
                flags,
                code_selector,
                instruction_pointer,
            };
            let words = frame.word_seq();
            &&& words.len() == 5
            &&& words[0] == stack_pointer
            &&& words[1] as u16 == stack_selector.0
            &&& words[2] == flags
            &&& words[3] as u16 == code_selector.0
            &&& words[4] == instruction_pointer
        }),
{
}

impl Selectors {
    /// The frame that targets the user segments of these selectors: the
    /// given stack with the user data segment, the given flags, and the
    /// given entry point with the user code segment.
    pub fn user_frame(&self, user_stack_top: u64, flags: u64, user_entry: u64) -> (frame:
        ModeTransitionFrame)
        ensures
            frame == (ModeTransitionFrame {
                stack_pointer: user_stack_top,
                stack_selector: self.user_data,
                flags,
                code_selector: self.user_code,
                instruction_pointer: user_entry,
            }),
            frame.word_seq() == seq![
                user_stack_top,
                self.user_data.0 as u64,
                flags,
                self.user_code.0 as u64,
                user_entry,
            ],
    {
        ModeTransitionFrame::new(user_stack_top, self.user_data, flags, self.user_code, user_entry)
    }
}

/// Whether code at user privilege can reach `addr` through `mapping`.
pub open spec fn user_reachable(mapping: MapRequest, addr: int) -> bool {
    mapping.page.contains(addr) && mapping.flags.present && mapping.flags.user_accessible
}

/// The frame for the drop to user privilege: the user stack and the user
/// data segment, the given flags, the user code segment and the entry point.
///
/// The caller hands in the tables whose selectors are loaded, the mapping
/// under which user code reaches the entry point, and the mapping under
/// which it reaches the top of its stack and may write to it.
pub fn enter_user_mode(
    gdt: &Gdt,
    entry_mapping: &MapRequest,
    stack_mapping: &MapRequest,
    user_entry: u64,
    user_stack_top: u64,
    flags: u64,
) -> (frame: ModeTransitionFrame)
    requires
        gdt@ is Some,
        user_reachable(*entry_mapping, user_entry as int),
        user_reachable(*stack_mapping, user_stack_top - 1),
        stack_mapping.flags.writable,
    ensures
        frame == (ModeTransitionFrame {
            stack_pointer: user_stack_top,
            stack_selector: gdt@->0.selectors.user_data,
            flags,
            code_selector: gdt@->0.selectors.user_code,
            instruction_pointer: user_entry,
        }),
        frame.word_seq() == seq![
            user_stack_top,
            gdt@->0.selectors.user_data.0 as u64,
            flags,
            gdt@->0.selectors.user_code.0 as u64,
            user_entry,
        ],
{
    let selectors = gdt.selectors().unwrap();
    selectors.user_frame(user_stack_top, flags, user_entry)
}

/// Whether code at user privilege can reach `addr` through `mapping`.
pub fn is_user_reachable(mapping: &MapRequest, addr: u64) -> (ok: bool)
    ensures
        ok == user_reachable(*mapping, addr as int),
{
    let start = mapping.page.start_address;
    start <= addr && addr - start < 4096 && mapping.flags.present && mapping.flags.user_accessible
}

} // verus!
