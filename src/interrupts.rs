//! Interrupt vectors, the chained interrupt controllers' layout, the
//! dispatch table, and what each handler does when its vector fires.

use pc_keyboard::layouts::Us104Key;
use pc_keyboard::{HandleControl, KeyEvent, KeyState, Keyboard, ScancodeSet1};
use vstd::prelude::*;

use crate::gdt::{DOUBLE_FAULT_IST_INDEX, IST_SLOTS};

verus! {

/// First vector of the primary controller: the first one above the
/// processor's reserved exception vectors.
pub const PIC_1_OFFSET: u8 = 32;

/// First vector of the secondary controller, right after the primary's.
pub const PIC_2_OFFSET: u8 = PIC_1_OFFSET + 8;

/// Vectors below this one are reserved for processor exceptions.
pub const EXCEPTION_VECTORS: u8 = 32;

/// Interrupt lines of one controller.
pub const PIC_LINES: u8 = 8;

/// Number of entries in the dispatch table.
pub const IDT_ENTRIES: usize = 256;

pub const BREAKPOINT_VECTOR: u8 = 3;

pub const DOUBLE_FAULT_VECTOR: u8 = 8;

/// Character shown on each timer tick.
pub const TICK_MARK: char = '.';

// ---------------------------------------------------------------------------
// Controller layout
// ---------------------------------------------------------------------------

/// Why a pair of controller offsets is refused.
#[derive(Clone, Copy, Debug, PartialEq, Eq)]
pub enum RemapError {
    /// A controller's vectors would reach into the exception vectors.
    ExceptionRange,
    /// A controller's vectors would run past the last vector.
    OutOfRange,
    /// The two controllers' vector ranges would share a vector.
    Overlap,
}

/// The error, if any, that `remap` gives for the two offsets.
pub open spec fn remap_error(primary: u8, secondary: u8) -> Option<RemapError> {
    if primary < EXCEPTION_VECTORS || secondary < EXCEPTION_VECTORS {
        Some(RemapError::ExceptionRange)
    } else if primary + PIC_LINES > IDT_ENTRIES || secondary + PIC_LINES > IDT_ENTRIES {
        Some(RemapError::OutOfRange)
    } else if primary < secondary + PIC_LINES && secondary < primary + PIC_LINES {
        Some(RemapError::Overlap)
    } else {
        None
    }
}

/// Where the two chained controllers put their interrupt lines: line `l`
/// of the primary on `primary_offset + l`, line `8 + l` (the secondary's
/// line `l`) on `secondary_offset + l`.
#[derive(Clone, Copy, Debug, PartialEq, Eq)]
pub struct PicLayout {
    pub primary_offset: u8,
    pub secondary_offset: u8,
}

/// The vector on which interrupt line `line` (0 to 15) arrives.
pub open spec fn line_vector(layout: PicLayout, line: u8) -> int {
    if line < PIC_LINES {
        layout.primary_offset + line
    } else {
        layout.secondary_offset + (line - PIC_LINES)
    }
}

impl PicLayout {
    pub open spec fn wf(&self) -> bool {
        remap_error(self.primary_offset, self.secondary_offset) is None
    }

    /// The vector on which interrupt line `line` arrives.
    pub fn vector_for_line(&self, line: u8) -> (r: u8)
        requires
            self.wf(),
            line < 2 * PIC_LINES,
        ensures
            r == line_vector(*self, line),
    {
        if line < PIC_LINES {
            self.primary_offset + line
        } else {
            self.secondary_offset + (line - PIC_LINES)
        }
    }
}

/// The layout that puts the primary controller at `primary_offset` and the
/// secondary at `secondary_offset`, refused when either range reaches into
/// the exception vectors or past the last vector, or when the two overlap.
pub fn remap(primary_offset: u8, secondary_offset: u8) -> (r: Result<PicLayout, RemapError>)
    ensures
        remap_error(primary_offset, secondary_offset) matches Some(e) ==> r == Err::<PicLayout, RemapError>(e),
        remap_error(primary_offset, secondary_offset) is None ==> r == Ok::<PicLayout, RemapError>(
            PicLayout { primary_offset, secondary_offset },
        ),
{
    if primary_offset < EXCEPTION_VECTORS || secondary_offset < EXCEPTION_VECTORS {
        Err(RemapError::ExceptionRange)
    } else if primary_offset as usize + PIC_LINES as usize > IDT_ENTRIES || secondary_offset as usize
        + PIC_LINES as usize > IDT_ENTRIES {
        Err(RemapError::OutOfRange)
    } else if (primary_offset as u16) < secondary_offset as u16 + PIC_LINES as u16
        && (secondary_offset as u16) < primary_offset as u16 + PIC_LINES as u16 {
        Err(RemapError::Overlap)
    } else {
        Ok(PicLayout { primary_offset, secondary_offset })
    }
}

/// The devices whose interrupts the kernel handles.
#[derive(Clone, Copy, Debug, PartialEq, Eq)]
pub enum InterruptIndex {
    Timer,
    Keyboard,
}

impl InterruptIndex {
    /// The controller line the device is wired to.
    pub open spec fn spec_line(self) -> u8 {
        match self {
            InterruptIndex::Timer => 0,
            InterruptIndex::Keyboard => 1,
        }
    }

    /// The device's vector under the standard layout.
    pub open spec fn spec_as_u8(self) -> u8 {
        (PIC_1_OFFSET + self.spec_line()) as u8
    }

    pub fn line(self) -> (r: u8)
        ensures
            r == self.spec_line(),
    {
        match self {
            InterruptIndex::Timer => 0,
            InterruptIndex::Keyboard => 1,
        }
    }

    pub fn as_u8(self) -> (r: u8)
        ensures
            r == self.spec_as_u8(),
    {
        PIC_1_OFFSET + self.line()
    }
}

/// Under any layout that `remap` accepts, no interrupt line arrives on an
/// exception vector, and the timer and keyboard arrive on the first two
/// vectors of the primary controller.
pub proof fn lemma_remapped_lines_clear_exceptions(primary: u8, secondary: u8, line: u8)
    requires
        remap_error(primary, secondary) is None,
        line < 2 * PIC_LINES,
    ensures
        line_vector(PicLayout { primary_offset: primary, secondary_offset: secondary }, line)
            >= EXCEPTION_VECTORS,
        line_vector(PicLayout { primary_offset: primary, secondary_offset: secondary }, line) < IDT_ENTRIES,
        line_vector(
            PicLayout { primary_offset: primary, secondary_offset: secondary },
            InterruptIndex::Timer.spec_line(),
        ) == primary,
        line_vector(
            PicLayout { primary_offset: primary, secondary_offset: secondary },
            InterruptIndex::Keyboard.spec_line(),
        ) == primary + 1,
{
}

/// The standard offsets are accepted, and under them each device arrives on
/// the vector that `InterruptIndex` names.
pub proof fn lemma_standard_layout(index: InterruptIndex)
    ensures
        remap_error(PIC_1_OFFSET, PIC_2_OFFSET) is None,
        line_vector(PicLayout { primary_offset: PIC_1_OFFSET, secondary_offset: PIC_2_OFFSET }, index.spec_line())
            == index.spec_as_u8(),
{
}

// ---------------------------------------------------------------------------
// Dispatch table
// ---------------------------------------------------------------------------

/// The handler routines a vector can be bound to.
#[derive(Clone, Copy, Debug, PartialEq, Eq)]
pub enum HandlerKind {
    Breakpoint,
    DoubleFault,
    Timer,
    Keyboard,
}

/// One entry of the dispatch table: its handler, if bound, and the
/// interrupt-stack-table slot whose stack the handler runs on, if any.
#[derive(Clone, Copy, Debug, PartialEq, Eq)]
pub struct IdtEntry {
    pub handler: Option<HandlerKind>,
    pub stack_index: Option<u16>,
}

/// An entry with no handler: its vector halts the machine.
pub open spec fn empty_entry() -> IdtEntry {
    IdtEntry { handler: None, stack_index: None }
}

/// The entry that the kernel's table holds for vector `v`.
pub open spec fn kernel_entry(v: int) -> IdtEntry {
    if v == BREAKPOINT_VECTOR {
        IdtEntry { handler: Some(HandlerKind::Breakpoint), stack_index: None }
    } else if v == DOUBLE_FAULT_VECTOR {
        IdtEntry { handler: Some(HandlerKind::DoubleFault), stack_index: Some(DOUBLE_FAULT_IST_INDEX) }
    } else if v == InterruptIndex::Timer.spec_as_u8() {
        IdtEntry { handler: Some(HandlerKind::Timer), stack_index: None }
    } else if v == InterruptIndex::Keyboard.spec_as_u8() {
        IdtEntry { handler: Some(HandlerKind::Keyboard), stack_index: None }
    } else {
        empty_entry()
    }
}

/// The interrupt dispatch table: one entry per vector.
pub struct DispatchTable {
    pub entries: Vec<IdtEntry>,
}

impl DispatchTable {
    pub open spec fn wf(&self) -> bool {
        self.entries@.len() == IDT_ENTRIES
    }

    /// A table with every entry empty.
    pub fn new() -> (r: DispatchTable)
        ensures
            r.wf(),
            forall|v: int| 0 <= v < IDT_ENTRIES ==> #[trigger] r.entries@[v] == empty_entry(),
    {
        let mut entries: Vec<IdtEntry> = Vec::new();
        let mut i: usize = 0;
        while i < IDT_ENTRIES
            invariant
                i <= IDT_ENTRIES,
                entries@.len() == i,
                forall|v: int| 0 <= v < i ==> entries@[v] == empty_entry(),
            decreases IDT_ENTRIES - i,
        {
            entries.push(IdtEntry { handler: None, stack_index: None });
            i = i + 1;
        }
        DispatchTable { entries }
    }

    /// Binds `vector` to `handler`, keeping the entry's stack slot.
    pub fn set_handler(&mut self, vector: u8, handler: HandlerKind)
        requires
            old(self).wf(),
        ensures
            final(self).wf(),
            final(self).entries@ == old(self).entries@.update(
                vector as int,
                IdtEntry { handler: Some(handler), stack_index: old(self).entries@[vector as int].stack_index },
            ),
    {
        let e = self.entries[vector as usize];
        self.entries.set(vector as usize, IdtEntry { handler: Some(handler), stack_index: e.stack_index });
    }

    /// Makes the handler of `vector` run on the stack of interrupt-stack-table
    /// slot `index`, keeping the entry's handler.
    pub fn set_stack_index(&mut self, vector: u8, index: u16)
        requires
            old(self).wf(),
            index < IST_SLOTS,
        ensures
            final(self).wf(),
            final(self).entries@ == old(self).entries@.update(
                vector as int,
                IdtEntry { handler: old(self).entries@[vector as int].handler, stack_index: Some(index) },
            ),
    {
        let e = self.entries[vector as usize];
        self.entries.set(vector as usize, IdtEntry { handler: e.handler, stack_index: Some(index) });
    }

    /// The entry for `vector`.
    pub fn entry(&self, vector: u8) -> (r: IdtEntry)
        requires
            self.wf(),
        ensures
            r == self.entries@[vector as int],
    {
        self.entries[vector as usize]
    }

    /// The handler that runs when `vector` fires, `None` where the vector
    /// halts the machine.
    pub fn dispatch(&self, vector: u8) -> (r: Option<HandlerKind>)
        requires
            self.wf(),
        ensures
            r == self.entries@[vector as int].handler,
    {
        self.entries[vector as usize].handler
    }
}

/// The kernel's dispatch table: the breakpoint trap, the double fault (on the
/// dedicated fault stack), and the timer and keyboard on their remapped
/// vectors; every other vector left empty.
pub fn init_idt() -> (r: DispatchTable)
    ensures
        r.wf(),
        forall|v: int| 0 <= v < IDT_ENTRIES ==> #[trigger] r.entries@[v] == kernel_entry(v),
{
    let mut idt = DispatchTable::new();
    idt.set_handler(BREAKPOINT_VECTOR, HandlerKind::Breakpoint);
    idt.set_handler(DOUBLE_FAULT_VECTOR, HandlerKind::DoubleFault);
    idt.set_stack_index(DOUBLE_FAULT_VECTOR, DOUBLE_FAULT_IST_INDEX);
    idt.set_handler(InterruptIndex::Timer.as_u8(), HandlerKind::Timer);
    idt.set_handler(InterruptIndex::Keyboard.as_u8(), HandlerKind::Keyboard);
    assert forall|v: int| 0 <= v < IDT_ENTRIES implies idt.entries@[v] == kernel_entry(v) by {
    }
    idt
}

// ---------------------------------------------------------------------------
// Handlers
// ---------------------------------------------------------------------------

/// What a handler leaves to be done once it has run: a character for the
/// diagnostic sink, the vector to acknowledge at the controllers, and whether
/// the interrupted code resumes (else the machine halts).
#[derive(Clone, Copy, Debug, PartialEq, Eq)]
pub struct HandlerAction {
    pub output: Option<char>,
    pub end_of_interrupt: Option<u8>,
    pub resume: bool,
}

/// A key as the keyboard decoder reports it: a character, or the code of a
/// key that stands for none.
#[derive(Clone, Copy, Debug, PartialEq, Eq)]
pub enum DecodedKey {
    RawKey(u8),
    Unicode(char),
}

pub open spec fn breakpoint_action() -> HandlerAction {
    HandlerAction { output: None, end_of_interrupt: None, resume: true }
}

pub open spec fn double_fault_action() -> HandlerAction {
    HandlerAction { output: None, end_of_interrupt: None, resume: false }
}

pub open spec fn timer_action() -> HandlerAction {
    HandlerAction {
        output: Some(TICK_MARK),
        end_of_interrupt: Some(InterruptIndex::Timer.spec_as_u8()),
        resume: true,
    }
}

/// The keyboard handler's action for what the decoder reported: a character
/// is shown, a raw key or nothing is not; the keyboard vector is always
/// acknowledged.
pub open spec fn key_action(decoded: Option<DecodedKey>) -> HandlerAction {
    HandlerAction {
        output: match decoded {
            Some(DecodedKey::Unicode(c)) => Some(c),
            _ => None,
        },
        end_of_interrupt: Some(InterruptIndex::Keyboard.spec_as_u8()),
        resume: true,
    }
}

/// The breakpoint trap is reported (by the caller, from the machine state)
/// and the trapped code resumes; nothing is acknowledged.
pub fn breakpoint_handler() -> (r: HandlerAction)
    ensures
        r == breakpoint_action(),
{
    HandlerAction { output: None, end_of_interrupt: None, resume: true }
}

/// A double fault is reported and the machine halts.
pub fn double_fault_handler() -> (r: HandlerAction)
    ensures
        r == double_fault_action(),
{
    HandlerAction { output: None, end_of_interrupt: None, resume: false }
}

/// A timer tick shows a tick mark and is acknowledged on the timer vector.
pub fn timer_handler() -> (r: HandlerAction)
    ensures
        r == timer_action(),
{
    HandlerAction {
        output: Some(TICK_MARK),
        end_of_interrupt: Some(InterruptIndex::Timer.as_u8()),
        resume: true,
    }
}

/// The keyboard handler's action for one decoder result.
pub fn key_handler_action(decoded: Option<DecodedKey>) -> (r: HandlerAction)
    ensures
        r == key_action(decoded),
{
    let output = match decoded {
        Some(DecodedKey::Unicode(c)) => Some(c),
        _ => None,
    };
    HandlerAction { output, end_of_interrupt: Some(InterruptIndex::Keyboard.as_u8()), resume: true }
}

/// Feeds one scancode byte to the decoder; when that completes a key event,
/// feeds the event on to be decoded. The action is the one `key_action`
/// gives for what was decoded, so the keyboard vector is acknowledged exactly
/// once. The decoder keeps its state for the next interrupt.
pub fn keyboard_handler(decoder: &mut KeyDecoder, scancode: u8) -> (r: HandlerAction)
    ensures
        final(decoder).fed_bytes() == old(decoder).fed_bytes().push(scancode),
        match set1_event(final(decoder).fed_bytes()) {
            Some(e) => {
                &&& final(decoder).fed_events() == old(decoder).fed_events().push(e)
                &&& r == key_action(us104_decode(final(decoder).fed_events()))
            },
            None => {
                &&& final(decoder).fed_events() == old(decoder).fed_events()
                &&& r == key_action(None)
            },
        },
        r.end_of_interrupt == Some(InterruptIndex::Keyboard.spec_as_u8()),
        r.resume,
{
    let decoded = match add_byte(decoder, scancode) {
        Some(event) => process_keyevent(decoder, event),
        None => None,
    };
    key_handler_action(decoded)
}

/// Appends the action's character, if any, to the diagnostic output.
pub fn forward_output(sink: &mut Vec<char>, action: HandlerAction)
    ensures
        final(sink)@ == old(sink)@ + printed(seq![action]),
{
    proof {
        assert(seq![action].drop_last() =~= Seq::<HandlerAction>::empty());
        assert(printed(Seq::<HandlerAction>::empty()) == Seq::<char>::empty());
    }
    match action.output {
        Some(c) => sink.push(c),
        None => {},
    }
    assert(sink@ =~= old(sink)@ + printed(seq![action]));
}

/// The characters that a run of handler actions sends to the sink, in order.
pub open spec fn printed(actions: Seq<HandlerAction>) -> Seq<char>
    decreases actions.len(),
{
    if actions.len() == 0 {
        Seq::empty()
    } else {
        printed(actions.drop_last()) + match actions.last().output {
            Some(c) => seq![c],
            None => Seq::empty(),
        }
    }
}

/// Forwarding one more action extends the run's output by that action's
/// character, if any: a sink fed by `forward_output` holds `printed` of every
/// action so far.
pub proof fn lemma_printed_push(actions: Seq<HandlerAction>, action: HandlerAction)
    ensures
        printed(actions.push(action)) == printed(actions) + printed(seq![action]),
{
    assert(actions.push(action).drop_last() =~= actions);
    assert(seq![action].drop_last() =~= Seq::<HandlerAction>::empty());
    assert(printed(Seq::<HandlerAction>::empty()) == Seq::<char>::empty());
    assert(printed(actions) + printed(seq![action]) =~= printed(actions.push(action)));
}

/// When each of a run of keyboard interrupts has the decoder report a
/// character, the sink receives exactly those characters, one per interrupt,
/// in the order the interrupts came.
pub proof fn lemma_keys_printed_in_order(chars: Seq<char>)
    ensures
        printed(chars.map_values(|c: char| key_action(Some(DecodedKey::Unicode(c))))) == chars,
    decreases chars.len(),
{
    if chars.len() > 0 {
        let actions = chars.map_values(|c: char| key_action(Some(DecodedKey::Unicode(c))));
        lemma_keys_printed_in_order(chars.drop_last());
        assert(actions.drop_last() =~= chars.drop_last().map_values(
            |c: char| key_action(Some(DecodedKey::Unicode(c))),
        ));
        assert(chars =~= chars.drop_last() + seq![chars.last()]);
    }
}

// ---------------------------------------------------------------------------
// Keyboard decoder
// ---------------------------------------------------------------------------

/// How a key event changed its key.
#[derive(Clone, Copy, Debug, PartialEq, Eq)]
pub enum KeyTransition {
    Up,
    Down,
    /// Pressed and released at once, or an event with no key position.
    SingleShot,
}

/// A key event completed by the decoder, with its key code and transition as
/// plain values. Only the decoder makes one.
pub struct ScanEvent {
    event: KeyEvent,
    code: u8,
    transition: KeyTransition,
}

impl View for ScanEvent {
    type V = (u8, KeyTransition);

    closed spec fn view(&self) -> (u8, KeyTransition) {
        (self.code, self.transition)
    }
}

impl ScanEvent {
    pub fn code(&self) -> (r: u8)
        ensures
            r == self@.0,
    {
        self.code
    }

    pub fn transition(&self) -> (r: KeyTransition)
        ensures
            r == self@.1,
    {
        self.transition
    }
}

/// The key event that scancode set 1 completes on the last of `bytes`, when
/// `bytes` have been fed in order to a fresh decoder; `None` when that byte
/// completes none or is refused.
pub uninterp spec fn set1_event(bytes: Seq<u8>) -> Option<(u8, KeyTransition)>;

/// What the US 104-key layout, with Ctrl ignored, decodes from the last of
/// `events`, when `events` have been fed in order to a fresh decoder.
pub uninterp spec fn us104_decode(events: Seq<(u8, KeyTransition)>) -> Option<DecodedKey>;

/// The pc-keyboard decoder itself: scancode set 1 on the US 104-key layout,
/// with the Ctrl key passed through rather than mapped to control characters.
#[verifier::external_body]
pub struct KeyboardCell {
    keyboard: Keyboard<Us104Key, ScancodeSet1>,
}

/// The keyboard decoder, with the bytes and the key events fed to it so far.
/// It keeps the pending prefix of a multi-byte scancode and the modifier
/// keys' state from one byte to the next.
pub struct KeyDecoder {
    cell: KeyboardCell,
    bytes: Ghost<Seq<u8>>,
    events: Ghost<Seq<(u8, KeyTransition)>>,
}

impl KeyDecoder {
    /// The scancode bytes fed to the decoder, in order.
    pub closed spec fn fed_bytes(&self) -> Seq<u8> {
        self.bytes@
    }

    /// The key events fed on to be decoded, in order.
    pub closed spec fn fed_events(&self) -> Seq<(u8, KeyTransition)> {
        self.events@
    }

    /// A decoder that has been fed nothing.
    pub fn new() -> (r: KeyDecoder)
        ensures
            r.fed_bytes() == Seq::<u8>::empty(),
            r.fed_events() == Seq::<(u8, KeyTransition)>::empty(),
    {
        KeyDecoder { cell: new_keyboard_cell(), bytes: Ghost(Seq::empty()), events: Ghost(Seq::empty()) }
    }
}

/// Relies on pc_keyboard::Keyboard::new: a decoder in its start state.
#[verifier::external_body]
fn new_keyboard_cell() -> (r: KeyboardCell) {
    KeyboardCell { keyboard: Keyboard::new(ScancodeSet1::new(), Us104Key, HandleControl::Ignore) }
}

#[verifier::external_type_specification]
#[verifier::external_body]
pub struct ExKeyEvent(KeyEvent);

/// Relies on pc_keyboard::Keyboard::add_byte: its scancode-set state, and so
/// its result, depends only on the bytes fed so far; a refused byte gives no
/// event.
#[verifier::external_body]
fn add_byte(decoder: &mut KeyDecoder, byte: u8) -> (r: Option<ScanEvent>)
    ensures
        final(decoder).fed_bytes() == old(decoder).fed_bytes().push(byte),
        final(decoder).fed_events() == old(decoder).fed_events(),
        set1_event(final(decoder).fed_bytes()) == match r {
            Some(e) => Some(e@),
            None => None::<(u8, KeyTransition)>,
        },
{
    match decoder.cell.keyboard.add_byte(byte) {
        Ok(Some(event)) => {
            let transition = match event.state {
                KeyState::Up => KeyTransition::Up,
                KeyState::Down => KeyTransition::Down,
                KeyState::SingleShot => KeyTransition::SingleShot,
            };
            Some(ScanEvent { code: event.code as u8, transition, event })
        },
        Ok(None) => None,
        Err(_) => None,
    }
}

/// Relies on pc_keyboard::Keyboard::process_keyevent: its modifier state, and
/// so its result, depends only on the key events fed so far.
#[verifier::external_body]
fn process_keyevent(decoder: &mut KeyDecoder, event: ScanEvent) -> (r: Option<DecodedKey>)
    ensures
        final(decoder).fed_events() == old(decoder).fed_events().push(event@),
        final(decoder).fed_bytes() == old(decoder).fed_bytes(),
        r == us104_decode(final(decoder).fed_events()),
{
    match decoder.cell.keyboard.process_keyevent(event.event) {
        Some(pc_keyboard::DecodedKey::RawKey(code)) => Some(DecodedKey::RawKey(code as u8)),
        Some(pc_keyboard::DecodedKey::Unicode(c)) => Some(DecodedKey::Unicode(c)),
        None => None,
    }
}

} // verus!
