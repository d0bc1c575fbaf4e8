use phren_os::gdt::DOUBLE_FAULT_IST_INDEX;
use phren_os::interrupts::{
    breakpoint_handler, double_fault_handler, forward_output, init_idt, key_handler_action,
    keyboard_handler, remap, timer_handler, DecodedKey, DispatchTable, HandlerAction,
    HandlerKind, IdtEntry, InterruptIndex, KeyDecoder, PicLayout, RemapError, BREAKPOINT_VECTOR,
    DOUBLE_FAULT_VECTOR, PIC_1_OFFSET, PIC_2_OFFSET,
};

#[test]
fn interrupt_index_vectors() {
    assert_eq!(InterruptIndex::Timer.as_u8(), 32);
    assert_eq!(InterruptIndex::Keyboard.as_u8(), 33);
    assert_eq!(PIC_1_OFFSET, 32);
    assert_eq!(PIC_2_OFFSET, 40);
}

#[test]
fn remap_standard_offsets() {
    let layout = remap(32, 40).unwrap();
    assert_eq!(layout, PicLayout { primary_offset: 32, secondary_offset: 40 });
    assert_eq!(layout.vector_for_line(0), 32);
    assert_eq!(layout.vector_for_line(1), 33);
    assert_eq!(layout.vector_for_line(8), 40);
    assert_eq!(layout.vector_for_line(15), 47);
    for line in 0..16u8 {
        assert!(layout.vector_for_line(line) >= 32);
    }
}

#[test]
fn remap_refuses_bad_offsets() {
    assert_eq!(remap(0, 8), Err(RemapError::ExceptionRange));
    assert_eq!(remap(32, 24), Err(RemapError::ExceptionRange));
    assert_eq!(remap(32, 249), Err(RemapError::OutOfRange));
    assert_eq!(remap(32, 36), Err(RemapError::Overlap));
    assert_eq!(remap(40, 32), Ok(PicLayout { primary_offset: 40, secondary_offset: 32 }));
    assert_eq!(remap(248, 32), Ok(PicLayout { primary_offset: 248, secondary_offset: 32 }));
}

#[test]
fn kernel_table_binds_four_vectors() {
    let idt = init_idt();
    assert_eq!(idt.dispatch(BREAKPOINT_VECTOR), Some(HandlerKind::Breakpoint));
    assert_eq!(
        idt.entry(DOUBLE_FAULT_VECTOR),
        IdtEntry { handler: Some(HandlerKind::DoubleFault), stack_index: Some(DOUBLE_FAULT_IST_INDEX) }
    );
    assert_eq!(idt.dispatch(32), Some(HandlerKind::Timer));
    assert_eq!(idt.dispatch(33), Some(HandlerKind::Keyboard));
    assert_eq!(idt.entry(32).stack_index, None);
    for v in 0..=255u8 {
        if ![3u8, 8, 32, 33].contains(&v) {
            assert_eq!(idt.entry(v), IdtEntry { handler: None, stack_index: None });
        }
    }
}

#[test]
fn table_setters_keep_the_other_field() {
    let mut idt = DispatchTable::new();
    idt.set_stack_index(14, 2);
    idt.set_handler(14, HandlerKind::Timer);
    assert_eq!(idt.entry(14), IdtEntry { handler: Some(HandlerKind::Timer), stack_index: Some(2) });
    assert_eq!(idt.dispatch(15), None);
}

#[test]
fn exception_handlers_resume_or_halt() {
    let b = breakpoint_handler();
    assert!(b.resume);
    assert_eq!(b.end_of_interrupt, None);
    assert_eq!(b.output, None);
    let d = double_fault_handler();
    assert!(!d.resume);
    assert_eq!(d.end_of_interrupt, None);
}

#[test]
fn timer_ticks_and_acknowledges() {
    let t = timer_handler();
    assert_eq!(t, HandlerAction { output: Some('.'), end_of_interrupt: Some(32), resume: true });
}

#[test]
fn key_action_shows_only_characters() {
    assert_eq!(key_handler_action(Some(DecodedKey::Unicode('q'))).output, Some('q'));
    assert_eq!(
        key_handler_action(Some(DecodedKey::RawKey(pc_keyboard::KeyCode::LShift as u8))).output,
        None
    );
    let none = key_handler_action(None);
    assert_eq!(none.output, None);
    assert_eq!(none.end_of_interrupt, Some(33));
}

#[test]
fn keyboard_decodes_press_and_ignores_release() {
    let mut decoder = KeyDecoder::new();
    // scancode set 1: 0x1e presses 'A', 0x9e releases it
    let press = keyboard_handler(&mut decoder, 0x1e);
    assert_eq!(press, HandlerAction { output: Some('a'), end_of_interrupt: Some(33), resume: true });
    let release = keyboard_handler(&mut decoder, 0x9e);
    assert_eq!(release, HandlerAction { output: None, end_of_interrupt: Some(33), resume: true });
}

#[test]
fn keyboard_prints_each_key_once_in_order() {
    let mut decoder = KeyDecoder::new();
    let mut sink: Vec<char> = Vec::new();
    // h, e, l, l, o, 1
    let scancodes = [0x23u8, 0x12, 0x26, 0x26, 0x18, 0x02];
    for &s in scancodes.iter() {
        let action = keyboard_handler(&mut decoder, s);
        assert_eq!(action.end_of_interrupt, Some(33));
        forward_output(&mut sink, action);
    }
    assert_eq!(sink, vec!['h', 'e', 'l', 'l', 'o', '1']);
}

#[test]
fn forward_output_appends_only_characters() {
    let mut sink = vec!['x'];
    forward_output(&mut sink, timer_handler());
    forward_output(&mut sink, breakpoint_handler());
    assert_eq!(sink, vec!['x', '.']);
}

#[test]
fn keyboard_state_carries_across_interrupts() {
    let mut decoder = KeyDecoder::new();
    // left shift held (0x2a) makes 0x1e an upper-case 'A'
    assert_eq!(keyboard_handler(&mut decoder, 0x2a).output, None);
    assert_eq!(keyboard_handler(&mut decoder, 0x1e).output, Some('A'));
    // shift released (0xaa): lower case again
    assert_eq!(keyboard_handler(&mut decoder, 0xaa).output, None);
    assert_eq!(keyboard_handler(&mut decoder, 0x1e).output, Some('a'));
    // an extended prefix (0xe0) completes no event on its own
    let prefix = keyboard_handler(&mut decoder, 0xe0);
    assert_eq!(prefix, HandlerAction { output: None, end_of_interrupt: Some(33), resume: true });
    // 0xe0 0x48 is the up arrow: a raw key, so nothing is shown
    assert_eq!(keyboard_handler(&mut decoder, 0x48).output, None);
    // 0x48 alone is keypad 8
    assert_eq!(keyboard_handler(&mut decoder, 0x48).output, Some('8'));
}
