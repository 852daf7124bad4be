use kernel_core::boot::{init, BootAction, BootEvent, BootPhase, BootStep};
use kernel_core::cmos::{bcd_to_binary, is_24_hour_format, is_bcd_mode, CMOSRTCRegister};
use kernel_core::interrupts::{
    exception_response, init_idt, HandlerEntry, Response, BREAKPOINT_VECTOR, DOUBLE_FAULT_VECTOR,
    PIC_1_OFFSET, PIC_2_OFFSET,
};
use kernel_core::time::DateTime;
use kernel_core::vga_buffer::{
    Char, Color, ColorDesc, Writer, BUFFER_CELLS, BUFFER_HEIGHT, BUFFER_WIDTH, PLACEHOLDER,
};

#[test]
fn register_numbers() {
    assert_eq!(CMOSRTCRegister::Seconds.as_u8(), 0x00);
    assert_eq!(CMOSRTCRegister::Minutes.as_u8(), 0x02);
    assert_eq!(CMOSRTCRegister::Hours.as_u8(), 0x04);
    assert_eq!(CMOSRTCRegister::Weekday.as_u8(), 0x06);
    assert_eq!(CMOSRTCRegister::DayOfMonth.as_u8(), 0x07);
    assert_eq!(CMOSRTCRegister::Month.as_u8(), 0x08);
    assert_eq!(CMOSRTCRegister::Year.as_u8(), 0x09);
    assert_eq!(CMOSRTCRegister::StatusA.as_u8(), 0x0a);
    assert_eq!(CMOSRTCRegister::StatusB.as_u8(), 0x0b);
    assert_eq!(CMOSRTCRegister::StatusC.as_u8(), 0x0c);
    assert_eq!(CMOSRTCRegister::StatusD.as_u8(), 0x0d);
}

#[test]
fn binary_coded_decimals() {
    assert_eq!(bcd_to_binary(0x00), 0);
    assert_eq!(bcd_to_binary(0x09), 9);
    assert_eq!(bcd_to_binary(0x10), 10);
    assert_eq!(bcd_to_binary(0x59), 59);
    assert_eq!(bcd_to_binary(0x99), 99);
    // Halves that are no digits are taken by their value all the same.
    assert_eq!(bcd_to_binary(0xff), 165);
    assert_eq!(bcd_to_binary(0x1a), 20);
}

#[test]
fn status_register_b() {
    assert!(is_bcd_mode(0x00));
    assert!(is_bcd_mode(0x02));
    assert!(!is_bcd_mode(0x04));
    assert!(!is_bcd_mode(0xff));
    assert!(is_24_hour_format(0x00));
    assert!(is_24_hour_format(0x04));
    assert!(!is_24_hour_format(0x02));
    assert!(!is_24_hour_format(0x06));
}

#[test]
fn date_time_fields() {
    let time = DateTime::new(25, 12, 31, 23, 59, 58);
    assert_eq!(time.year, 25);
    assert_eq!(time.month, 12);
    assert_eq!(time.day, 31);
    assert_eq!(time.hour, 23);
    assert_eq!(time.minute, 59);
    assert_eq!(time.second, 58);
}

#[test]
fn register_values_are_decoded_in_bcd_mode_only() {
    let raw = DateTime::new(0x25, 0x12, 0x31, 0x23, 0x59, 0x58);
    assert_eq!(DateTime::now(raw, true), DateTime::new(25, 12, 31, 23, 59, 58));
    assert_eq!(DateTime::now(raw, false), raw);
}

#[test]
fn interrupt_handlers() {
    assert_eq!(PIC_1_OFFSET, 32);
    assert_eq!(PIC_2_OFFSET, 40);
    let table = init_idt();
    assert_eq!(
        table.breakpoint,
        HandlerEntry { vector: 3, stack_index: None, response: Response::Resume }
    );
    assert_eq!(
        table.double_fault,
        HandlerEntry { vector: 8, stack_index: Some(0), response: Response::Halt }
    );
    assert_eq!(exception_response(BREAKPOINT_VECTOR), Response::Resume);
    assert_eq!(exception_response(DOUBLE_FAULT_VECTOR), Response::Halt);
    for vector in 0..=255u8 {
        if vector != 3 {
            assert_eq!(exception_response(vector), Response::Halt);
        }
    }
}

#[test]
fn colours() {
    assert_eq!(Color::Black.as_u8(), 0);
    assert_eq!(Color::Yellow.as_u8(), 14);
    assert_eq!(Color::White.as_u8(), 15);
    assert_eq!(ColorDesc::new(Color::Yellow, Color::Black), ColorDesc(0x0e));
    assert_eq!(ColorDesc::new(Color::White, Color::Blue), ColorDesc(0x1f));
    assert_eq!(ColorDesc::new(Color::Black, Color::White), ColorDesc(0xf0));
    assert_eq!(ColorDesc::new(Color::LightRed, Color::DarkGray), ColorDesc(0x8c));
}

const BLANK: Char = Char { character: b' ', color_desc: ColorDesc(0) };

fn cell(writer: &Writer, row: usize, column: usize) -> Char {
    writer.buff[row * BUFFER_WIDTH + column]
}

#[test]
fn bytes_go_to_the_cell_under_the_cursor() {
    let colours = ColorDesc::new(Color::Yellow, Color::Black);
    let mut writer = Writer::new(colours, [BLANK; BUFFER_CELLS]);
    assert_eq!((writer.row_pos, writer.column_pos), (0, 0));
    writer.write_byte(b'H');
    writer.write_byte(b'i');
    assert_eq!(cell(&writer, 0, 0), Char { character: b'H', color_desc: colours });
    assert_eq!(cell(&writer, 0, 1), Char { character: b'i', color_desc: colours });
    assert_eq!(cell(&writer, 0, 2), BLANK);
    assert_eq!((writer.row_pos, writer.column_pos), (0, 2));
    writer.write_byte(b'\n');
    assert_eq!((writer.row_pos, writer.column_pos), (1, 0));
    writer.write_byte(b'!');
    assert_eq!(cell(&writer, 1, 0), Char { character: b'!', color_desc: colours });
    writer.new_line();
    assert_eq!((writer.row_pos, writer.column_pos), (2, 0));
    let written = writer.buff.iter().filter(|c| **c != BLANK).count();
    assert_eq!(written, 3);
}

#[test]
fn a_full_row_wraps_to_the_next() {
    let mut writer = Writer::new(ColorDesc(0x0e), [BLANK; BUFFER_CELLS]);
    for column in 0..BUFFER_WIDTH {
        assert!(writer.can_write(b'x'));
        writer.write_byte(b'x');
        assert_eq!(cell(&writer, 0, column).character, b'x');
    }
    assert_eq!((writer.row_pos, writer.column_pos), (0, 80));
    writer.write_byte(b'y');
    assert_eq!(cell(&writer, 1, 0).character, b'y');
    assert_eq!((writer.row_pos, writer.column_pos), (1, 1));
}

#[test]
fn the_writer_takes_no_byte_below_the_last_row() {
    let mut writer = Writer::new(ColorDesc(7), [BLANK; BUFFER_CELLS]);
    writer.row_pos = BUFFER_HEIGHT - 1;
    writer.column_pos = 79;
    assert!(writer.can_write(b'a'));
    writer.write_byte(b'a');
    assert_eq!(cell(&writer, 24, 79).character, b'a');
    assert!(!writer.can_write(b'b'));
    assert!(writer.can_write(b'\n'));
    writer.write_byte(b'\n');
    assert_eq!((writer.row_pos, writer.column_pos), (25, 0));
    assert!(!writer.can_write(b'c'));
    writer.row_pos = usize::MAX;
    assert!(!writer.can_write(b'\n'));
}

#[test]
fn unprintable_bytes_are_shown_as_the_placeholder() {
    assert_eq!(PLACEHOLDER, 0xfe);
    assert!(Writer::is_print(b' '));
    assert!(Writer::is_print(b'~'));
    assert!(Writer::is_print(b'\n'));
    assert!(!Writer::is_print(0x1f));
    assert!(!Writer::is_print(0x7f));
    assert!(!Writer::is_print(b'\t'));
    assert_eq!(Writer::displayed_byte(b'a'), b'a');
    assert_eq!(Writer::displayed_byte(b'\n'), b'\n');
    assert_eq!(Writer::displayed_byte(0xc3), 0xfe);
    assert_eq!(Writer::displayed_byte(0x00), 0xfe);
}

#[test]
fn strings_are_written_byte_by_byte() {
    let colours = ColorDesc(0x0e);
    let mut writer = Writer::new(colours, [BLANK; BUFFER_CELLS]);
    assert!(writer.can_write_string("ab\nc\u{e9}\t"));
    writer.write_string("ab\nc\u{e9}\t");
    let row0: Vec<u8> = (0..3).map(|c| cell(&writer, 0, c).character).collect();
    assert_eq!(row0, vec![b'a', b'b', b' ']);
    // The two bytes of the accented letter and the tabulator cannot be printed.
    let row1: Vec<u8> = (0..5).map(|c| cell(&writer, 1, c).character).collect();
    assert_eq!(row1, vec![b'c', 0xfe, 0xfe, 0xfe, b' ']);
    assert_eq!(cell(&writer, 1, 1).color_desc, colours);
    assert_eq!((writer.row_pos, writer.column_pos), (1, 4));
    writer.write_string("");
    assert_eq!((writer.row_pos, writer.column_pos), (1, 4));
}

#[test]
fn a_string_must_fit_the_screen() {
    let mut writer = Writer::new(ColorDesc(7), [BLANK; BUFFER_CELLS]);
    writer.row_pos = 24;
    writer.column_pos = 78;
    assert!(writer.can_write_string("ab"));
    assert!(writer.can_write_string("ab\n"));
    assert!(!writer.can_write_string("abc"));
    assert!(!writer.can_write_string("ab\nc"));
    assert!(writer.can_write_string("\n\n\n"));
    writer.write_string("ab\n");
    assert_eq!((writer.row_pos, writer.column_pos), (25, 0));
    assert_eq!(cell(&writer, 24, 78).character, b'a');
    assert_eq!(cell(&writer, 24, 79).character, b'b');
    assert!(!writer.can_write_string("x"));
    assert!(writer.can_write_string(""));
    let long = "x".repeat(2000);
    let fresh = Writer::new(ColorDesc(7), [BLANK; BUFFER_CELLS]);
    assert!(fresh.can_write_string(&long));
    assert!(!fresh.can_write_string(&"x".repeat(2001)));
}

#[test]
fn the_boot_takes_its_steps_in_order() {
    let mut phase = BootPhase::Idle;
    assert_eq!(init(&mut phase, BootEvent::Done), BootAction::Nothing);
    assert_eq!(phase, BootPhase::Idle);
    let order = [
        BootStep::InterruptControllers,
        BootStep::DescriptorTables,
        BootStep::InterruptTable,
        BootStep::UserEntry,
        BootStep::Heap,
    ];
    let mut event = BootEvent::Begin;
    for step in order {
        assert_eq!(init(&mut phase, event), BootAction::Perform(step));
        assert_eq!(phase, BootPhase::Running(step));
        assert_eq!(init(&mut phase, BootEvent::Begin), BootAction::Nothing);
        event = BootEvent::Done;
    }
    assert_eq!(init(&mut phase, BootEvent::Done), BootAction::EnterUserMode);
    assert_eq!(phase, BootPhase::UserMode);
    for event in [BootEvent::Begin, BootEvent::Done, BootEvent::Failed] {
        assert_eq!(init(&mut phase, event), BootAction::Nothing);
        assert_eq!(phase, BootPhase::UserMode);
    }
}

#[test]
fn a_failed_step_halts_the_boot() {
    let mut phase = BootPhase::Idle;
    init(&mut phase, BootEvent::Begin);
    init(&mut phase, BootEvent::Done);
    assert_eq!(phase, BootPhase::Running(BootStep::DescriptorTables));
    assert_eq!(init(&mut phase, BootEvent::Failed), BootAction::Halt(BootStep::DescriptorTables));
    assert_eq!(phase, BootPhase::Halted(BootStep::DescriptorTables));
    for event in [BootEvent::Begin, BootEvent::Done, BootEvent::Failed] {
        assert_eq!(init(&mut phase, event), BootAction::Nothing);
    }
    assert_eq!(BootStep::Heap.next(), None);
    assert_eq!(BootStep::UserEntry.next(), Some(BootStep::Heap));
}
