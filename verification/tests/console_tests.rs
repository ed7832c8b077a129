use efi_loader::console::{
    EFISimpleTextOutputProtocol, EFISimpleTextWriter, GlobalWriter, CLEAR_SCREEN_OFFSET,
    OUTPUT_STRING_OFFSET,
};
use efi_loader::status::EFIError;
use efi_loader::wide_text::CChar;

#[test]
fn writer_renders_crlf() {
    // Writing "AB\nC" must put A, B, CR, LF, C on the console wire.
    let stub = EFISimpleTextOutputProtocol::new();
    let mut writer = EFISimpleTextWriter::new(stub);
    writer.write_str("AB\nC");
    assert_eq!(writer.protocol.written, vec![0x41, 0x42, 0x0D, 0x0A, 0x43]);
}

#[test]
fn write_char_records_single_unit() {
    let mut console = EFISimpleTextOutputProtocol::new();
    console.write_char('Z');
    console.write_char('!');
    assert_eq!(console.written, vec![0x5A, 0x21]);
}

#[test]
fn write_char_of_null_unit_writes_nothing() {
    let mut console = EFISimpleTextOutputProtocol::new();
    console.write_char('\u{10000}');
    assert_eq!(console.written, Vec::<u16>::new());
}

#[test]
fn output_string_stops_at_null() {
    let mut console = EFISimpleTextOutputProtocol::new();
    let s = CChar::new(vec![0x48, 0x49, 0, 0x4A, 0]);
    console.output_string(&s);
    assert_eq!(console.written, vec![0x48, 0x49]);
}

#[test]
fn clear_screen_empties_the_record() {
    let mut console = EFISimpleTextOutputProtocol::new();
    console.write_char('A');
    console.clear_screen();
    assert_eq!(console.written, Vec::<u16>::new());
}

#[test]
fn console_binding_reads_dispatch_slots() {
    assert_eq!(OUTPUT_STRING_OFFSET, 8);
    assert_eq!(CLEAR_SCREEN_OFFSET, 48);
    let mut img = vec![0u8; 56];
    img[8..16].copy_from_slice(&0x1111_2222_3333_4444u64.to_le_bytes());
    img[48..56].copy_from_slice(&0x5555_6666_7777_8888u64.to_le_bytes());
    let console = EFISimpleTextOutputProtocol::from_image(&img);
    assert_eq!(console.output_string_handle, 0x1111_2222_3333_4444);
    assert_eq!(console.clear_screen_handle, 0x5555_6666_7777_8888);
    assert_eq!(console.written, Vec::<u16>::new());
}

#[test]
fn uninitialized_writer_fails_loudly() {
    let mut global = GlobalWriter::new();
    assert_eq!(global.write_str("hello"), Err(EFIError::WriterUninitialized));
}

#[test]
fn ready_writer_appends_rendering() {
    let mut global = GlobalWriter::new();
    let writer = EFISimpleTextWriter::new(EFISimpleTextOutputProtocol::new());
    global.init(writer);
    assert_eq!(global.write_str("a\n"), Ok(()));
    assert_eq!(global.writer.unwrap().protocol.written, vec![0x61, 0x0D, 0x0A]);
}
