use mycelium_kernel::halt::{alloc_error_message, panic_report, SourceLocation};

fn loc(file: &str, line: u32, column: u32) -> SourceLocation {
    SourceLocation { file: String::from(file), line, column }
}

#[test]
fn panic_report_carries_both_locations() {
    let report = panic_report("boom", &loc("file.ext", 10, 5), &loc("main.rs", 7, 13));
    let text = String::from_utf8(report).unwrap();
    assert_eq!(text, "  mycelium panicked: boom\n  at: file.ext:10:5\n  in: main.rs:7:13\n");
    assert!(text.contains("file.ext:10:5"));
    assert!(text.contains("main.rs:7:13"));
    assert!(text.contains("boom"));
}

#[test]
fn panic_report_when_both_locations_coincide() {
    let report = panic_report("double fault", &loc("idt.rs", 1, 1), &loc("idt.rs", 1, 1));
    let text = String::from_utf8(report).unwrap();
    assert_eq!(text, "  mycelium panicked: double fault\n  at: idt.rs:1:1\n  in: idt.rs:1:1\n");
}

#[test]
fn decimal_rendering_edge_values() {
    let report = panic_report("", &loc("a", 0, 4294967295), &loc("b", 100, 7));
    let text = String::from_utf8(report).unwrap();
    assert_eq!(text, "  mycelium panicked: \n  at: a:0:4294967295\n  in: b:100:7\n");
}

#[test]
fn alloc_error_reports_size_and_align() {
    let message = alloc_error_message(4096, 8);
    assert_eq!(String::from_utf8(message).unwrap(), "alloc error: size 4096, align 8");
    let message = alloc_error_message(0, 1);
    assert_eq!(String::from_utf8(message).unwrap(), "alloc error: size 0, align 1");
}
