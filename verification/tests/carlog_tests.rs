use carlog::CargoColor;
use carlog::CarlogStream;
use carlog::Status;
use carlog::carlog_error;
use carlog::carlog_info;
use carlog::carlog_ok;
use carlog::carlog_warning;
use carlog::color_str;

fn captured(stream: CarlogStream) -> String {
    match stream {
        CarlogStream::Custom(s) => s,
        _ => panic!("expected a capture buffer"),
    }
}

#[test]
fn test_carlog_info() {
    let mut stream = CarlogStream::Custom(String::new());
    let r = carlog_info("Compiling", "carlog v0.1.0", &mut stream);
    assert!(r.is_ok());
    assert_eq!(
        captured(stream),
        "   \u{1b}[1;36mCompiling\u{1b}[0m carlog v0.1.0\n"
    );
}

#[test]
fn test_carlog_ok() {
    let mut stream = CarlogStream::Custom(String::new());
    let r = carlog_ok("Compiled", "carlog v0.1.0", &mut stream);
    assert!(r.is_ok());
    assert_eq!(
        captured(stream),
        "    \u{1b}[1;32mCompiled\u{1b}[0m carlog v0.1.0\n"
    );
}

#[test]
fn test_carlog_warning() {
    let mut stream = CarlogStream::Custom(String::new());
    let r = carlog_warning("carlog (v0.1.0) generated a warning!", &mut stream);
    assert!(r.is_ok());
    assert_eq!(
        captured(stream),
        "\u{1b}[93mwarning\u{1b}[0m: carlog (v0.1.0) generated a warning!\n"
    );
}

#[test]
fn test_carlog_error() {
    let mut stream = CarlogStream::Custom(String::new());
    let r = carlog_error("carlog (v0.1.0) generated an error!", &mut stream);
    assert!(r.is_ok());
    assert_eq!(
        captured(stream),
        "\u{1b}[91merror\u{1b}[0m: carlog (v0.1.0) generated an error!\n"
    );
}

#[test]
fn test_color_str_plain_colors() {
    assert_eq!(color_str(CargoColor::Green, false, "x"), "\u{1b}[32mx\u{1b}[0m");
    assert_eq!(color_str(CargoColor::Cyan, false, "x"), "\u{1b}[36mx\u{1b}[0m");
    assert_eq!(color_str(CargoColor::Yellow, false, "x"), "\u{1b}[93mx\u{1b}[0m");
    assert_eq!(color_str(CargoColor::Red, false, "x"), "\u{1b}[91mx\u{1b}[0m");
    assert_eq!(color_str(CargoColor::White, false, "x"), "\u{1b}[37mx\u{1b}[0m");
    assert_eq!(color_str(CargoColor::Black, false, "x"), "\u{1b}[30mx\u{1b}[0m");
}

#[test]
fn test_color_str_bold_colors() {
    assert_eq!(color_str(CargoColor::Green, true, "x"), "\u{1b}[1;32mx\u{1b}[0m");
    assert_eq!(color_str(CargoColor::Cyan, true, "x"), "\u{1b}[1;36mx\u{1b}[0m");
    assert_eq!(color_str(CargoColor::Yellow, true, "x"), "\u{1b}[1;93mx\u{1b}[0m");
    assert_eq!(color_str(CargoColor::Red, true, "x"), "\u{1b}[1;91mx\u{1b}[0m");
    assert_eq!(color_str(CargoColor::White, true, "x"), "\u{1b}[1;37mx\u{1b}[0m");
    assert_eq!(color_str(CargoColor::Black, true, "x"), "\u{1b}[1;30mx\u{1b}[0m");
}

#[test]
fn test_render_framing_wraps_any_text() {
    let rendered = color_str(CargoColor::Red, true, "abc");
    assert!(rendered.starts_with("\u{1b}[1;91m"));
    assert!(rendered.ends_with("\u{1b}[0m"));
    let empty = color_str(CargoColor::Green, false, "");
    assert_eq!(empty, "\u{1b}[32m\u{1b}[0m");
}

#[test]
fn test_builder_defaults() {
    let line = Status::new().render_line("hi");
    assert_eq!(line, "\u{1b}[37m\u{1b}[0mhi\n");
}

#[test]
fn test_justify_pads_short_label() {
    let line = Status::new().justify().status("Compiled").render_line(" v0.1.0");
    assert_eq!(line, "    \u{1b}[37mCompiled\u{1b}[0m v0.1.0\n");
}

#[test]
fn test_justify_empty_label_pads_full_width() {
    let line = Status::new().justify().render_line("m");
    assert_eq!(line, "            \u{1b}[37m\u{1b}[0mm\n");
}

#[test]
fn test_justify_label_at_width_gets_no_padding() {
    let line = Status::new().justify().status("abcdefghijkl").render_line("m");
    assert_eq!(line, "\u{1b}[37mabcdefghijkl\u{1b}[0mm\n");
}

#[test]
fn test_justify_long_label_is_not_truncated() {
    let line = Status::new().justify().status("abcdefghijklm").render_line("m");
    assert_eq!(line, "\u{1b}[37mabcdefghijklm\u{1b}[0mm\n");
}

#[test]
fn test_no_justify_gets_no_padding() {
    let line = Status::new().status("hi").render_line("!");
    assert_eq!(line, "\u{1b}[37mhi\u{1b}[0m!\n");
}

#[test]
fn test_print_appends_to_custom_buffer() {
    let mut stream = CarlogStream::Custom(String::from("before|"));
    let r = Status::new().status("ok").print(&mut stream, "!");
    assert!(r.is_ok());
    assert_eq!(captured(stream), "before|\u{1b}[37mok\u{1b}[0m!\n");
}

#[test]
fn test_same_configuration_prints_identical_bytes() {
    let mut first = CarlogStream::Custom(String::new());
    let mut second = CarlogStream::Custom(String::new());
    let a = Status::new().bold().justify().color(CargoColor::Cyan).status("Checking");
    let b = Status::new().bold().justify().color(CargoColor::Cyan).status("Checking");
    assert!(a.print(&mut first, " twice").is_ok());
    assert!(b.print(&mut second, " twice").is_ok());
    assert_eq!(captured(first), captured(second));
}

#[test]
fn test_preset_separators() {
    let mut ok_stream = CarlogStream::Custom(String::new());
    carlog_ok("Done", "msg", &mut ok_stream).unwrap();
    assert!(captured(ok_stream).ends_with("\u{1b}[0m msg\n"));
    let mut warn_stream = CarlogStream::Custom(String::new());
    carlog_warning("msg", &mut warn_stream).unwrap();
    assert!(captured(warn_stream).ends_with("\u{1b}[0m: msg\n"));
    let mut err_stream = CarlogStream::Custom(String::new());
    carlog_error("msg", &mut err_stream).unwrap();
    assert!(captured(err_stream).ends_with("\u{1b}[0m: msg\n"));
    let mut info_stream = CarlogStream::Custom(String::new());
    carlog_info("Adding", "msg", &mut info_stream).unwrap();
    assert!(captured(info_stream).ends_with("\u{1b}[0m msg\n"));
}

#[test]
fn test_warning_has_no_padding() {
    let mut stream = CarlogStream::Custom(String::new());
    carlog_warning("disk low", &mut stream).unwrap();
    assert_eq!(captured(stream), "\u{1b}[93mwarning\u{1b}[0m: disk low\n");
}

#[test]
fn test_defaults_of_color_and_stream() {
    assert!(matches!(CargoColor::default(), CargoColor::White));
    assert!(matches!(CarlogStream::default(), CarlogStream::Stdout));
}

#[test]
fn test_print_stdout_and_stderr_succeed() {
    let r = Status::new().status("note").print_stdout("to stdout");
    assert!(r.is_ok());
    let r = Status::new().status("note").print_stderr("to stderr");
    assert!(r.is_ok());
}

#[test]
fn test_print_to_standard_stream_keeps_variant() {
    let mut stream = CarlogStream::Stdout;
    assert!(Status::new().status("note").print(&mut stream, "!").is_ok());
    assert!(matches!(stream, CarlogStream::Stdout));
    let mut stream = CarlogStream::Stderr;
    assert!(Status::new().status("note").print(&mut stream, "!").is_ok());
    assert!(matches!(stream, CarlogStream::Stderr));
}
