use md2htmlx::console::{Line, Stream};
use md2htmlx::request::ConversionRequest;

fn request() -> ConversionRequest {
    ConversionRequest::new(String::from("README.md"), String::from("out/index.html"))
}

#[test]
fn request_keeps_both_paths() {
    let request = request();
    assert_eq!(request.input, "README.md");
    assert_eq!(request.output, "out/index.html");
}

#[test]
fn converted_line_names_both_paths() {
    let line = Line::converted(&request());
    assert_eq!(line.stream, Stream::Stdout);
    assert_eq!(line.text, "✅ Converted \"README.md\" → \"out/index.html\"");
}

#[test]
fn read_failure_names_the_input_and_the_error() {
    let line = Line::read_failed(&request(), "No such file or directory (os error 2)");
    assert_eq!(line.stream, Stream::Stderr);
    assert_eq!(
        line.text,
        "❌ Failed to read \"README.md\": No such file or directory (os error 2)"
    );
}

#[test]
fn write_failure_names_the_output_and_the_error() {
    let line = Line::write_failed(&request(), "Permission denied (os error 13)");
    assert_eq!(line.stream, Stream::Stderr);
    assert_eq!(
        line.text,
        "❌ Failed to write to \"out/index.html\": Permission denied (os error 13)"
    );
}

#[test]
fn watching_line_names_the_input() {
    let line = Line::watching(&request());
    assert_eq!(line.stream, Stream::Stdout);
    assert_eq!(line.text, "👀 Watching \"README.md\" for changes...");
}

#[test]
fn changed_line_is_fixed() {
    let line = Line::changed();
    assert_eq!(line.stream, Stream::Stdout);
    assert_eq!(line.text, "🔁 File changed, re-rendering...");
}

#[test]
fn watch_failure_names_the_error() {
    let line = Line::watch_failed("channel is empty and sending half is closed");
    assert_eq!(line.stream, Stream::Stderr);
    assert_eq!(line.text, "❌ Watch error: channel is empty and sending half is closed");
}

#[test]
fn setup_failure_goes_to_stderr() {
    let line = Line::setup_failed("No path was found.");
    assert_eq!(line.stream, Stream::Stderr);
    assert_eq!(line.text, "Error: No path was found.");
}

#[test]
fn paths_are_quoted_and_escaped() {
    let request = ConversionRequest::new(String::from("a \"b\"\\c.md"), String::from("tab\there"));
    let line = Line::converted(&request);
    assert_eq!(line.text, "✅ Converted \"a \\\"b\\\"\\\\c.md\" → \"tab\\there\"");
    let empty = ConversionRequest::new(String::new(), String::new());
    assert_eq!(Line::watching(&empty).text, "👀 Watching \"\" for changes...");
}
