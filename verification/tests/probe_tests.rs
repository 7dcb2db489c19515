use load_feedback::probe::{get_header, header_value, FEEDBACK_LINE_START};

fn lines(texts: &[&str]) -> Vec<String> {
    texts.iter().map(|text| text.to_string()).collect()
}

#[test]
fn feedback_line_start() {
    assert_eq!(FEEDBACK_LINE_START, "X-Load-Feedback:");
}

#[test]
fn value_of_a_matching_line_is_trimmed() {
    assert_eq!(header_value("X-Load-Feedback: load:27\r\n", "X-Load-Feedback:"), Some("load:27"));
    assert_eq!(header_value("Server:nginx", "Server:"), Some("nginx"));
    assert_eq!(header_value("X-Cache:   HIT   ", "X-Cache:"), Some("HIT"));
}

#[test]
fn value_of_a_bare_line_is_empty() {
    assert_eq!(header_value("Server:", "Server:"), Some(""));
    assert_eq!(header_value("Server:\r\n", "Server:"), Some(""));
}

#[test]
fn other_lines_have_no_value() {
    assert_eq!(header_value("Content-Type: text/plain\r\n", "Server:"), None);
    assert_eq!(header_value("server: nginx", "Server:"), None);
    assert_eq!(header_value(" Server: nginx", "Server:"), None);
    assert_eq!(header_value("Serve", "Server:"), None);
    assert_eq!(header_value("", "Server:"), None);
}

#[test]
fn first_matching_line_wins() {
    let response = lines(&[
        "HTTP/1.1 200 OK\r\n",
        "Content-Type: text/plain\r\n",
        "X-Load-Feedback: first\r\n",
        "X-Load-Feedback: second\r\n",
        "\r\n",
    ]);
    assert_eq!(get_header(&response, FEEDBACK_LINE_START), "first");
}

#[test]
fn no_matching_line_gives_the_empty_text() {
    let response = lines(&["HTTP/1.1 200 OK\r\n", "Server: nginx\r\n", "\r\n"]);
    assert_eq!(get_header(&response, FEEDBACK_LINE_START), "");
    assert_eq!(get_header(&Vec::new(), FEEDBACK_LINE_START), "");
}

#[test]
fn a_matching_line_without_value_still_wins() {
    let response = lines(&["X-Load-Feedback:\r\n", "X-Load-Feedback: late\r\n"]);
    assert_eq!(get_header(&response, FEEDBACK_LINE_START), "");
}
