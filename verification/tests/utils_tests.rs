use script_kit_core::utils::strip_html_tags;

#[test]
fn test_basic_tag_removal() {
    assert_eq!(strip_html_tags("<p>Hello</p>"), "Hello");
}

#[test]
fn test_nested_tags() {
    assert_eq!(
        strip_html_tags("<div><span>A</span><span>B</span></div>"),
        "A B"
    );
}

#[test]
fn test_empty_input() {
    assert_eq!(strip_html_tags(""), "");
}

#[test]
fn test_no_tags() {
    assert_eq!(strip_html_tags("plain text"), "plain text");
}

#[test]
fn test_whitespace_normalization() {
    assert_eq!(strip_html_tags("<p>Hello   World</p>"), "Hello World");
}

#[test]
fn test_multiple_tags_with_content() {
    assert_eq!(
        strip_html_tags("<h1>Title</h1><p>Paragraph</p>"),
        "Title Paragraph"
    );
}

#[test]
fn test_self_closing_tags() {
    assert_eq!(strip_html_tags("Hello<br/>World"), "Hello World");
}

#[test]
fn test_tags_with_attributes() {
    assert_eq!(
        strip_html_tags("<a href=\"https://example.com\">Link</a>"),
        "Link"
    );
}

#[test]
fn test_deeply_nested() {
    assert_eq!(
        strip_html_tags("<div><div><div>Deep</div></div></div>"),
        "Deep"
    );
}

#[test]
fn test_only_tags() {
    assert_eq!(strip_html_tags("<div><span></span></div>"), "");
}

#[test]
fn test_leading_trailing_whitespace() {
    assert_eq!(strip_html_tags("  <p>  Hello  </p>  "), "Hello");
}

#[test]
fn test_newlines_in_html() {
    assert_eq!(strip_html_tags("<p>\n  Hello\n  World\n</p>"), "Hello World");
}
