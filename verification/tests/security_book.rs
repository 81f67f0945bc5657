use origin_platform::security_book::{
    check_chapter, line_link_targets, lines_of, markdown_link_checks, normalize_path, resolve_link,
    should_skip_link, strip_anchor,
};

fn strings(v: &[&str]) -> Vec<String> {
    v.iter().map(|s| s.to_string()).collect()
}

fn chars(s: &str) -> Vec<char> {
    s.chars().collect()
}

fn text(v: &[char]) -> String {
    v.iter().collect()
}

#[test]
fn external_and_anchor_links_are_skipped() {
    assert!(should_skip_link("#section"));
    assert!(should_skip_link("http://example.com"));
    assert!(should_skip_link("https://example.com"));
    assert!(should_skip_link("mailto:security@example.com"));
    assert!(should_skip_link("data:image/png;base64,AAAA"));
    assert!(!should_skip_link("chapter.md#section"));
    assert!(!should_skip_link("../README.md"));
}

#[test]
fn anchors_are_stripped_at_the_first_hash() {
    assert_eq!(strip_anchor("chapter.md#section"), "chapter.md");
    assert_eq!(strip_anchor("chapter.md"), "chapter.md");
    assert_eq!(strip_anchor("a#b#c"), "a");
    assert_eq!(strip_anchor("#only"), "");
}

#[test]
fn paths_are_normalised_lexically() {
    assert_eq!(normalize_path("/book/src/../examples/./a.md"), "/book/examples/a.md");
    assert_eq!(normalize_path("a/b/../../.."), "");
    assert_eq!(normalize_path("/.."), "/");
    assert_eq!(normalize_path("./x//y/"), "x/y");
    assert_eq!(resolve_link("/book/src/chapter", "../images/diagram.png"), "/book/src/images/diagram.png");
    assert_eq!(resolve_link("/book/src", "/abs/file.md"), "/abs/file.md");
}

#[test]
fn link_targets_follow_the_markdown_link_shape() {
    let targets = line_link_targets(&chars("See [one](a.md) and ![img](b.png \"t\") and [two](c.md#x)."));
    let found: Vec<String> = targets.iter().map(|t| text(t)).collect();
    assert_eq!(found, strings(&["a.md", "c.md#x"]));
    let none = line_link_targets(&chars("[](empty.md) [text] (gap.md) [x](has space.md)"));
    assert!(none.is_empty());
    let nested = line_link_targets(&chars("[a [b](c.md) [d](e.md)"));
    assert_eq!(nested.iter().map(|t| text(t)).collect::<Vec<_>>(), strings(&["c.md", "e.md"]));
    let image = line_link_targets(&chars("![diagram](img/d.png)"));
    assert_eq!(image.iter().map(|t| text(t)).collect::<Vec<_>>(), strings(&["img/d.png"]));
}

#[test]
fn lines_split_like_str_lines() {
    let lines = lines_of(&chars("a\r\nb\n\nc\n"));
    let found: Vec<String> = lines.iter().map(|l| text(l)).collect();
    assert_eq!(found, strings(&["a", "b", "", "c"]));
    assert!(lines_of(&chars("")).is_empty());
}

#[test]
fn page_link_checks_skip_fenced_code_and_external_links() {
    let page = "# Title\n\
                [intro](intro.md#top) and [site](https://example.com)\n\
                ```rust\n\
                let x = \"[not](a-link.md)\";\n\
                ```\n\
                  ![diagram](../images/d.png) [anchor](#local)\n";
    let checks = markdown_link_checks(page);
    let found: Vec<(String, String)> = checks.iter().map(|c| (c.target.clone(), c.path.clone())).collect();
    assert_eq!(
        found,
        vec![
            ("intro.md#top".to_string(), "intro.md".to_string()),
            ("../images/d.png".to_string(), "../images/d.png".to_string()),
        ]
    );
}

#[test]
fn chapter_checks_report_the_first_problem() {
    let commands = strings(&["cargo xtask security-book test"]);
    let paths = strings(&["docs/security-rust/examples/wasm-sandboxing"]);
    let content = "Run `cargo xtask security-book test`; see docs/security-rust/examples/wasm-sandboxing.";
    assert_eq!(check_chapter("/book/src/ch.md", true, content, &commands, &paths, &[true]), Ok(()));
    assert_eq!(
        check_chapter("/book/src/ch.md", false, content, &commands, &paths, &[true]),
        Err("verification entry points to a missing page: /book/src/ch.md".to_string())
    );
    assert_eq!(
        check_chapter("/book/src/ch.md", true, "nothing here", &commands, &paths, &[true]),
        Err("page /book/src/ch.md is missing the documented command `cargo xtask security-book test`".to_string())
    );
    assert_eq!(
        check_chapter("/book/src/ch.md", true, content, &strings(&["  "]), &paths, &[true]),
        Err("page /book/src/ch.md is missing the documented command `  `".to_string())
    );
    assert_eq!(
        check_chapter("/book/src/ch.md", true, content, &commands, &paths, &[false]),
        Err("page /book/src/ch.md references a missing artifact `docs/security-rust/examples/wasm-sandboxing`".to_string())
    );
    assert_eq!(
        check_chapter("/book/src/ch.md", true, "cargo xtask security-book test", &commands, &paths, &[true]),
        Err("page /book/src/ch.md does not mention the required path `docs/security-rust/examples/wasm-sandboxing`".to_string())
    );
}
