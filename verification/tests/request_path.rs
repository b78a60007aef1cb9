use webview_shell::request::find_path_end;
use webview_shell::request::find_separator;
use webview_shell::request::resource_path_of;
use webview_shell::request::uri_from_parts;
use webview_shell::request::ResourceRequest;

#[test]
fn path_follows_the_scheme_separator() {
    assert_eq!(resource_path_of("wry://index.html"), "index.html");
    assert_eq!(resource_path_of("wry://assets/app.js"), "assets/app.js");
}

#[test]
fn one_leading_separator_is_stripped() {
    assert_eq!(resource_path_of("wry:///index.html"), "index.html");
    assert_eq!(resource_path_of("wry:////etc/hosts"), "/etc/hosts");
    assert_eq!(resource_path_of("/index.html"), "index.html");
}

#[test]
fn query_and_fragment_are_not_part_of_the_path() {
    assert_eq!(resource_path_of("wry://app.js?v=3"), "app.js");
    assert_eq!(resource_path_of("wry://index.html#top"), "index.html");
    assert_eq!(resource_path_of("wry://index.html?a=b#c"), "index.html");
    assert_eq!(resource_path_of("wry://index.html#c?a=b"), "index.html");
    assert_eq!(resource_path_of("wry://?x"), "");
}

#[test]
fn uri_without_scheme_is_taken_as_a_path() {
    assert_eq!(resource_path_of("index.html"), "index.html");
    assert_eq!(resource_path_of("a:/b.png"), "a:/b.png");
    assert_eq!(resource_path_of(""), "");
    assert_eq!(resource_path_of("/"), "");
}

#[test]
fn empty_path_after_the_scheme() {
    assert_eq!(resource_path_of("wry://"), "");
    assert_eq!(resource_path_of("wry:///"), "");
    assert_eq!(resource_path_of("://"), "");
}

#[test]
fn only_the_first_separator_counts() {
    assert_eq!(resource_path_of("wry://a://b.html"), "a://b.html");
    assert_eq!(resource_path_of("a://b://c"), "b://c");
}

#[test]
fn paths_are_cut_by_characters_not_bytes() {
    assert_eq!(resource_path_of("wry://caf\u{e9}/men\u{fc}.html?x"), "caf\u{e9}/men\u{fc}.html");
    assert_eq!(resource_path_of("\u{65e5}://\u{672c}.png"), "\u{672c}.png");
}

#[test]
fn separator_position() {
    assert_eq!(find_separator("wry://index.html"), Some(3));
    assert_eq!(find_separator("://x"), Some(0));
    assert_eq!(find_separator("a://b://c"), Some(1));
    assert_eq!(find_separator("wry:/index.html"), None);
    assert_eq!(find_separator(":/"), None);
    assert_eq!(find_separator(""), None);
    assert_eq!(find_separator("\u{e9}\u{e9}://x"), Some(2));
}

#[test]
fn path_end_position() {
    assert_eq!(find_path_end("abc?d", 0), 3);
    assert_eq!(find_path_end("abc#d", 1), 3);
    assert_eq!(find_path_end("abc", 0), 3);
    assert_eq!(find_path_end("abc", 3), 3);
    assert_eq!(find_path_end("?abc", 0), 0);
    assert_eq!(find_path_end("a?b?c", 2), 3);
}

#[test]
fn request_keeps_its_parts() {
    let request = ResourceRequest::new("wry://index.html".to_string(), "GET".to_string(), vec![1, 2, 3]);
    assert_eq!(request.uri, "wry://index.html");
    assert_eq!(request.method, "GET");
    assert_eq!(request.body, vec![1, 2, 3]);
    assert_eq!(request.resource_path(), "index.html");
}

#[test]
fn unsent_path_is_not_put_back() {
    assert_eq!(uri_from_parts(Some("wry"), Some("index.html"), "/", None), "wry://index.html");
    assert_eq!(uri_from_parts(Some("wry"), Some("app.js"), "/", Some("v=3")), "wry://app.js?v=3");
    assert_eq!(resource_path_of(&uri_from_parts(Some("wry"), Some("index.html"), "/", None)), "index.html");
}

#[test]
fn sent_path_follows_the_authority() {
    assert_eq!(uri_from_parts(Some("wry"), Some("assets"), "/app.js", None), "wry://assets/app.js");
    assert_eq!(uri_from_parts(Some("wry"), Some("assets"), "/img/logo.png", Some("x=1")), "wry://assets/img/logo.png?x=1");
    assert_eq!(resource_path_of(&uri_from_parts(Some("wry"), Some("assets"), "/img/logo.png", Some("x=1"))), "assets/img/logo.png");
}

#[test]
fn parts_that_are_missing_leave_nothing_behind() {
    assert_eq!(uri_from_parts(None, None, "/index.html", None), "/index.html");
    assert_eq!(uri_from_parts(None, None, "/", None), "/");
    assert_eq!(uri_from_parts(None, Some("host"), "/", None), "host/");
    assert_eq!(uri_from_parts(Some("wry"), None, "/", None), "wry:///");
    assert_eq!(uri_from_parts(Some("wry"), None, "/a.png", Some("")), "wry:///a.png?");
    assert_eq!(uri_from_parts(None, None, "", None), "");
}
