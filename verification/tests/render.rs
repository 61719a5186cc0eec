use seam_core::live::{Format, Node, Url};

fn plain_node() -> Node {
    Node {
        rid: "6".to_string(),
        title: "t".to_string(),
        cover: "c".to_string(),
        anchor: "a".to_string(),
        head: "h".to_string(),
        urls: vec![],
    }
}

#[test]
fn json_of_node_without_urls_is_exact() {
    let expected = "{\n  \"rid\": \"6\",\n  \"title\": \"t\",\n  \"cover\": \"c\",\n  \"anchor\": \"a\",\n  \"head\": \"h\",\n  \"urls\": []\n}";
    assert_eq!(plain_node().json(), expected);
}

#[test]
fn json_of_node_with_urls_is_exact() {
    let mut n = plain_node();
    n.urls = vec![
        Url { format: Format::Flv, url: "u1".to_string() },
        Url { format: Format::Other("dash".to_string()), url: "u2".to_string() },
    ];
    let expected = "{\n  \"rid\": \"6\",\n  \"title\": \"t\",\n  \"cover\": \"c\",\n  \"anchor\": \"a\",\n  \"head\": \"h\",\n  \"urls\": [\n    {\n      \"format\": \"flv\",\n      \"url\": \"u1\"\n    },\n    {\n      \"format\": \"dash\",\n      \"url\": \"u2\"\n    }\n  ]\n}";
    assert_eq!(n.json(), expected);
}

#[test]
fn json_escapes_special_characters() {
    let mut n = plain_node();
    n.title = "a \"quote\", a \\backslash\\, tab\t, newline\n".to_string();
    n.anchor = "bell\u{7} and backspace\u{8} and formfeed\u{c} and cr\r".to_string();
    let doc = n.json();
    assert!(doc.contains("a \\\"quote\\\", a \\\\backslash\\\\, tab\\t, newline\\n"));
    assert!(doc.contains("bell\\u0007 and backspace\\b and formfeed\\f and cr\\r"));
}

#[test]
fn json_keeps_unicode_verbatim() {
    let mut n = plain_node();
    n.title = "直播间".to_string();
    assert!(n.json().contains("\"title\": \"直播间\""));
}

#[test]
fn json_is_valid_json_and_round_trips() {
    let mut n = plain_node();
    n.rid = "room/42".to_string();
    n.title = "with \"quotes\" and \u{1} control\nchars".to_string();
    n.urls = vec![
        Url { format: Format::M3U, url: "http://example.com/live.m3u8?a=b&c=d".to_string() },
        Url { format: Format::Rtmp, url: "rtmp://example.com/live".to_string() },
    ];
    let doc = n.json();
    let v: serde_json::Value = serde_json::from_str(&doc).expect("rendered document parses");
    assert_eq!(v.get("rid").unwrap().as_str().unwrap(), n.rid);
    assert_eq!(v.get("title").unwrap().as_str().unwrap(), n.title);
    assert_eq!(v.get("cover").unwrap().as_str().unwrap(), n.cover);
    assert_eq!(v.get("anchor").unwrap().as_str().unwrap(), n.anchor);
    assert_eq!(v.get("head").unwrap().as_str().unwrap(), n.head);
    let urls = v.get("urls").unwrap().as_array().unwrap();
    assert_eq!(urls.len(), 2);
    assert_eq!(urls[0].get("format").unwrap().as_str().unwrap(), "m3u");
    assert_eq!(urls[0].get("url").unwrap().as_str().unwrap(), n.urls[0].url);
    assert_eq!(urls[1].get("format").unwrap().as_str().unwrap(), "rtmp");
    assert_eq!(urls[1].get("url").unwrap().as_str().unwrap(), n.urls[1].url);
}

#[test]
fn json_never_fails_and_is_never_empty() {
    let empty = Node {
        rid: String::new(),
        title: String::new(),
        cover: String::new(),
        anchor: String::new(),
        head: String::new(),
        urls: vec![],
    };
    assert!(!empty.json().is_empty());

    let mut awkward = plain_node();
    awkward.title = "\u{0}\u{1f}\\\"".to_string();
    awkward.urls = vec![Url { format: Format::Other(String::new()), url: String::new() }];
    assert!(!awkward.json().is_empty());
    let v: serde_json::Value = serde_json::from_str(&awkward.json()).unwrap();
    assert_eq!(v.get("title").unwrap().as_str().unwrap(), awkward.title);
    assert_eq!(
        v.get("urls").unwrap().as_array().unwrap()[0].get("format").unwrap().as_str().unwrap(),
        "",
    );
}
