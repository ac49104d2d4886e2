use bookmark_store::BookmarkCollection;

fn strings(items: &[&str]) -> Vec<String> {
    items.iter().map(|s| s.to_string()).collect()
}

#[test]
fn new_collection_is_empty() {
    let c = BookmarkCollection::new();
    assert_eq!(c.snapshot(), Vec::<String>::new());
    assert_eq!(c.snapshot().len(), 0);
}

#[test]
fn two_appends_are_read_back_in_order() {
    let mut c = BookmarkCollection::new();
    c.append("https://a.example".to_string());
    c.append("https://b.example".to_string());
    assert_eq!(c.snapshot(), strings(&["https://a.example", "https://b.example"]));
}

#[test]
fn many_appends_keep_their_order() {
    let mut c = BookmarkCollection::new();
    let mut expected = Vec::new();
    for i in 0..200 {
        let url = format!("https://example.org/page/{}", 199 - i);
        c.append(url.clone());
        expected.push(url);
        assert_eq!(c.snapshot(), expected);
    }
    assert_eq!(c.snapshot().len(), 200);
    assert_eq!(c.snapshot()[0], "https://example.org/page/199");
    assert_eq!(c.snapshot()[199], "https://example.org/page/0");
}

#[test]
fn appended_item_is_last_and_stays() {
    let mut c = BookmarkCollection::new();
    c.append("first".to_string());
    c.append("wanted".to_string());
    let read = c.snapshot();
    assert_eq!(read.last().map(|s| s.as_str()), Some("wanted"));
    c.append("after".to_string());
    c.append("after that".to_string());
    let later = c.snapshot();
    assert!(later.contains(&"wanted".to_string()));
    assert_eq!(later[1], "wanted");
}

#[test]
fn earlier_copy_is_untouched_by_later_appends() {
    let mut c = BookmarkCollection::new();
    c.append("one".to_string());
    c.append("two".to_string());
    let earlier = c.snapshot();
    c.append("three".to_string());
    assert_eq!(earlier, strings(&["one", "two"]));
    let later = c.snapshot();
    assert_eq!(later, strings(&["one", "two", "three"]));
    assert_eq!(&later[..earlier.len()], &earlier[..]);
}

#[test]
fn changing_a_copy_does_not_reach_the_collection() {
    let mut c = BookmarkCollection::new();
    c.append("kept".to_string());
    let mut copy = c.snapshot();
    copy.push("only in the copy".to_string());
    copy[0].push_str(" and edited");
    assert_eq!(c.snapshot(), strings(&["kept"]));
}

#[test]
fn two_reads_without_an_append_agree() {
    let mut c = BookmarkCollection::new();
    assert_eq!(c.snapshot(), c.snapshot());
    c.append("x".to_string());
    c.append("y".to_string());
    let first = c.snapshot();
    let second = c.snapshot();
    assert_eq!(first, second);
    assert_eq!(first, strings(&["x", "y"]));
}

#[test]
fn nothing_is_validated_or_deduplicated() {
    let mut c = BookmarkCollection::new();
    c.append("https://a.example".to_string());
    c.append("".to_string());
    c.append("not a url at all".to_string());
    c.append("https://a.example".to_string());
    c.append("caf\u{e9} \u{1f516}".to_string());
    assert_eq!(
        c.snapshot(),
        strings(&["https://a.example", "", "not a url at all", "https://a.example", "caf\u{e9} \u{1f516}"])
    );
}

#[test]
fn a_very_long_item_is_kept_whole() {
    let long = "x".repeat(100_000);
    let mut c = BookmarkCollection::new();
    c.append(long.clone());
    let read = c.snapshot();
    assert_eq!(read.len(), 1);
    assert_eq!(read[0].len(), 100_000);
    assert_eq!(read[0], long);
}
