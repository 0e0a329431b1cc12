use posterbot_constructor::links::parse_and_strip_tme_link;

#[test]
fn test_strip_link_public_match() {
    let mut text = "Привет, посмотри https://t.me/mychan/15 вот это".to_string();
    let res = parse_and_strip_tme_link(&mut text, 0, Some("mychan"));

    assert_eq!(res, Some(15));
    assert_eq!(text, "Привет, посмотри  вот это");
}

#[test]
fn test_strip_link_private_match() {
    let mut text = "https://t.me/c/1234567890/42".to_string();
    let res = parse_and_strip_tme_link(&mut text, -1001234567890, None);

    assert_eq!(res, Some(42));
    assert_eq!(text, "");
}

#[test]
fn test_strip_link_no_match() {
    let mut text = "Текст без ссылок https://t.me/otherchan/10".to_string();
    let original_text = text.clone();

    let res = parse_and_strip_tme_link(&mut text, 0, Some("mychan"));

    assert_eq!(res, None);
    assert_eq!(text, original_text);
}

#[test]
fn test_strip_link_case_insensitive() {
    let mut text = "Check https://t.me/MyChAn/77 out".to_string();
    let res = parse_and_strip_tme_link(&mut text, 0, Some("mychan"));

    assert_eq!(res, Some(77));
    assert!(!text.contains("https://"));
}

#[test]
fn strip_link_http_prefix_query_and_trim() {
    let mut text = "  see HTTP://T.ME/MyChan/9?single   ".to_string();
    let res = parse_and_strip_tme_link(&mut text, 0, Some("mychan"));
    assert_eq!(res, Some(9));
    assert_eq!(text, "see");
}

#[test]
fn strip_link_private_wrong_channel_and_bad_number() {
    let mut text = "t.me/c/999/5".to_string();
    assert_eq!(parse_and_strip_tme_link(&mut text, -1001234567890, None), None);
    assert_eq!(text, "t.me/c/999/5");
    let mut text = "t.me/mychan/99999999999".to_string();
    assert_eq!(parse_and_strip_tme_link(&mut text, 0, Some("mychan")), None);
    let mut text = "t.me/mychan/+12".to_string();
    assert_eq!(parse_and_strip_tme_link(&mut text, 0, Some("mychan")), Some(12));
    assert_eq!(text, "");
}

#[test]
fn stripping_leaves_a_shorter_trimmed_text() {
    let mut text = "  see https://t.me/mychan/5  ".to_string();
    let before = text.clone();
    assert_eq!(parse_and_strip_tme_link(&mut text, 0, Some("mychan")), Some(5));
    assert!(text.chars().count() < before.chars().count());
    assert_eq!(text, text.trim());
    assert_eq!(text, "see");

    let mut other = "  no link here  ".to_string();
    assert_eq!(parse_and_strip_tme_link(&mut other, 0, Some("mychan")), None);
    assert_eq!(other, "  no link here  ");
}
