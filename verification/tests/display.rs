use wikitrans::display::display_item;
use wikitrans::display::display_item_with;
use wikitrans::display::parse_tag;

#[test]
fn renders_plain_item() {
    assert_eq!(display_item("en", "English"), "en (English)");
}

#[test]
fn renders_annotated_item() {
    assert_eq!(display_item_with("fr", "French", "Chat"), "fr (French): Chat");
}

#[test]
fn renders_annotated_item_with_empty_annotation() {
    assert_eq!(display_item_with("de", "German", ""), "de (German): ");
}

#[test]
fn parse_recovers_tag_from_plain_item() {
    assert_eq!(parse_tag("en (English)"), "en");
}

#[test]
fn parse_recovers_tag_from_annotated_item() {
    assert_eq!(parse_tag("fr (French): Chat"), "fr");
}

#[test]
fn parse_round_trips_rendered_items() {
    let item = display_item("zh-yue", "Cantonese");
    assert_eq!(parse_tag(&item), "zh-yue");
    let annotated = display_item_with("zh-yue", "Cantonese", "Title");
    assert_eq!(parse_tag(&annotated), "zh-yue");
}

#[test]
fn parse_without_delimiter_returns_whole_string() {
    assert_eq!(parse_tag("nodelimiter"), "nodelimiter");
    assert_eq!(parse_tag(""), "");
    assert_eq!(parse_tag("x"), "x");
}

#[test]
fn parse_stops_at_first_delimiter() {
    assert_eq!(parse_tag("a (b (c)"), "a");
    assert_eq!(parse_tag(" (leading"), "");
}

#[test]
fn tag_containing_delimiter_is_not_recovered() {
    // Known limit: a tag that itself contains " (" is cut at the delimiter.
    let item = display_item("a (b", "Name");
    assert_eq!(item, "a (b (Name)");
    assert_eq!(parse_tag(&item), "a");
}
