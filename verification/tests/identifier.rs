use emoji_resizer::identifier::{extract_identifier, format_src};

#[test]
fn suffix_is_stripped() {
    assert_eq!(extract_identifier("123.webp"), "123");
    assert_eq!(extract_identifier("123456789012345678.gif"), "123456789012345678");
}

#[test]
fn name_without_suffix_is_kept() {
    assert_eq!(extract_identifier("123"), "123");
    assert_eq!(extract_identifier(""), "");
}

#[test]
fn suffixed_and_bare_names_give_the_same_identifier() {
    assert_eq!(extract_identifier("123.webp"), extract_identifier("123"));
    assert_eq!(extract_identifier("123.png"), extract_identifier("123.webp"));
    assert_eq!(
        format_src(&extract_identifier("123.webp")),
        format_src(&extract_identifier("123"))
    );
}

#[test]
fn only_the_last_dot_splits() {
    assert_eq!(extract_identifier("a.b.c"), "a.b");
    assert_eq!(extract_identifier("abc."), "abc");
    assert_eq!(extract_identifier(".png"), "");
    assert_eq!(extract_identifier(".."), ".");
}

#[test]
fn identifiers_may_hold_any_characters() {
    assert_eq!(extract_identifier("s\u{f6}me \u{e9}moji.webp"), "s\u{f6}me \u{e9}moji");
    assert_eq!(extract_identifier("\u{540d}\u{524d}.png"), "\u{540d}\u{524d}");
}

#[test]
fn source_url_is_built_from_the_identifier() {
    assert_eq!(
        format_src("123"),
        "https://cdn.discordapp.com/emojis/123?size=160&animated=true"
    );
    assert_eq!(format_src(""), "https://cdn.discordapp.com/emojis/?size=160&animated=true");
}
