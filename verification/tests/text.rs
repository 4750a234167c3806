use speedrun_com_api::text::{after_last_slash, decimal_text, join};

#[test]
fn decimal_text_of_numbers() {
    assert_eq!(decimal_text(0), "0");
    assert_eq!(decimal_text(7), "7");
    assert_eq!(decimal_text(10), "10");
    assert_eq!(decimal_text(200), "200");
    assert_eq!(decimal_text(1000), "1000");
    assert_eq!(decimal_text(40302), "40302");
    assert_eq!(decimal_text(u16::MAX), "65535");
}

#[test]
fn after_last_slash_of_texts() {
    assert_eq!(after_last_slash("https://splits.io/api/v3/runs/4l2"), "4l2");
    assert_eq!(after_last_slash("4l2"), "4l2");
    assert_eq!(after_last_slash("a/b/"), "");
    assert_eq!(after_last_slash("/"), "");
    assert_eq!(after_last_slash(""), "");
    assert_eq!(after_last_slash("läufe/zürich"), "zürich");
}

#[test]
fn join_puts_the_separator_between() {
    assert_eq!(join(&vec![], ","), "");
    assert_eq!(join(&vec!["players"], ","), "players");
    assert_eq!(join(&vec!["players", "game", "category"], ","), "players,game,category");
    assert_eq!(join(&vec!["", "a"], ", "), ", a");
}
