use openbatrangs::banner::{
    banner_for_quote, banner_text, quote_index_for, random_quote_index, BATMAN_QUOTES, QUOTE_COUNT,
};

#[test]
fn has_non_empty_batman_quotes() {
    assert!(!BATMAN_QUOTES.is_empty());
    assert!(BATMAN_QUOTES.iter().all(|quote| !quote.is_empty()));
}

#[test]
fn banner_contains_art_and_quote() {
    let banner = banner_text();
    assert!(banner.contains('█'));
    assert!(banner.contains('_'));
}

#[test]
fn quote_index_is_always_in_range() {
    for _ in 0..100 {
        assert!(random_quote_index() < BATMAN_QUOTES.len());
    }
}

#[test]
fn banner_for_a_quote_shows_that_quote() {
    assert_eq!(QUOTE_COUNT, BATMAN_QUOTES.len());
    for (index, quote) in BATMAN_QUOTES.iter().enumerate() {
        let banner = banner_for_quote(index);
        assert!(banner.contains(quote));
        assert!(banner.ends_with(&format!("🦇 {quote}\x1b[0m\n")));
        assert!(banner.starts_with("\x1b[36m\x1b[1m"));
    }
}

#[test]
fn quote_index_wraps_the_clock_reading() {
    assert_eq!(quote_index_for(0), 0);
    assert_eq!(quote_index_for(QUOTE_COUNT as u32 + 3), 3);
    assert_eq!(quote_index_for(QUOTE_COUNT as u32 - 1), QUOTE_COUNT - 1);
}
