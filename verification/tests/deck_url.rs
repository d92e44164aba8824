use genius_invokation::{
    deck_from_url, ActionCard, Card, CharacterCard, Deck, EventCard, NormalEventCard,
    UrlDeckError,
};

const DEFAULT_URL: &str = "https://genshin.hotgames.gg/tcg/deck-builder?deck=1.6.MC.MD.MF.MG.MH.MI.MJ.MK.ML.MM.MN.MO.MP.MV.MY.e.g8.gB.gD.gF.gb.ge.gh.gk.gt.gv.gx.gz.wj.wl.wm&ver=1&lang=en&author=DefaultDeck";

const DEFAULT_TOKENS: [&str; 33] = [
    "1", "6", "MC", "MD", "MF", "MG", "MH", "MI", "MJ", "MK", "ML", "MM", "MN", "MO", "MP", "MV",
    "MY", "e", "g8", "gB", "gD", "gF", "gb", "ge", "gh", "gk", "gt", "gv", "gx", "gz", "wj", "wl",
    "wm",
];

#[test]
fn default_deck() {
    assert!(deck_from_url(DEFAULT_URL).is_ok());
}

#[test]
fn default_deck_has_full_shape() {
    let cards = match deck_from_url(DEFAULT_URL) {
        Ok(cards) => cards,
        Err(_) => panic!("the default sharing URL must decode"),
    };
    assert_eq!(cards.len(), 33);
    let characters = cards
        .iter()
        .filter(|card| matches!(card, Card::Character(_)))
        .count();
    let actions = cards
        .iter()
        .filter(|card| matches!(card, Card::Action(_)))
        .count();
    assert_eq!(characters, 3);
    assert_eq!(actions, 30);
    // tokens expand in payload order: "1", "6", "MC", ... and "e" at position 17
    assert_eq!(cards[0], Card::Character(CharacterCard::Kaeya));
    assert_eq!(cards[1], Card::Character(CharacterCard::Diluc));
    assert_eq!(
        cards[2],
        Card::Action(ActionCard::Event(EventCard::Normal(
            NormalEventCard::TheBestestTravelCompanion
        )))
    );
    assert_eq!(cards[17], Card::Character(CharacterCard::Sucrose));
    // and the decoded list builds a legal deck
    assert!(Deck::from_iter(cards).is_ok());
}

#[test]
fn unknown_code_fails_at_every_position() {
    for i in 0..DEFAULT_TOKENS.len() {
        let mut tokens: Vec<&str> = DEFAULT_TOKENS.to_vec();
        tokens[i] = "zz";
        let payload = tokens.join(".");
        let url = format!("genshin.hotgames.gg/tcg/deck-builder?deck={payload}&ver=1");
        match deck_from_url(&url) {
            Err(UrlDeckError::UnknownCard(code)) => assert_eq!(code, "zz"),
            Err(_) => panic!("expected an unknown-card error at position {i}"),
            Ok(_) => panic!("an unrecognized code at position {i} must fail the whole decode"),
        }
    }
}

#[test]
fn repeat_counts_expand() {
    let url = "genshin.hotgames.gg/tcg/deck-builder?deck=1.MC-3.MD&ver=1";
    let cards = deck_from_url(url).unwrap();
    assert_eq!(cards.len(), 5);
    assert_eq!(cards[1], cards[2]);
    assert_eq!(cards[1], cards[3]);
    assert_ne!(cards[3], cards[4]);
}

#[test]
fn repeat_count_with_plus_sign_parses() {
    let url = "genshin.hotgames.gg/tcg/deck-builder?deck=MC-+2&ver=1";
    let cards = deck_from_url(url).unwrap();
    assert_eq!(cards.len(), 2);
}

#[test]
fn bad_repeat_count_names_the_code() {
    let url = "genshin.hotgames.gg/tcg/deck-builder?deck=1.MC-x.MD&ver=1";
    match deck_from_url(url) {
        Err(UrlDeckError::UnknownCard(code)) => assert_eq!(code, "MC"),
        _ => panic!("a malformed repeat count must fail as an unknown card"),
    }
}

#[test]
fn overlong_code_is_unknown() {
    let url = "genshin.hotgames.gg/tcg/deck-builder?deck=abc&ver=1";
    match deck_from_url(url) {
        Err(UrlDeckError::UnknownCard(code)) => assert_eq!(code, "abc"),
        _ => panic!("a three-character code must fail as an unknown card"),
    }
}

#[test]
fn unknown_code_with_count_carries_whole_token() {
    // the offending substring is the raw token, dash suffix included
    let url = "genshin.hotgames.gg/tcg/deck-builder?deck=1.zz-2.MD&ver=1";
    match deck_from_url(url) {
        Err(UrlDeckError::UnknownCard(token)) => assert_eq!(token, "zz-2"),
        _ => panic!("an unknown code keeps its repeat suffix in the error"),
    }
}

#[test]
fn overlong_code_with_count_carries_whole_token() {
    let url = "genshin.hotgames.gg/tcg/deck-builder?deck=abc-2&ver=1";
    match deck_from_url(url) {
        Err(UrlDeckError::UnknownCard(token)) => assert_eq!(token, "abc-2"),
        _ => panic!("an overlong code keeps its repeat suffix in the error"),
    }
}

#[test]
fn missing_marker_is_invalid() {
    let url = "https://example.com/?deck=1.6.MC&ver=1";
    match deck_from_url(url) {
        Err(UrlDeckError::InvalidUrl(s)) => assert_eq!(s, url),
        _ => panic!("a URL without the marker must be invalid"),
    }
}

#[test]
fn missing_version_field_is_invalid() {
    let url = "genshin.hotgames.gg/tcg/deck-builder?deck=1.6.MC";
    match deck_from_url(url) {
        Err(UrlDeckError::InvalidUrl(s)) => assert_eq!(s, url),
        _ => panic!("a URL without a second field must be invalid"),
    }
}

#[test]
fn second_field_must_be_version() {
    let url = "genshin.hotgames.gg/tcg/deck-builder?deck=1.6.MC&lang=en&ver=1";
    match deck_from_url(url) {
        Err(UrlDeckError::InvalidUrl(s)) => assert_eq!(s, url),
        _ => panic!("the field right after the payload must be the version"),
    }
}

#[test]
fn zero_repeat_count_expands_to_nothing() {
    let url = "genshin.hotgames.gg/tcg/deck-builder?deck=MC-0&ver=1";
    let cards = deck_from_url(url).unwrap();
    assert_eq!(cards.len(), 0);
}

#[test]
fn oversized_repeat_count_names_the_code() {
    let url = "genshin.hotgames.gg/tcg/deck-builder?deck=MC-99999999999999999999999999&ver=1";
    match deck_from_url(url) {
        Err(UrlDeckError::UnknownCard(code)) => assert_eq!(code, "MC"),
        _ => panic!("a repeat count beyond the machine range must fail as an unknown card"),
    }
}

#[test]
fn empty_payload_is_one_empty_token() {
    let url = "genshin.hotgames.gg/tcg/deck-builder?deck=&ver=1";
    match deck_from_url(url) {
        Err(UrlDeckError::UnknownCard(code)) => assert_eq!(code, ""),
        _ => panic!("an empty payload holds one empty, unrecognized token"),
    }
}

#[test]
fn unknown_version_is_reported() {
    let url = "genshin.hotgames.gg/tcg/deck-builder?deck=1.6.MC&ver=2";
    match deck_from_url(url) {
        Err(UrlDeckError::UnknownVersion(v)) => assert_eq!(v, "2"),
        _ => panic!("a version other than 1 must be rejected"),
    }
}
