use notion_rainbow::colors::{
    ace_pride, bi_pride_three, bi_pride_three_background, gay_pride_rainbow_seven,
    gay_pride_rainbow_seven_background, gay_pride_rainbow_six, gay_pride_rainbow_six_background,
    lesbian_pride_five, lesbian_pride_six, trans_pride, ColorPalette, ColorToken,
};
use notion_rainbow::configuration::AppConfig;

#[test]
fn palette_rejects_empty_color_list() {
    assert!(ColorPalette::new(vec![]).is_none());
}

#[test]
fn palette_keeps_color_order() {
    let palette = ColorPalette::new(vec![
        ColorToken::Blue,
        ColorToken::Red,
        ColorToken::Gray,
    ])
    .unwrap();
    assert_eq!(palette.len(), 3);
    assert_eq!(palette.color_at(0), ColorToken::Blue);
    assert_eq!(palette.color_at(1), ColorToken::Red);
    assert_eq!(palette.color_at(2), ColorToken::Gray);
}

#[test]
fn palette_color_lookup_wraps_around() {
    let palette = gay_pride_rainbow_six();
    assert_eq!(palette.color_at(6), ColorToken::Red);
    assert_eq!(palette.color_at(7), ColorToken::Orange);
    assert_eq!(palette.color_at(13), ColorToken::Orange);
}

#[test]
fn catalog_palette_lengths() {
    assert_eq!(gay_pride_rainbow_six().len(), 6);
    assert_eq!(gay_pride_rainbow_six_background().len(), 6);
    assert_eq!(gay_pride_rainbow_seven().len(), 7);
    assert_eq!(gay_pride_rainbow_seven_background().len(), 7);
    assert_eq!(bi_pride_three().len(), 3);
    assert_eq!(bi_pride_three_background().len(), 3);
    assert_eq!(lesbian_pride_five().len(), 5);
    assert_eq!(lesbian_pride_six().len(), 6);
    assert_eq!(trans_pride().len(), 5);
    assert_eq!(ace_pride().len(), 4);
}

#[test]
fn rainbow_six_runs_red_to_purple() {
    let palette = gay_pride_rainbow_six();
    let expected = [
        ColorToken::Red,
        ColorToken::Orange,
        ColorToken::Yellow,
        ColorToken::Green,
        ColorToken::Blue,
        ColorToken::Purple,
    ];
    for (k, color) in expected.iter().enumerate() {
        assert_eq!(palette.color_at(k), *color);
    }
}

#[test]
fn trans_pride_is_symmetric() {
    let palette = trans_pride();
    assert_eq!(palette.color_at(0), palette.color_at(4));
    assert_eq!(palette.color_at(1), palette.color_at(3));
    assert_eq!(palette.color_at(2), ColorToken::Default);
}

#[test]
fn config_stores_api_key() {
    let config = AppConfig::new("some-api-key".to_string());
    assert_eq!(config.notion_api_key, "some-api-key");
}

#[test]
fn config_default_is_empty_key() {
    let config = AppConfig::default();
    assert_eq!(config.notion_api_key, "");
}
