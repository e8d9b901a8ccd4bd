use headlines::{
    generate_news_card_data, link_color, theme_icon, title_color, Article, Country,
    FetchRequest, Headlines, HeadlinesConfig, Msg, NewsCardData, Rgb, Worker,
};

fn card(title: &str) -> NewsCardData {
    NewsCardData { title: title.to_string(), desc: "d".to_string(), url: "u".to_string() }
}

fn config(dark_mode: bool, api_key: &str, country: Country) -> HeadlinesConfig {
    HeadlinesConfig { dark_mode, api_key: api_key.to_string(), country }
}

fn is_refresh(m: &Option<Msg>, country: Country) -> bool {
    matches!(m, Some(Msg::Refresh(c)) if *c == country)
}

fn assert_request(r: &FetchRequest, api_key: &str, country: Country) {
    assert_eq!(r.api_key, api_key);
    assert_eq!(r.country, country);
}

#[test]
fn default_config_is_dark_french_without_key() {
    let c = HeadlinesConfig::default();
    assert!(c.dark_mode);
    assert_eq!(c.api_key, "");
    assert_eq!(c.country, Country::FR);
}

#[test]
fn country_toggles_between_us_and_fr() {
    assert_eq!(Country::US.toggled(), Country::FR);
    assert_eq!(Country::FR.toggled(), Country::US);
    assert_eq!(Country::FR.toggled().toggled(), Country::FR);
}

#[test]
fn new_window_shows_configuration_and_waits() {
    let h = Headlines::new();
    assert!(!h.api_key_initialized());
    assert!(!h.worker_linked());
    assert!(h.is_loading());
    assert!(h.articles().is_empty());
    assert!(h.config().dark_mode);
    assert_eq!(h.config().country, Country::FR);
}

#[test]
fn stored_key_skips_configuration() {
    let mut h = Headlines::new();
    h.load_config(config(false, "key", Country::US));
    assert!(h.api_key_initialized());
    assert!(!h.config().dark_mode);
    assert_eq!(h.config().api_key, "key");
    assert_eq!(h.config().country, Country::US);
}

#[test]
fn stored_config_without_key_shows_configuration() {
    let mut h = Headlines::new();
    h.load_config(config(true, "", Country::US));
    assert!(!h.api_key_initialized());
    assert_eq!(h.config().country, Country::US);
}

#[test]
fn refresh_without_worker_keeps_cards() {
    let mut h = Headlines::new();
    h.receive_card(card("a"));
    assert!(h.refresh().is_none());
    assert_eq!(h.articles().len(), 1);
}

#[test]
fn refresh_with_worker_clears_and_asks_current_country() {
    let mut h = Headlines::new();
    h.start_worker();
    h.receive_card(card("a"));
    h.receive_card(card("b"));
    let m = h.refresh();
    assert!(is_refresh(&m, Country::FR));
    assert!(h.is_loading());
}

#[test]
fn cards_keep_order_of_arrival() {
    let mut h = Headlines::new();
    h.receive_card(card("first"));
    h.receive_card(card("second"));
    assert!(!h.is_loading());
    assert_eq!(h.articles()[0].title, "first");
    assert_eq!(h.articles()[1].title, "second");
}

#[test]
fn theme_button_switches_theme_twice_back() {
    let mut h = Headlines::new();
    h.toggle_theme();
    assert!(!h.config().dark_mode);
    h.toggle_theme();
    assert!(h.config().dark_mode);
}

#[test]
fn country_button_with_worker_asks_new_country() {
    let mut h = Headlines::new();
    h.start_worker();
    h.receive_card(card("a"));
    let m = h.toggle_country();
    assert_eq!(h.config().country, Country::US);
    assert!(is_refresh(&m, Country::US));
    assert!(h.is_loading());
}

#[test]
fn country_button_without_worker_only_switches() {
    let mut h = Headlines::new();
    h.receive_card(card("a"));
    let m = h.toggle_country();
    assert!(m.is_none());
    assert_eq!(h.config().country, Country::US);
    assert_eq!(h.articles().len(), 1);
}

#[test]
fn settings_button_switches_screen() {
    let mut h = Headlines::new();
    h.toggle_settings();
    assert!(h.api_key_initialized());
    h.toggle_settings();
    assert!(!h.api_key_initialized());
}

#[test]
fn submitted_key_goes_to_worker() {
    let mut h = Headlines::new();
    h.start_worker();
    h.set_api_key("secret".to_string());
    let m = h.submit_api_key();
    assert!(h.api_key_initialized());
    assert!(matches!(m, Some(Msg::APIKeySet(k)) if k == "secret"));
}

#[test]
fn submitted_key_without_worker_sends_nothing() {
    let mut h = Headlines::new();
    h.set_api_key("secret".to_string());
    assert!(h.submit_api_key().is_none());
    assert!(h.api_key_initialized());
    assert_eq!(h.config().api_key, "secret");
}

#[test]
fn worker_starts_with_window_state() {
    let mut h = Headlines::new();
    h.load_config(config(true, "k1", Country::US));
    let w = h.start_worker();
    assert!(h.worker_linked());
    assert_eq!(w.api_key, "k1");
    assert_eq!(w.country, Country::US);
}

#[test]
fn worker_fetches_at_start_only_with_key() {
    let w = Worker::new("k1".to_string(), Country::US);
    let r = w.startup().expect("a key was stored");
    assert_request(&r, "k1", Country::US);
    let empty = Worker::new(String::new(), Country::FR);
    assert!(empty.startup().is_none());
}

#[test]
fn worker_uses_new_key_with_stored_country() {
    let w = Worker::new(String::new(), Country::FR);
    let r = w.handle(Msg::APIKeySet("k2".to_string()));
    assert_request(&r, "k2", Country::FR);
}

#[test]
fn worker_refresh_uses_stored_key_with_given_country() {
    let w = Worker::new("k1".to_string(), Country::FR);
    let r = w.handle(Msg::Refresh(Country::US));
    assert_request(&r, "k1", Country::US);
}

#[test]
fn cards_follow_articles() {
    let articles = vec![
        Article {
            title: "One".to_string(),
            description: Some("first".to_string()),
            url: "https://a.example/1".to_string(),
        },
        Article { title: "Two".to_string(), description: None, url: "https://a.example/2".to_string() },
    ];
    let cards = generate_news_card_data(&articles);
    assert_eq!(cards.len(), 2);
    assert_eq!(cards[0].title, "One");
    assert_eq!(cards[0].desc, "first");
    assert_eq!(cards[0].url, "https://a.example/1");
    assert_eq!(cards[1].title, "Two");
    assert_eq!(cards[1].desc, "...");
    assert_eq!(cards[1].url, "https://a.example/2");
}

#[test]
fn no_articles_no_cards() {
    assert!(generate_news_card_data(&Vec::new()).is_empty());
}

#[test]
fn heading_puts_marker_before_title() {
    assert_eq!(card("Title").heading(), "\u{25B6} Title");
    assert_eq!(card("").heading(), "\u{25B6} ");
}

#[test]
fn colours_follow_theme() {
    assert_eq!(title_color(true), Rgb { r: 255, g: 255, b: 255 });
    assert_eq!(title_color(false), Rgb { r: 0, g: 0, b: 0 });
    assert_eq!(link_color(true), Rgb { r: 0, g: 255, b: 255 });
    assert_eq!(link_color(false), Rgb { r: 255, g: 0, b: 0 });
    let mut h = Headlines::new();
    assert_eq!(h.title_color(), Rgb { r: 255, g: 255, b: 255 });
    h.toggle_theme();
    assert_eq!(h.link_color(), Rgb { r: 255, g: 0, b: 0 });
}

#[test]
fn theme_icon_names_the_other_theme() {
    assert_eq!(theme_icon(true), "\u{1F31E}");
    assert_eq!(theme_icon(false), "\u{1F319}");
    let mut h = Headlines::new();
    h.toggle_theme();
    assert_eq!(h.theme_icon(), "\u{1F319}");
}
