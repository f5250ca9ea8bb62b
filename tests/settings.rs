use zedis::app_state::{QueryMode, Route, ThemeMode, ZedisAppState, ZedisSidebar};

#[test]
fn query_mode_symbols_round_trip() {
    assert_eq!(QueryMode::All.to_string(), "*");
    assert_eq!(QueryMode::Prefix.to_string(), "^");
    assert_eq!(QueryMode::Exact.to_string(), "=");
    assert_eq!(QueryMode::from_str("^"), QueryMode::Prefix);
    assert_eq!(QueryMode::from_str("="), QueryMode::Exact);
    assert_eq!(QueryMode::from_str("*"), QueryMode::All);
    assert_eq!(QueryMode::from_str("anything"), QueryMode::All);
}

#[test]
fn query_modes_per_connection() {
    let mut s = ZedisAppState::new();
    assert_eq!(s.query_mode("local"), QueryMode::All);
    s.add_query_mode("local".to_string(), QueryMode::Prefix);
    s.add_query_mode("remote".to_string(), QueryMode::Exact);
    assert_eq!(s.query_mode("local"), QueryMode::Prefix);
    assert_eq!(s.query_mode("remote"), QueryMode::Exact);
    s.add_query_mode("local".to_string(), QueryMode::Exact);
    assert_eq!(s.query_mode("local"), QueryMode::Exact);
    assert_eq!(s.query_modes.len(), 2);
}

#[test]
fn route_theme_and_locale() {
    let mut s = ZedisAppState::new();
    assert_eq!(s.route(), Route::Home);
    s.go_to(Route::Editor);
    assert_eq!(s.route(), Route::Editor);
    assert_eq!(s.locale(), "en");
    s.set_locale("zh".to_string());
    assert_eq!(s.locale(), "zh");
    assert_eq!(s.theme(), None);
    s.set_theme(Some(ThemeMode::Dark));
    assert_eq!(s.theme(), Some(ThemeMode::Dark));
    assert_eq!(s.theme.as_deref(), Some("dark"));
    s.set_theme(Some(ThemeMode::Light));
    assert_eq!(s.theme(), Some(ThemeMode::Light));
    s.set_theme(None);
    assert_eq!(s.theme(), None);
    let _sidebar = ZedisSidebar::new();
}
