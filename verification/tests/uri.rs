use top_artists::config::Config;

#[test]
fn uri_embeds_every_parameter_in_fixed_order() {
    let c = Config::new(
        "SECRETKEY".to_string(),
        "listener".to_string(),
        12,
        "3month".to_string(),
    );
    assert_eq!(
        c.get_uri(),
        "http://ws.audioscrobbler.com/2.0/?method=user.gettopartists&user=listener&api_key=SECRETKEY&format=json&period=3month&limit=12"
    );
}

#[test]
fn uri_keeps_values_as_given() {
    let c = Config::new("k".to_string(), "u".to_string(), 7, "decade".to_string());
    assert_eq!(
        c.get_uri(),
        "http://ws.audioscrobbler.com/2.0/?method=user.gettopartists&user=u&api_key=k&format=json&period=decade&limit=7"
    );
}

#[test]
fn uri_limit_edges() {
    let low = Config::new("k".to_string(), "u".to_string(), 0, "7day".to_string());
    assert!(low.get_uri().ends_with("&limit=0"));
    let high = Config::new("k".to_string(), "u".to_string(), 65535, "7day".to_string());
    assert!(high.get_uri().ends_with("&limit=65535"));
    let round = Config::new("k".to_string(), "u".to_string(), 1000, "7day".to_string());
    assert!(round.get_uri().ends_with("&limit=1000"));
}

#[test]
fn config_keeps_its_inputs() {
    let c = Config::new("k".to_string(), "u".to_string(), 5, "7day".to_string());
    assert_eq!(c.api_key, "k");
    assert_eq!(c.username, "u");
    assert_eq!(c.limit, 5);
    assert_eq!(c.period, "7day");
}
