use wallhaven::paths::{
    bg_fill_args, config_file_path, get_config_folder, get_home_folder, requested_index,
};
use wallhaven::text::{parse_index, render_decimal};
use wallhaven::{WpConfig, WpError};

fn config() -> WpConfig {
    WpConfig {
        file_location: "/.wallpaper".to_string(),
        username: "test-user-name".to_string(),
        api_key: "test-api-key".to_string(),
        collection_id: "test-collection-id".to_string(),
        current_selection: 0,
        filepath: "".to_string(),
    }
}

#[test]
fn render_decimal_values() {
    assert_eq!(render_decimal(0), "0");
    assert_eq!(render_decimal(7), "7");
    assert_eq!(render_decimal(10), "10");
    assert_eq!(render_decimal(1205), "1205");
    assert_eq!(render_decimal(usize::MAX), usize::MAX.to_string());
}

#[test]
fn parse_index_accepts_unsigned_numbers() {
    assert_eq!(parse_index("0"), Ok(0));
    assert_eq!(parse_index("42"), Ok(42));
    assert_eq!(parse_index("+42"), Ok(42));
    assert_eq!(parse_index("007"), Ok(7));
    let max = usize::MAX.to_string();
    assert_eq!(parse_index(&max), Ok(usize::MAX));
}

#[test]
fn parse_index_rejects_other_text() {
    for s in ["", "+", "-1", "12a", " 1", "1.5", "++1", "x"] {
        assert_eq!(parse_index(s), Err(WpError::ArgumentParse), "{s:?}");
    }
    let over = format!("{}0", usize::MAX);
    assert_eq!(parse_index(&over), Err(WpError::ArgumentParse));
}

#[test]
fn parse_index_agrees_with_std() {
    for s in ["0", "+9", "99999", "-0", "", "18446744073709551616", "4294967296"] {
        let ours = parse_index(s).ok();
        let std = s.parse::<usize>().ok();
        assert_eq!(ours, std, "{s:?}");
    }
}

#[test]
fn page_addresses() {
    let c = config();
    assert_eq!(
        c.get_at_page(12),
        "https://wallhaven.cc/api/v1/collections/test-user-name/test-collection-id/?apikey=test-api-key&page=12"
    );
    assert_eq!(
        c.get_first(),
        "https://wallhaven.cc/api/v1/collections/test-user-name/test-collection-id/?apikey=test-api-key&page=0"
    );
}

#[test]
fn config_folder_prefers_user_setting() {
    assert_eq!(
        get_config_folder(Some("/cfg".to_string()), Some("/home/a".to_string())),
        "/cfg"
    );
    assert_eq!(
        get_config_folder(None, Some("/home/a".to_string())),
        "/home/a/.config"
    );
    assert_eq!(get_config_folder(None, None), "/home/miek");
    assert_eq!(get_home_folder(Some("/h".to_string())), "/h/.config");
    assert_eq!(get_home_folder(None), "/home/miek");
}

#[test]
fn file_paths() {
    assert_eq!(config_file_path("/cfg"), "/cfg/wallhaven.json");
    assert_eq!(config().wallpaper_path("/cfg"), "/cfg/.wallpaper");
    assert_eq!(bg_fill_args("/cfg/.wallpaper"), vec!["--bg-fill", "/cfg/.wallpaper"]);
}

#[test]
fn arguments_select_index() {
    let prog = "wallhaven".to_string();
    assert_eq!(requested_index(&vec![]), Ok(None));
    assert_eq!(requested_index(&vec![prog.clone()]), Ok(None));
    assert_eq!(
        requested_index(&vec![prog.clone(), "17".to_string()]),
        Ok(Some(17))
    );
    assert_eq!(
        requested_index(&vec![prog.clone(), "17".to_string(), "3".to_string()]),
        Ok(Some(17))
    );
    assert_eq!(
        requested_index(&vec![prog, "seven".to_string()]),
        Err(WpError::ArgumentParse)
    );
}
