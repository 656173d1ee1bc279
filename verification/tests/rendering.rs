use aoyama::report::{format_message_link, links_file_content, scan_summary};
use aoyama::scan::ScanResult;
use aoyama::state::ScanStatus;
use aoyama::system::get_formatted_uptime;
use aoyama::text::{join_strings, str_eq, u64_to_string};
use aoyama::weather::{format_direction, get_weather_emoji, get_weather_image_url, uppercase_first};

#[test]
fn weather_image_url_wraps_the_code() {
    let url = get_weather_image_url(&"10d".to_string());
    assert_eq!(url, "http://openweathermap.org/img/wn/10d@2x.png");
}

#[test]
fn weather_emoji_matches_condition_codes() {
    assert_eq!(get_weather_emoji(&"01d".to_string()), "☀️");
    assert_eq!(get_weather_emoji(&"01n".to_string()), "🌕");
    assert_eq!(get_weather_emoji(&"02n".to_string()), "⛅");
    assert_eq!(get_weather_emoji(&"04d".to_string()), "☁️");
    assert_eq!(get_weather_emoji(&"09n".to_string()), "🌧️");
    assert_eq!(get_weather_emoji(&"11d".to_string()), "🌩️");
    assert_eq!(get_weather_emoji(&"13n".to_string()), "❄️");
    assert_eq!(get_weather_emoji(&"50d".to_string()), "🌫️");
    assert_eq!(get_weather_emoji(&"99x".to_string()), "☀️");
}

#[test]
fn uppercase_first_keeps_the_rest() {
    assert_eq!(uppercase_first("clear sky"), "Clear sky");
    assert_eq!(uppercase_first("light rain"), "Light rain");
    assert_eq!(uppercase_first("x"), "X");
    assert_eq!(uppercase_first("7 degrees"), "7 degrees");
}

#[test]
fn direction_names_cover_the_circle() {
    assert_eq!(format_direction(0), "North");
    assert_eq!(format_direction(45), "North");
    assert_eq!(format_direction(46), "East");
    assert_eq!(format_direction(135), "East");
    assert_eq!(format_direction(200), "South");
    assert_eq!(format_direction(300), "West");
    assert_eq!(format_direction(315), "West");
    assert_eq!(format_direction(316), "North");
    assert_eq!(format_direction(-5), "North");
}

#[test]
fn uptime_is_written_in_five_parts() {
    assert_eq!(get_formatted_uptime(0), "0w 0d 0h 0m 0s");
    assert_eq!(get_formatted_uptime(1_234_567), "2w 0d 6h 56m 7s");
    assert_eq!(get_formatted_uptime(604_800 + 86_400 + 3_600 + 60 + 1), "1w 1d 1h 1m 1s");
}

#[test]
fn numbers_render_in_decimal() {
    assert_eq!(u64_to_string(0), "0");
    assert_eq!(u64_to_string(7), "7");
    assert_eq!(u64_to_string(1009), "1009");
    assert_eq!(u64_to_string(u64::MAX), "18446744073709551615");
}

#[test]
fn joining_strings_places_the_separator_between() {
    assert_eq!(join_strings(&vec![], "\n"), "");
    assert_eq!(join_strings(&vec!["a".to_string()], "\n"), "a");
    assert_eq!(
        join_strings(&vec!["a".to_string(), "b".to_string(), "c".to_string()], "\n"),
        "a\nb\nc"
    );
}

#[test]
fn string_equality_is_by_characters() {
    assert!(str_eq("abc", "abc"));
    assert!(!str_eq("abc", "abd"));
    assert!(!str_eq("abc", "ab"));
    assert!(str_eq("", ""));
}

#[test]
fn message_links_name_guild_channel_and_message() {
    assert_eq!(
        format_message_link(1, 22, 333),
        "https://discord.com/channels/1/22/333/"
    );
}

#[test]
fn summary_reports_what_was_found() {
    let found = ScanResult {
        links: vec!["https://example.invalid/a.png".to_string(), "https://example.invalid/b.png".to_string()],
        messages_processed: 7,
        last_message_id: 42,
        status: ScanStatus::StoppedByHistoryExhausted,
    };
    assert_eq!(
        scan_summary(&found, 5, 6),
        "Found **2** images in processed **7** messages! \n\
         The last message processed was [this one](https://discord.com/channels/5/6/42/)."
    );
    assert_eq!(
        links_file_content(&found),
        "https://example.invalid/a.png\nhttps://example.invalid/b.png"
    );
    let nothing = ScanResult {
        links: vec![],
        messages_processed: 9,
        last_message_id: 43,
        status: ScanStatus::StoppedByStarvation,
    };
    assert_eq!(
        scan_summary(&nothing, 5, 6),
        "Processed **9** messages but I haven't found any images :( \n\
         The last message processed was [this one](https://discord.com/channels/5/6/43/)."
    );
}
