use website_checker::outcome::{finish_result, WebsiteStatus};
use website_checker::render::{escape_quotes, render_batch, render_line, u64_to_dec};

#[test]
fn decimal_rendering_exact() {
    assert_eq!(u64_to_dec(0), "0".to_string());
    assert_eq!(u64_to_dec(7), "7".to_string());
    assert_eq!(u64_to_dec(10), "10".to_string());
    assert_eq!(u64_to_dec(200), "200".to_string());
    assert_eq!(u64_to_dec(1234567890), "1234567890".to_string());
    assert_eq!(u64_to_dec(u64::MAX), "18446744073709551615".to_string());
}

#[test]
fn escaping_replaces_double_quotes() {
    assert_eq!(escape_quotes(""), "".to_string());
    assert_eq!(escape_quotes("plain"), "plain".to_string());
    assert_eq!(escape_quotes("a \"quoted\" word"), "a 'quoted' word".to_string());
    assert_eq!(escape_quotes("\"\""), "''".to_string());
}

#[test]
fn success_line_exact() {
    let ws = finish_result("https://a.test", Ok(200), 35, 1700000000);
    assert_eq!(
        render_line(&ws),
        "{\"url\":\"https://a.test\",\"status\":200,\"response_time_ms\":35,\"timestamp_epoch_secs\":1700000000}".to_string()
    );
}

#[test]
fn failure_line_escapes_error() {
    let ws = finish_result("https://b.test", Err("said \"no\"".to_string()), 12, 99);
    assert_eq!(
        render_line(&ws),
        "{\"url\":\"https://b.test\",\"status\":\"said 'no'\",\"response_time_ms\":12,\"timestamp_epoch_secs\":99}".to_string()
    );
}

#[test]
fn batch_rendering_keeps_order() {
    let results: Vec<WebsiteStatus> = vec![
        finish_result("https://a.test", Ok(301), 1, 5),
        finish_result("https://b.test", Err("dns failure".to_string()), 2, 5),
    ];
    let lines = render_batch(&results);
    assert_eq!(lines.len(), 2);
    assert!(lines[0].contains("https://a.test"));
    assert!(lines[0].contains("\"status\":301"));
    assert!(lines[1].contains("\"status\":\"dns failure\""));
}
