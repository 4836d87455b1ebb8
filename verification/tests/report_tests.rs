use umami_alerts::api::{auth_failure_error, classify_status, normalize_base_url};
use umami_alerts::error::AppError;
use umami_alerts::report::{
    assemble_report_data, bounce_rate, bounce_rate_side, format_subject, format_time_spent,
    rewrite_country_labels, Metric, MetricValue, Stats,
};
use umami_alerts::window::ReportType;

fn sample_stats() -> Stats {
    Stats {
        pageviews: MetricValue { value: 100, prev: 90 },
        visitors: MetricValue { value: 50, prev: 45 },
        visits: MetricValue { value: 75, prev: 70 },
        bounces: MetricValue { value: 20, prev: 25 },
        total_time: MetricValue { value: 3600, prev: 3300 },
    }
}

#[test]
fn test_format_time_spent() {
    assert_eq!(format_time_spent(0, 0), "0m 0s");
    assert_eq!(format_time_spent(30, 1), "30s");
    assert_eq!(format_time_spent(90, 1), "1m 30s");
    assert_eq!(format_time_spent(3600, 1), "60m 0s");
}

#[test]
fn test_zero_visits_yield_zero() {
    assert_eq!(bounce_rate_side(5, 0), 0);
    assert_eq!(bounce_rate_side(0, 0), 0);
    assert_eq!(format_time_spent(12345, 0), "0m 0s");
}

#[test]
fn test_bounce_rate_clamped() {
    // More bounces than visits still stays within [0, 100].
    assert_eq!(bounce_rate_side(200, 100), 100);
    assert_eq!(bounce_rate_side(101, 100), 100);
    assert_eq!(bounce_rate_side(u64::MAX, 1), 100);
    assert_eq!(bounce_rate_side(50, 100), 50);
    assert_eq!(bounce_rate_side(1, 3), 33);
    assert_eq!(bounce_rate_side(0, 100), 0);
}

#[test]
fn test_bounce_rate_both_sides() {
    let r = bounce_rate(&sample_stats());
    // 20 * 100 / 75 and 25 * 100 / 70, truncated.
    assert_eq!(r.value, 26);
    assert_eq!(r.prev, 35);
}

#[test]
fn test_rewrite_country_labels() {
    let map = vec![("US".to_string(), "United States".to_string())];
    let metrics = vec![
        Metric { x: "US".to_string(), y: 10 },
        Metric { x: "ZZ".to_string(), y: 3 },
    ];
    let rewritten = rewrite_country_labels(&map, &metrics);
    assert_eq!(rewritten.len(), 2);
    assert_eq!(rewritten[0].x, "United States");
    assert_eq!(rewritten[0].y, 10);
    assert_eq!(rewritten[1].x, "ZZ");
    assert_eq!(rewritten[1].y, 3);
}

#[test]
fn test_assemble_report_data() {
    let map = vec![("US".to_string(), "United States".to_string())];
    let stats = sample_stats();
    let pages = vec![Metric { x: "/home".to_string(), y: 40 }];
    let countries = vec![Metric { x: "US".to_string(), y: 30 }];
    let browsers = vec![Metric { x: "firefox".to_string(), y: 20 }];
    let devices = vec![Metric { x: "desktop".to_string(), y: 15 }];
    let referrers = vec![Metric { x: "example.org".to_string(), y: 5 }];
    let data = assemble_report_data(
        "Test Site",
        "March 14, 2024",
        &ReportType::Daily,
        stats,
        pages,
        countries,
        browsers,
        devices,
        referrers,
        &map,
    );
    assert_eq!(data.website_name, "Test Site");
    assert_eq!(data.date, "March 14, 2024");
    assert_eq!(data.report_type, "Daily");
    assert_eq!(data.bounce_rate.value, 26);
    assert_eq!(data.bounce_rate.prev, 35);
    // 3600 seconds over 75 visits is 48 seconds per visit.
    assert_eq!(data.time_spent, "48s");
    assert_eq!(data.pages[0].x, "/home");
    assert_eq!(data.countries[0].x, "United States");
    assert_eq!(data.countries[0].y, 30);
    assert_eq!(data.browsers[0].x, "firefox");
    assert_eq!(data.devices[0].x, "desktop");
    assert_eq!(data.referrers[0].x, "example.org");
}

#[test]
fn test_format_subject() {
    assert_eq!(
        format_subject(&ReportType::Daily, "Test Site", "March 14, 2024"),
        "Daily Analytics Report - Test Site - March 14, 2024"
    );
    assert_eq!(
        format_subject(&ReportType::Weekly, "Shop", "March 14, 2024"),
        "Weekly Analytics Report - Shop - March 14, 2024"
    );
}

#[test]
fn test_classify_status() {
    assert!(classify_status(200, "").is_none());
    match classify_status(401, "").unwrap() {
        AppError::Api(m) => assert_eq!(m, "Authentication token expired or invalid"),
        _ => panic!("wrong kind"),
    }
    match classify_status(404, "").unwrap() {
        AppError::Api(m) => assert_eq!(m, "Resource not found"),
        _ => panic!("wrong kind"),
    }
    match classify_status(429, "").unwrap() {
        AppError::Api(m) => assert_eq!(m, "Rate limit exceeded"),
        _ => panic!("wrong kind"),
    }
    match classify_status(500, "boom").unwrap() {
        AppError::Api(m) => assert_eq!(m, "API request failed (500): boom"),
        _ => panic!("wrong kind"),
    }
}

#[test]
fn test_auth_failure_error() {
    match auth_failure_error(403, "Invalid credentials") {
        AppError::Api(m) => assert_eq!(m, "Authentication failed (403): Invalid credentials"),
        _ => panic!("wrong kind"),
    }
}

#[test]
fn test_normalize_base_url() {
    assert_eq!(normalize_base_url("https://x.example"), "https://x.example");
    assert_eq!(normalize_base_url("https://x.example/"), "https://x.example");
    assert_eq!(normalize_base_url("https://x.example///"), "https://x.example");
    assert_eq!(normalize_base_url(""), "");
}

#[test]
fn test_metric_fetch_plan() {
    let plan = umami_alerts::api::metric_fetch_plan();
    assert_eq!(
        plan,
        vec![
            ("url", 10),
            ("country", 10),
            ("browser", 5),
            ("device", 5),
            ("referrer", 5)
        ]
    );
}
