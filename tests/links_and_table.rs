use rental_calendar::calendar::UnitAvailability;
use rental_calendar::date::{next_day, Date, Weekday};
use rental_calendar::links::{calendar_url, discover_unit_links, filter_unit_links, has_prefix};
use rental_calendar::occupancy::{contains_date, occupancy_row, occupancy_table, WINDOW_DAYS};

fn date(year: i32, month: u32, day: u32) -> Date {
    Date { year, month, day }
}

fn unit(name: &str, check_ins: Vec<Date>, check_outs: Vec<Date>) -> UnitAvailability {
    UnitAvailability { unit_name: name.to_string(), check_ins, check_outs }
}

#[test]
fn discovery_keeps_prefixed_links_in_order() {
    let html = "<html><body><a href=\"https://site/houses/x\">x</a><a href=\"https://site/other\">o</a><a>none</a><a href=\"https://site/houses/y\">y</a></body></html>";
    assert_eq!(discover_unit_links(html, "https://site/houses/"), vec!["https://site/houses/x".to_string(), "https://site/houses/y".to_string()]);
}

#[test]
fn discovery_keeps_duplicates() {
    let html = "<a href=\"https://site/houses/x\">1</a><a href=\"https://site/houses/x\">2</a>";
    assert_eq!(discover_unit_links(html, "https://site/houses/").len(), 2);
}

#[test]
fn discovery_on_empty_page_is_empty() {
    assert!(discover_unit_links("", "https://site/houses/").is_empty());
}

#[test]
fn filter_unit_links_exact() {
    let targets = vec![
        Some("https://site/houses/x".to_string()),
        Some("https://site/other".to_string()),
        None,
        Some("https://site/houses/y".to_string()),
    ];
    assert_eq!(filter_unit_links(&targets, "https://site/houses/"), vec!["https://site/houses/x".to_string(), "https://site/houses/y".to_string()]);
}

#[test]
fn has_prefix_cases() {
    assert!(has_prefix("abc", "ab"));
    assert!(has_prefix("abc", ""));
    assert!(!has_prefix("ab", "abc"));
    assert!(!has_prefix("abc", "b"));
}

#[test]
fn calendar_url_appends_path() {
    assert_eq!(calendar_url("https://site/houses/x"), "https://site/houses/x/calendar");
}

#[test]
fn aggregation_of_two_units() {
    let units = vec![unit("A", vec![date(2024, 11, 5)], vec![]), unit("B", vec![], vec![date(2024, 11, 5)])];
    let row = occupancy_row(date(2024, 11, 5), &units);
    assert_eq!(row.checking_in, vec!["A".to_string()]);
    assert_eq!(row.checking_out, vec!["B".to_string()]);
    assert_eq!(row.weekday, Weekday::Tue);
    let other = occupancy_row(date(2024, 11, 6), &units);
    assert!(other.checking_in.is_empty() && other.checking_out.is_empty());
}

#[test]
fn aggregation_keeps_unit_order() {
    let d = date(2024, 11, 5);
    let units = vec![unit("C", vec![d], vec![d]), unit("A", vec![d], vec![]), unit("B", vec![d], vec![d])];
    let row = occupancy_row(d, &units);
    assert_eq!(row.checking_in, vec!["C".to_string(), "A".to_string(), "B".to_string()]);
    assert_eq!(row.checking_out, vec!["C".to_string(), "B".to_string()]);
}

#[test]
fn window_from_first_of_november() {
    let units = vec![unit("A", vec![date(2024, 11, 14)], vec![date(2024, 11, 15)])];
    let rows = occupancy_table(date(2024, 11, 1), &units, WINDOW_DAYS);
    assert_eq!(rows.len(), 14);
    let weekdays = [Weekday::Fri, Weekday::Sat, Weekday::Sun, Weekday::Mon, Weekday::Tue, Weekday::Wed, Weekday::Thu];
    for (i, row) in rows.iter().enumerate() {
        assert_eq!(row.date, date(2024, 11, i as u32 + 1));
        assert_eq!(row.weekday, weekdays[i % 7]);
    }
    assert_eq!(rows[13].checking_in, vec!["A".to_string()]);
    assert!(rows.iter().all(|r| r.checking_out.is_empty()));
}

#[test]
fn window_crosses_year_end() {
    let rows = occupancy_table(date(2024, 12, 30), &Vec::new(), 3);
    assert_eq!(rows.iter().map(|r| r.date).collect::<Vec<_>>(), vec![date(2024, 12, 30), date(2024, 12, 31), date(2025, 1, 1)]);
    assert_eq!(rows[2].weekday, Weekday::Wed);
}

#[test]
fn empty_window_has_no_rows() {
    assert!(occupancy_table(date(2024, 11, 1), &Vec::new(), 0).is_empty());
}

#[test]
fn next_day_rolls_months_and_leap_days() {
    assert_eq!(next_day(date(2024, 2, 28)), date(2024, 2, 29));
    assert_eq!(next_day(date(2023, 2, 28)), date(2023, 3, 1));
    assert_eq!(next_day(date(2024, 11, 30)), date(2024, 12, 1));
    assert_eq!(next_day(date(2023, 12, 31)), date(2024, 1, 1));
}

#[test]
fn weekday_of_known_dates() {
    let none: Vec<UnitAvailability> = Vec::new();
    assert_eq!(occupancy_row(date(1970, 1, 1), &none).weekday, Weekday::Thu);
    assert_eq!(occupancy_row(date(2000, 1, 1), &none).weekday, Weekday::Sat);
    assert_eq!(occupancy_row(date(2024, 11, 1), &none).weekday, Weekday::Fri);
    assert_eq!(occupancy_row(date(1969, 12, 31), &none).weekday, Weekday::Wed);
}

#[test]
fn contains_date_by_value() {
    let v = vec![date(2024, 1, 2), date(2024, 3, 4)];
    assert!(contains_date(&v, date(2024, 3, 4)));
    assert!(!contains_date(&v, date(2024, 3, 5)));
    assert!(!contains_date(&Vec::new(), date(2024, 3, 5)));
}

#[test]
fn collect_units_leaves_out_failed_units() {
    let good = |name: &str, day: u32| {
        format!(
            "<h1><a href=\"https://site/houses/{name}\">{name}</a></h1><div class=\"calendar-container\"><div></div><div>November 2024</div><div><div class=\"calendar-checkin\"></div><div>{day}</div></div></div>"
        )
    };
    let pages = vec![
        Some(good("A", 3)),
        None,
        Some("<h1>no link</h1>".to_string()),
        Some(good("B", 4)),
    ];
    let units = rental_calendar::occupancy::collect_units(&pages);
    assert_eq!(units.len(), 2);
    assert_eq!(units[0].unit_name, "A");
    assert_eq!(units[0].check_ins, vec![date(2024, 11, 3)]);
    assert_eq!(units[1].unit_name, "B");
    assert_eq!(units[1].check_ins, vec![date(2024, 11, 4)]);
}
