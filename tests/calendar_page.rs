use rental_calendar::calendar::{
    assemble, assemble_unit, checkin_date, checkin_dates, checkin_text, checkout_date,
    checkout_dates, pad_day, read_months, read_unit_name, MonthBlock, ScrapeError,
};
use rental_calendar::date::Date;

fn date(year: i32, month: u32, day: u32) -> Date {
    Date { year, month, day }
}

fn month(label: &str, body: &str) -> String {
    format!(
        "<div class=\"calendar-container\"><div class=\"nav\"></div><div class=\"month-name\">{label}</div><div class=\"days\">{body}</div></div>"
    )
}

fn page(name: &str, months: &[String]) -> String {
    format!(
        "<html><body><h1><a href=\"https://site/houses/x\">{name}</a></h1>{}</body></html>",
        months.concat()
    )
}

const NOVEMBER_BODY: &str = "<a href=\"https://site/book/2024-11-05\">4</a><div class=\"calendar-checkout\">5</div><div class=\"calendar-checkin\"></div><div>9</div>";

#[test]
fn single_checkout_marker_gives_its_link_date() {
    let fragment = month("November 2024", "<a href=\"https://site/houses/x/book/2024-11-05\">4</a><div class=\"calendar-checkout\">5</div>");
    let block = read_months(&fragment).remove(0);
    assert_eq!(block.checkout_links, vec![Some("https://site/houses/x/book/2024-11-05".to_string())]);
    assert_eq!(checkout_dates(&block.checkout_links), vec![date(2024, 11, 5)]);
}

#[test]
fn checkout_date_reads_iso_token() {
    assert_eq!(checkout_date("https://site/book?from=2024-11-05&n=2"), Some(date(2024, 11, 5)));
    assert_eq!(checkout_date("https://site/book/2025-01-31"), Some(date(2025, 1, 31)));
}

#[test]
fn checkout_date_without_token_is_dropped() {
    assert_eq!(checkout_date("https://site/book/soon"), None);
    assert_eq!(checkout_date(""), None);
}

#[test]
fn checkout_date_with_impossible_day_is_dropped() {
    assert_eq!(checkout_date("https://site/book/2024-02-30"), None);
}

#[test]
fn checkout_dates_skip_missing_and_malformed_links() {
    let links = vec![
        Some("https://site/book/2024-11-05".to_string()),
        None,
        Some("https://site/book/never".to_string()),
        Some("https://site/book/2024-11-07".to_string()),
    ];
    assert_eq!(checkout_dates(&links), vec![date(2024, 11, 5), date(2024, 11, 7)]);
}

#[test]
fn pad_day_adds_zero_to_one_digit() {
    assert_eq!(pad_day("5"), "05");
    assert_eq!(pad_day("15"), "15");
    assert_eq!(pad_day(""), "0");
}

#[test]
fn checkin_text_joins_day_and_label() {
    assert_eq!(checkin_text("5", "November 2024"), "05 November 2024");
}

#[test]
fn checkin_single_digit_day_is_padded() {
    assert_eq!(checkin_date("5", "November 2024"), Some(date(2024, 11, 5)));
    assert_eq!(checkin_date("05", "November 2024"), Some(date(2024, 11, 5)));
    assert_eq!(checkin_date("29", "February 2024"), Some(date(2024, 2, 29)));
}

#[test]
fn checkin_with_bad_text_is_dropped() {
    assert_eq!(checkin_date("x", "November 2024"), None);
    assert_eq!(checkin_date("31", "November 2024"), None);
    assert_eq!(checkin_date("5", "Brumaire 2024"), None);
}

#[test]
fn checkin_dates_skip_missing_days() {
    let days = vec![Some("3".to_string()), None, Some("x".to_string()), Some("12".to_string())];
    assert_eq!(checkin_dates(&days, "December 2024"), vec![date(2024, 12, 3), date(2024, 12, 12)]);
}

#[test]
fn month_block_reads_label_and_cells() {
    let block = read_months(&month("November 2024", NOVEMBER_BODY)).remove(0);
    assert_eq!(block.label, Some("November 2024".to_string()));
    assert_eq!(block.checkout_links, vec![Some("https://site/book/2024-11-05".to_string())]);
    assert_eq!(block.checkin_days, vec![Some("9".to_string())]);
}

#[test]
fn month_block_without_header_has_no_label() {
    let fragment = format!("<div class=\"calendar-container\"><div class=\"days\">{NOVEMBER_BODY}</div></div>");
    let block = read_months(&fragment).remove(0);
    assert_eq!(block.label, None);
}

#[test]
fn assemble_reads_name_and_dates() {
    let html = page("Sea Cottage", &[month("November 2024", NOVEMBER_BODY)]);
    let unit = assemble(&html).unwrap();
    assert_eq!(unit.unit_name, "Sea Cottage");
    assert_eq!(unit.check_ins, vec![date(2024, 11, 9)]);
    assert_eq!(unit.check_outs, vec![date(2024, 11, 5)]);
}

#[test]
fn assemble_twice_gives_identical_records() {
    let html = page(
        "Sea Cottage",
        &[month("November 2024", NOVEMBER_BODY), month("December 2024", "<div class=\"calendar-checkin\"></div><div>1</div>")],
    );
    let a = assemble(&html).unwrap();
    let b = assemble(&html).unwrap();
    assert_eq!(a.unit_name, b.unit_name);
    assert_eq!(a.check_ins, b.check_ins);
    assert_eq!(a.check_outs, b.check_outs);
}

#[test]
fn month_without_label_leaves_other_months() {
    let unlabelled = "<div class=\"calendar-container\"><div class=\"days\"><a href=\"https://site/book/2024-10-20\">19</a><div class=\"calendar-checkout\">20</div><div class=\"calendar-checkin\"></div><div>21</div></div></div>".to_string();
    let html = page(
        "Sea Cottage",
        &[
            month("November 2024", NOVEMBER_BODY),
            unlabelled,
            month("December 2024", "<div class=\"calendar-checkin\"></div><div>1</div>"),
        ],
    );
    let unit = assemble(&html).unwrap();
    assert_eq!(unit.check_ins, vec![date(2024, 11, 9), date(2024, 12, 1)]);
    assert_eq!(unit.check_outs, vec![date(2024, 11, 5)]);
}

#[test]
fn malformed_checkout_link_does_not_abort_unit() {
    let body = "<a href=\"https://site/book/later\">4</a><div class=\"calendar-checkout\">5</div><a href=\"https://site/book/2024-11-08\">7</a><div class=\"calendar-checkout\">8</div>";
    let unit = assemble(&page("Sea Cottage", &[month("November 2024", body)])).unwrap();
    assert_eq!(unit.unit_name, "Sea Cottage");
    assert_eq!(unit.check_outs, vec![date(2024, 11, 8)]);
}

#[test]
fn page_without_name_is_structure_mismatch() {
    let html = format!("<html><body><h1>Nothing</h1>{}</body></html>", month("November 2024", NOVEMBER_BODY));
    assert!(matches!(assemble(&html), Err(ScrapeError::StructureMismatch)));
}

#[test]
fn page_without_months_has_empty_sets() {
    let unit = assemble(&page("Barn", &[])).unwrap();
    assert_eq!(unit.unit_name, "Barn");
    assert!(unit.check_ins.is_empty());
    assert!(unit.check_outs.is_empty());
}

#[test]
fn assemble_unit_skips_unlabelled_month() {
    let months = vec![
        MonthBlock { label: None, checkout_links: vec![Some("x/2024-11-01".to_string())], checkin_days: vec![Some("2".to_string())] },
        MonthBlock { label: Some("November 2024".to_string()), checkout_links: vec![Some("x/2024-11-03".to_string())], checkin_days: vec![Some("4".to_string())] },
    ];
    let unit = assemble_unit(Some("A".to_string()), &months).unwrap();
    assert_eq!(unit.check_ins, vec![date(2024, 11, 4)]);
    assert_eq!(unit.check_outs, vec![date(2024, 11, 3)]);
    assert!(matches!(assemble_unit(None, &months), Err(ScrapeError::StructureMismatch)));
}

#[test]
fn nested_cells_belong_to_their_own_month() {
    let html = page(
        "Sea Cottage",
        &[month("November 2024", NOVEMBER_BODY), month("December 2024", "<div class=\"calendar-checkin\"></div><div>1</div>")],
    );
    let months = read_months(&html);
    assert_eq!(months.len(), 2);
    assert_eq!(months[0].checkin_days, vec![Some("9".to_string())]);
    assert_eq!(months[0].checkout_links.len(), 1);
    assert_eq!(months[1].label, Some("December 2024".to_string()));
    assert_eq!(months[1].checkin_days, vec![Some("1".to_string())]);
    assert!(months[1].checkout_links.is_empty());
}

#[test]
fn checkin_without_following_text_reads_none() {
    let months = read_months(&month("November 2024", "<div class=\"calendar-checkin\"></div>"));
    assert_eq!(months[0].checkin_days, vec![None]);
}

#[test]
fn unit_name_is_first_heading_link_text() {
    assert_eq!(read_unit_name(&page("Sea Cottage", &[])), Some("Sea Cottage".to_string()));
    assert_eq!(read_unit_name("<h1>plain</h1>"), None);
    assert_eq!(read_unit_name("<h1><a href=\"x\"><b>bold</b></a></h1>"), None);
}

#[test]
fn checkout_date_takes_first_iso_token() {
    assert_eq!(checkout_date("https://site/houses/12/book/2024-11-05/to/2024-11-09"), Some(date(2024, 11, 5)));
    assert_eq!(checkout_date("https://site/book/x2024-11-05x"), Some(date(2024, 11, 5)));
}
