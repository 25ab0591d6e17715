use feedtui::wizard::{answer_for_folded, prompt_answer, GridPlacer};
use feedtui::art::{get_creature_art, get_greeting, get_idle_message, get_level_up_art, mood_to_face};
use feedtui::creature::{CreatureMood, CreatureSpecies};
use feedtui::reader::{strip_html_tags, ArticleReader, SelectedItem};
use feedtui::text::{decimal, format_duration, format_published_date, format_time, truncate_description};

#[test]
fn html_tags_and_entities_are_stripped() {
    assert_eq!(strip_html_tags("<p>Hello &amp; <b>world</b></p>"), "Hello & world");
    assert_eq!(strip_html_tags("a &lt;b&gt; &#65;&#39;&quot;"), "a <b> A'\"");
    assert_eq!(strip_html_tags("  lots \n\n of   space  "), "lots of space");
    assert_eq!(strip_html_tags("a\n  b"), "a\nb");
    assert_eq!(strip_html_tags("&unknown;x&#55296;y"), "xy");
    assert_eq!(strip_html_tags(""), "");
}

#[test]
fn durations_format_as_clock() {
    assert_eq!(format_duration("PT1H2M10S"), "1:02:10");
    assert_eq!(format_duration("PT4M5S"), "4:05");
    assert_eq!(format_duration("PT45S"), "0:45");
    assert_eq!(format_duration(""), "0:00");
}

#[test]
fn playback_time_is_minutes_and_seconds() {
    assert_eq!(format_time(0), "00:00");
    assert_eq!(format_time(61_000), "01:01");
    assert_eq!(format_time(6_000_999), "100:00");
}

#[test]
fn published_date_keeps_date_part() {
    assert_eq!(format_published_date("2024-01-02T03:04:05Z"), "2024-01-02");
    assert_eq!(format_published_date("2024-01-02"), "2024-01-02");
}

#[test]
fn long_descriptions_are_truncated() {
    let long = "x".repeat(101);
    let t = truncate_description(&long);
    assert_eq!(t.chars().count(), 100);
    assert!(t.ends_with("..."));
    let exact = "y".repeat(100);
    assert_eq!(truncate_description(&exact), exact);
}

#[test]
fn decimal_text_has_no_leading_zeros() {
    assert_eq!(decimal(0), "0");
    assert_eq!(decimal(1205), "1205");
    assert_eq!(decimal(u64::MAX), "18446744073709551615");
}

#[test]
fn art_puts_face_and_outfit_in_place() {
    let art = get_creature_art(&CreatureSpecies::Cat, &CreatureMood::Happy, Some("ninja"), 0);
    assert_eq!(art[0], "  ~~~~~");
    assert_eq!(art[2], " ( ^_^ )");
    assert_eq!(art.len(), 6);
    let plain = get_creature_art(&CreatureSpecies::Spirit, &CreatureMood::Lonely, None, 5);
    assert_eq!(plain[0], "  *");
    assert_eq!(plain[2], " ( ;_; )");
    let unknown = get_creature_art(&CreatureSpecies::Robot, &CreatureMood::Proud, Some("cape"), 1);
    assert_eq!(unknown[0], "  _*_");
    assert_eq!(mood_to_face(&CreatureMood::Curious), "?.?");
}

#[test]
fn greeting_and_idle_text() {
    assert_eq!(get_greeting(&CreatureMood::Sleepy, "Tui"), "Tui: *yawn* Good to see you...");
    assert_eq!(get_idle_message(9), " ..");
    assert_eq!(get_level_up_art().len(), 5);
}

#[test]
fn reader_scrolls_within_content() {
    let mut r = ArticleReader::default();
    r.show(SelectedItem {
        title: "t".to_string(),
        url: Some("https://x.example".to_string()),
        description: None,
        source: "s".to_string(),
        metadata: None,
    });
    assert!(r.visible);
    assert_eq!(r.get_url().map(|s| s.as_str()), Some("https://x.example"));
    r.content_height = 5;
    r.page_down(10);
    assert_eq!(r.scroll_offset, 4);
    r.scroll_down();
    assert_eq!(r.scroll_offset, 4);
    r.page_up(3);
    assert_eq!(r.scroll_offset, 1);
    r.scroll_up();
    r.scroll_up();
    assert_eq!(r.scroll_offset, 0);
    r.toggle();
    assert!(!r.visible);
    assert!(r.get_url().is_none());
}

#[test]
fn yes_no_replies_fold_case_and_space() {
    assert!(prompt_answer("  YES \n", false));
    assert!(!prompt_answer("No", true));
    assert!(prompt_answer("", true));
    assert!(!prompt_answer("maybe", false));
    assert!(answer_for_folded("y", false));
    assert!(!answer_for_folded("Y", false));
}

#[test]
fn wizard_places_three_per_row() {
    let mut p = GridPlacer::new();
    let a = p.place(false);
    let b = p.place(false);
    let c = p.place(true);
    let d = p.place(true);
    assert_eq!((a.row, a.col), (0, 0));
    assert_eq!((b.row, b.col), (0, 1));
    assert_eq!((c.row, c.col), (0, 2));
    assert_eq!((d.row, d.col), (1, 0));
}
