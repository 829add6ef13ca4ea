use koushin::entry::{collect_page, sort_by_title, Entry, ListNode, PageRequest};
use koushin::schedule::{
    days_until_airing, in_section, render_section, render_watching_list, render_watching_list_today,
    weekday_after_days, Section,
};
use koushin::weekday::Weekday;

fn entry(title: &str, id: usize, watched: usize, total: usize, weekday: Option<Weekday>) -> Entry {
    Entry { title: title.to_string(), id, watched_episodes: watched, total_episodes: total, weekday }
}

fn node(title: &str, id: usize, watched: usize, total: usize, tags: &[&str]) -> ListNode {
    ListNode {
        title: title.to_string(),
        id,
        num_episodes: total,
        num_episodes_watched: watched,
        tags: tags.iter().map(|t| t.to_string()).collect(),
    }
}

fn cyan(s: &str) -> String {
    format!("\x1b[36m{}\x1b[39m", s)
}

fn heading(color: &str, s: &str) -> String {
    format!("\x1b[4m\x1b[{}m{}\x1b[39m\x1b[0m:", color, s)
}

#[test]
fn entry_from_node() {
    let e = Entry::from_node(node("Frieren", 52991, 3, 28, &["Friday", "fav"]));
    assert_eq!(e.title, "Frieren");
    assert_eq!(e.id, 52991);
    assert_eq!(e.watched_episodes, 3);
    assert_eq!(e.total_episodes, 28);
    assert_eq!(e.weekday, Some(Weekday::Fri));
    let off = Entry::from_node(node("Old", 1, 0, 0, &[]));
    assert_eq!(off.weekday, None);
}

#[test]
fn entry_label_text() {
    let e = entry("Frieren", 1, 3, 28, None);
    assert_eq!(e.label(), format!("[{}] Frieren", cyan("3")));
}

#[test]
fn pages_collected_in_order() {
    let mut entries: Vec<Entry> = Vec::new();
    let first = collect_page(
        &mut entries,
        vec![node("B", 2, 1, 12, &["monday"]), node("A", 1, 0, 0, &[])],
        Some("https://next".to_string()),
    );
    match first {
        PageRequest::FetchPage(url) => assert_eq!(url, "https://next"),
        PageRequest::Finished => panic!("another page follows"),
    }
    let last = collect_page(&mut entries, vec![node("C", 3, 5, 5, &["sunday"])], None);
    assert!(matches!(last, PageRequest::Finished));
    let titles: Vec<&str> = entries.iter().map(|e| e.title.as_str()).collect();
    assert_eq!(titles, vec!["B", "A", "C"]);
    assert_eq!(entries[2].weekday, Some(Weekday::Sun));
}

#[test]
fn sorting_is_stable() {
    let sorted = sort_by_title(vec![
        entry("b", 1, 0, 0, None),
        entry("a", 2, 0, 0, None),
        entry("b", 3, 0, 0, None),
        entry("B", 4, 0, 0, None),
        entry("", 5, 0, 0, None),
    ]);
    let ids: Vec<usize> = sorted.iter().map(|e| e.id).collect();
    assert_eq!(ids, vec![5, 4, 2, 1, 3]);
}

#[test]
fn sorting_empty_and_single() {
    assert!(sort_by_title(vec![]).is_empty());
    let one = sort_by_title(vec![entry("x", 9, 0, 0, None)]);
    assert_eq!(one.len(), 1);
    assert_eq!(one[0].id, 9);
}

#[test]
fn days_until_next_airing() {
    assert_eq!(days_until_airing(Weekday::Wed, Weekday::Wed), 0);
    assert_eq!(days_until_airing(Weekday::Thu, Weekday::Wed), 1);
    assert_eq!(days_until_airing(Weekday::Mon, Weekday::Wed), 5);
    assert_eq!(days_until_airing(Weekday::Mon, Weekday::Sun), 1);
    assert_eq!(days_until_airing(Weekday::Sun, Weekday::Mon), 6);
    assert_eq!(weekday_after_days(Weekday::Sat, 2), Weekday::Mon);
    assert_eq!(weekday_after_days(Weekday::Tue, 0), Weekday::Tue);
}

#[test]
fn section_membership() {
    let e = entry("x", 1, 0, 0, Some(Weekday::Fri));
    assert!(in_section(&e, Section::DaysAhead(2), Weekday::Wed));
    assert!(!in_section(&e, Section::DaysAhead(1), Weekday::Wed));
    assert!(!in_section(&e, Section::OffSeason, Weekday::Wed));
    let off = entry("y", 2, 0, 0, None);
    assert!(in_section(&off, Section::OffSeason, Weekday::Wed));
}

#[test]
fn empty_section_has_no_lines() {
    let entries = vec![entry("x", 1, 0, 0, Some(Weekday::Fri))];
    assert!(render_section(&entries, Weekday::Mon, Section::OffSeason, "head".to_string()).is_empty());
    let lines = render_section(&entries, Weekday::Mon, Section::DaysAhead(4), "head".to_string());
    assert_eq!(lines, vec!["head".to_string(), format!("  [{}] x", cyan("0"))]);
}

#[test]
fn watching_list_layout() {
    let entries = vec![
        entry("Alpha", 1, 2, 12, Some(Weekday::Mon)),
        entry("Beta", 2, 0, 0, None),
        entry("Gamma", 3, 5, 24, Some(Weekday::Wed)),
        entry("Delta", 4, 1, 13, Some(Weekday::Wed)),
        entry("Eps", 5, 7, 7, Some(Weekday::Tue)),
    ];
    let lines = render_watching_list(&entries, Weekday::Wed);
    let expected = vec![
        heading("35", "Off-season"),
        format!("  [{}] Beta", cyan("0")),
        heading("32", "Wed"),
        format!("  [{}] Gamma", cyan("5")),
        format!("  [{}] Delta", cyan("1")),
        heading("35", "Mon"),
        format!("  [{}] Alpha", cyan("2")),
        heading("35", "Tue"),
        format!("  [{}] Eps", cyan("7")),
    ];
    assert_eq!(lines, expected);
}

#[test]
fn watching_list_without_off_season() {
    let entries = vec![entry("Only", 1, 1, 2, Some(Weekday::Sun))];
    let lines = render_watching_list(&entries, Weekday::Sun);
    assert_eq!(lines, vec![heading("32", "Sun"), format!("  [{}] Only", cyan("1"))]);
    assert!(render_watching_list(&vec![], Weekday::Sun).is_empty());
}

#[test]
fn every_entry_shown_once() {
    let entries = vec![
        entry("a", 1, 0, 0, Some(Weekday::Mon)),
        entry("b", 2, 0, 0, None),
        entry("c", 3, 0, 0, Some(Weekday::Sat)),
        entry("d", 4, 0, 0, Some(Weekday::Thu)),
        entry("e", 5, 0, 0, Some(Weekday::Mon)),
    ];
    for today in [Weekday::Mon, Weekday::Thu, Weekday::Sun].iter() {
        let lines = render_watching_list(&entries, *today);
        let entry_lines = lines.iter().filter(|l| l.starts_with("  ")).count();
        assert_eq!(entry_lines, entries.len());
        let headings = lines.len() - entry_lines;
        assert_eq!(headings, 4);
    }
}

#[test]
fn watching_list_for_today_has_every_entry() {
    let entries = vec![entry("a", 1, 0, 0, Some(Weekday::Mon)), entry("b", 2, 0, 0, None)];
    let lines = render_watching_list_today(&entries);
    assert_eq!(lines.len(), 4);
    assert!(lines.contains(&format!("  [{}] a", cyan("0"))));
}

#[test]
fn layout_independent_of_read_order() {
    let read1 = vec![
        entry("Gamma", 3, 5, 24, Some(Weekday::Wed)),
        entry("Alpha", 1, 2, 12, Some(Weekday::Mon)),
        entry("Beta", 2, 0, 0, None),
    ];
    let read2 = vec![
        entry("Beta", 2, 0, 0, None),
        entry("Gamma", 3, 5, 24, Some(Weekday::Wed)),
        entry("Alpha", 1, 2, 12, Some(Weekday::Mon)),
    ];
    let lines1 = render_watching_list(&sort_by_title(read1), Weekday::Tue);
    let lines2 = render_watching_list(&sort_by_title(read2), Weekday::Tue);
    assert_eq!(lines1, lines2);
}
