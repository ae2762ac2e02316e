use illien::{
    chars_of, collect_entries, comes_before, classify, list_journal_entries, same_text,
    sort_entries, text_before, EntryType, JournalEntry, StoreError,
};

fn names(list: &[&str]) -> Vec<String> {
    list.iter().map(|n| n.to_string()).collect()
}

fn listed(list: &[&str]) -> Vec<String> {
    list_journal_entries(Ok(names(list)))
        .unwrap()
        .into_iter()
        .map(|e| e.filename)
        .collect()
}

#[test]
fn dailies_newest_first_then_titles_by_alphabet() {
    assert_eq!(
        listed(&["b.md", "2024-01-01.md", "2023-12-31.md", "a.md"]),
        names(&["2024-01-01.md", "2023-12-31.md", "a.md", "b.md"])
    );
}

#[test]
fn listing_carries_what_the_names_say() {
    let entries = list_journal_entries(Ok(names(&["notes.md", "2024-03-05.md"]))).unwrap();
    assert_eq!(
        entries,
        vec![
            JournalEntry {
                filename: "2024-03-05.md".to_string(),
                entry_type: EntryType::Daily,
                title: "2024-03-05".to_string(),
                date: Some("2024-03-05".to_string()),
            },
            JournalEntry {
                filename: "notes.md".to_string(),
                entry_type: EntryType::Titled,
                title: "notes".to_string(),
                date: None,
            },
        ]
    );
}

#[test]
fn titles_are_ordered_without_regard_to_case() {
    assert_eq!(listed(&["B.md", "a.md"]), names(&["a.md", "B.md"]));
    assert_eq!(listed(&["b.md", "A.md"]), names(&["A.md", "b.md"]));
    assert_eq!(
        listed(&["Zeta.md", "alpha.md", "Beta.md", "gamma.md"]),
        names(&["alpha.md", "Beta.md", "gamma.md", "Zeta.md"])
    );
    assert_eq!(listed(&["\u{c9}t\u{e9}.md", "\u{e9}cole.md"]), names(&["\u{e9}cole.md", "\u{c9}t\u{e9}.md"]));
}

#[test]
fn titles_that_differ_in_case_only_keep_their_order() {
    assert_eq!(listed(&["Notes.md", "notes.md", "NOTES.md"]), names(&["Notes.md", "notes.md", "NOTES.md"]));
    assert_eq!(listed(&["NOTES.md", "notes.md", "Notes.md"]), names(&["NOTES.md", "notes.md", "Notes.md"]));
    assert_eq!(
        listed(&["b.md", "A.md", "B.md", "a.md"]),
        names(&["A.md", "a.md", "b.md", "B.md"])
    );
}

#[test]
fn every_daily_stands_before_every_titled() {
    assert_eq!(
        listed(&["0000.md", "1999-01-01.md", "!.md", "2000-01-01.md"]),
        names(&["2000-01-01.md", "1999-01-01.md", "!.md", "0000.md"])
    );
}

#[test]
fn files_that_are_not_markdown_are_left_out() {
    assert_eq!(
        listed(&["a.txt", "b.md", "2024-01-01.md.bak", ".hidden", "2024-01-01.md"]),
        names(&["2024-01-01.md", "b.md"])
    );
    assert_eq!(listed(&[]), names(&[]));
    assert_eq!(listed(&["readme.txt"]), names(&[]));
}

#[test]
fn a_name_given_twice_is_listed_twice() {
    assert_eq!(
        listed(&["a.md", "2024-01-01.md", "a.md", "2024-01-01.md"]),
        names(&["2024-01-01.md", "2024-01-01.md", "a.md", "a.md"])
    );
}

#[test]
fn many_entries_come_out_in_order() {
    let mut input: Vec<String> = Vec::new();
    for day in 1..=28u32 {
        input.push(format!("2024-02-{:02}.md", (day * 5) % 28 + 1));
        input.push(format!("note {:02}.md", (day * 11) % 28));
    }
    let out: Vec<String> = list_journal_entries(Ok(input.clone()))
        .unwrap()
        .into_iter()
        .map(|e| e.filename)
        .collect();
    let mut dailies: Vec<String> = input.iter().filter(|n| n.starts_with("2024")).cloned().collect();
    dailies.sort();
    dailies.reverse();
    let mut titled: Vec<String> = input.iter().filter(|n| n.starts_with("note")).cloned().collect();
    titled.sort();
    dailies.extend(titled);
    assert_eq!(out, dailies);
}

#[test]
fn unreadable_directory_is_an_error_not_an_empty_listing() {
    let r = list_journal_entries(Err("No such file or directory (os error 2)".to_string()));
    assert_eq!(
        r,
        Err(StoreError::ReadDirFailed("No such file or directory (os error 2)".to_string()))
    );
    assert_eq!(
        r.unwrap_err().message(),
        "Failed to read directory: No such file or directory (os error 2)"
    );
}

#[test]
fn collecting_keeps_the_order_of_the_names() {
    let found: Vec<String> = collect_entries(&names(&["b.md", "x", "2024-01-01.md", "a.md"]))
        .into_iter()
        .map(|e| e.filename)
        .collect();
    assert_eq!(found, names(&["b.md", "2024-01-01.md", "a.md"]));
}

#[test]
fn sorting_orders_entries_however_they_were_made() {
    let odd = JournalEntry {
        filename: "odd.md".to_string(),
        entry_type: EntryType::Daily,
        title: "odd".to_string(),
        date: None,
    };
    let day = classify("2024-01-01.md").unwrap();
    let note = classify("note.md").unwrap();
    // a daily entry without a date is older than any dated one
    let out = sort_entries(vec![note.clone(), odd.clone(), day.clone()]);
    assert_eq!(out, vec![day.clone(), odd.clone(), note.clone()]);
    assert!(comes_before(&day, &odd));
    assert!(!comes_before(&odd, &day));
    assert!(comes_before(&odd, &note));
}

#[test]
fn order_between_two_entries() {
    let new = classify("2024-01-01.md").unwrap();
    let old = classify("2023-12-31.md").unwrap();
    let a = classify("a.md").unwrap();
    let b = classify("B.md").unwrap();
    assert!(comes_before(&new, &old));
    assert!(!comes_before(&old, &new));
    assert!(!comes_before(&new, &new));
    assert!(comes_before(&old, &a));
    assert!(!comes_before(&a, &old));
    assert!(comes_before(&a, &b));
    assert!(!comes_before(&b, &a));
    assert!(!comes_before(&a, &a));
}

#[test]
fn texts_are_ordered_by_their_first_difference() {
    assert!(text_before("a", "b"));
    assert!(!text_before("b", "a"));
    assert!(!text_before("a", "a"));
    assert!(text_before("", "a"));
    assert!(!text_before("a", ""));
    assert!(!text_before("", ""));
    assert!(text_before("a", "ab"));
    assert!(!text_before("ab", "a"));
    assert!(text_before("ab", "b"));
    assert!(text_before("B", "a"));
    assert!(text_before("2023-12-31", "2024-01-01"));
    assert!(text_before("z", "\u{e9}"));
    assert!(text_before("\u{e9}", "\u{20ac}"));
    assert!(text_before("\u{ffff}", "\u{10000}"));
}

#[test]
fn text_order_agrees_with_the_order_of_strings() {
    let samples = ["", "a", "A", "ab", "b", "\u{e9}", "z\u{e9}", "\u{20ac}", "\u{10348}", "~", "2024-01-01"];
    for x in samples.iter() {
        for y in samples.iter() {
            assert_eq!(text_before(x, y), x < y);
            assert_eq!(same_text(x, y), x == y);
        }
    }
}

#[test]
fn characters_of_a_text() {
    assert_eq!(chars_of("a\u{e9}\u{20ac}"), vec!['a', '\u{e9}', '\u{20ac}']);
    assert_eq!(chars_of(""), Vec::<char>::new());
}
