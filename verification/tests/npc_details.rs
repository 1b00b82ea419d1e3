use hearthfield::calendar::Season;
use hearthfield::social::{
    loves_line, npc_detail_lines, sorted_loved_items, GiftPreference, NpcProfile, Relationships,
};
use hearthfield::text::str_le_exec;

fn prefs() -> Vec<(String, GiftPreference)> {
    vec![
        ("sunflower".to_string(), GiftPreference::Loved),
        ("trash".to_string(), GiftPreference::Hated),
        ("amethyst".to_string(), GiftPreference::Loved),
        ("bread".to_string(), GiftPreference::Liked),
        ("Zucchini".to_string(), GiftPreference::Loved),
        ("apple".to_string(), GiftPreference::Loved),
    ]
}

#[test]
fn dictionary_order_compares_by_code_point() {
    assert!(str_le_exec("apple", "apples"));
    assert!(!str_le_exec("apples", "apple"));
    assert!(str_le_exec("Zebra", "apple"));
    assert!(str_le_exec("", ""));
    assert!(str_le_exec("amethyst", "apple"));
    assert!(!str_le_exec("b", "ab"));
}

#[test]
fn loved_items_come_out_sorted() {
    let sorted = sorted_loved_items(&prefs());
    assert_eq!(sorted, vec!["Zucchini", "amethyst", "apple", "sunflower"]);
    let mut expected: Vec<String> = prefs()
        .into_iter()
        .filter(|(_, p)| *p == GiftPreference::Loved)
        .map(|(id, _)| id)
        .collect();
    expected.sort();
    assert_eq!(sorted, expected);
}

#[test]
fn loves_line_joins_with_commas_or_is_absent() {
    assert_eq!(loves_line(&prefs()), Some("Loves: Zucchini, amethyst, apple, sunflower".to_string()));
    assert_eq!(loves_line(&vec![("gem".to_string(), GiftPreference::Loved)]), Some("Loves: gem".to_string()));
    assert_eq!(loves_line(&vec![("trash".to_string(), GiftPreference::Hated)]), None);
    assert_eq!(loves_line(&vec![]), None);
}

#[test]
fn npc_details_list_each_line() {
    let mut rel = Relationships::default();
    rel.add_friendship("elena", 250);
    let profile = NpcProfile {
        name: "Elena".to_string(),
        birthday_season: Season::Fall,
        birthday_day: 12,
        gift_preferences: prefs(),
        is_marriageable: true,
    };
    let lines = npc_detail_lines(&profile, &rel, "elena");
    assert_eq!(
        lines,
        vec![
            "SELECTED: Elena".to_string(),
            "Birthday: Fall 12".to_string(),
            "Friendship: 250 pts (2/10 hearts)".to_string(),
            "Loves: Zucchini, amethyst, apple, sunflower".to_string(),
            "Marriageable".to_string(),
        ]
    );
    let plain = NpcProfile { gift_preferences: vec![], is_marriageable: false, ..profile };
    assert_eq!(npc_detail_lines(&plain, &rel, "nobody").len(), 3);
    assert_eq!(npc_detail_lines(&plain, &rel, "nobody")[2], "Friendship: 0 pts (0/10 hearts)");
}
