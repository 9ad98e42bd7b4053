use riffra::duplicates::group_duplicates;

fn take(hash: u64, name: &str) -> (u64, String) {
    (hash, format!("recording:{name}"))
}

#[test]
fn groups_takes_that_share_audio_content() {
    let groups = group_duplicates(vec![
        take(7, "a"),
        take(3, "b"),
        take(7, "c"),
        take(9, "d"),
        take(3, "e"),
        take(7, "f"),
    ]);
    assert_eq!(
        groups,
        vec![
            vec!["recording:a".to_string(), "recording:c".to_string(), "recording:f".to_string()],
            vec!["recording:b".to_string(), "recording:e".to_string()],
        ]
    );
}

#[test]
fn reports_no_groups_when_all_takes_differ() {
    assert!(group_duplicates(vec![take(1, "a"), take(2, "b"), take(3, "c")]).is_empty());
    assert!(group_duplicates(Vec::new()).is_empty());
}
