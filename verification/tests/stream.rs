use eventsub::stream::{live_message, live_snapshot_from_list, Stream};

fn stream(user_name: &str, title: &str, game_name: &str, viewer_count: u32) -> Stream {
    Stream {
        id: "1".to_string(),
        user_id: "2".to_string(),
        user_login: user_name.to_lowercase(),
        user_name: user_name.to_string(),
        game_id: "3".to_string(),
        game_name: game_name.to_string(),
        stream_type: "live".to_string(),
        title: title.to_string(),
        viewer_count,
        started_at: "2024-03-16T10:00:00Z".to_string(),
        language: "fr".to_string(),
        thumbnail_url: "https://example.invalid/t.jpg".to_string(),
    }
}

#[test]
fn live_message_formats_all_fields() {
    let s = stream("Alice", "Speedrun", "Celeste", 4321);
    assert_eq!(
        live_message(&s),
        "Le streamer Alice est en live ! Titre: Speedrun, Jeu: Celeste, Viewers: 4321"
    );
}

#[test]
fn live_message_with_zero_viewers() {
    let s = stream("Bob", "Chill", "Chess", 0);
    assert_eq!(
        live_message(&s),
        "Le streamer Bob est en live ! Titre: Chill, Jeu: Chess, Viewers: 0"
    );
}

#[test]
fn live_message_with_the_largest_count() {
    let s = stream("C", "t", "g", u32::MAX);
    assert_eq!(
        live_message(&s),
        "Le streamer C est en live ! Titre: t, Jeu: g, Viewers: 4294967295"
    );
}

#[test]
fn empty_list_means_not_live() {
    assert!(live_snapshot_from_list(Vec::new()).is_none());
}

#[test]
fn first_snapshot_stands_for_the_broadcast() {
    let list = vec![stream("First", "a", "b", 1), stream("Second", "c", "d", 2)];
    let s = live_snapshot_from_list(list).expect("the list is non-empty");
    assert_eq!(s.user_name, "First");
}
