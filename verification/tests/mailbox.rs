use cept_pages::messaging::{append_message, format_date, format_time, has_new_messages, mark_read, select_messages, Message};

fn msg(body: &str, is_read: bool) -> Message {
    Message {
        body: body.to_string(),
        from_id_str: "23-1".to_string(),
        from_name: "Max Muster".to_string(),
        personal_data: false,
        timestamp: 740000000,
        is_read,
        uuid: format!("id-{}", body),
    }
}

#[test]
fn select_lists_matches_newest_first() {
    let msgs = vec![
        msg("a", false),
        msg("b", true),
        msg("c", false),
        msg("d", false),
    ];
    assert_eq!(select_messages(&msgs, false, 0, None), vec![3, 2, 0]);
    assert_eq!(select_messages(&msgs, true, 0, None), vec![1]);
}

#[test]
fn select_window_skips_and_limits() {
    let msgs = vec![
        msg("a", false),
        msg("b", true),
        msg("c", false),
        msg("d", false),
    ];
    assert_eq!(select_messages(&msgs, false, 1, None), vec![2, 0]);
    assert_eq!(select_messages(&msgs, false, 1, Some(1)), vec![2]);
    assert_eq!(select_messages(&msgs, false, 0, Some(2)), vec![3, 2]);
    assert_eq!(select_messages(&msgs, false, 3, None), Vec::<usize>::new());
    assert_eq!(select_messages(&msgs, false, 0, Some(0)), Vec::<usize>::new());
}

#[test]
fn select_on_the_empty_mailbox() {
    let msgs: Vec<Message> = vec![];
    assert_eq!(select_messages(&msgs, false, 0, None), Vec::<usize>::new());
}

#[test]
fn mark_read_changes_only_the_flag_of_one_message() {
    let mut msgs = vec![msg("a", false), msg("b", false)];
    assert!(mark_read(&mut msgs, 0));
    assert!(msgs[0].is_read);
    assert_eq!(msgs[0].body, "a");
    assert_eq!(msgs[0].uuid, "id-a");
    assert!(!msgs[1].is_read);
    // already read: nothing changes, and the caller need not write back
    assert!(!mark_read(&mut msgs, 0));
    assert!(msgs[0].is_read);
}

#[test]
fn has_new_messages_means_an_unread_one_exists() {
    assert!(!has_new_messages(&vec![]));
    assert!(!has_new_messages(&vec![msg("a", true)]));
    assert!(has_new_messages(&vec![msg("a", true), msg("b", false)]));
}

#[test]
fn date_display_pads_day_and_month() {
    assert_eq!(format_date(3, 7, 1989), "03.07.1989");
    assert_eq!(format_date(24, 11, 1993), "24.11.1993");
    assert_eq!(format_time(9, 5), "09:05");
    assert_eq!(format_time(23, 59), "23:59");
}

#[test]
fn append_message_arrives_unread_at_the_end() {
    let mut msgs = vec![msg("a", true)];
    append_message(
        &mut msgs,
        "23-1".to_string(),
        "Max Muster".to_string(),
        "hallo".to_string(),
        740000000,
        "id-x".to_string(),
    );
    assert_eq!(msgs.len(), 2);
    assert_eq!(msgs[0].body, "a");
    let m = &msgs[1];
    assert_eq!(m.body, "hallo");
    assert_eq!(m.from_id_str, "23-1");
    assert_eq!(m.from_name, "Max Muster");
    assert!(!m.is_read);
    assert!(!m.personal_data);
    assert_eq!(m.timestamp, 740000000);
    assert_eq!(m.uuid, "id-x");
}
