use spotatui::queue::{DecodedQueue, ShuffleBackup};

fn strings(list: &[&str]) -> Vec<String> {
    list.iter().map(|s| s.to_string()).collect()
}

fn queue(index: usize) -> DecodedQueue {
    DecodedQueue::new(strings(&["a", "b", "c", "d", "e"]), index).unwrap()
}

#[test]
fn queue_needs_a_current_track() {
    assert!(DecodedQueue::new(strings(&["a"]), 0).is_some());
    assert!(DecodedQueue::new(strings(&["a"]), 1).is_none());
    assert!(DecodedQueue::new(Vec::new(), 0).is_none());
}

#[test]
fn shuffle_puts_the_current_track_in_front() {
    let mut q = queue(2);
    q.set_shuffle(true);
    assert_eq!(q.uris, strings(&["c", "b", "d", "e", "a"]));
    assert_eq!(q.index, 0);
    let backup = q.shuffle_backup.clone().unwrap();
    assert_eq!(backup.uris, strings(&["a", "b", "c", "d", "e"]));
    assert_eq!(backup.places, vec![2, 1, 3, 4, 0]);
}

#[test]
fn shuffle_follows_the_draws() {
    let mut q = queue(2);
    q.draws = vec![0, 0, 1, 2, 3];
    q.set_shuffle(true);
    assert_eq!(q.uris, strings(&["c", "a", "b", "d", "e"]));
    let mut q = queue(2);
    q.draws = vec![0, 0, 0, 1, 6];
    q.set_shuffle(true);
    assert_eq!(q.uris, strings(&["c", "e", "a", "b", "d"]));
}

#[test]
fn shuffle_off_undoes_shuffle_on() {
    let mut q = queue(3);
    let before = q.clone();
    q.set_shuffle(true);
    assert_ne!(q, before);
    q.set_shuffle(false);
    assert_eq!(q, before);
}

#[test]
fn shuffle_off_keeps_the_track_that_plays() {
    let mut q = queue(2);
    q.set_shuffle(true);
    q.index = 3;
    assert_eq!(q.uris[q.index], "e");
    q.set_shuffle(false);
    assert_eq!(q.uris, strings(&["a", "b", "c", "d", "e"]));
    assert_eq!(q.index, 4);
    assert!(q.shuffle_backup.is_none());
}

#[test]
fn shuffle_in_line_changes_nothing() {
    let mut q = queue(2);
    let before = q.clone();
    q.set_shuffle(false);
    assert_eq!(q, before);
    q.set_shuffle(true);
    let on = q.clone();
    q.draws = vec![9, 9, 9, 9, 9];
    q.set_shuffle(true);
    assert_eq!(q.uris, on.uris);
}

#[test]
fn stale_backup_is_dropped() {
    let mut q = queue(1);
    q.shuffle_backup = Some(ShuffleBackup {
        uris: strings(&["x", "y"]),
        places: vec![0, 1],
    });
    q.set_shuffle(false);
    assert_eq!(q, queue(1));
    q.shuffle_backup = Some(ShuffleBackup {
        uris: strings(&["b"]),
        places: vec![0, 7],
    });
    q.set_shuffle(false);
    assert_eq!(q, queue(1));
}

#[test]
fn shuffle_of_one_or_two_tracks() {
    let mut q = DecodedQueue::new(strings(&["a"]), 0).unwrap();
    q.set_shuffle(true);
    assert_eq!(q.uris, strings(&["a"]));
    let mut q = DecodedQueue::new(strings(&["a", "b"]), 1).unwrap();
    q.set_shuffle(true);
    assert_eq!(q.uris, strings(&["b", "a"]));
}

#[test]
fn queue_without_a_current_track_keeps_its_order() {
    let mut q = queue(2);
    q.set_shuffle(true);
    let order = q.uris.clone();
    q.index = 5;
    q.set_shuffle(false);
    assert_eq!(q.uris, order);
    assert!(q.shuffle_backup.is_none());
    q.set_shuffle(true);
    assert_eq!(q.uris, order);
    assert!(q.shuffle_backup.is_none());
    let mut q = queue(0);
    q.uris.clear();
    q.set_shuffle(true);
    assert!(q.uris.is_empty());
}

#[test]
fn order_waits_for_a_track_change() {
    let mut q = queue(2);
    q.advancing = true;
    let before = q.clone();
    q.settle_shuffle(true);
    assert_eq!(q, before);
    q.advancing = false;
    q.settle_shuffle(true);
    assert!(q.shuffle_backup.is_some());
    assert_eq!(q.uris[q.index], "c");
}
