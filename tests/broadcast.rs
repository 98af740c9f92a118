use kaenguru::Broadcast;

/// Sends to every recipient; `fails` names the recipients whose send fails.
/// Returns the broadcast and the recipients that received the content.
fn send_all(recipients: Vec<i64>, fails: &[i64]) -> (Broadcast, Vec<i64>) {
    let mut b = Broadcast::new(recipients);
    let mut received = Vec::new();
    while let Some(chat) = b.next_recipient() {
        let ok = !fails.contains(&chat);
        if ok {
            received.push(chat);
        }
        b.record(ok);
    }
    (b, received)
}

#[test]
fn failures_are_counted_and_do_not_stop_the_rest() {
    let (b, received) = send_all(vec![1, 2, 3, 4, 5], &[2, 4]);
    let report = b.report();
    assert_eq!(report.delivered, 3);
    assert_eq!(report.failed, vec![2, 4]);
    assert_eq!(received, vec![1, 3, 5]);
}

#[test]
fn one_of_two_sends_failing() {
    let a = 111;
    let b_chat = 222;
    let (b, received) = send_all(vec![a, b_chat], &[b_chat]);
    let report = b.report();
    assert_eq!(report.delivered, 1);
    assert_eq!(report.failed, vec![b_chat]);
    assert_eq!(received, vec![a]);
}

#[test]
fn every_send_failing() {
    let (b, received) = send_all(vec![1, 2, 3], &[1, 2, 3]);
    let report = b.report();
    assert_eq!(report.delivered, 0);
    assert_eq!(report.failed, vec![1, 2, 3]);
    assert!(received.is_empty());
}

#[test]
fn empty_broadcast_sends_nothing() {
    let mut b = Broadcast::new(Vec::new());
    assert_eq!(b.next_recipient(), None);
    b.record(true);
    let report = b.report();
    assert_eq!(report.delivered, 0);
    assert!(report.failed.is_empty());
}
