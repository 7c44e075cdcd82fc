use matrix_notify::membership::{judge, scan_members, Flow, MemberEvent, Membership, Scanned};
use matrix_notify::user_id::UserId;

fn member(sender: &str, membership: &str) -> String {
    format!(
        "{{\"content\":{{\"membership\":\"{}\"}},\"event_id\":\"$143273582443PhrSn:example.org\",\
         \"origin_server_ts\":1432735824653,\"room_id\":\"!jEsUZKDJdhlrceRyVU:example.org\",\
         \"sender\":\"{}\",\"state_key\":\"{}\",\"type\":\"m.room.member\"}}",
        membership, sender, sender
    )
}

fn ids() -> (UserId, UserId) {
    (
        UserId::parse("@carl:example.org").expect("a user id"),
        UserId::parse("@compute-notify:matrix.org").expect("a user id"),
    )
}

fn event(sender: &str, membership: Membership) -> MemberEvent {
    MemberEvent { sender: sender.to_string(), membership }
}

fn found(scanned: Scanned) -> bool {
    match scanned {
        Scanned::Found(seen) => seen,
        Scanned::Refused(said) => panic!("the scan was refused: {}", said),
    }
}

#[test]
fn own_events_are_passed_over() {
    let (target, me) = ids();
    let own = event("@compute-notify:matrix.org", Membership::Join);
    assert_eq!(judge(&own, &target, &me, false), Flow::Next(false));
    assert_eq!(judge(&own, &target, &me, true), Flow::Next(true));
    let left = event("@compute-notify:matrix.org", Membership::Leave);
    assert_eq!(judge(&left, &target, &me, true), Flow::Next(true));
}

#[test]
fn a_target_that_stays_is_present() {
    let (target, me) = ids();
    for membership in [Membership::Join, Membership::Invite, Membership::Knock, Membership::Other] {
        let stays = event("@carl:example.org", membership);
        assert_eq!(judge(&stays, &target, &me, false), Flow::Next(true));
    }
}

#[test]
fn a_target_that_went_ends_the_scan() {
    let (target, me) = ids();
    let left = event("@carl:example.org", Membership::Leave);
    assert_eq!(judge(&left, &target, &me, true), Flow::Stop(false));
    let banned = event("@carl:example.org", Membership::Ban);
    assert_eq!(judge(&banned, &target, &me, true), Flow::Stop(false));
}

#[test]
fn a_third_user_ends_the_scan_with_what_was_found() {
    let (target, me) = ids();
    let third = event("@dora:example.org", Membership::Join);
    assert_eq!(judge(&third, &target, &me, true), Flow::Stop(true));
    assert_eq!(judge(&third, &target, &me, false), Flow::Stop(false));
}

#[test]
fn a_notifier_that_notifies_itself_is_never_present() {
    let me = UserId::parse("@compute-notify:matrix.org").expect("a user id");
    let own = event("@compute-notify:matrix.org", Membership::Join);
    assert_eq!(judge(&own, &me, &me, false), Flow::Next(false));
    let chunk = vec![member("@compute-notify:matrix.org", "join")];
    assert!(!found(scan_members(&chunk, &me, &me)));
}

#[test]
fn an_empty_room_does_not_have_the_target() {
    let (target, me) = ids();
    assert!(!found(scan_members(&Vec::new(), &target, &me)));
}

#[test]
fn a_room_with_the_target_and_the_notifier_has_the_target() {
    let (target, me) = ids();
    let chunk = vec![
        member("@compute-notify:matrix.org", "join"),
        member("@carl:example.org", "join"),
    ];
    assert!(found(scan_members(&chunk, &target, &me)));
    let turned = vec![
        member("@carl:example.org", "invite"),
        member("@compute-notify:matrix.org", "join"),
    ];
    assert!(found(scan_members(&turned, &target, &me)));
}

#[test]
fn a_room_of_the_notifier_alone_does_not_have_the_target() {
    let (target, me) = ids();
    let chunk = vec![member("@compute-notify:matrix.org", "join")];
    assert!(!found(scan_members(&chunk, &target, &me)));
}

#[test]
fn a_room_that_the_target_left_does_not_have_the_target() {
    let (target, me) = ids();
    let chunk = vec![
        member("@compute-notify:matrix.org", "join"),
        member("@carl:example.org", "leave"),
    ];
    assert!(!found(scan_members(&chunk, &target, &me)));
    let banned = vec![member("@carl:example.org", "join"), member("@carl:example.org", "ban")];
    assert!(!found(scan_members(&banned, &target, &me)));
}

#[test]
fn nothing_behind_a_leave_is_read() {
    let (target, me) = ids();
    let chunk = vec![
        member("@carl:example.org", "leave"),
        member("@carl:example.org", "join"),
        "this is no event".to_string(),
    ];
    assert!(!found(scan_members(&chunk, &target, &me)));
}

#[test]
fn a_third_user_behind_the_target_leaves_the_target_present() {
    let (target, me) = ids();
    let chunk = vec![
        member("@carl:example.org", "join"),
        member("@dora:example.org", "join"),
        member("@carl:example.org", "leave"),
    ];
    assert!(found(scan_members(&chunk, &target, &me)));
}

#[test]
fn a_third_user_before_the_target_hides_the_target() {
    let (target, me) = ids();
    let chunk = vec![
        member("@dora:example.org", "join"),
        member("@carl:example.org", "join"),
    ];
    assert!(!found(scan_members(&chunk, &target, &me)));
}

#[test]
fn an_unnamed_membership_counts_as_staying() {
    let (target, me) = ids();
    let chunk = vec![member("@carl:example.org", "org.example.waiting")];
    assert!(found(scan_members(&chunk, &target, &me)));
}

#[test]
fn a_malformed_event_is_refused_where_the_scan_reaches_it() {
    let (target, me) = ids();
    let chunk = vec![member("@carl:example.org", "join"), "{\"type\":\"m.room.member\"}".to_string()];
    match scan_members(&chunk, &target, &me) {
        Scanned::Refused(said) => assert!(!said.is_empty()),
        Scanned::Found(seen) => panic!("the scan ran to its end: {}", seen),
    }
    let behind = vec![member("@dora:example.org", "join"), "no json".to_string()];
    assert!(!found(scan_members(&behind, &target, &me)));
}

#[test]
fn an_event_with_a_bad_sender_is_malformed() {
    let (target, me) = ids();
    let chunk = vec![member("carl", "join")];
    assert!(matches!(scan_members(&chunk, &target, &me), Scanned::Refused(_)));
}
