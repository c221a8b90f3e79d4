use mxsend::dm::{classify_room, plan_direct_chat, RoomMembers, RoomVerdict};

fn texts(ids: &[&str]) -> Vec<String> {
    ids.iter().map(|s| s.to_string()).collect()
}

fn members(ids: &[&str]) -> RoomMembers {
    RoomMembers { active: texts(ids), departed: Vec::new() }
}

fn left_by(ids: &[&str], departed: &[&str]) -> RoomMembers {
    RoomMembers { active: texts(ids), departed: texts(departed) }
}

const SENDER: &str = "@sender:localhost";
const RECIPIENT: &str = "@receiver:localhost";

#[test]
fn two_member_room_with_recipient_is_the_chat() {
    let r = RECIPIENT.to_string();
    assert_eq!(classify_room(&members(&[SENDER, RECIPIENT]), &r, false), RoomVerdict::Chat);
    assert_eq!(classify_room(&members(&[SENDER, RECIPIENT]), &r, true), RoomVerdict::Duplicate);
}

#[test]
fn room_left_by_recipient_is_stale() {
    let r = RECIPIENT.to_string();
    assert_eq!(classify_room(&left_by(&[SENDER], &[RECIPIENT]), &r, false), RoomVerdict::Stale);
    assert_eq!(classify_room(&left_by(&[SENDER], &[RECIPIENT]), &r, true), RoomVerdict::Stale);
}

#[test]
fn lone_room_never_shared_with_recipient_is_kept() {
    let r = RECIPIENT.to_string();
    assert_eq!(classify_room(&members(&[SENDER]), &r, false), RoomVerdict::Unrelated);
    assert_eq!(
        classify_room(&left_by(&[SENDER], &["@someone:localhost"]), &r, false),
        RoomVerdict::Unrelated
    );
}

#[test]
fn custom_room_is_not_mistaken_for_a_chat() {
    let r = RECIPIENT.to_string();
    let three = members(&[SENDER, RECIPIENT, "@third:localhost"]);
    assert_eq!(classify_room(&three, &r, false), RoomVerdict::Unrelated);
    assert_eq!(classify_room(&members(&[SENDER, "@other:localhost"]), &r, false), RoomVerdict::Unrelated);
    assert_eq!(classify_room(&members(&[RECIPIENT]), &r, false), RoomVerdict::Unrelated);
    assert_eq!(classify_room(&members(&[]), &r, false), RoomVerdict::Unrelated);
}

#[test]
fn plan_keeps_first_chat_and_cleans_up() {
    let r = RECIPIENT.to_string();
    let rooms = vec![
        members(&[SENDER, "@x:localhost", "@y:localhost"]),
        left_by(&[SENDER], &[RECIPIENT]),
        members(&[SENDER, RECIPIENT]),
        members(&[RECIPIENT, SENDER]),
        members(&[SENDER, "@z:localhost"]),
    ];
    let plan = plan_direct_chat(&rooms, &r);
    assert_eq!(plan.chat, Some(2));
    assert_eq!(plan.leave, vec![1, 3]);
}

#[test]
fn plan_without_chat_creates_none() {
    let r = RECIPIENT.to_string();
    let rooms = vec![left_by(&[SENDER], &[RECIPIENT]), members(&[SENDER, "@z:localhost"]), members(&[SENDER])];
    let plan = plan_direct_chat(&rooms, &r);
    assert_eq!(plan.chat, None);
    assert_eq!(plan.leave, vec![0]);
    let plan = plan_direct_chat(&Vec::new(), &r);
    assert_eq!(plan.chat, None);
    assert!(plan.leave.is_empty());
}

#[test]
fn rescanning_after_cleanup_reuses_the_chat() {
    let r = RECIPIENT.to_string();
    let rooms = vec![
        left_by(&[SENDER], &[RECIPIENT]),
        members(&[SENDER, RECIPIENT]),
        members(&[SENDER, RECIPIENT]),
    ];
    let plan = plan_direct_chat(&rooms, &r);
    assert_eq!(plan.chat, Some(1));
    assert_eq!(plan.leave, vec![0, 2]);
    let remaining: Vec<RoomMembers> = rooms
        .iter()
        .enumerate()
        .filter(|(i, _)| !plan.leave.contains(i))
        .map(|(_, m)| RoomMembers { active: m.active.clone(), departed: m.departed.clone() })
        .collect();
    let again = plan_direct_chat(&remaining, &r);
    assert_eq!(again.chat, Some(0));
    assert_eq!(remaining[0], rooms[1]);
    assert!(again.leave.is_empty());
}

#[test]
fn created_chat_is_reused_by_next_run() {
    let r = RECIPIENT.to_string();
    let first = vec![members(&[SENDER, "@z:localhost"])];
    let plan = plan_direct_chat(&first, &r);
    assert_eq!(plan.chat, None);
    let second = vec![members(&[SENDER, "@z:localhost"]), members(&[SENDER, RECIPIENT])];
    let plan = plan_direct_chat(&second, &r);
    assert_eq!(plan.chat, Some(1));
    assert!(plan.leave.is_empty());
}
