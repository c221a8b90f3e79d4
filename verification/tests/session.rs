use mxsend::dm::RoomMembers;
use mxsend::{
    Homeserver, MessageSender, Recipient, RoomRef, SendAction, SendEvent, SendOptions, SendRun,
    Stage, UserId,
};

fn sender(to: &str, key: Option<&str>, message: &str) -> MessageSender {
    MessageSender::new(SendOptions {
        from: UserId::parse("@bot:example.com").unwrap(),
        password: "s3cr3t".to_string(),
        to: Recipient::parse(to).unwrap(),
        recovery_key: key.map(|k| k.to_string()),
        message: message.to_string(),
    })
}

fn ok() -> Result<(), String> {
    Ok(())
}

fn err(m: &str) -> Result<(), String> {
    Err(m.to_string())
}

fn feed(run: &mut SendRun, s: &MessageSender, event: SendEvent) -> SendAction {
    assert!(run.expects(&event), "unexpected {:?} at {:?}", event, run.stage());
    run.step(s, event)
}

/// Drives a run to the point where the session is ready, for a sender without a recovery key.
fn ready(s: &MessageSender) -> (SendRun, SendAction) {
    let (mut run, first) = SendRun::begin(s);
    assert!(matches!(first, SendAction::BuildClient(_)));
    assert_eq!(feed(&mut run, s, SendEvent::ClientBuilt(ok())), SendAction::CheckSession);
    let login = feed(&mut run, s, SendEvent::SessionChecked { logged_in: false });
    assert_eq!(
        login,
        SendAction::Login { user_id: "@bot:example.com".to_string(), password: "s3cr3t".to_string() }
    );
    assert_eq!(feed(&mut run, s, SendEvent::LoggedIn(ok())), SendAction::SyncOnce);
    let next = feed(&mut run, s, SendEvent::Synced(ok()));
    (run, next)
}

fn texts(ids: &[&str]) -> Vec<String> {
    ids.iter().map(|s| s.to_string()).collect()
}

fn members(ids: &[&str]) -> Result<RoomMembers, String> {
    Ok(RoomMembers { active: texts(ids), departed: Vec::new() })
}

fn left_by(ids: &[&str], departed: &[&str]) -> Result<RoomMembers, String> {
    Ok(RoomMembers { active: texts(ids), departed: texts(departed) })
}

#[test]
fn homeserver_is_discovered_from_the_user_id() {
    let s = sender("!alerts:example.com", None, "hi");
    assert_eq!(s.homeserver(), Homeserver::ServerName("example.com".to_string()));
    let (_, first) = SendRun::begin(&s);
    assert_eq!(first, SendAction::BuildClient(Homeserver::ServerName("example.com".to_string())));
}

#[test]
fn homeserver_override_is_used() {
    let s = sender("!alerts:example.com", None, "hi").with_homeserver("http://localhost:8008");
    let (_, first) = SendRun::begin(&s);
    assert_eq!(first, SendAction::BuildClient(Homeserver::Url("http://localhost:8008".to_string())));
}

#[test]
fn send_to_joined_room() {
    let s = sender("!alerts:example.com", None, "Disk usage above 90%.");
    let (mut run, next) = ready(&s);
    assert_eq!(next, SendAction::LookUpRoom { room_id: "!alerts:example.com".to_string() });
    let send = feed(&mut run, &s, SendEvent::RoomLookedUp { joined: Some(true) });
    assert_eq!(
        send,
        SendAction::SendText { target: RoomRef::Current, body: "Disk usage above 90%.".to_string() }
    );
    assert_eq!(feed(&mut run, &s, SendEvent::TextSent(ok())), SendAction::Logout);
    assert_eq!(feed(&mut run, &s, SendEvent::LoggedOut(ok())), SendAction::Finish(ok()));
    assert_eq!(run.stage(), Stage::Done);
    assert!(!run.expects(&SendEvent::LoggedOut(ok())));
}

#[test]
fn existing_session_skips_login() {
    let s = sender("!alerts:example.com", None, "hi");
    let (mut run, _) = SendRun::begin(&s);
    feed(&mut run, &s, SendEvent::ClientBuilt(ok()));
    assert_eq!(feed(&mut run, &s, SendEvent::SessionChecked { logged_in: true }), SendAction::SyncOnce);
}

#[test]
fn unknown_room_is_joined_by_id() {
    let s = sender("!public:example.com", None, "Message to public room by ID");
    let (mut run, _) = ready(&s);
    let join = feed(&mut run, &s, SendEvent::RoomLookedUp { joined: None });
    assert_eq!(join, SendAction::JoinRoomById { room_id: "!public:example.com".to_string() });
    let send = feed(&mut run, &s, SendEvent::RoomJoined(ok()));
    assert!(matches!(send, SendAction::SendText { target: RoomRef::Current, .. }));
}

#[test]
fn known_room_not_joined_is_joined_then_looked_up() {
    let s = sender("!x:example.com", None, "hi");
    let (mut run, _) = ready(&s);
    assert_eq!(feed(&mut run, &s, SendEvent::RoomLookedUp { joined: Some(false) }), SendAction::JoinRoom);
    assert_eq!(
        feed(&mut run, &s, SendEvent::RoomJoined(ok())),
        SendAction::LookUpRoom { room_id: "!x:example.com".to_string() }
    );
    assert_eq!(feed(&mut run, &s, SendEvent::RoomLookedUp { joined: None }), SendAction::Logout);
    assert_eq!(
        feed(&mut run, &s, SendEvent::LoggedOut(ok())),
        SendAction::Finish(err("room !x:example.com not found after join"))
    );
}

#[test]
fn failed_join_is_reported_after_logout() {
    let s = sender("!public:example.com", None, "hi");
    let (mut run, _) = ready(&s);
    feed(&mut run, &s, SendEvent::RoomLookedUp { joined: None });
    assert_eq!(feed(&mut run, &s, SendEvent::RoomJoined(err("forbidden"))), SendAction::Logout);
    assert_eq!(feed(&mut run, &s, SendEvent::LoggedOut(ok())), SendAction::Finish(err("forbidden")));
}

#[test]
fn failed_logout_is_reported_over_delivery() {
    let s = sender("!alerts:example.com", None, "hi");
    let (mut run, _) = ready(&s);
    feed(&mut run, &s, SendEvent::RoomLookedUp { joined: Some(true) });
    assert_eq!(feed(&mut run, &s, SendEvent::TextSent(err("send failed"))), SendAction::Logout);
    assert_eq!(feed(&mut run, &s, SendEvent::LoggedOut(err("logout failed"))), SendAction::Finish(err("logout failed")));
}

#[test]
fn failed_send_is_reported_after_logout() {
    let s = sender("!alerts:example.com", None, "hi");
    let (mut run, _) = ready(&s);
    feed(&mut run, &s, SendEvent::RoomLookedUp { joined: Some(true) });
    assert_eq!(feed(&mut run, &s, SendEvent::TextSent(err("send failed"))), SendAction::Logout);
    assert_eq!(feed(&mut run, &s, SendEvent::LoggedOut(ok())), SendAction::Finish(err("send failed")));
}

#[test]
fn failed_login_ends_without_logout() {
    let s = sender("!alerts:example.com", None, "hi");
    let (mut run, _) = SendRun::begin(&s);
    feed(&mut run, &s, SendEvent::ClientBuilt(ok()));
    feed(&mut run, &s, SendEvent::SessionChecked { logged_in: false });
    assert_eq!(feed(&mut run, &s, SendEvent::LoggedIn(err("bad password"))), SendAction::Finish(err("bad password")));
    assert_eq!(run.stage(), Stage::Done);
}

#[test]
fn failed_client_build_ends_run() {
    let s = sender("!alerts:example.com", None, "hi");
    let (mut run, _) = SendRun::begin(&s);
    assert_eq!(feed(&mut run, &s, SendEvent::ClientBuilt(err("no homeserver"))), SendAction::Finish(err("no homeserver")));
}

#[test]
fn failed_sync_logs_out_then_fails() {
    let s = sender("!alerts:example.com", None, "hi");
    let (mut run, _) = SendRun::begin(&s);
    feed(&mut run, &s, SendEvent::ClientBuilt(ok()));
    feed(&mut run, &s, SendEvent::SessionChecked { logged_in: true });
    assert_eq!(feed(&mut run, &s, SendEvent::Synced(err("timeout"))), SendAction::Logout);
    assert_eq!(feed(&mut run, &s, SendEvent::LoggedOut(ok())), SendAction::Finish(err("timeout")));
}

#[test]
fn recovery_key_verifies_before_delivery() {
    let s = sender("@admin:example.com", Some("KEY"), "Sensitive alert");
    let (mut run, next) = ready(&s);
    assert_eq!(next, SendAction::Recover { recovery_key: "KEY".to_string() });
    assert_eq!(feed(&mut run, &s, SendEvent::Recovered(ok())), SendAction::ListJoinedRooms);
}

#[test]
fn failed_recovery_logs_out_then_fails() {
    let s = sender("@admin:example.com", Some("KEY"), "hi");
    let (mut run, _) = ready(&s);
    assert_eq!(feed(&mut run, &s, SendEvent::Recovered(err("wrong key"))), SendAction::Logout);
    assert_eq!(feed(&mut run, &s, SendEvent::LoggedOut(ok())), SendAction::Finish(err("wrong key")));
}

#[test]
fn no_joined_rooms_creates_chat() {
    let s = sender("@receiver:localhost", None, "Integration test message");
    let (mut run, next) = ready(&s);
    assert_eq!(next, SendAction::ListJoinedRooms);
    assert_eq!(
        feed(&mut run, &s, SendEvent::JoinedRoomsListed { count: 0 }),
        SendAction::CheckRecipient { user_id: "@receiver:localhost".to_string() }
    );
    assert_eq!(
        feed(&mut run, &s, SendEvent::RecipientChecked(Ok(true))),
        SendAction::CreateDirectChat { user_id: "@receiver:localhost".to_string() }
    );
    let send = feed(&mut run, &s, SendEvent::DirectChatCreated(ok()));
    assert_eq!(
        send,
        SendAction::SendText { target: RoomRef::Current, body: "Integration test message".to_string() }
    );
}

#[test]
fn chat_is_reused_and_duplicate_cleaned() {
    let s = sender("@receiver:localhost", None, "Second message");
    let (mut run, _) = ready(&s);
    assert_eq!(feed(&mut run, &s, SendEvent::JoinedRoomsListed { count: 2 }), SendAction::FetchMembers { room: 0 });
    let next = feed(&mut run, &s, SendEvent::MembersFetched(members(&["@bot:example.com", "@receiver:localhost"])));
    assert_eq!(next, SendAction::FetchMembers { room: 1 });
    let next = feed(&mut run, &s, SendEvent::MembersFetched(members(&["@receiver:localhost", "@bot:example.com"])));
    assert_eq!(next, SendAction::LeaveRoom { room: 1 });
    assert_eq!(feed(&mut run, &s, SendEvent::RoomLeft(ok())), SendAction::ForgetRoom { room: 1 });
    let send = feed(&mut run, &s, SendEvent::RoomForgotten(ok()));
    assert_eq!(
        send,
        SendAction::SendText { target: RoomRef::Joined(0), body: "Second message".to_string() }
    );
}

#[test]
fn chat_is_recreated_after_recipient_left() {
    let s = sender("@receiver:localhost", None, "Message in second room");
    let (mut run, _) = ready(&s);
    feed(&mut run, &s, SendEvent::JoinedRoomsListed { count: 1 });
    let next = feed(
        &mut run,
        &s,
        SendEvent::MembersFetched(left_by(&["@bot:example.com"], &["@receiver:localhost"])),
    );
    assert_eq!(next, SendAction::LeaveRoom { room: 0 });
    assert_eq!(feed(&mut run, &s, SendEvent::RoomLeft(ok())), SendAction::ForgetRoom { room: 0 });
    assert_eq!(
        feed(&mut run, &s, SendEvent::RoomForgotten(ok())),
        SendAction::CheckRecipient { user_id: "@receiver:localhost".to_string() }
    );
    assert_eq!(
        feed(&mut run, &s, SendEvent::RecipientChecked(Ok(true))),
        SendAction::CreateDirectChat { user_id: "@receiver:localhost".to_string() }
    );
}

#[test]
fn custom_room_with_recipient_is_not_used() {
    let s = sender("@receiver:localhost", None, "hi");
    let (mut run, _) = ready(&s);
    feed(&mut run, &s, SendEvent::JoinedRoomsListed { count: 1 });
    let next = feed(
        &mut run,
        &s,
        SendEvent::MembersFetched(members(&["@bot:example.com", "@receiver:localhost", "@third:localhost"])),
    );
    assert_eq!(next, SendAction::CheckRecipient { user_id: "@receiver:localhost".to_string() });
}

#[test]
fn lone_room_never_shared_is_kept() {
    let s = sender("@receiver:localhost", None, "hi");
    let (mut run, _) = ready(&s);
    feed(&mut run, &s, SendEvent::JoinedRoomsListed { count: 1 });
    let next = feed(&mut run, &s, SendEvent::MembersFetched(members(&["@bot:example.com"])));
    assert_eq!(next, SendAction::CheckRecipient { user_id: "@receiver:localhost".to_string() });
}

#[test]
fn missing_recipient_is_reported_after_logout() {
    let s = sender("@ghost:localhost", None, "hi");
    let (mut run, _) = ready(&s);
    feed(&mut run, &s, SendEvent::JoinedRoomsListed { count: 0 });
    assert_eq!(feed(&mut run, &s, SendEvent::RecipientChecked(Ok(false))), SendAction::Logout);
    assert_eq!(
        feed(&mut run, &s, SendEvent::LoggedOut(ok())),
        SendAction::Finish(err("recipient @ghost:localhost does not exist"))
    );
}

#[test]
fn interruption_in_session_logs_out() {
    let s = sender("!alerts:example.com", None, "hi");
    let (mut run, _) = ready(&s);
    assert_eq!(feed(&mut run, &s, SendEvent::Interrupted), SendAction::Logout);
    assert!(run.interrupted());
    assert!(!run.expects(&SendEvent::Interrupted));
    assert_eq!(feed(&mut run, &s, SendEvent::LoggedOut(err("gone"))), SendAction::Finish(err("interrupted")));
}

#[test]
fn interruption_before_session_ends_run() {
    let s = sender("!alerts:example.com", None, "hi");
    let (mut run, _) = SendRun::begin(&s);
    assert_eq!(feed(&mut run, &s, SendEvent::Interrupted), SendAction::Finish(err("interrupted")));
    assert!(run.interrupted());
    assert_eq!(run.stage(), Stage::Done);
}

#[test]
fn member_fetch_failure_logs_out() {
    let s = sender("@receiver:localhost", None, "hi");
    let (mut run, _) = ready(&s);
    feed(&mut run, &s, SendEvent::JoinedRoomsListed { count: 3 });
    assert_eq!(feed(&mut run, &s, SendEvent::MembersFetched(Err("gone".to_string()))), SendAction::Logout);
    assert_eq!(feed(&mut run, &s, SendEvent::LoggedOut(ok())), SendAction::Finish(err("gone")));
}

#[test]
fn run_waits_only_for_its_event() {
    let s = sender("@receiver:localhost", None, "hi");
    let (run, _) = SendRun::begin(&s);
    assert!(run.expects(&SendEvent::ClientBuilt(ok())));
    assert!(!run.expects(&SendEvent::Synced(ok())));
    assert!(!run.expects(&SendEvent::LoggedOut(ok())));
}
