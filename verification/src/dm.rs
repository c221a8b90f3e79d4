//! Finding the direct chat with a user among the joined rooms, and what to clean up.

use vstd::prelude::*;

verus! {

/// What a joined room is to the direct chat with the recipient.
#[derive(Clone, Copy, Debug, PartialEq, Eq, Structural)]
pub enum RoomVerdict {
    /// The first room shared by exactly the sender and the recipient: the chat to use.
    Chat,
    /// A later room of the same kind: a duplicate, to leave and forget.
    Duplicate,
    /// A chat with the recipient that the recipient left, where only the sender is active: it is
    /// left and forgotten.
    Stale,
    /// Any other room: left alone.
    Unrelated,
}

/// The user IDs of a member list, as text.
pub open spec fn member_texts(members: Seq<String>) -> Seq<Seq<char>> {
    members.map_values(|m: String| m@)
}

/// The members of a joined room: the active ones (joined or invited) and those who left.
#[derive(Debug, PartialEq, Eq)]
pub struct RoomMembers {
    pub active: Vec<String>,
    pub departed: Vec<String>,
}

/// The members of a room, as text.
pub struct MembersView {
    pub active: Seq<Seq<char>>,
    pub departed: Seq<Seq<char>>,
}

impl View for RoomMembers {
    type V = MembersView;

    open spec fn view(&self) -> MembersView {
        MembersView { active: member_texts(self.active@), departed: member_texts(self.departed@) }
    }
}

/// The members of the joined rooms, as text.
pub open spec fn rooms_texts(rooms: Seq<RoomMembers>) -> Seq<MembersView> {
    rooms.map_values(|m: RoomMembers| m@)
}

/// A room with two active members, one of them the recipient.
pub open spec fn is_direct_chat(members: MembersView, user: Seq<char>) -> bool {
    members.active.contains(user) && members.active.len() == 2
}

/// A room that the recipient left, with a single active member who is not the recipient.
pub open spec fn is_stale_chat(members: MembersView, user: Seq<char>) -> bool {
    &&& !members.active.contains(user)
    &&& members.active.len() == 1
    &&& members.departed.contains(user)
}

/// What a room is, given its members and whether a chat was already found.
pub open spec fn verdict_of(members: MembersView, user: Seq<char>, found: bool) -> RoomVerdict {
    if is_direct_chat(members, user) {
        if found {
            RoomVerdict::Duplicate
        } else {
            RoomVerdict::Chat
        }
    } else if is_stale_chat(members, user) {
        RoomVerdict::Stale
    } else {
        RoomVerdict::Unrelated
    }
}

/// Whether a verdict asks to leave and forget the room.
pub open spec fn to_leave(v: RoomVerdict) -> bool {
    v is Duplicate || v is Stale
}

/// Scanning the rooms in order: the index of the chat to use, and the rooms to leave, in order.
pub open spec fn scan(rooms: Seq<MembersView>, user: Seq<char>) -> (Option<int>, Seq<int>)
    decreases rooms.len(),
{
    if rooms.len() == 0 {
        (None, Seq::empty())
    } else {
        let (chat, leave) = scan(rooms.drop_last(), user);
        let i: int = rooms.len() - 1;
        match verdict_of(rooms.last(), user, chat is Some) {
            RoomVerdict::Chat => (Some(i), leave),
            RoomVerdict::Unrelated => (chat, leave),
            _ => (chat, leave.push(i)),
        }
    }
}

/// The rooms that remain once the rooms to leave are gone, in order.
pub open spec fn remaining(rooms: Seq<MembersView>, user: Seq<char>) -> Seq<MembersView>
    decreases rooms.len(),
{
    if rooms.len() == 0 {
        Seq::empty()
    } else {
        let rest = remaining(rooms.drop_last(), user);
        if to_leave(verdict_of(rooms.last(), user, scan(rooms.drop_last(), user).0 is Some)) {
            rest
        } else {
            rest.push(rooms.last())
        }
    }
}

/// Whether the members include the user.
fn has_member(members: &Vec<String>, user: &String) -> (r: bool)
    ensures
        r == member_texts(members@).contains(user@),
{
    let n: usize = members.len();
    let mut i: usize = 0;
    while i < n
        invariant
            i <= n,
            n == members@.len(),
            forall|j: int| 0 <= j < i ==> members@[j]@ != user@,
        decreases n - i,
    {
        if members[i] == *user {
            assert(member_texts(members@)[i as int] == user@);
            return true;
        }
        i = i + 1;
    }
    assert forall|j: int| 0 <= j < member_texts(members@).len() implies member_texts(
        members@,
    )[j] != user@ by {
        assert(member_texts(members@)[j] == members@[j]@);
    }
    false
}

/// Classifies a joined room by its members, given whether a chat was already found.
pub fn classify_room(members: &RoomMembers, user: &String, found: bool) -> (v: RoomVerdict)
    ensures
        v == verdict_of(members@, user@, found),
{
    let member = has_member(&members.active, user);
    let n: usize = members.active.len();
    if member && n == 2 {
        if found {
            RoomVerdict::Duplicate
        } else {
            RoomVerdict::Chat
        }
    } else if !member && n == 1 && has_member(&members.departed, user) {
        RoomVerdict::Stale
    } else {
        RoomVerdict::Unrelated
    }
}

/// The outcome of scanning the joined rooms.
pub struct ChatPlan {
    /// The room to send to, if one is a direct chat with the recipient.
    pub chat: Option<usize>,
    /// The rooms to leave and forget, in order.
    pub leave: Vec<usize>,
}

/// The indices as integers.
pub open spec fn indices(v: Seq<usize>) -> Seq<int> {
    v.map_values(|i: usize| i as int)
}

/// Scans the member lists of the joined rooms, in order, for the direct chat with `user`.
pub fn plan_direct_chat(rooms: &Vec<RoomMembers>, user: &String) -> (p: ChatPlan)
    ensures
        p.chat matches Some(c) ==> scan(rooms_texts(rooms@), user@).0 == Some(c as int),
        p.chat is None ==> scan(rooms_texts(rooms@), user@).0 is None,
        indices(p.leave@) == scan(rooms_texts(rooms@), user@).1,
{
    let n: usize = rooms.len();
    let mut chat: Option<usize> = None;
    let mut leave: Vec<usize> = Vec::new();
    let mut i: usize = 0;
    while i < n
        invariant
            i <= n,
            n == rooms@.len(),
            ({
                let s = scan(rooms_texts(rooms@).take(i as int), user@);
                &&& chat matches Some(c) ==> s.0 == Some(c as int)
                &&& chat is None ==> s.0 is None
                &&& indices(leave@) == s.1
            }),
        decreases n - i,
    {
        let ghost before = rooms_texts(rooms@).take(i as int);
        let ghost after = rooms_texts(rooms@).take(i + 1);
        assert(after.drop_last() =~= before);
        assert(after.last() == rooms@[i as int]@);
        let v = classify_room(&rooms[i], user, chat.is_some());
        match v {
            RoomVerdict::Chat => {
                chat = Some(i);
            },
            RoomVerdict::Unrelated => {},
            _ => {
                leave.push(i);
                assert(indices(leave@) =~= indices(leave@.drop_last()).push(i as int));
            },
        }
        i = i + 1;
    }
    assert(rooms_texts(rooms@).take(n as int) =~= rooms_texts(rooms@));
    ChatPlan { chat, leave }
}

/// The chat found by a scan is the first direct chat with the user; with none, there is none.
pub proof fn lemma_chat_is_first_direct_chat(rooms: Seq<MembersView>, user: Seq<char>)
    ensures
        match scan(rooms, user).0 {
            Some(k) => {
                &&& 0 <= k < rooms.len()
                &&& is_direct_chat(rooms[k], user)
                &&& forall|j: int| 0 <= j < k ==> !is_direct_chat(#[trigger] rooms[j], user)
            },
            None => forall|j: int| 0 <= j < rooms.len() ==> !is_direct_chat(#[trigger] rooms[j], user),
        },
    decreases rooms.len(),
{
    if rooms.len() > 0 {
        let prefix = rooms.drop_last();
        lemma_chat_is_first_direct_chat(prefix, user);
        assert forall|j: int| 0 <= j < prefix.len() implies #[trigger] rooms[j] == prefix[j] by {}
    }
}

/// A scan leaves exactly the duplicate and the stale chats, each once and in order.
pub proof fn lemma_leaves_duplicates_and_stale(rooms: Seq<MembersView>, user: Seq<char>)
    ensures
        forall|i: int|
            0 <= i < rooms.len() ==> (scan(rooms, user).1.contains(i) <==> (is_stale_chat(
                #[trigger] rooms[i],
                user,
            ) || (is_direct_chat(rooms[i], user) && scan(rooms, user).0 != Some(i)))),
        forall|k: int|
            0 <= k < scan(rooms, user).1.len() ==> 0 <= #[trigger] scan(rooms, user).1[k]
                < rooms.len(),
        forall|a: int, b: int|
            0 <= a < b < scan(rooms, user).1.len() ==> scan(rooms, user).1[a] < scan(
                rooms,
                user,
            ).1[b],
    decreases rooms.len(),
{
    if rooms.len() > 0 {
        let prefix = rooms.drop_last();
        let last: int = rooms.len() - 1;
        lemma_leaves_duplicates_and_stale(prefix, user);
        lemma_chat_is_first_direct_chat(prefix, user);
        lemma_chat_is_first_direct_chat(rooms, user);
        let (chat, leave) = scan(prefix, user);
        let full = scan(rooms, user).1;
        assert forall|i: int| 0 <= i < prefix.len() implies #[trigger] rooms[i] == prefix[i] by {}
        assert forall|i: int|
            0 <= i < rooms.len() implies (full.contains(i) <==> (is_stale_chat(
            #[trigger] rooms[i],
            user,
        ) || (is_direct_chat(rooms[i], user) && scan(rooms, user).0 != Some(i)))) by {
            if full == leave.push(last) {
                if i == last {
                    assert(full[leave.len() as int] == last);
                } else {
                    if leave.contains(i) {
                        let k: int = choose|k: int| 0 <= k < leave.len() && leave[k] == i;
                        assert(full[k] == i);
                    }
                    if full.contains(i) {
                        let k: int = choose|k: int| 0 <= k < full.len() && full[k] == i;
                        assert(k < leave.len());
                        assert(leave[k] == i);
                    }
                }
            } else {
                if i == last {
                    if full.contains(i) {
                        let k: int = choose|k: int| 0 <= k < full.len() && full[k] == i;
                    }
                }
            }
        }
    }
}

/// Once the rooms to leave are gone, scanning again finds the same chat and leaves nothing.
pub proof fn lemma_rescan_after_cleanup(rooms: Seq<MembersView>, user: Seq<char>)
    ensures
        scan(remaining(rooms, user), user).1.len() == 0,
        scan(remaining(rooms, user), user).0 is Some <==> scan(rooms, user).0 is Some,
        scan(remaining(rooms, user), user).0 matches Some(j) ==> {
            &&& 0 <= j < remaining(rooms, user).len()
            &&& remaining(rooms, user)[j] == rooms[scan(rooms, user).0->0]
        },
    decreases rooms.len(),
{
    if rooms.len() > 0 {
        let prefix = rooms.drop_last();
        lemma_rescan_after_cleanup(prefix, user);
        lemma_chat_is_first_direct_chat(prefix, user);
        lemma_chat_is_first_direct_chat(remaining(prefix, user), user);
        let rest = remaining(prefix, user);
        let x = rooms.last();
        if !to_leave(verdict_of(x, user, scan(prefix, user).0 is Some)) {
            let r = rest.push(x);
            assert(r.drop_last() =~= rest);
            assert(r.last() == x);
            if let Some(j) = scan(rest, user).0 {
                assert(r[j] == rest[j]);
            }
        }
    }
}

/// A chat created by one run is the chat the next run uses: when a scan found no chat, the rooms
/// that remain after its cleanup, with the new chat joined at the end, scan to that chat and
/// nothing to leave.
pub proof fn lemma_created_chat_is_reused(
    rooms: Seq<MembersView>,
    user: Seq<char>,
    created: MembersView,
)
    requires
        scan(rooms, user).0 is None,
        is_direct_chat(created, user),
    ensures
        scan(remaining(rooms, user).push(created), user).0 == Some(
            remaining(rooms, user).len() as int,
        ),
        scan(remaining(rooms, user).push(created), user).1.len() == 0,
{
    lemma_rescan_after_cleanup(rooms, user);
    let later = remaining(rooms, user).push(created);
    assert(later.drop_last() =~= remaining(rooms, user));
}

/// A chat the recipient left is cleaned up and, with no other chat, replaced: the scan finds no
/// chat and leaves that room.
pub proof fn lemma_left_chat_is_replaced(rooms: Seq<MembersView>, user: Seq<char>, k: int)
    requires
        0 <= k < rooms.len(),
        is_stale_chat(rooms[k], user),
        forall|j: int| 0 <= j < rooms.len() ==> !is_direct_chat(#[trigger] rooms[j], user),
    ensures
        scan(rooms, user).0 is None,
        scan(rooms, user).1.contains(k),
{
    lemma_chat_is_first_direct_chat(rooms, user);
    lemma_leaves_duplicates_and_stale(rooms, user);
}

} // verus!
