//! Selection logic over a mailbox snapshot.
//!
//! The mailbox itself is a file-backed store outside this core; the
//! surrounding application loads one consistent snapshot, lets these
//! functions decide, and writes the result back under its own
//! serialization discipline.  What is owned here is the pure logic: which
//! messages a listing shows, in which order, and when a mailbox counts as
//! holding news.

use vstd::prelude::*;
use crate::text::{dec_seq, two_digits, push_decimal};

verus! {

/// One message of a mailbox snapshot.  The sender identifier and the
/// message identity are carried as plain strings; the timestamp is a Unix
/// second count.
pub struct Message {
    pub body: String,
    pub from_id_str: String,
    pub from_name: String,
    pub personal_data: bool,
    pub timestamp: i64,
    pub is_read: bool,
    pub uuid: String,
}

/// How many messages at positions `i` and later have the wanted read
/// flag.  A listing shows messages newest first, so a message's rank in
/// the listing is the number of matches after it: `count_matches_from(m,
/// flag, i + 1)` for the message at `i`.
pub open spec fn count_matches_from(msgs: Seq<Message>, flag: bool, i: int) -> nat
    decreases msgs.len() - i,
{
    if i < 0 || i >= msgs.len() {
        0
    } else {
        count_matches_from(msgs, flag, i + 1) + if msgs[i].is_read == flag {
            1nat
        } else {
            0nat
        }
    }
}

/// The rank of position `i` in the newest-first listing of messages whose
/// read flag is `flag`.
pub open spec fn listing_rank(msgs: Seq<Message>, flag: bool, i: int) -> nat {
    count_matches_from(msgs, flag, i + 1)
}

/// Whether the newest-first listing for `flag` shows position `i`, given
/// a window of `count` entries (or all of them) starting at entry
/// `start`.
pub open spec fn listing_shows(
    msgs: Seq<Message>,
    flag: bool,
    start: int,
    count: Option<usize>,
    i: int,
) -> bool {
    &&& 0 <= i < msgs.len()
    &&& msgs[i].is_read == flag
    &&& start <= listing_rank(msgs, flag, i)
    &&& (count matches Some(c) ==> listing_rank(msgs, flag, i) < start + c)
}

/// The positions of the messages a listing shows: those whose read flag
/// is `flag` and whose newest-first rank falls into the requested window,
/// newest (highest position) first.
pub fn select_messages(msgs: &Vec<Message>, is_read: bool, start: usize, count: Option<usize>)
    -> (r: Vec<usize>)
    ensures
        forall|l: int|
            0 <= l < r@.len() ==> listing_shows(
                msgs@,
                is_read,
                start as int,
                count,
                #[trigger] r@[l] as int,
            ),
        forall|i: int|
            listing_shows(msgs@, is_read, start as int, count, i) ==> r@.contains(i as usize),
        forall|l1: int, l2: int| 0 <= l1 < l2 < r@.len() ==> #[trigger] r@[l1] > #[trigger] r@[l2],
{
    let n = msgs.len();
    let mut r: Vec<usize> = Vec::new();
    let mut j: usize = 0;
    let mut i: usize = n;
    while i > 0
        invariant
            i <= msgs@.len(),
            j == count_matches_from(msgs@, is_read, i as int),
            forall|l: int|
                0 <= l < r@.len() ==> listing_shows(
                    msgs@,
                    is_read,
                    start as int,
                    count,
                    #[trigger] r@[l] as int,
                ),
            forall|k: int|
                i <= k < msgs@.len() && listing_shows(msgs@, is_read, start as int, count, k)
                    ==> r@.contains(k as usize),
            forall|l: int| 0 <= l < r@.len() ==> i <= #[trigger] r@[l] < msgs@.len(),
            forall|l1: int, l2: int|
                0 <= l1 < l2 < r@.len() ==> #[trigger] r@[l1] > #[trigger] r@[l2],
            n == msgs@.len(),
            i + j <= n,
        decreases i,
    {
        i = i - 1;
        let ghost r_before = r@;
        let ghost rank_i = j as int;
        let matched = msgs[i].is_read == is_read;
        if matched {
            let in_window = j >= start && (match count {
                Some(c) => j - start < c,
                None => true,
            });
            if in_window {
                r.push(i);
            }
            j = j + 1;
        }
        proof {
            assert(listing_rank(msgs@, is_read, i as int) == rank_i);
            assert(j == count_matches_from(msgs@, is_read, i as int));
            assert forall|k: int|
                i <= k < msgs@.len() && listing_shows(
                    msgs@,
                    is_read,
                    start as int,
                    count,
                    k,
                ) implies r@.contains(k as usize) by {
                if k == i {
                    assert(r@[r@.len() - 1] == i);
                } else {
                    assert(r_before.contains(k as usize));
                    let l = choose|l: int| 0 <= l < r_before.len() && r_before[l] == k as usize;
                    assert(r@[l] == k as usize);
                }
            }
        }
    }
    r
}

/// Mark the message at `index` as read; reports whether anything changed,
/// so that the caller knows whether the snapshot must be written back.
pub fn mark_read(msgs: &mut Vec<Message>, index: usize) -> (changed: bool)
    requires
        index < old(msgs)@.len(),
    ensures
        changed == !old(msgs)@[index as int].is_read,
        final(msgs)@.len() == old(msgs)@.len(),
        final(msgs)@[index as int].is_read,
        final(msgs)@[index as int].body == old(msgs)@[index as int].body,
        final(msgs)@[index as int].from_id_str == old(msgs)@[index as int].from_id_str,
        final(msgs)@[index as int].from_name == old(msgs)@[index as int].from_name,
        final(msgs)@[index as int].personal_data == old(msgs)@[index as int].personal_data,
        final(msgs)@[index as int].timestamp == old(msgs)@[index as int].timestamp,
        final(msgs)@[index as int].uuid == old(msgs)@[index as int].uuid,
        forall|k: int| 0 <= k < old(msgs)@.len() && k != index ==> final(msgs)@[k] == old(msgs)@[k],
{
    if msgs[index].is_read {
        false
    } else {
        let m = msgs.remove(index);
        let updated = Message { is_read: true, ..m };
        msgs.insert(index, updated);
        true
    }
}

/// Whether the mailbox holds any unread message.
pub fn has_new_messages(msgs: &Vec<Message>) -> (r: bool)
    ensures
        r == exists|i: int| 0 <= i < msgs@.len() && !(#[trigger] msgs@[i]).is_read,
{
    let mut i: usize = 0;
    while i < msgs.len()
        invariant
            i <= msgs@.len(),
            forall|k: int| 0 <= k < i ==> (#[trigger] msgs@[k]).is_read,
        decreases msgs@.len() - i,
    {
        if !msgs[i].is_read {
            return true;
        }
        i = i + 1;
    }
    false
}

/// The calendar-date display of a message, `dd.mm.yyyy`, from plain
/// date components; the surrounding application resolves the timestamp
/// to components in its local time zone.
pub fn format_date(day: u8, month: u8, year: u32) -> (r: String)
    ensures
        r@ == two_digits(day as nat) + seq!['.'] + two_digits(month as nat) + seq!['.'] + dec_seq(
            year as nat,
        ),
{
    let mut r = String::new();
    if day < 10 {
        r.append("0");
    }
    push_decimal(&mut r, day as u32);
    r.append(".");
    if month < 10 {
        r.append("0");
    }
    push_decimal(&mut r, month as u32);
    r.append(".");
    push_decimal(&mut r, year);
    proof {
        reveal_strlit("0");
        reveal_strlit(".");
        assert(r@ =~= two_digits(day as nat) + seq!['.'] + two_digits(month as nat) + seq!['.']
            + dec_seq(year as nat));
    }
    r
}

/// The clock display of a message, `hh:mm`, from plain time components.
pub fn format_time(hour: u8, minute: u8) -> (r: String)
    ensures
        r@ == two_digits(hour as nat) + seq![':'] + two_digits(minute as nat),
{
    let mut r = String::new();
    if hour < 10 {
        r.append("0");
    }
    push_decimal(&mut r, hour as u32);
    r.append(":");
    if minute < 10 {
        r.append("0");
    }
    push_decimal(&mut r, minute as u32);
    proof {
        reveal_strlit("0");
        reveal_strlit(":");
        assert(r@ =~= two_digits(hour as nat) + seq![':'] + two_digits(minute as nat));
    }
    r
}

/// Append a freshly received message to a mailbox snapshot: it arrives
/// unread and not personal, with the given sender, body, timestamp and
/// identity, and every earlier message stays untouched.
pub fn append_message(
    msgs: &mut Vec<Message>,
    from_id_str: String,
    from_name: String,
    body: String,
    timestamp: i64,
    uuid: String,
)
    ensures
        final(msgs)@.len() == old(msgs)@.len() + 1,
        forall|k: int| 0 <= k < old(msgs)@.len() ==> final(msgs)@[k] == old(msgs)@[k],
        ({
            let m = final(msgs)@.last();
            &&& m.body == body
            &&& m.from_id_str == from_id_str
            &&& m.from_name == from_name
            &&& !m.personal_data
            &&& m.timestamp == timestamp
            &&& !m.is_read
            &&& m.uuid == uuid
        }),
{
    msgs.push(Message {
        body,
        from_id_str,
        from_name,
        personal_data: false,
        timestamp,
        is_read: false,
        uuid,
    });
}

} // verus!
