//! The quarantine of a chat: which messages of a user are handed to the
//! classifier, and when the user leaves quarantine for good.

use crate::state::UserId;
use std::collections::{HashMap, HashSet};
use vstd::prelude::*;

verus! {

broadcast use vstd::std_specs::hash::group_hash_axioms;

/// The number of messages after which a user leaves quarantine.
pub const QUARANTINED_MESSAGES_AMOUNT_INITIAL: u8 = 3;

/// What a chat keeps about quarantine: the count of every user who is being
/// counted, and the users who have left quarantine.
pub struct QuarantineView {
    pub counters: Map<UserId, u8>,
    pub exited: Set<UserId>,
}

/// The messages counted for `user` so far; none for a user without a counter.
pub open spec fn messages_seen(counters: Map<UserId, u8>, user: UserId) -> int {
    if counters.contains_key(user) {
        counters[user] as int
    } else {
        0
    }
}

/// Whether the next message of `user` is handed to the classifier: never
/// once the user has left quarantine; otherwise while the count, this
/// message included, stays below the threshold.
pub open spec fn is_under_quarantine(q: QuarantineView, user: UserId, threshold: u8) -> bool {
    !q.exited.contains(user) && messages_seen(q.counters, user) + 1 < threshold
}

/// The quarantine after the next message of `user`. For a user who has left
/// nothing changes. Otherwise the count goes up by one; when it reaches the
/// threshold the counter is removed and the user has left.
pub open spec fn after_message(q: QuarantineView, user: UserId, threshold: u8) -> QuarantineView {
    if q.exited.contains(user) {
        q
    } else if messages_seen(q.counters, user) + 1 < threshold {
        QuarantineView {
            counters: q.counters.insert(user, (messages_seen(q.counters, user) + 1) as u8),
            exited: q.exited,
        }
    } else {
        QuarantineView { counters: q.counters.remove(user), exited: q.exited.insert(user) }
    }
}

/// The quarantine after `n` messages of `user` in a row.
pub open spec fn after_messages(q: QuarantineView, user: UserId, threshold: u8, n: nat)
    -> QuarantineView
    decreases n,
{
    if n == 0 {
        q
    } else {
        after_message(after_messages(q, user, threshold, (n - 1) as nat), user, threshold)
    }
}

/// How many of the next `n` messages of `user` are handed to the classifier.
pub open spec fn classified_among(q: QuarantineView, user: UserId, threshold: u8, n: nat) -> nat
    decreases n,
{
    if n == 0 {
        0
    } else {
        classified_among(q, user, threshold, (n - 1) as nat) + if is_under_quarantine(
            after_messages(q, user, threshold, (n - 1) as nat),
            user,
            threshold,
        ) {
            1nat
        } else {
            0nat
        }
    }
}

/// Counts one message of `user` and says whether it is to be classified.
/// The record is read, raised, compared and closed in this one call.
pub fn count_message(
    counters: &mut HashMap<UserId, u8>,
    exited: &mut HashSet<UserId>,
    user: UserId,
    threshold: u8,
) -> (checked: bool)
    ensures
        checked == is_under_quarantine(
            QuarantineView { counters: old(counters)@, exited: old(exited)@ },
            user,
            threshold,
        ),
        (QuarantineView { counters: final(counters)@, exited: final(exited)@ }) == after_message(
            QuarantineView { counters: old(counters)@, exited: old(exited)@ },
            user,
            threshold,
        ),
{
    if exited.contains(&user) {
        return false;
    }
    let seen: u8 = match counters.get(&user) {
        Some(count) => *count,
        None => 0,
    };
    if seen < threshold && seen + 1 < threshold {
        counters.insert(user, seen + 1);
        true
    } else {
        counters.remove(&user);
        exited.insert(user);
        false
    }
}

/// Whether `user` is new to the quarantine: neither counted nor gone.
pub open spec fn is_unseen(q: QuarantineView, user: UserId) -> bool {
    !q.counters.contains_key(user) && !q.exited.contains(user)
}

/// The quarantine in which `user`, new to it, has been counted `n` times.
pub open spec fn counting(q: QuarantineView, user: UserId, n: nat) -> QuarantineView {
    if n == 0 {
        q
    } else {
        QuarantineView { counters: q.counters.insert(user, n as u8), exited: q.exited }
    }
}

/// The quarantine which `user`, new to it, has left.
pub open spec fn left(q: QuarantineView, user: UserId) -> QuarantineView {
    QuarantineView { counters: q.counters, exited: q.exited.insert(user) }
}

/// The whole course of a user who is new to the quarantine. While fewer
/// messages than the threshold have come, the counter holds exactly their
/// number and every one of them was classified: no message is lost and none
/// is counted twice. From the message that reaches the threshold on, the
/// counter is gone, the user has left, and no message is classified any
/// more: of any number of messages, the threshold less one are classified at
/// most.
pub proof fn lemma_quarantine_course(q: QuarantineView, user: UserId, threshold: u8, n: nat)
    requires
        is_unseen(q, user),
        threshold >= 1,
    ensures
        n < threshold ==> after_messages(q, user, threshold, n) == counting(q, user, n),
        n < threshold ==> classified_among(q, user, threshold, n) == n,
        n >= threshold ==> after_messages(q, user, threshold, n) == left(q, user),
        n >= threshold ==> classified_among(q, user, threshold, n) == threshold - 1,
    decreases n,
{
    if n > 0 {
        let m = (n - 1) as nat;
        lemma_quarantine_course(q, user, threshold, m);
        let before = after_messages(q, user, threshold, m);
        if n < threshold {
            assert(before == counting(q, user, m));
            assert(messages_seen(before.counters, user) == m);
            assert(before.counters.insert(user, n as u8) =~= q.counters.insert(user, n as u8));
        } else if n == threshold {
            assert(before == counting(q, user, m));
            assert(messages_seen(before.counters, user) == m);
            assert(before.counters.remove(user) =~= q.counters);
        } else {
            assert(before == left(q, user));
        }
    }
}

/// After exactly `threshold` messages from a user who was new to the
/// quarantine, the counter entry no longer exists and the user has left; the
/// message that reached the threshold was not classified.
pub proof fn lemma_quarantine_exit(q: QuarantineView, user: UserId, threshold: u8)
    requires
        is_unseen(q, user),
        threshold >= 1,
    ensures
        !after_messages(q, user, threshold, threshold as nat).counters.contains_key(user),
        after_messages(q, user, threshold, threshold as nat).exited.contains(user),
        !is_under_quarantine(
            after_messages(q, user, threshold, (threshold - 1) as nat),
            user,
            threshold,
        ),
{
    lemma_quarantine_course(q, user, threshold, threshold as nat);
    lemma_quarantine_course(q, user, threshold, (threshold - 1) as nat);
}

/// The exit is terminal: whatever the threshold, no message of a user who
/// has left is classified, and none changes anything. No counter comes back.
pub proof fn lemma_exit_is_terminal(q: QuarantineView, user: UserId, threshold: u8, n: nat)
    requires
        q.exited.contains(user),
    ensures
        after_messages(q, user, threshold, n) == q,
        classified_among(q, user, threshold, n) == 0,
        !is_under_quarantine(after_messages(q, user, threshold, n), user, threshold),
    decreases n,
{
    if n > 0 {
        lemma_exit_is_terminal(q, user, threshold, (n - 1) as nat);
    }
}

/// A message of one user never changes what is kept about another.
pub proof fn lemma_other_users_untouched(
    q: QuarantineView,
    user: UserId,
    other: UserId,
    threshold: u8,
)
    requires
        other != user,
    ensures
        after_message(q, user, threshold).counters.contains_key(other) == q.counters.contains_key(
            other,
        ),
        messages_seen(after_message(q, user, threshold).counters, other) == messages_seen(
            q.counters,
            other,
        ),
        after_message(q, user, threshold).exited.contains(other) == q.exited.contains(other),
{
}

} // verus!
