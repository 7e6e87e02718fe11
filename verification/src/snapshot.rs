//! The snapshot of the whole state as a JSON document: how it is written
//! and how it is read back.

use crate::cas::{
    all_digits, decimal_value, is_digit, lemma_decimal_value_nonnegative, parse_user_id,
    user_id_in,
};
use crate::classifier::{lift, required_text};
use crate::json::{get_member, json_document, json_text, member, parse_json, print_json, Json};
use crate::prompts::{directive_views, AdminDirective, AdminDirectiveView};
use crate::state::{
    chat_views, ChatId, ChatState, ChatStateView, Language, Mode, SaveableServiceState,
    ServiceState, ServiceStateView, UserId,
};
use crate::text::{chars_of, same_text};
use std::collections::{HashMap, HashSet};
use vstd::prelude::*;
use vstd::std_specs::iter::IteratorSpec;
use vstd::string::StringExecFns;

verus! {

broadcast use vstd::std_specs::hash::group_hash_axioms;

/// The digit that writes a number below ten.
pub open spec fn digit_char(d: nat) -> char {
    if d == 0 {
        '0'
    } else if d == 1 {
        '1'
    } else if d == 2 {
        '2'
    } else if d == 3 {
        '3'
    } else if d == 4 {
        '4'
    } else if d == 5 {
        '5'
    } else if d == 6 {
        '6'
    } else if d == 7 {
        '7'
    } else if d == 8 {
        '8'
    } else {
        '9'
    }
}

/// A number written in base ten, without leading zeros.
pub open spec fn decimal_text(n: nat) -> Seq<char>
    decreases n,
{
    if n < 10 {
        seq![digit_char(n)]
    } else {
        decimal_text(n / 10).push(digit_char(n % 10))
    }
}

/// The text of a number is made of digits and writes that number.
pub proof fn lemma_decimal_text(n: nat)
    ensures
        decimal_text(n).len() > 0,
        all_digits(decimal_text(n)),
        decimal_value(decimal_text(n)) == n,
    decreases n,
{
    if n < 10 {
        let s = decimal_text(n);
        assert(s.drop_last() =~= Seq::<char>::empty());
        assert(decimal_value(s.drop_last()) == 0);
        assert(s.last() == digit_char(n));
    } else {
        lemma_decimal_text(n / 10);
        let head = decimal_text(n / 10);
        let s = head.push(digit_char(n % 10));
        assert(s.drop_last() =~= head);
        assert(s.last() == digit_char(n % 10));
        assert forall|i: int| 0 <= i < s.len() implies is_digit(#[trigger] s[i]) by {
            if i < head.len() {
                assert(s[i] == head[i]);
                assert(is_digit(head[i]));
            }
        }
    }
}

fn digit_text(d: u64) -> (s: &'static str)
    requires
        d < 10,
    ensures
        s@ == seq![digit_char(d as nat)],
{
    let s = if d == 0 {
        "0"
    } else if d == 1 {
        "1"
    } else if d == 2 {
        "2"
    } else if d == 3 {
        "3"
    } else if d == 4 {
        "4"
    } else if d == 5 {
        "5"
    } else if d == 6 {
        "6"
    } else if d == 7 {
        "7"
    } else if d == 8 {
        "8"
    } else {
        "9"
    };
    proof {
        reveal_strlit("0");
        reveal_strlit("1");
        reveal_strlit("2");
        reveal_strlit("3");
        reveal_strlit("4");
        reveal_strlit("5");
        reveal_strlit("6");
        reveal_strlit("7");
        reveal_strlit("8");
        reveal_strlit("9");
        assert(s@ =~= seq![digit_char(d as nat)]);
    }
    s
}

/// Appends the decimal text of `n` to `out`.
fn append_decimal(out: &mut String, n: u64)
    ensures
        final(out)@ == old(out)@ + decimal_text(n as nat),
    decreases n,
{
    if n < 10 {
        out.append(digit_text(n));
    } else {
        append_decimal(out, n / 10);
        out.append(digit_text(n % 10));
        assert(out@ =~= old(out)@ + decimal_text(n as nat));
    }
}

/// The text of a user identifier.
pub fn user_id_text(id: UserId) -> (text: String)
    ensures
        text@ == decimal_text(id as nat),
        user_id_in(text@) == Some(id),
{
    let mut text = String::new();
    append_decimal(&mut text, id);
    proof {
        lemma_decimal_text(id as nat);
        assert(text@ =~= decimal_text(id as nat));
        assert(is_digit(text@[0]));
    }
    text
}

/// The text of a chat identifier: its decimal text, after a `-` where it is
/// negative.
pub open spec fn chat_id_text_of(id: ChatId) -> Seq<char> {
    if id < 0 {
        seq!['-'] + decimal_text((-id) as nat)
    } else {
        decimal_text(id as nat)
    }
}

/// The chat identifier that a text holds: one or more digits, after a `-`
/// for a negative one, whose value fits in 64 bits with a sign.
pub open spec fn chat_id_in(text: Seq<char>) -> Option<ChatId> {
    if text.len() > 0 && text[0] == '-' {
        let digits = text.drop_first();
        if digits.len() > 0 && all_digits(digits) && decimal_value(digits)
            <= 0x8000_0000_0000_0000 {
            Some((-decimal_value(digits)) as i64)
        } else {
            None
        }
    } else if text.len() > 0 && all_digits(text) && decimal_value(text) <= i64::MAX {
        Some(decimal_value(text) as i64)
    } else {
        None
    }
}

/// The text of a chat identifier.
pub fn chat_id_text(id: ChatId) -> (text: String)
    ensures
        text@ == chat_id_text_of(id),
        chat_id_in(text@) == Some(id),
{
    let mut text = String::new();
    if id < 0 {
        let magnitude: u64 = (0 - (id as i128)) as u64;
        proof {
            reveal_strlit("-");
        }
        text.append("-");
        append_decimal(&mut text, magnitude);
        proof {
            lemma_decimal_text(magnitude as nat);
            assert(text@ =~= seq!['-'] + decimal_text(magnitude as nat));
            assert(text@.drop_first() =~= decimal_text(magnitude as nat));
        }
    } else {
        append_decimal(&mut text, id as u64);
        proof {
            lemma_decimal_text(id as nat);
            assert(text@ =~= decimal_text(id as nat));
            assert(is_digit(text@[0]));
        }
    }
    text
}

/// Reads the chat identifier that a text holds.
pub fn parse_chat_id(text: &str) -> (id: Option<ChatId>)
    ensures
        id == chat_id_in(text@),
{
    let cs = chars_of(text);
    if cs.len() > 0 && cs[0] == '-' {
        let digits = text.substring_char(1, cs.len());
        assert(digits@ =~= text@.drop_first());
        if digits.unicode_len() > 0 && crate::text::starts_with_char(digits, '+') {
            assert(!is_digit(digits@[0]));
            return None;
        }
        proof {
            if all_digits(digits@) {
                lemma_decimal_value_nonnegative(digits@);
            }
        }
        match parse_user_id(digits) {
            Some(magnitude) => {
                if magnitude <= 0x8000_0000_0000_0000 {
                    Some((0 - (magnitude as i128)) as i64)
                } else {
                    None
                }
            },
            None => None,
        }
    } else {
        if cs.len() > 0 && cs[0] == '+' {
            assert(!is_digit(text@[0]));
            return None;
        }
        proof {
            if all_digits(text@) {
                lemma_decimal_value_nonnegative(text@);
            }
        }
        match parse_user_id(text) {
            Some(value) => {
                if value <= 0x7fff_ffff_ffff_ffff {
                    Some(value as i64)
                } else {
                    None
                }
            },
            None => None,
        }
    }
}

/// The keys of a map of chats: each chat once, in no particular order.
pub fn chat_ids(chats: &HashMap<ChatId, ChatState>) -> (ids: Vec<ChatId>)
    ensures
        forall|i: int| 0 <= i < ids@.len() ==> chats@.contains_key(#[trigger] ids@[i]),
        forall|id: ChatId| chats@.contains_key(id) ==> ids@.contains(id),
        ids@.no_duplicates(),
{
    let mut ids: Vec<ChatId> = Vec::new();
    let pairs = chats.iter();
    for pair in it: pairs
        invariant
            it.seq() == vstd::std_specs::hash::spec_hash_map_iter(chats).remaining(),
            it.seq().no_duplicates(),
            ids@.len() == it.index(),
            forall|j: int| 0 <= j < ids@.len() ==> #[trigger] ids@[j] == *it.seq()[j].0,
    {
        let (id, _) = pair;
        ids.push(*id);
    }
    proof {
        let s = vstd::std_specs::hash::spec_hash_map_iter(chats).remaining();
        vstd::std_specs::hash::axiom_spec_hash_map_iter(chats);
        assert forall|id: ChatId| chats@.contains_key(id) implies ids@.contains(id) by {
            assert(s.contains((&id, &chats@[id])));
            let i = choose|i: int| 0 <= i < s.len() && s[i] == (&id, &chats@[id]);
            assert(ids@[i] == id);
        }
        assert forall|i: int, j: int| 0 <= i < ids@.len() && 0 <= j < ids@.len() && i != j implies ids@[i]
            != ids@[j] by {
            if ids@[i] == ids@[j] {
                assert(chats@[*s[i].0] == *s[i].1);
                assert(chats@[*s[j].0] == *s[j].1);
                assert(s[i] == s[j]);
            }
        }
    }
    ids
}

/// The keys of a map of counters: each user once, in no particular order.
pub fn counted_users(counters: &HashMap<UserId, u8>) -> (ids: Vec<UserId>)
    ensures
        forall|i: int| 0 <= i < ids@.len() ==> counters@.contains_key(#[trigger] ids@[i]),
        forall|id: UserId| counters@.contains_key(id) ==> ids@.contains(id),
        ids@.no_duplicates(),
{
    let mut ids: Vec<UserId> = Vec::new();
    let pairs = counters.iter();
    for pair in it: pairs
        invariant
            it.seq() == vstd::std_specs::hash::spec_hash_map_iter(counters).remaining(),
            it.seq().no_duplicates(),
            ids@.len() == it.index(),
            forall|j: int| 0 <= j < ids@.len() ==> #[trigger] ids@[j] == *it.seq()[j].0,
    {
        let (id, _) = pair;
        ids.push(*id);
    }
    proof {
        let s = vstd::std_specs::hash::spec_hash_map_iter(counters).remaining();
        vstd::std_specs::hash::axiom_spec_hash_map_iter(counters);
        assert forall|id: UserId| counters@.contains_key(id) implies ids@.contains(id) by {
            assert(s.contains((&id, &counters@[id])));
            let i = choose|i: int| 0 <= i < s.len() && s[i] == (&id, &counters@[id]);
            assert(ids@[i] == id);
        }
        assert forall|i: int, j: int| 0 <= i < ids@.len() && 0 <= j < ids@.len() && i != j implies ids@[i]
            != ids@[j] by {
            if ids@[i] == ids@[j] {
                assert(counters@[*s[i].0] == *s[i].1);
                assert(counters@[*s[j].0] == *s[j].1);
                assert(s[i] == s[j]);
            }
        }
    }
    ids
}

/// The members of a set of users: each once, in no particular order.
pub fn listed_users(users: &HashSet<UserId>) -> (ids: Vec<UserId>)
    ensures
        ids@.to_set() == users@,
        ids@.no_duplicates(),
{
    let mut ids: Vec<UserId> = Vec::new();
    let members = users.iter();
    for id in it: members
        invariant
            it.seq() == vstd::std_specs::hash::spec_hash_keys_iter(users).remaining(),
            ids@.len() == it.index(),
            forall|j: int| 0 <= j < ids@.len() ==> #[trigger] ids@[j] == *it.seq()[j],
    {
        ids.push(*id);
    }
    proof {
        let s = vstd::std_specs::hash::spec_hash_keys_iter(users).remaining();
        vstd::std_specs::hash::axiom_spec_hash_keys_iter(users);
        assert(ids@ =~= s.unref());
        assert forall|i: int, j: int| 0 <= i < ids@.len() && 0 <= j < ids@.len() && i != j implies ids@[i]
            != ids@[j] by {
            assert(s[i] != s[j]);
        }
    }
    ids
}

/// A copy of a set of users.
pub fn copy_users(users: &HashSet<UserId>) -> (copy: HashSet<UserId>)
    ensures
        copy@ == users@,
{
    let ids = listed_users(users);
    let mut copy: HashSet<UserId> = HashSet::new();
    let mut i: usize = 0;
    assert(ids@.take(0).to_set() =~= Set::<UserId>::empty());
    while i < ids.len()
        invariant
            i <= ids@.len(),
            copy@ == ids@.take(i as int).to_set(),
        decreases ids@.len() - i,
    {
        proof {
            assert(ids@.take(i + 1) =~= ids@.take(i as int).push(ids@[i as int]));
            ids@.take(i as int).lemma_push_to_set_commute(ids@[i as int]);
        }
        copy.insert(ids[i]);
        i += 1;
    }
    assert(ids@.take(ids@.len() as int) =~= ids@);
    copy
}

/// The mode that a member of a snapshot names.
pub open spec fn mode_in(value: Option<Json>) -> Option<Mode> {
    match required_text(value) {
        Some(word) => if word == "Ban"@ {
            Some(Mode::Ban)
        } else if word == "Notify"@ {
            Some(Mode::Notify)
        } else {
            None
        },
        None => None,
    }
}

/// The language that a member of a snapshot names.
pub open spec fn language_in(value: Option<Json>) -> Option<Language> {
    match required_text(value) {
        Some(word) => if word == "Russian"@ {
            Some(Language::Russian)
        } else if word == "English"@ {
            Some(Language::English)
        } else {
            None
        },
        None => None,
    }
}

/// The truth value that a member of a snapshot holds.
pub open spec fn flag_in(value: Option<Json>) -> Option<bool> {
    match value {
        Some(Json::Bool(b)) => Some(b),
        _ => None,
    }
}

/// The directive that a value of a snapshot holds: an object with the texts
/// `author`, `timestamp` and `directive_text`.
pub open spec fn directive_in(value: Json) -> Option<AdminDirectiveView> {
    match value {
        Json::Record(entries) => {
            let author = required_text(member(entries@, "author"@));
            let timestamp = required_text(member(entries@, "timestamp"@));
            let text = required_text(member(entries@, "directive_text"@));
            if author is Some && timestamp is Some && text is Some {
                Some(
                    AdminDirectiveView {
                        author: author->0,
                        timestamp: timestamp->0,
                        directive_text: text->0,
                    },
                )
            } else {
                None
            }
        },
        _ => None,
    }
}

/// The directives that follow `done` in a list of a snapshot, in order;
/// `None` where an item holds no directive.
pub open spec fn directives_after(done: Seq<AdminDirectiveView>, items: Seq<Json>) -> Option<
    Seq<AdminDirectiveView>,
>
    decreases items.len(),
{
    if items.len() == 0 {
        Some(done)
    } else {
        match directive_in(items[0]) {
            Some(directive) => directives_after(done.push(directive), items.drop_first()),
            None => None,
        }
    }
}

/// The counter that an entry of a snapshot holds: the user's identifier as
/// the key and a count that fits in 8 bits as the value.
pub open spec fn counter_in(entry: (String, Json)) -> Option<(UserId, u8)> {
    match (user_id_in(entry.0@), entry.1) {
        (Some(id), Json::Unsigned(n)) => if n <= 255 {
            Some((id, n as u8))
        } else {
            None
        },
        _ => None,
    }
}

/// The counters of `done` and of the entries that follow, a later entry
/// overriding an earlier one; `None` where an entry holds no counter.
pub open spec fn counters_after(done: Map<UserId, u8>, entries: Seq<(String, Json)>) -> Option<
    Map<UserId, u8>,
>
    decreases entries.len(),
{
    if entries.len() == 0 {
        Some(done)
    } else {
        match counter_in(entries[0]) {
            Some((id, count)) => counters_after(done.insert(id, count), entries.drop_first()),
            None => None,
        }
    }
}

/// The users who have left quarantine, as a member of a snapshot holds
/// them: a list of identifiers. A chat that was stored without the member
/// has none.
pub open spec fn exited_in(value: Option<Json>) -> Option<Set<UserId>> {
    match value {
        None => Some(Set::empty()),
        Some(Json::List(items)) => users_after(Set::empty(), items@),
        _ => None,
    }
}

/// The state of a chat that a value of a snapshot holds: an object with the
/// members `message_counter`, `working_mode`, `language`,
/// `admin_prompt_injections_active` and `admin_prompt_injections`, and
/// optionally `quarantine_exited`.
pub open spec fn chat_in(value: Json) -> Option<ChatStateView> {
    match value {
        Json::Record(entries) => {
            let counters = match member(entries@, "message_counter"@) {
                Some(Json::Record(list)) => counters_after(Map::empty(), list@),
                _ => None,
            };
            let exited = exited_in(member(entries@, "quarantine_exited"@));
            let mode = mode_in(member(entries@, "working_mode"@));
            let language = language_in(member(entries@, "language"@));
            let active = flag_in(member(entries@, "admin_prompt_injections_active"@));
            let directives = match member(entries@, "admin_prompt_injections"@) {
                Some(Json::List(items)) => directives_after(Seq::empty(), items@),
                _ => None,
            };
            if counters is Some && exited is Some && mode is Some && language is Some
                && active is Some && directives is Some {
                Some(
                    ChatStateView {
                        message_counter: counters->0,
                        quarantine_exited: exited->0,
                        working_mode: mode->0,
                        language: language->0,
                        admin_prompt_injections_active: active->0,
                        admin_prompt_injections: directives->0,
                    },
                )
            } else {
                None
            }
        },
        _ => None,
    }
}

/// The chat that an entry of a snapshot holds: the chat's identifier as the
/// key and its state as the value.
pub open spec fn chat_entry_in(entry: (String, Json)) -> Option<(ChatId, ChatStateView)> {
    match (chat_id_in(entry.0@), chat_in(entry.1)) {
        (Some(id), Some(chat)) => Some((id, chat)),
        _ => None,
    }
}

/// The chats of `done` and of the entries that follow, a later entry
/// overriding an earlier one; `None` where an entry holds no chat.
pub open spec fn chats_after(
    done: Map<ChatId, ChatStateView>,
    entries: Seq<(String, Json)>,
) -> Option<Map<ChatId, ChatStateView>>
    decreases entries.len(),
{
    if entries.len() == 0 {
        Some(done)
    } else {
        match chat_entry_in(entries[0]) {
            Some((id, chat)) => chats_after(done.insert(id, chat), entries.drop_first()),
            None => None,
        }
    }
}

/// The users of `done` and of the items that follow; `None` where an item
/// is no identifier.
pub open spec fn users_after(done: Set<UserId>, items: Seq<Json>) -> Option<Set<UserId>>
    decreases items.len(),
{
    if items.len() == 0 {
        Some(done)
    } else {
        match items[0] {
            Json::Unsigned(id) => users_after(done.insert(id), items.drop_first()),
            _ => None,
        }
    }
}

/// The state that a snapshot holds: an object with the chats by identifier
/// under `tg_chat_stats` and the list of banned users under
/// `cas_banned_ids`. `None` where the document is no snapshot.
pub open spec fn snapshot_in(doc: Json) -> Option<ServiceStateView> {
    match doc {
        Json::Record(entries) => {
            let chats = match member(entries@, "tg_chat_stats"@) {
                Some(Json::Record(list)) => chats_after(Map::empty(), list@),
                _ => None,
            };
            let banned = match member(entries@, "cas_banned_ids"@) {
                Some(Json::List(items)) => users_after(Set::empty(), items@),
                _ => None,
            };
            if chats is Some && banned is Some {
                Some(ServiceStateView { chats: chats->0, banned: banned->0 })
            } else {
                None
            }
        },
        _ => None,
    }
}

fn read_text(value: Option<&Json>) -> (text: Option<String>)
    ensures
        match text {
            Some(t) => required_text(lift(value)) == Some(t@),
            None => required_text(lift(value)) is None,
        },
{
    match value {
        Some(Json::Text(s)) => Some(s.clone()),
        _ => None,
    }
}

fn read_mode(value: Option<&Json>) -> (mode: Option<Mode>)
    ensures
        mode == mode_in(lift(value)),
{
    match value {
        Some(Json::Text(s)) => {
            if same_text(s.as_str(), "Ban") {
                Some(Mode::Ban)
            } else if same_text(s.as_str(), "Notify") {
                Some(Mode::Notify)
            } else {
                None
            }
        },
        _ => None,
    }
}

fn read_language(value: Option<&Json>) -> (language: Option<Language>)
    ensures
        language == language_in(lift(value)),
{
    match value {
        Some(Json::Text(s)) => {
            if same_text(s.as_str(), "Russian") {
                Some(Language::Russian)
            } else if same_text(s.as_str(), "English") {
                Some(Language::English)
            } else {
                None
            }
        },
        _ => None,
    }
}

fn read_flag(value: Option<&Json>) -> (flag: Option<bool>)
    ensures
        flag == flag_in(lift(value)),
{
    match value {
        Some(Json::Bool(b)) => Some(*b),
        _ => None,
    }
}

fn read_directive(value: &Json) -> (directive: Option<AdminDirective>)
    ensures
        match directive {
            Some(d) => directive_in(*value) == Some(d@),
            None => directive_in(*value) is None,
        },
{
    match value {
        Json::Record(entries) => {
            let author = read_text(get_member(entries, "author"));
            let timestamp = read_text(get_member(entries, "timestamp"));
            let text = read_text(get_member(entries, "directive_text"));
            match (author, timestamp, text) {
                (Some(author), Some(timestamp), Some(directive_text)) => Some(
                    AdminDirective { author, timestamp, directive_text },
                ),
                _ => None,
            }
        },
        _ => None,
    }
}

fn read_directives(items: &Vec<Json>) -> (list: Option<Vec<AdminDirective>>)
    ensures
        match list {
            Some(l) => directives_after(Seq::empty(), items@) == Some(directive_views(l@)),
            None => directives_after(Seq::empty(), items@) is None,
        },
{
    let mut list: Vec<AdminDirective> = Vec::new();
    let mut i: usize = 0;
    assert(items@.skip(0) =~= items@);
    assert(directive_views(list@) =~= Seq::empty());
    while i < items.len()
        invariant
            i <= items@.len(),
            directives_after(Seq::empty(), items@) == directives_after(
                directive_views(list@),
                items@.skip(i as int),
            ),
        decreases items@.len() - i,
    {
        assert(items@.skip(i as int)[0] == items@[i as int]);
        assert(items@.skip(i as int).drop_first() =~= items@.skip(i + 1));
        match read_directive(&items[i]) {
            Some(directive) => {
                let ghost before = directive_views(list@);
                list.push(directive);
                assert(directive_views(list@) =~= before.push(directive@));
            },
            None => {
                return None;
            },
        }
        i += 1;
    }
    Some(list)
}

fn read_counter(entry: &(String, Json)) -> (counter: Option<(UserId, u8)>)
    ensures
        counter == counter_in(*entry),
{
    match (parse_user_id(entry.0.as_str()), &entry.1) {
        (Some(id), Json::Unsigned(n)) => {
            if *n <= 255 {
                Some((id, *n as u8))
            } else {
                None
            }
        },
        _ => None,
    }
}

fn read_counters(entries: &Vec<(String, Json)>) -> (counters: Option<HashMap<UserId, u8>>)
    ensures
        match counters {
            Some(m) => counters_after(Map::empty(), entries@) == Some(m@),
            None => counters_after(Map::empty(), entries@) is None,
        },
{
    let mut counters: HashMap<UserId, u8> = HashMap::new();
    let mut i: usize = 0;
    assert(entries@.skip(0) =~= entries@);
    while i < entries.len()
        invariant
            i <= entries@.len(),
            counters_after(Map::empty(), entries@) == counters_after(
                counters@,
                entries@.skip(i as int),
            ),
        decreases entries@.len() - i,
    {
        assert(entries@.skip(i as int)[0] == entries@[i as int]);
        assert(entries@.skip(i as int).drop_first() =~= entries@.skip(i + 1));
        match read_counter(&entries[i]) {
            Some((id, count)) => {
                counters.insert(id, count);
            },
            None => {
                return None;
            },
        }
        i += 1;
    }
    Some(counters)
}

fn read_chat(value: &Json) -> (chat: Option<ChatState>)
    ensures
        match chat {
            Some(c) => chat_in(*value) == Some(c@),
            None => chat_in(*value) is None,
        },
{
    match value {
        Json::Record(entries) => {
            let counters = match get_member(entries, "message_counter") {
                Some(Json::Record(list)) => read_counters(list),
                _ => None,
            };
            let exited = match get_member(entries, "quarantine_exited") {
                None => Some(HashSet::new()),
                Some(Json::List(items)) => read_users(items),
                _ => None,
            };
            let mode = read_mode(get_member(entries, "working_mode"));
            let language = read_language(get_member(entries, "language"));
            let active = read_flag(get_member(entries, "admin_prompt_injections_active"));
            let directives = match get_member(entries, "admin_prompt_injections") {
                Some(Json::List(items)) => read_directives(items),
                _ => None,
            };
            match (counters, exited, mode, language, active, directives) {
                (
                    Some(message_counter),
                    Some(quarantine_exited),
                    Some(working_mode),
                    Some(language),
                    Some(admin_prompt_injections_active),
                    Some(admin_prompt_injections),
                ) => Some(
                    ChatState {
                        message_counter,
                        quarantine_exited,
                        working_mode,
                        language,
                        admin_prompt_injections_active,
                        admin_prompt_injections,
                    },
                ),
                _ => None,
            }
        },
        _ => None,
    }
}

fn read_chats(entries: &Vec<(String, Json)>) -> (chats: Option<HashMap<ChatId, ChatState>>)
    ensures
        match chats {
            Some(m) => chats_after(Map::empty(), entries@) == Some(chat_views(m@)),
            None => chats_after(Map::empty(), entries@) is None,
        },
{
    let mut chats: HashMap<ChatId, ChatState> = HashMap::new();
    let mut i: usize = 0;
    assert(entries@.skip(0) =~= entries@);
    assert(chat_views(chats@) =~= Map::empty());
    while i < entries.len()
        invariant
            i <= entries@.len(),
            chats_after(Map::empty(), entries@) == chats_after(
                chat_views(chats@),
                entries@.skip(i as int),
            ),
        decreases entries@.len() - i,
    {
        assert(entries@.skip(i as int)[0] == entries@[i as int]);
        assert(entries@.skip(i as int).drop_first() =~= entries@.skip(i + 1));
        let id = parse_chat_id(entries[i].0.as_str());
        let chat = read_chat(&entries[i].1);
        match (id, chat) {
            (Some(id), Some(chat)) => {
                let ghost before = chat_views(chats@);
                chats.insert(id, chat);
                assert(chat_views(chats@) =~= before.insert(id, chat@));
            },
            _ => {
                return None;
            },
        }
        i += 1;
    }
    Some(chats)
}

fn read_users(items: &Vec<Json>) -> (users: Option<HashSet<UserId>>)
    ensures
        match users {
            Some(set) => users_after(Set::empty(), items@) == Some(set@),
            None => users_after(Set::empty(), items@) is None,
        },
{
    let mut users: HashSet<UserId> = HashSet::new();
    let mut i: usize = 0;
    assert(items@.skip(0) =~= items@);
    while i < items.len()
        invariant
            i <= items@.len(),
            users_after(Set::empty(), items@) == users_after(users@, items@.skip(i as int)),
        decreases items@.len() - i,
    {
        assert(items@.skip(i as int)[0] == items@[i as int]);
        assert(items@.skip(i as int).drop_first() =~= items@.skip(i + 1));
        match &items[i] {
            Json::Unsigned(id) => {
                users.insert(*id);
            },
            _ => {
                return None;
            },
        }
        i += 1;
    }
    Some(users)
}

/// Reads a snapshot from a JSON document.
pub fn snapshot_from_json(doc: &Json) -> (snapshot: Option<SaveableServiceState>)
    ensures
        match snapshot {
            Some(s) => snapshot_in(*doc) == Some(s@),
            None => snapshot_in(*doc) is None,
        },
{
    match doc {
        Json::Record(entries) => {
            let chats = match get_member(entries, "tg_chat_stats") {
                Some(Json::Record(list)) => read_chats(list),
                _ => None,
            };
            let banned = match get_member(entries, "cas_banned_ids") {
                Some(Json::List(items)) => read_users(items),
                _ => None,
            };
            match (chats, banned) {
                (Some(tg_chat_stats), Some(cas_banned_ids)) => Some(
                    SaveableServiceState { tg_chat_stats, cas_banned_ids },
                ),
                _ => None,
            }
        },
        _ => None,
    }
}

proof fn lemma_member_at(entries: Seq<(String, Json)>, at: int, key: Seq<char>)
    requires
        0 <= at < entries.len(),
        entries[at].0@ == key,
        forall|j: int| 0 <= j < at ==> (#[trigger] entries[j]).0@ != key,
    ensures
        member(entries, key) == Some(entries[at].1),
    decreases at,
{
    if at > 0 {
        let tail = entries.drop_first();
        assert(entries[0].0@ != key);
        assert forall|j: int| 0 <= j < at - 1 implies (#[trigger] tail[j]).0@ != key by {
            assert(tail[j] == entries[j + 1]);
        }
        lemma_member_at(tail, at - 1, key);
    }
}

proof fn lemma_directives_push(done: Seq<AdminDirectiveView>, items: Seq<Json>, item: Json)
    ensures
        directives_after(done, items.push(item)) == match directives_after(done, items) {
            Some(list) => match directive_in(item) {
                Some(directive) => Some(list.push(directive)),
                None => None,
            },
            None => None,
        },
    decreases items.len(),
{
    let longer = items.push(item);
    if items.len() == 0 {
        assert(longer.drop_first() =~= Seq::<Json>::empty());
        assert(longer[0] == item);
        reveal_with_fuel(directives_after, 2);
    } else {
        assert(longer[0] == items[0]);
        assert(longer.drop_first() =~= items.drop_first().push(item));
        match directive_in(items[0]) {
            Some(directive) => {
                lemma_directives_push(done.push(directive), items.drop_first(), item);
            },
            None => {},
        }
    }
}

proof fn lemma_counters_push(
    done: Map<UserId, u8>,
    entries: Seq<(String, Json)>,
    entry: (String, Json),
)
    ensures
        counters_after(done, entries.push(entry)) == match counters_after(done, entries) {
            Some(counters) => match counter_in(entry) {
                Some((id, count)) => Some(counters.insert(id, count)),
                None => None,
            },
            None => None,
        },
    decreases entries.len(),
{
    let longer = entries.push(entry);
    if entries.len() == 0 {
        assert(longer.drop_first() =~= Seq::<(String, Json)>::empty());
        assert(longer[0] == entry);
        reveal_with_fuel(counters_after, 2);
    } else {
        assert(longer[0] == entries[0]);
        assert(longer.drop_first() =~= entries.drop_first().push(entry));
        match counter_in(entries[0]) {
            Some((id, count)) => {
                lemma_counters_push(done.insert(id, count), entries.drop_first(), entry);
            },
            None => {},
        }
    }
}

proof fn lemma_chats_push(
    done: Map<ChatId, ChatStateView>,
    entries: Seq<(String, Json)>,
    entry: (String, Json),
)
    ensures
        chats_after(done, entries.push(entry)) == match chats_after(done, entries) {
            Some(chats) => match chat_entry_in(entry) {
                Some((id, chat)) => Some(chats.insert(id, chat)),
                None => None,
            },
            None => None,
        },
    decreases entries.len(),
{
    let longer = entries.push(entry);
    if entries.len() == 0 {
        assert(longer.drop_first() =~= Seq::<(String, Json)>::empty());
        assert(longer[0] == entry);
        reveal_with_fuel(chats_after, 2);
    } else {
        assert(longer[0] == entries[0]);
        assert(longer.drop_first() =~= entries.drop_first().push(entry));
        match chat_entry_in(entries[0]) {
            Some((id, chat)) => {
                lemma_chats_push(done.insert(id, chat), entries.drop_first(), entry);
            },
            None => {},
        }
    }
}

proof fn lemma_users_push(done: Set<UserId>, items: Seq<Json>, id: UserId)
    ensures
        users_after(done, items.push(Json::Unsigned(id))) == match users_after(done, items) {
            Some(users) => Some(users.insert(id)),
            None => None,
        },
    decreases items.len(),
{
    let longer = items.push(Json::Unsigned(id));
    if items.len() == 0 {
        assert(longer.drop_first() =~= Seq::<Json>::empty());
        assert(longer[0] == Json::Unsigned(id));
        reveal_with_fuel(users_after, 2);
    } else {
        assert(longer[0] == items[0]);
        assert(longer.drop_first() =~= items.drop_first().push(Json::Unsigned(id)));
        match items[0] {
            Json::Unsigned(first) => {
                lemma_users_push(done.insert(first), items.drop_first(), id);
            },
            _ => {},
        }
    }
}

fn entry(key: &str, value: Json) -> (e: (String, Json))
    ensures
        e.0@ == key@,
        e.1 == value,
{
    (key.to_owned(), value)
}

fn text_json(text: &str) -> (value: Json)
    ensures
        required_text(Some(value)) == Some(text@),
{
    Json::Text(text.to_owned())
}

/// A directive as a JSON value.
pub fn directive_json(directive: &AdminDirective) -> (value: Json)
    ensures
        directive_in(value) == Some(directive@),
{
    let mut entries: Vec<(String, Json)> = Vec::new();
    entries.push(entry("author", text_json(directive.author.as_str())));
    entries.push(entry("timestamp", text_json(directive.timestamp.as_str())));
    entries.push(entry("directive_text", text_json(directive.directive_text.as_str())));
    proof {
        reveal_strlit("author");
        reveal_strlit("timestamp");
        reveal_strlit("directive_text");
        assert("author"@.len() == 6);
        assert("timestamp"@.len() == 9);
        assert("directive_text"@.len() == 14);
        lemma_member_at(entries@, 0, "author"@);
        lemma_member_at(entries@, 1, "timestamp"@);
        lemma_member_at(entries@, 2, "directive_text"@);
    }
    Json::Record(entries)
}

/// A list of directives as a JSON value, in order.
pub fn directives_json(list: &Vec<AdminDirective>) -> (value: Json)
    ensures
        value matches Json::List(items) && directives_after(Seq::empty(), items@) == Some(
            directive_views(list@),
        ),
{
    let mut items: Vec<Json> = Vec::new();
    let mut i: usize = 0;
    assert(directive_views(list@).take(0) =~= Seq::empty());
    while i < list.len()
        invariant
            i <= list@.len(),
            directives_after(Seq::empty(), items@) == Some(
                directive_views(list@).take(i as int),
            ),
        decreases list@.len() - i,
    {
        let item = directive_json(&list[i]);
        proof {
            lemma_directives_push(Seq::empty(), items@, item);
            assert(directive_views(list@).take(i + 1) =~= directive_views(list@).take(
                i as int,
            ).push(list@[i as int]@));
        }
        items.push(item);
        i += 1;
    }
    assert(directive_views(list@).take(list@.len() as int) =~= directive_views(list@));
    Json::List(items)
}

/// The counters of a chat as a JSON value: an object with the users'
/// identifiers as keys.
pub fn counters_json(counters: &HashMap<UserId, u8>) -> (value: Json)
    ensures
        value matches Json::Record(entries) && counters_after(Map::empty(), entries@) == Some(
            counters@,
        ),
{
    let ids = counted_users(counters);
    let mut entries: Vec<(String, Json)> = Vec::new();
    let mut i: usize = 0;
    assert(ids@.take(0).to_set() =~= Set::<UserId>::empty());
    assert(counters@.restrict(Set::<UserId>::empty()) =~= Map::<UserId, u8>::empty());
    while i < ids.len()
        invariant
            i <= ids@.len(),
            forall|k: int| 0 <= k < ids@.len() ==> counters@.contains_key(#[trigger] ids@[k]),
            counters_after(Map::empty(), entries@) == Some(
                counters@.restrict(ids@.take(i as int).to_set()),
            ),
        decreases ids@.len() - i,
    {
        let id = ids[i];
        let count: u8 = match counters.get(&id) {
            Some(c) => *c,
            None => 0,
        };
        let item = (user_id_text(id), Json::Unsigned(count as u64));
        proof {
            assert(counters@.contains_key(ids@[i as int]));
            assert(counter_in(item) == Some((id, count)));
            lemma_counters_push(Map::empty(), entries@, item);
            assert(ids@.take(i + 1) =~= ids@.take(i as int).push(id));
            ids@.take(i as int).lemma_push_to_set_commute(id);
            assert(counters@.restrict(ids@.take(i + 1).to_set()) =~= counters@.restrict(
                ids@.take(i as int).to_set(),
            ).insert(id, count));
        }
        entries.push(item);
        i += 1;
    }
    proof {
        assert(ids@.take(ids@.len() as int) =~= ids@);
        assert(counters@.restrict(ids@.to_set()) =~= counters@);
    }
    Json::Record(entries)
}

/// The name of a mode in a snapshot.
fn mode_json(mode: Mode) -> (value: Json)
    ensures
        mode_in(Some(value)) == Some(mode),
{
    proof {
        reveal_strlit("Ban");
        reveal_strlit("Notify");
        assert("Ban"@.len() == 3);
        assert("Notify"@.len() == 6);
    }
    match mode {
        Mode::Ban => text_json("Ban"),
        Mode::Notify => text_json("Notify"),
    }
}

/// The name of a language in a snapshot.
fn language_json(language: Language) -> (value: Json)
    ensures
        language_in(Some(value)) == Some(language),
{
    proof {
        reveal_strlit("Russian");
        reveal_strlit("English");
        assert("Russian"@[0] == 'R');
        assert("English"@[0] == 'E');
    }
    match language {
        Language::Russian => text_json("Russian"),
        Language::English => text_json("English"),
    }
}

/// The state of a chat as a JSON value.
pub fn chat_json(chat: &ChatState) -> (value: Json)
    ensures
        chat_in(value) == Some(chat@),
{
    let mut entries: Vec<(String, Json)> = Vec::new();
    entries.push(entry("message_counter", counters_json(&chat.message_counter)));
    entries.push(entry("working_mode", mode_json(chat.working_mode)));
    entries.push(entry("language", language_json(chat.language)));
    entries.push(
        entry("admin_prompt_injections_active", Json::Bool(chat.admin_prompt_injections_active)),
    );
    entries.push(
        entry("admin_prompt_injections", directives_json(&chat.admin_prompt_injections)),
    );
    entries.push(entry("quarantine_exited", users_json(&chat.quarantine_exited)));
    proof {
        reveal_strlit("quarantine_exited");
        assert("quarantine_exited"@.len() == 17);
        reveal_strlit("message_counter");
        reveal_strlit("working_mode");
        reveal_strlit("language");
        reveal_strlit("admin_prompt_injections_active");
        reveal_strlit("admin_prompt_injections");
        assert("message_counter"@.len() == 15);
        assert("working_mode"@.len() == 12);
        assert("language"@.len() == 8);
        assert("admin_prompt_injections_active"@.len() == 30);
        assert("admin_prompt_injections"@.len() == 23);
        lemma_member_at(entries@, 0, "message_counter"@);
        lemma_member_at(entries@, 1, "working_mode"@);
        lemma_member_at(entries@, 2, "language"@);
        lemma_member_at(entries@, 3, "admin_prompt_injections_active"@);
        lemma_member_at(entries@, 4, "admin_prompt_injections"@);
        lemma_member_at(entries@, 5, "quarantine_exited"@);
    }
    Json::Record(entries)
}

/// The chats as a JSON value: an object with the chats' identifiers as keys.
pub fn chats_json(chats: &HashMap<ChatId, ChatState>) -> (value: Json)
    ensures
        value matches Json::Record(entries) && chats_after(Map::empty(), entries@) == Some(
            chat_views(chats@),
        ),
{
    let ids = chat_ids(chats);
    let mut entries: Vec<(String, Json)> = Vec::new();
    let mut i: usize = 0;
    assert(ids@.take(0).to_set() =~= Set::<ChatId>::empty());
    assert(chat_views(chats@).restrict(Set::<ChatId>::empty()) =~= Map::<
        ChatId,
        ChatStateView,
    >::empty());
    while i < ids.len()
        invariant
            i <= ids@.len(),
            forall|k: int| 0 <= k < ids@.len() ==> chats@.contains_key(#[trigger] ids@[k]),
            chats_after(Map::empty(), entries@) == Some(
                chat_views(chats@).restrict(ids@.take(i as int).to_set()),
            ),
        decreases ids@.len() - i,
    {
        let id = ids[i];
        assert(chats@.contains_key(ids@[i as int]));
        match chats.get(&id) {
            Some(chat) => {
                let item = (chat_id_text(id), chat_json(chat));
                proof {
                    assert(chat_entry_in(item) == Some((id, chat@)));
                    lemma_chats_push(Map::empty(), entries@, item);
                    assert(ids@.take(i + 1) =~= ids@.take(i as int).push(id));
                    ids@.take(i as int).lemma_push_to_set_commute(id);
                    assert(chat_views(chats@).restrict(ids@.take(i + 1).to_set()) =~= chat_views(
                        chats@,
                    ).restrict(ids@.take(i as int).to_set()).insert(id, chat@));
                }
                entries.push(item);
            },
            None => {},
        }
        i += 1;
    }
    proof {
        assert(ids@.take(ids@.len() as int) =~= ids@);
        assert(chat_views(chats@).restrict(ids@.to_set()) =~= chat_views(chats@));
    }
    Json::Record(entries)
}

/// A set of users as a JSON value: the list of their identifiers.
pub fn users_json(users: &HashSet<UserId>) -> (value: Json)
    ensures
        value matches Json::List(items) && users_after(Set::empty(), items@) == Some(users@),
{
    let ids = listed_users(users);
    let mut items: Vec<Json> = Vec::new();
    let mut i: usize = 0;
    assert(ids@.take(0).to_set() =~= Set::<UserId>::empty());
    while i < ids.len()
        invariant
            i <= ids@.len(),
            users_after(Set::empty(), items@) == Some(ids@.take(i as int).to_set()),
        decreases ids@.len() - i,
    {
        let id = ids[i];
        proof {
            lemma_users_push(Set::empty(), items@, id);
            assert(ids@.take(i + 1) =~= ids@.take(i as int).push(id));
            ids@.take(i as int).lemma_push_to_set_commute(id);
        }
        items.push(Json::Unsigned(id));
        i += 1;
    }
    assert(ids@.take(ids@.len() as int) =~= ids@);
    Json::List(items)
}

/// Writes a snapshot as a JSON document. Reading the document back gives
/// the state that was written: every chat with its counters, zero counts and
/// empty lists included, and the ban list.
pub fn snapshot_to_json(snapshot: &SaveableServiceState) -> (doc: Json)
    ensures
        snapshot_in(doc) == Some(snapshot@),
{
    let mut entries: Vec<(String, Json)> = Vec::new();
    entries.push(entry("tg_chat_stats", chats_json(&snapshot.tg_chat_stats)));
    entries.push(entry("cas_banned_ids", users_json(&snapshot.cas_banned_ids)));
    proof {
        reveal_strlit("tg_chat_stats");
        reveal_strlit("cas_banned_ids");
        assert("tg_chat_stats"@.len() == 13);
        assert("cas_banned_ids"@.len() == 14);
        lemma_member_at(entries@, 0, "tg_chat_stats"@);
        lemma_member_at(entries@, 1, "cas_banned_ids"@);
    }
    Json::Record(entries)
}

/// The state that a stored text holds: that of the snapshot which the text
/// is as a JSON document. `None` where the text is no JSON document or the
/// document is no snapshot.
pub open spec fn snapshot_in_text(text: Seq<char>) -> Option<ServiceStateView> {
    match json_document(text) {
        Some(doc) => snapshot_in(doc),
        None => None,
    }
}

/// Writes a snapshot as a text for durable storage: the text of a JSON
/// document that holds exactly the state of the snapshot. There always is
/// such a text.
pub fn serialize(snapshot: &SaveableServiceState) -> (text: Option<String>)
    ensures
        text is Some,
        exists|doc: Json|
            snapshot_in(doc) == Some(snapshot@) && crate::json::text_view(text)
                == #[trigger] json_text(doc),
{
    let doc = snapshot_to_json(snapshot);
    let text = print_json(&doc);
    assert(crate::json::text_view(text) == json_text(doc));
    text
}

/// Reads a snapshot from a stored text.
pub fn deserialize(text: &str) -> (snapshot: Option<SaveableServiceState>)
    ensures
        match snapshot {
            Some(s) => snapshot_in_text(text@) == Some(s@),
            None => snapshot_in_text(text@) is None,
        },
{
    match parse_json(text) {
        Some(doc) => snapshot_from_json(&doc),
        None => None,
    }
}

/// The state that the service starts with when `stored` is what durable
/// storage holds: the state of the snapshot, or the empty state where
/// nothing is stored or what is stored is no snapshot.
pub open spec fn state_from_storage(stored: Option<Seq<char>>) -> ServiceStateView {
    match stored {
        Some(text) => match snapshot_in_text(text) {
            Some(state) => state,
            None => ServiceStateView::empty(),
        },
        None => ServiceStateView::empty(),
    }
}

/// Restores the state at startup. A missing or unreadable snapshot is never
/// fatal: the service then starts with the empty state.
pub fn load_state(stored: Option<&str>) -> (state: ServiceState)
    ensures
        state@ == state_from_storage(crate::webhook::slice_view(stored)),
{
    let loaded = match stored {
        Some(text) => deserialize(text),
        None => None,
    };
    ServiceState::restore(loaded)
}

} // verus!
