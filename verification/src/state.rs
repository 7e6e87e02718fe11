//! Per-chat settings and the state store.

use crate::prompts::{clone_directives, directive_views, AdminDirective, AdminDirectiveView};
use crate::text::{ascii_lowered, eq_ignore_ascii_case};
use std::collections::{HashMap, HashSet};
use vstd::prelude::*;

verus! {

broadcast use vstd::std_specs::hash::group_hash_axioms;

/// Identifier of a chat.
pub type ChatId = i64;

/// Identifier of a user.
pub type UserId = u64;

/// Identifier of a message inside a chat.
pub type MessageId = i32;

/// Language of the texts sent to a chat.
#[derive(Debug, Clone, Copy, PartialEq, Eq, Structural)]
pub enum Language {
    Russian,
    English,
}

impl Language {
    /// The two-letter tag of the language, as used in template names.
    pub open spec fn identifier(self) -> Seq<char> {
        match self {
            Language::Russian => "ru"@,
            Language::English => "en"@,
        }
    }

    pub fn as_identifier(&self) -> (tag: &'static str)
        ensures
            tag@ == self.identifier(),
    {
        match self {
            Language::Russian => "ru",
            Language::English => "en",
        }
    }
}

/// The language that a word names, whatever the case of its letters.
pub open spec fn language_named(word: Seq<char>) -> Option<Language> {
    let w = ascii_lowered(word);
    if w == "ru"@ || w == "russian"@ {
        Some(Language::Russian)
    } else if w == "en"@ || w == "english"@ {
        Some(Language::English)
    } else {
        None
    }
}

/// A word that names no language.
#[derive(Debug, Clone, Copy, PartialEq, Eq, Structural)]
pub struct UnknownLanguage;

proof fn lemma_language_words()
    ensures
        ascii_lowered("ru"@) == "ru"@,
        ascii_lowered("russian"@) == "russian"@,
        ascii_lowered("en"@) == "en"@,
        ascii_lowered("english"@) == "english"@,
{
    reveal_strlit("ru");
    reveal_strlit("russian");
    reveal_strlit("en");
    reveal_strlit("english");
    assert(ascii_lowered("ru"@) =~= "ru"@);
    assert(ascii_lowered("russian"@) =~= "russian"@);
    assert(ascii_lowered("en"@) =~= "en"@);
    assert(ascii_lowered("english"@) =~= "english"@);
}

impl Language {
    /// Reads a language from its tag or its English name.
    pub fn parse(word: &str) -> (r: Result<Language, UnknownLanguage>)
        ensures
            match r {
                Ok(lang) => language_named(word@) == Some(lang),
                Err(_) => language_named(word@) is None,
            },
    {
        proof {
            lemma_language_words();
        }
        if eq_ignore_ascii_case(word, "ru") || eq_ignore_ascii_case(word, "russian") {
            Ok(Language::Russian)
        } else if eq_ignore_ascii_case(word, "en") || eq_ignore_ascii_case(word, "english") {
            Ok(Language::English)
        } else {
            Err(UnknownLanguage)
        }
    }
}

impl std::str::FromStr for Language {
    type Err = UnknownLanguage;

    fn from_str(s: &str) -> (r: Result<Self, Self::Err>)
        ensures
            match r {
                Ok(lang) => language_named(s@) == Some(lang),
                Err(_) => language_named(s@) is None,
            },
    {
        Language::parse(s)
    }
}

impl Default for Language {
    fn default() -> (lang: Self)
        ensures
            lang == Language::English,
    {
        Language::English
    }
}

/// What happens to the sender of a flagged message.
#[derive(Debug, Clone, Copy, PartialEq, Eq, Structural)]
pub enum Mode {
    Notify,
    Ban,
}

impl Default for Mode {
    fn default() -> (mode: Self)
        ensures
            mode == Mode::Ban,
    {
        Mode::Ban
    }
}

/// Everything kept about one chat.
#[derive(Debug, PartialEq, Eq)]
pub struct ChatState {
    /// Messages seen from each user who is still under quarantine.
    pub message_counter: HashMap<UserId, u8>,
    /// The users who have left quarantine; they are not counted again.
    pub quarantine_exited: HashSet<UserId>,
    /// What happens to the sender of a flagged message.
    pub working_mode: Mode,
    /// The language of the texts sent to the chat.
    pub language: Language,
    /// Whether the directives are added to the classifier's prompt.
    pub admin_prompt_injections_active: bool,
    /// The administrators' directives, oldest first.
    pub admin_prompt_injections: Vec<AdminDirective>,
}

/// The mathematical content of a [`ChatState`].
pub struct ChatStateView {
    pub message_counter: Map<UserId, u8>,
    pub quarantine_exited: Set<UserId>,
    pub working_mode: Mode,
    pub language: Language,
    pub admin_prompt_injections_active: bool,
    pub admin_prompt_injections: Seq<AdminDirectiveView>,
}

impl ChatStateView {
    /// The state of a chat of which nothing is known yet.
    pub open spec fn initial() -> ChatStateView {
        ChatStateView {
            message_counter: Map::empty(),
            quarantine_exited: Set::empty(),
            working_mode: Mode::Ban,
            language: Language::English,
            admin_prompt_injections_active: false,
            admin_prompt_injections: Seq::empty(),
        }
    }
}

impl View for ChatState {
    type V = ChatStateView;

    open spec fn view(&self) -> ChatStateView {
        ChatStateView {
            message_counter: self.message_counter@,
            quarantine_exited: self.quarantine_exited@,
            working_mode: self.working_mode,
            language: self.language,
            admin_prompt_injections_active: self.admin_prompt_injections_active,
            admin_prompt_injections: directive_views(self.admin_prompt_injections@),
        }
    }
}

impl Default for ChatState {
    fn default() -> (chat: Self)
        ensures
            chat@ == ChatStateView::initial(),
    {
        let chat = ChatState {
            message_counter: HashMap::new(),
            quarantine_exited: HashSet::new(),
            working_mode: Mode::Ban,
            language: Language::English,
            admin_prompt_injections_active: false,
            admin_prompt_injections: Vec::new(),
        };
        assert(chat@.admin_prompt_injections =~= Seq::empty());
        chat
    }
}

impl Clone for ChatState {
    fn clone(&self) -> (copy: Self)
        ensures
            copy@ == self@,
    {
        ChatState {
            message_counter: self.message_counter.clone(),
            quarantine_exited: crate::snapshot::copy_users(&self.quarantine_exited),
            working_mode: self.working_mode,
            language: self.language,
            admin_prompt_injections_active: self.admin_prompt_injections_active,
            admin_prompt_injections: clone_directives(&self.admin_prompt_injections),
        }
    }
}

/// The chats, each with its state, and the set of globally banned users.
#[derive(Debug, PartialEq, Eq)]
pub struct ServiceState {
    pub tg_chat_states: HashMap<ChatId, ChatState>,
    pub cas_banned_ids: HashSet<UserId>,
}

/// The mathematical content of a [`ServiceState`].
pub struct ServiceStateView {
    pub chats: Map<ChatId, ChatStateView>,
    pub banned: Set<UserId>,
}

impl ServiceStateView {
    /// The state of `chat_id`: what is stored, or the initial state.
    pub open spec fn chat(self, chat_id: ChatId) -> ChatStateView {
        if self.chats.contains_key(chat_id) {
            self.chats[chat_id]
        } else {
            ChatStateView::initial()
        }
    }

    /// The same state with `banned` as its whole ban list.
    pub open spec fn with_ban_list(self, banned: Set<UserId>) -> ServiceStateView {
        ServiceStateView { chats: self.chats, banned }
    }

    /// The same state with the chat `chat_id` set to `chat`.
    pub open spec fn with_chat(self, chat_id: ChatId, chat: ChatStateView) -> ServiceStateView {
        ServiceStateView { chats: self.chats.insert(chat_id, chat), banned: self.banned }
    }
}

/// The views of the stored chats, by chat.
pub open spec fn chat_views(chats: Map<ChatId, ChatState>) -> Map<ChatId, ChatStateView> {
    Map::new(|id: ChatId| chats.contains_key(id), |id: ChatId| chats[id]@)
}

impl View for ServiceState {
    type V = ServiceStateView;

    open spec fn view(&self) -> ServiceStateView {
        ServiceStateView {
            chats: chat_views(self.tg_chat_states@),
            banned: self.cas_banned_ids@,
        }
    }
}

impl Default for ServiceState {
    fn default() -> (state: Self)
        ensures
            state@ == ServiceStateView::empty(),
    {
        let state = ServiceState { tg_chat_states: HashMap::new(), cas_banned_ids: HashSet::new() };
        assert(state@.chats =~= Map::<ChatId, ChatStateView>::empty());
        state
    }
}

impl ServiceState {
    /// The state of a chat, which is created in its initial state if the
    /// store does not hold it yet.
    pub fn get_chat_state(&mut self, chat_id: ChatId) -> (chat: ChatState)
        ensures
            chat@ == old(self)@.chat(chat_id),
            final(self)@ == old(self)@.with_chat(chat_id, old(self)@.chat(chat_id)),
    {
        if !self.tg_chat_states.contains_key(&chat_id) {
            self.tg_chat_states.insert(chat_id, ChatState::default());
        }
        let stored = self.tg_chat_states.get(&chat_id);
        let chat = match stored {
            Some(found) => found.clone(),
            None => ChatState::default(),
        };
        assert(self@.chats =~= old(self)@.with_chat(chat_id, old(self)@.chat(chat_id)).chats);
        chat
    }

    /// Stores `chat` as the state of `chat_id`.
    pub fn set_chat_state(&mut self, chat_id: ChatId, chat: ChatState)
        ensures
            final(self)@ == old(self)@.with_chat(chat_id, chat@),
    {
        self.tg_chat_states.insert(chat_id, chat);
        assert(self@.chats =~= old(self)@.with_chat(chat_id, chat@).chats);
    }
}

impl ServiceState {
    /// Whether `user_id` is on the ban list as it stands.
    pub fn is_banned(&self, user_id: UserId) -> (b: bool)
        ensures
            b == self@.banned.contains(user_id),
    {
        self.cas_banned_ids.contains(&user_id)
    }

    /// Installs a freshly fetched ban list in place of the one in use. The
    /// list is replaced as a whole: afterwards it is the new set and nothing
    /// of the old one, and the chats are untouched.
    pub fn update_cas_banned_ids(&mut self, new_list: HashSet<UserId>)
        ensures
            final(self)@ == old(self)@.with_ban_list(new_list@),
    {
        self.cas_banned_ids = new_list;
    }

    /// The state that a snapshot holds.
    pub fn from(value: SaveableServiceState) -> (state: Self)
        ensures
            state@ == value@,
    {
        ServiceState { tg_chat_states: value.tg_chat_stats, cas_banned_ids: value.cas_banned_ids }
    }

    /// The state to start with: that of the snapshot that was read, or the
    /// empty state where none was stored or the stored one could not be
    /// read.
    pub fn restore(loaded: Option<SaveableServiceState>) -> (state: Self)
        ensures
            state@ == restored_view(loaded),
    {
        match loaded {
            Some(snapshot) => ServiceState::from(snapshot),
            None => ServiceState::default(),
        }
    }
}

impl ServiceStateView {
    /// The state without chats and without banned users.
    pub open spec fn empty() -> ServiceStateView {
        ServiceStateView { chats: Map::empty(), banned: Set::empty() }
    }
}

/// The state that is started with after `loaded` was read.
pub open spec fn restored_view(loaded: Option<SaveableServiceState>) -> ServiceStateView {
    match loaded {
        Some(snapshot) => snapshot@,
        None => ServiceStateView::empty(),
    }
}

/// The state of one chat as it is written to a snapshot: all of it.
pub type SaveableChatState = ChatState;

/// The whole state as it is written to durable storage.
#[derive(Debug, PartialEq, Eq)]
pub struct SaveableServiceState {
    pub tg_chat_stats: HashMap<ChatId, SaveableChatState>,
    pub cas_banned_ids: HashSet<UserId>,
}

impl View for SaveableServiceState {
    type V = ServiceStateView;

    open spec fn view(&self) -> ServiceStateView {
        ServiceStateView { chats: chat_views(self.tg_chat_stats@), banned: self.cas_banned_ids@ }
    }
}

impl SaveableServiceState {
    /// Copies the state into a snapshot. The state itself is left as it is
    /// and can be changed at once.
    pub fn from_ref(state: &ServiceState) -> (snapshot: Self)
        ensures
            snapshot@ == state@,
    {
        SaveableServiceState {
            tg_chat_stats: state.tg_chat_states.clone(),
            cas_banned_ids: crate::snapshot::copy_users(&state.cas_banned_ids),
        }
    }
}

/// The state after the ban lists of `lists` were installed one after the
/// other.
pub open spec fn after_installs(state: ServiceStateView, lists: Seq<Set<UserId>>)
    -> ServiceStateView
    decreases lists.len(),
{
    if lists.len() == 0 {
        state
    } else {
        after_installs(state, lists.drop_last()).with_ban_list(lists.last())
    }
}

/// However many ban lists were installed, the ban list in use is one of
/// them as a whole, the last one, or the list that was there before the
/// first: it is never a mixture of two. The chats are untouched.
pub proof fn lemma_ban_list_is_one_installed(state: ServiceStateView, lists: Seq<Set<UserId>>)
    ensures
        after_installs(state, lists).banned == if lists.len() == 0 {
            state.banned
        } else {
            lists.last()
        },
        after_installs(state, lists).chats == state.chats,
    decreases lists.len(),
{
    if lists.len() > 0 {
        lemma_ban_list_is_one_installed(state, lists.drop_last());
    }
}

} // verus!
