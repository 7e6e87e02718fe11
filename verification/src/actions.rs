//! What the moderation rules ask of the messaging client, and the notices
//! that are rendered for a chat.

use crate::state::{ChatId, ChatState, ChatStateView, Language, MessageId, Mode, UserId};
use vstd::prelude::*;

verus! {

/// A command, as the usage notice names it.
#[derive(Debug, Clone, Copy, PartialEq, Eq, Structural)]
pub enum Usage {
    Inject,
    SetMode,
    SetLang,
}

impl Usage {
    /// The schema of the command, as shown to the user.
    pub open spec fn schema_text(self) -> Seq<char> {
        match self {
            Usage::Inject => "/inject <directive text>"@,
            Usage::SetMode => "/set_mode [ban|notify]"@,
            Usage::SetLang => "/set_lang [en|ru]"@,
        }
    }

    pub fn schema(&self) -> (s: &'static str)
        ensures
            s@ == self.schema_text(),
    {
        match self {
            Usage::Inject => "/inject <directive text>",
            Usage::SetMode => "/set_mode [ban|notify]",
            Usage::SetLang => "/set_lang [en|ru]",
        }
    }
}

/// Why a user was acted upon.
#[derive(Debug, PartialEq, Eq)]
pub enum Reason {
    /// The user is on the global ban list.
    BanList,
    /// The classifier flagged the message.
    Flagged { primary_reason: String, reason_details: String },
}

/// The mathematical content of a [`Reason`].
pub enum ReasonView {
    BanList,
    Flagged { primary_reason: Seq<char>, reason_details: Seq<char> },
}

impl View for Reason {
    type V = ReasonView;

    open spec fn view(&self) -> ReasonView {
        match self {
            Reason::BanList => ReasonView::BanList,
            Reason::Flagged { primary_reason, reason_details } => ReasonView::Flagged {
                primary_reason: primary_reason@,
                reason_details: reason_details@,
            },
        }
    }
}

/// A text for a chat, named by its template and the values it is rendered
/// from.
#[derive(Debug, PartialEq, Eq)]
pub enum Notice {
    Antispam { lang: Language, user_id: UserId, reason: Reason },
    Help { lang: Language },
    ClearInjects { lang: Language },
    CommandUsage { lang: Language, command: Usage },
    Inject { lang: Language },
    SetLang { lang: Language },
    SetMode { lang: Language, mode: Mode },
    ToggleInject { lang: Language, activated: bool },
    Status { chat: ChatState },
}

/// The mathematical content of a [`Notice`].
pub enum NoticeView {
    Antispam { lang: Language, user_id: UserId, reason: ReasonView },
    Help { lang: Language },
    ClearInjects { lang: Language },
    CommandUsage { lang: Language, command: Usage },
    Inject { lang: Language },
    SetLang { lang: Language },
    SetMode { lang: Language, mode: Mode },
    ToggleInject { lang: Language, activated: bool },
    Status { chat: ChatStateView },
}

impl View for Notice {
    type V = NoticeView;

    open spec fn view(&self) -> NoticeView {
        match self {
            Notice::Antispam { lang, user_id, reason } => NoticeView::Antispam {
                lang: *lang,
                user_id: *user_id,
                reason: reason@,
            },
            Notice::Help { lang } => NoticeView::Help { lang: *lang },
            Notice::ClearInjects { lang } => NoticeView::ClearInjects { lang: *lang },
            Notice::CommandUsage { lang, command } => NoticeView::CommandUsage {
                lang: *lang,
                command: *command,
            },
            Notice::Inject { lang } => NoticeView::Inject { lang: *lang },
            Notice::SetLang { lang } => NoticeView::SetLang { lang: *lang },
            Notice::SetMode { lang, mode } => NoticeView::SetMode { lang: *lang, mode: *mode },
            Notice::ToggleInject { lang, activated } => NoticeView::ToggleInject {
                lang: *lang,
                activated: *activated,
            },
            Notice::Status { chat } => NoticeView::Status { chat: chat@ },
        }
    }
}

/// One call to the messaging client.
#[derive(Debug, PartialEq, Eq)]
pub enum Action {
    BanUser { chat_id: ChatId, user_id: UserId },
    DeleteMessage { chat_id: ChatId, message_id: MessageId },
    SendMessage { chat_id: ChatId, notice: Notice },
    Reply { chat_id: ChatId, message_id: MessageId, notice: Notice },
}

/// The mathematical content of an [`Action`].
pub enum ActionView {
    BanUser { chat_id: ChatId, user_id: UserId },
    DeleteMessage { chat_id: ChatId, message_id: MessageId },
    SendMessage { chat_id: ChatId, notice: NoticeView },
    Reply { chat_id: ChatId, message_id: MessageId, notice: NoticeView },
}

impl View for Action {
    type V = ActionView;

    open spec fn view(&self) -> ActionView {
        match self {
            Action::BanUser { chat_id, user_id } => ActionView::BanUser {
                chat_id: *chat_id,
                user_id: *user_id,
            },
            Action::DeleteMessage { chat_id, message_id } => ActionView::DeleteMessage {
                chat_id: *chat_id,
                message_id: *message_id,
            },
            Action::SendMessage { chat_id, notice } => ActionView::SendMessage {
                chat_id: *chat_id,
                notice: notice@,
            },
            Action::Reply { chat_id, message_id, notice } => ActionView::Reply {
                chat_id: *chat_id,
                message_id: *message_id,
                notice: notice@,
            },
        }
    }
}

impl Action {
    /// Whether the calls that follow this one are still made, given whether
    /// this one failed: they are after a success, and after a failed
    /// deletion, which is passed over. Any other failure ends the handling
    /// of the update.
    pub fn goes_on_after(&self, failed: bool) -> (go_on: bool)
        ensures
            go_on == (!failed || self@ is DeleteMessage),
    {
        !failed || self.is_best_effort()
    }

    /// Whether a failure of the call is passed over: only a deletion is, as
    /// the message may be gone already.
    pub fn is_best_effort(&self) -> (b: bool)
        ensures
            b == (self@ is DeleteMessage),
    {
        match self {
            Action::DeleteMessage { .. } => true,
            _ => false,
        }
    }
}

/// The views of a list of actions, in order.
pub open spec fn action_views(actions: Seq<Action>) -> Seq<ActionView> {
    Seq::new(actions.len(), |i: int| actions[i]@)
}

} // verus!
