//! The moderation checks that every message passes before a command is
//! looked at: the ban-list check, then the quarantine check.

use crate::actions::{action_views, Action, ActionView, Notice, NoticeView, Reason, ReasonView};
use crate::classifier::MalformedVerdict;
use crate::prompts::{
    clone_directives, directive_views, AdminDirectiveView, AdminInjectionContext, AnalysisReport,
    AnalysisReportView, AssessmentOutcome, MessageAnalysisContext,
};
use crate::prompt_manager::PromptManager;
use crate::provider::{ChatMessage, Provider, ProviderError};
use crate::quarantine::{
    after_message, count_message, is_under_quarantine, QuarantineView,
    QUARANTINED_MESSAGES_AMOUNT_INITIAL,
};
use crate::state::{
    ChatId, ChatState, ChatStateView, Language, MessageId, Mode, ServiceState, ServiceStateView,
    UserId,
};
use crate::update::{Message, User};
use core::ops::ControlFlow;
use std::collections::HashSet;
use vstd::prelude::*;
use vstd::string::StringExecFns;

verus! {

broadcast use vstd::std_specs::hash::group_hash_axioms;

/// What a check decided: to let the message go on to the next check, or to
/// stop there after the calls it names, in order.
#[derive(Debug, PartialEq, Eq)]
pub enum Handled {
    Continue,
    Break(Vec<Action>),
}

/// The mathematical content of a [`Handled`].
pub enum HandledView {
    Continue,
    Break(Seq<ActionView>),
}

impl View for Handled {
    type V = HandledView;

    open spec fn view(&self) -> HandledView {
        match self {
            Handled::Continue => HandledView::Continue,
            Handled::Break(actions) => HandledView::Break(action_views(actions@)),
        }
    }
}

impl HandledView {
    /// The calls that the decision names: none where the message goes on.
    pub open spec fn actions(self) -> Seq<ActionView> {
        match self {
            HandledView::Continue => Seq::empty(),
            HandledView::Break(actions) => actions,
        }
    }
}

impl Handled {
    /// Whether the chain goes on after this decision.
    pub fn flow(&self) -> (flow: ControlFlow<()>)
        ensures
            flow == if self@ is Continue {
                ControlFlow::<(), ()>::Continue(())
            } else {
                ControlFlow::<(), ()>::Break(())
            },
    {
        match self {
            Handled::Continue => ControlFlow::Continue(()),
            Handled::Break(_) => ControlFlow::Break(()),
        }
    }
}

/// Whether `user_id` is in the set of banned users.
pub fn is_banned(banned: &HashSet<UserId>, user_id: UserId) -> (b: bool)
    ensures
        b == banned@.contains(user_id),
{
    banned.contains(&user_id)
}

/// What is done with a message of a banned user: the user is banned from the
/// chat, the message is deleted, and the chat is told.
pub open spec fn ban_list_actions(
    lang: Language,
    chat_id: ChatId,
    user_id: UserId,
    message_id: MessageId,
) -> Seq<ActionView> {
    seq![
        ActionView::BanUser { chat_id, user_id },
        ActionView::DeleteMessage { chat_id, message_id },
        ActionView::SendMessage {
            chat_id,
            notice: NoticeView::Antispam { lang, user_id, reason: ReasonView::BanList },
        },
    ]
}

/// The calls for a message of a banned user.
pub fn cas_ban_actions(lang: Language, chat_id: ChatId, user_id: UserId, message_id: MessageId) -> (actions:
    Vec<Action>)
    ensures
        action_views(actions@) == ban_list_actions(lang, chat_id, user_id, message_id),
{
    let mut actions: Vec<Action> = Vec::new();
    actions.push(Action::BanUser { chat_id, user_id });
    actions.push(Action::DeleteMessage { chat_id, message_id });
    actions.push(
        Action::SendMessage {
            chat_id,
            notice: Notice::Antispam { lang, user_id, reason: Reason::BanList },
        },
    );
    assert(action_views(actions@) =~= ban_list_actions(lang, chat_id, user_id, message_id));
    actions
}

/// The ban-list check.
#[derive(Debug, Clone, Copy, PartialEq, Eq)]
pub struct CasBan;

/// The decision of the ban-list check on a message from `user_id`.
pub open spec fn cas_ban_decision(
    state: ServiceStateView,
    chat_id: ChatId,
    user_id: UserId,
    message_id: MessageId,
) -> HandledView {
    if state.banned.contains(user_id) {
        HandledView::Break(
            ban_list_actions(state.chat(chat_id).language, chat_id, user_id, message_id),
        )
    } else {
        HandledView::Continue
    }
}

/// The state after the ban-list check: a hit looks the chat up, which
/// creates it where it was not stored; nothing else changes.
pub open spec fn cas_ban_state(
    state: ServiceStateView,
    chat_id: ChatId,
    user_id: UserId,
) -> ServiceStateView {
    if state.banned.contains(user_id) {
        state.with_chat(chat_id, state.chat(chat_id))
    } else {
        state
    }
}

impl CasBan {
    pub fn new() -> Self {
        CasBan
    }

    /// Looks the sender up in the ban list. On a hit the sender is banned,
    /// whatever the message says and before anything is counted.
    pub fn check(&self, state: &mut ServiceState, message: &Message) -> (handled: Handled)
        requires
            message.from is Some,
        ensures
            handled@ == cas_ban_decision(
                old(state)@,
                message.chat_id,
                message.from->0.id,
                message.message_id,
            ),
            final(state)@ == cas_ban_state(old(state)@, message.chat_id, message.from->0.id),
    {
        let user_id = match &message.from {
            Some(user) => user.id,
            None => 0,
        };
        if is_banned(&state.cas_banned_ids, user_id) {
            let chat = state.get_chat_state(message.chat_id);
            let actions = cas_ban_actions(
                chat.language,
                message.chat_id,
                user_id,
                message.message_id,
            );
            Handled::Break(actions)
        } else {
            Handled::Continue
        }
    }
}

/// Why no verdict was reached on a message.
#[derive(Debug, PartialEq, Eq)]
pub enum AnalysisError {
    /// A prompt could not be rendered.
    Prompt,
    /// The classifier could not be reached or gave no answer.
    Provider(ProviderError),
    /// The classifier's answer was no verdict.
    Malformed(MalformedVerdict),
}

/// Reads what the provider gave: an error of the provider stays one, and
/// its text is read as a verdict.
pub fn interpret_answer(answer: Result<String, ProviderError>) -> (r: Result<
    AnalysisReport,
    AnalysisError,
>)
    ensures
        match answer {
            Err(e) => r == Err::<AnalysisReport, _>(AnalysisError::Provider(e)),
            Ok(raw) => match r {
                Ok(report) => crate::classifier::verdict_in(raw@) == Some(report@),
                Err(e) => {
                    &&& crate::classifier::verdict_in(raw@) is None
                    &&& e matches AnalysisError::Malformed(m)
                    &&& m.raw@ == raw@
                },
            },
        },
{
    match answer {
        Err(e) => Err(AnalysisError::Provider(e)),
        Ok(raw) => match crate::classifier::parse_verdict(raw.as_str()) {
            Ok(report) => Ok(report),
            Err(e) => Err(AnalysisError::Malformed(e)),
        },
    }
}

/// Renders the prompts of a request and puts them into a conversation.
/// `None` where a prompt cannot be rendered.
pub fn render_conversation(prompts: &PromptManager, request: &ClassifierRequest) -> (messages:
    Option<Vec<ChatMessage>>)
    ensures
        messages matches Some(list) ==> {
            &&& list@.len() == if request.injection is Some {
                3nat
            } else {
                2nat
            }
            &&& list@[0] is System
            &&& forall|i: int| 1 <= i < list@.len() ==> list@[i] is User
        },
{
    let system_prompt = match prompts.moderator_system_prompt() {
        Some(text) => text,
        None => {
            return None;
        },
    };
    let admin_prompt = match &request.injection {
        Some(context) => match prompts.admin_prompt_inject(context) {
            Some(text) => Some(text),
            None => {
                return None;
            },
        },
        None => None,
    };
    let check_prompt = match prompts.check_message_prompt(&request.analysis) {
        Some(text) => text,
        None => {
            return None;
        },
    };
    let messages = crate::classifier::build_conversation(system_prompt, admin_prompt, check_prompt);
    assert(crate::classifier::turns(messages@).len() == messages@.len());
    Some(messages)
}

/// The reason named where a flag comes without one.
pub open spec fn default_primary_reason() -> Seq<char> {
    "AI Spam Filter"@
}

/// The details given where a flag comes without them.
pub open spec fn default_reason_details() -> Seq<char> {
    "No details provided."@
}

/// What is done with a flagged message: the sender is banned where the chat
/// is in ban mode, and only there; the message is deleted; the chat is told
/// the reason.
pub open spec fn flag_actions(
    mode: Mode,
    lang: Language,
    chat_id: ChatId,
    user_id: UserId,
    message_id: MessageId,
    report: AnalysisReportView,
) -> Seq<ActionView> {
    let ban = if mode == Mode::Ban {
        seq![ActionView::BanUser { chat_id, user_id }]
    } else {
        Seq::empty()
    };
    ban + seq![
        ActionView::DeleteMessage { chat_id, message_id },
        ActionView::SendMessage {
            chat_id,
            notice: NoticeView::Antispam {
                lang,
                user_id,
                reason: ReasonView::Flagged {
                    primary_reason: match report.primary_reason {
                        Some(r) => r,
                        None => default_primary_reason(),
                    },
                    reason_details: match report.detailed_reasoning {
                        Some(r) => r,
                        None => default_reason_details(),
                    },
                },
            },
        },
    ]
}

/// The decision on a message once the classifier was asked: a flag stops
/// the chain with its actions; a pass, and any failure to get a verdict,
/// lets the message through with nothing done.
pub open spec fn verdict_decision(
    verdict: Option<AnalysisReportView>,
    mode: Mode,
    lang: Language,
    chat_id: ChatId,
    user_id: UserId,
    message_id: MessageId,
) -> HandledView {
    match verdict {
        Some(report) => if report.assessment_outcome == AssessmentOutcome::Flag {
            HandledView::Break(flag_actions(mode, lang, chat_id, user_id, message_id, report))
        } else {
            HandledView::Continue
        },
        None => HandledView::Continue,
    }
}

/// The verdict in an answer, if it holds one.
pub open spec fn verdict_of(answer: Result<AnalysisReport, AnalysisError>) -> Option<
    AnalysisReportView,
> {
    match answer {
        Ok(report) => Some(report@),
        Err(_) => None,
    }
}

/// Whether an answer is a flag.
pub open spec fn is_flag(verdict: Option<AnalysisReportView>) -> bool {
    verdict is Some && verdict->0.assessment_outcome == AssessmentOutcome::Flag
}

/// Decides on a message from the classifier's answer and the chat's mode.
pub fn decide_on_verdict(
    answer: &Result<AnalysisReport, AnalysisError>,
    mode: Mode,
    lang: Language,
    chat_id: ChatId,
    user_id: UserId,
    message_id: MessageId,
) -> (handled: Handled)
    ensures
        handled@ == verdict_decision(verdict_of(*answer), mode, lang, chat_id, user_id, message_id),
{
    match answer {
        Ok(report) => {
            if report.assessment_outcome == AssessmentOutcome::Flag {
                let primary_reason = match &report.primary_reason {
                    Some(r) => r.clone(),
                    None => "AI Spam Filter".to_owned(),
                };
                let reason_details = match &report.detailed_reasoning {
                    Some(r) => r.clone(),
                    None => "No details provided.".to_owned(),
                };
                let mut actions: Vec<Action> = Vec::new();
                if mode == Mode::Ban {
                    actions.push(Action::BanUser { chat_id, user_id });
                }
                actions.push(Action::DeleteMessage { chat_id, message_id });
                actions.push(
                    Action::SendMessage {
                        chat_id,
                        notice: Notice::Antispam {
                            lang,
                            user_id,
                            reason: Reason::Flagged { primary_reason, reason_details },
                        },
                    },
                );
                assert(action_views(actions@) =~= flag_actions(
                    mode,
                    lang,
                    chat_id,
                    user_id,
                    message_id,
                    report@,
                ));
                Handled::Break(actions)
            } else {
                Handled::Continue
            }
        },
        Err(_) => Handled::Continue,
    }
}

/// The mathematical content of a [`MessageAnalysisContext`].
pub struct MessageAnalysisContextView {
    pub original_message_text: Seq<char>,
    pub user_account_name: Seq<char>,
    pub user_account_description: Option<Seq<char>>,
    pub user_account_join_date: Option<Seq<char>>,
    pub output_language: Seq<char>,
}

impl View for MessageAnalysisContext {
    type V = MessageAnalysisContextView;

    open spec fn view(&self) -> MessageAnalysisContextView {
        MessageAnalysisContextView {
            original_message_text: self.original_message_text@,
            user_account_name: self.user_account_name@,
            user_account_description: crate::prompts::text_view(self.user_account_description),
            user_account_join_date: crate::prompts::text_view(self.user_account_join_date),
            output_language: self.output_language@,
        }
    }
}

/// The values for the prompt about a message: its text, the sender's first
/// and last name with a space between them, the sender's user name as the
/// description, no join date, and the language to answer in.
pub open spec fn analysis_context(text: Seq<char>, user: User, lang: Language)
    -> MessageAnalysisContextView {
    MessageAnalysisContextView {
        original_message_text: text,
        user_account_name: user.first_name@ + " "@ + match user.last_name {
            Some(n) => n@,
            None => Seq::empty(),
        },
        user_account_description: crate::prompts::text_view(user.username),
        user_account_join_date: None,
        output_language: lang.identifier(),
    }
}

/// Gathers the values for the prompt about a message.
pub fn build_analysis_context(text: &str, user: &User, lang: Language) -> (context:
    MessageAnalysisContext)
    ensures
        context@ == analysis_context(text@, *user, lang),
{
    let mut name = user.first_name.clone();
    name.append(" ");
    match &user.last_name {
        Some(n) => {
            name.append(n.as_str());
        },
        None => {
            assert(name@ + Seq::<char>::empty() =~= name@);
        },
    }
    let description = match &user.username {
        Some(n) => Some(n.clone()),
        None => None,
    };
    MessageAnalysisContext {
        original_message_text: text.to_owned(),
        user_account_name: name,
        user_account_description: description,
        user_account_join_date: None,
        output_language: lang.as_identifier().to_owned(),
    }
}

/// The directives that go into the prompt: all of them where the chat has
/// them switched on and has any, none otherwise.
pub open spec fn injected_directives(chat: ChatStateView) -> Option<Seq<AdminDirectiveView>> {
    if chat.admin_prompt_injections_active && chat.admin_prompt_injections.len() > 0 {
        Some(chat.admin_prompt_injections)
    } else {
        None
    }
}

/// The views of the directives in an optional context.
pub open spec fn injection_view(context: Option<AdminInjectionContext>) -> Option<
    Seq<AdminDirectiveView>,
> {
    match context {
        Some(c) => Some(directive_views(c.recent_admin_directives@)),
        None => None,
    }
}

/// Gathers the directives that go into the prompt.
pub fn build_injection_context(chat: &ChatState) -> (context: Option<AdminInjectionContext>)
    ensures
        injection_view(context) == injected_directives(chat@),
{
    if chat.admin_prompt_injections_active && chat.admin_prompt_injections.len() > 0 {
        Some(
            AdminInjectionContext {
                recent_admin_directives: clone_directives(&chat.admin_prompt_injections),
            },
        )
    } else {
        None
    }
}

/// What the classifier is to be asked about a message.
#[derive(Debug, PartialEq, Eq)]
pub struct ClassifierRequest {
    /// The administrators' directives to put before the message, if any.
    pub injection: Option<AdminInjectionContext>,
    /// The values of the prompt about the message.
    pub analysis: MessageAnalysisContext,
}

/// The mathematical content of a [`ClassifierRequest`].
pub struct ClassifierRequestView {
    pub injection: Option<Seq<AdminDirectiveView>>,
    pub analysis: MessageAnalysisContextView,
}

impl View for ClassifierRequest {
    type V = ClassifierRequestView;

    open spec fn view(&self) -> ClassifierRequestView {
        ClassifierRequestView {
            injection: injection_view(self.injection),
            analysis: self.analysis@,
        }
    }
}

/// The request for a message in a chat.
pub open spec fn classifier_request(chat: ChatStateView, message: Message) -> ClassifierRequestView {
    ClassifierRequestView {
        injection: injected_directives(chat),
        analysis: analysis_context(message.text_or_empty(), message.from->0, chat.language),
    }
}

/// The quarantine check.
#[derive(Debug, Clone, Copy, PartialEq, Eq)]
pub struct Quarantine {
    threshold: u8,
}

/// What a chat keeps about quarantine.
pub open spec fn quarantine_of(chat: ChatStateView) -> QuarantineView {
    QuarantineView { counters: chat.message_counter, exited: chat.quarantine_exited }
}

/// The state of a chat after a message of `user_id` was counted.
pub open spec fn chat_after_count(chat: ChatStateView, user_id: UserId, threshold: u8)
    -> ChatStateView {
    let q = after_message(quarantine_of(chat), user_id, threshold);
    ChatStateView { message_counter: q.counters, quarantine_exited: q.exited, ..chat }
}

/// The state of a chat after the verdict on a message of `user_id`: a
/// flagged user is acted upon, and the user's counter is removed.
pub open spec fn chat_after_verdict(
    chat: ChatStateView,
    user_id: UserId,
    verdict: Option<AnalysisReportView>,
) -> ChatStateView {
    if is_flag(verdict) {
        ChatStateView { message_counter: chat.message_counter.remove(user_id), ..chat }
    } else {
        chat
    }
}

impl Quarantine {
    /// The number of messages after which a user leaves quarantine.
    pub closed spec fn limit(self) -> u8 {
        self.threshold
    }

    /// The check with the usual threshold.
    pub fn new() -> (q: Self)
        ensures
            q.limit() == QUARANTINED_MESSAGES_AMOUNT_INITIAL,
    {
        Quarantine { threshold: QUARANTINED_MESSAGES_AMOUNT_INITIAL }
    }

    /// The check with a threshold of one's own.
    pub fn with_threshold(threshold: u8) -> (q: Self)
        ensures
            q.limit() == threshold,
    {
        Quarantine { threshold }
    }

    pub fn threshold(&self) -> (t: u8)
        ensures
            t == self.limit(),
    {
        self.threshold
    }

    /// Counts the message. While the sender is under quarantine the result
    /// is the request to put to the classifier; once the count reaches the
    /// threshold the counter is removed, the sender has left quarantine, and
    /// there is nothing to ask, for this message and for every later one.
    pub fn screen(&self, state: &mut ServiceState, message: &Message) -> (request: Option<
        ClassifierRequest,
    >)
        requires
            message.from is Some,
        ensures
            final(state)@ == old(state)@.with_chat(
                message.chat_id,
                chat_after_count(
                    old(state)@.chat(message.chat_id),
                    message.from->0.id,
                    self.limit(),
                ),
            ),
            request is Some == is_under_quarantine(
                quarantine_of(old(state)@.chat(message.chat_id)),
                message.from->0.id,
                self.limit(),
            ),
            request is Some ==> request->0@ == classifier_request(
                old(state)@.chat(message.chat_id),
                *message,
            ),
    {
        let mut chat = state.get_chat_state(message.chat_id);
        match &message.from {
            Some(user) => {
                let checked = count_message(
                    &mut chat.message_counter,
                    &mut chat.quarantine_exited,
                    user.id,
                    self.threshold,
                );
                let request = if checked {
                    let text = match &message.text {
                        Some(t) => t.as_str(),
                        None => "",
                    };
                    proof {
                        reveal_strlit("");
                        assert(""@ =~= Seq::<char>::empty());
                    }
                    Some(
                        ClassifierRequest {
                            injection: build_injection_context(&chat),
                            analysis: build_analysis_context(text, user, chat.language),
                        },
                    )
                } else {
                    None
                };
                state.set_chat_state(message.chat_id, chat);
                assert(final(state)@.chats =~= old(state)@.with_chat(
                    message.chat_id,
                    chat_after_count(
                        old(state)@.chat(message.chat_id),
                        message.from->0.id,
                        self.limit(),
                    ),
                ).chats);
                request
            },
            None => None,
        }
    }

    /// Asks the classifier about a message: renders the prompts, sends the
    /// conversation and reads the answer. Whatever the provider gives, a
    /// report that comes back is the verdict that some answer holds, and so
    /// conforms to the verdict schema; an answer that is reported as
    /// malformed holds no verdict and is kept as it came.
    pub fn analyze_message<P: Provider>(
        &self,
        provider: &P,
        prompts: &PromptManager,
        request: &ClassifierRequest,
    ) -> (r: Result<AnalysisReport, AnalysisError>)
        ensures
            r matches Ok(report) ==> report@.conforms() && exists|raw: Seq<char>|
                #[trigger] crate::classifier::verdict_in(raw) == Some(report@),
            r matches Err(AnalysisError::Malformed(m)) ==> crate::classifier::verdict_in(m.raw@)
                is None,
    {
        match render_conversation(prompts, request) {
            Some(messages) => {
                let r = interpret_answer(provider.chat(messages));
                r
            },
            None => Err(AnalysisError::Prompt),
        }
    }

    /// Decides on a message from the classifier's answer. A flag is acted
    /// upon as the chat's mode says, and the sender's counter is removed;
    /// anything else changes nothing and lets the message through.
    pub fn conclude(
        &self,
        state: &mut ServiceState,
        message: &Message,
        answer: &Result<AnalysisReport, AnalysisError>,
    ) -> (handled: Handled)
        requires
            message.from is Some,
        ensures
            handled@ == verdict_decision(
                verdict_of(*answer),
                old(state)@.chat(message.chat_id).working_mode,
                old(state)@.chat(message.chat_id).language,
                message.chat_id,
                message.from->0.id,
                message.message_id,
            ),
            final(state)@ == old(state)@.with_chat(
                message.chat_id,
                chat_after_verdict(
                    old(state)@.chat(message.chat_id),
                    message.from->0.id,
                    verdict_of(*answer),
                ),
            ),
    {
        let user_id = match &message.from {
            Some(user) => user.id,
            None => 0,
        };
        let mut chat = state.get_chat_state(message.chat_id);
        let handled = decide_on_verdict(
            answer,
            chat.working_mode,
            chat.language,
            message.chat_id,
            user_id,
            message.message_id,
        );
        match &handled {
            Handled::Break(_) => {
                chat.message_counter.remove(&user_id);
            },
            Handled::Continue => {},
        }
        state.set_chat_state(message.chat_id, chat);
        assert(final(state)@.chats =~= old(state)@.with_chat(
            message.chat_id,
            chat_after_verdict(
                old(state)@.chat(message.chat_id),
                message.from->0.id,
                verdict_of(*answer),
            ),
        ).chats);
        handled
    }
}

/// What a check asks for: a decision, or the classifier's answer before it
/// can decide.
#[derive(Debug, PartialEq, Eq)]
pub enum HandlerStep {
    Decided(Handled),
    Ask(ClassifierRequest),
}

/// The mathematical content of a [`HandlerStep`].
pub enum HandlerStepView {
    Decided(HandledView),
    Ask(ClassifierRequestView),
}

impl View for HandlerStep {
    type V = HandlerStepView;

    open spec fn view(&self) -> HandlerStepView {
        match self {
            HandlerStep::Decided(handled) => HandlerStepView::Decided(handled@),
            HandlerStep::Ask(request) => HandlerStepView::Ask(request@),
        }
    }
}

/// A moderation check on a message.
pub trait UpdateHandler {
    /// What the check decides or asks on `message` in `state`.
    spec fn step(&self, state: ServiceStateView, message: Message) -> HandlerStepView;

    /// The state that the check leaves.
    spec fn state_after(&self, state: ServiceStateView, message: Message) -> ServiceStateView;

    /// Handles the message. The result says how the chain goes on.
    fn handle(&self, state: &mut ServiceState, message: &Message) -> (step: HandlerStep)
        requires
            message.from is Some,
        ensures
            step@ == self.step(old(state)@, *message),
            final(state)@ == self.state_after(old(state)@, *message),
    ;
}

impl UpdateHandler for CasBan {
    open spec fn step(&self, state: ServiceStateView, message: Message) -> HandlerStepView {
        HandlerStepView::Decided(
            cas_ban_decision(state, message.chat_id, message.from->0.id, message.message_id),
        )
    }

    open spec fn state_after(&self, state: ServiceStateView, message: Message)
        -> ServiceStateView {
        cas_ban_state(state, message.chat_id, message.from->0.id)
    }

    fn handle(&self, state: &mut ServiceState, message: &Message) -> (step: HandlerStep) {
        HandlerStep::Decided(self.check(state, message))
    }
}

impl UpdateHandler for Quarantine {
    open spec fn step(&self, state: ServiceStateView, message: Message) -> HandlerStepView {
        if is_under_quarantine(
            quarantine_of(state.chat(message.chat_id)),
            message.from->0.id,
            self.limit(),
        ) {
            HandlerStepView::Ask(classifier_request(state.chat(message.chat_id), message))
        } else {
            HandlerStepView::Decided(HandledView::Continue)
        }
    }

    open spec fn state_after(&self, state: ServiceStateView, message: Message)
        -> ServiceStateView {
        state.with_chat(
            message.chat_id,
            chat_after_count(state.chat(message.chat_id), message.from->0.id, self.limit()),
        )
    }

    fn handle(&self, state: &mut ServiceState, message: &Message) -> (step: HandlerStep) {
        match self.screen(state, message) {
            Some(request) => HandlerStep::Ask(request),
            None => HandlerStep::Decided(Handled::Continue),
        }
    }
}

/// Any of the checks.
#[derive(Debug, Clone, Copy, PartialEq, Eq)]
pub enum AnyHandler {
    CasBan(CasBan),
    Quarantine(Quarantine),
}

impl UpdateHandler for AnyHandler {
    open spec fn step(&self, state: ServiceStateView, message: Message) -> HandlerStepView {
        match self {
            AnyHandler::CasBan(h) => h.step(state, message),
            AnyHandler::Quarantine(h) => h.step(state, message),
        }
    }

    open spec fn state_after(&self, state: ServiceStateView, message: Message)
        -> ServiceStateView {
        match self {
            AnyHandler::CasBan(h) => h.state_after(state, message),
            AnyHandler::Quarantine(h) => h.state_after(state, message),
        }
    }

    fn handle(&self, state: &mut ServiceState, message: &Message) -> (step: HandlerStep) {
        match self {
            AnyHandler::CasBan(h) => h.handle(state, message),
            AnyHandler::Quarantine(h) => h.handle(state, message),
        }
    }
}

/// Without a verdict nothing is done: a failure of the classifier, or an
/// answer that is no verdict, lets the message through, makes no call and
/// leaves the sender's counter as it is. The same holds of a pass.
pub proof fn lemma_fail_open(
    verdict: Option<AnalysisReportView>,
    chat: ChatStateView,
    chat_id: ChatId,
    user_id: UserId,
    message_id: MessageId,
)
    requires
        !is_flag(verdict),
    ensures
        verdict_decision(verdict, chat.working_mode, chat.language, chat_id, user_id, message_id)
            == HandledView::Continue,
        verdict_decision(
            verdict,
            chat.working_mode,
            chat.language,
            chat_id,
            user_id,
            message_id,
        ).actions().len() == 0,
        chat_after_verdict(chat, user_id, verdict) == chat,
{
}

/// A flag in ban mode stops the chain with exactly three calls: the sender
/// is banned once, the message is deleted once, and one notice is sent.
pub proof fn lemma_flag_in_ban_mode(
    report: AnalysisReportView,
    lang: Language,
    chat_id: ChatId,
    user_id: UserId,
    message_id: MessageId,
)
    requires
        report.assessment_outcome == AssessmentOutcome::Flag,
    ensures
        verdict_decision(Some(report), Mode::Ban, lang, chat_id, user_id, message_id)
            is Break,
        flag_actions(Mode::Ban, lang, chat_id, user_id, message_id, report).len() == 3,
        flag_actions(Mode::Ban, lang, chat_id, user_id, message_id, report)[0] == (
        ActionView::BanUser { chat_id, user_id }),
        flag_actions(Mode::Ban, lang, chat_id, user_id, message_id, report)[1] == (
        ActionView::DeleteMessage { chat_id, message_id }),
        flag_actions(Mode::Ban, lang, chat_id, user_id, message_id, report)[2] is SendMessage,
{
}

/// A ban is gated strictly by the mode: in notify mode a flag bans nobody,
/// and the notice is sent all the same.
pub proof fn lemma_notify_mode_never_bans(
    report: AnalysisReportView,
    lang: Language,
    chat_id: ChatId,
    user_id: UserId,
    message_id: MessageId,
)
    ensures
        forall|i: int|
            0 <= i < flag_actions(Mode::Notify, lang, chat_id, user_id, message_id, report).len()
                ==> !(#[trigger] flag_actions(
                Mode::Notify,
                lang,
                chat_id,
                user_id,
                message_id,
                report,
            )[i] is BanUser),
        flag_actions(Mode::Notify, lang, chat_id, user_id, message_id, report).len() == 2,
        flag_actions(Mode::Notify, lang, chat_id, user_id, message_id, report)[1] is SendMessage,
{
}

/// The exit from quarantine is terminal: a message of a user who has left
/// is let through without a question to the classifier, and the state stays
/// exactly as it is. No counter comes back for the user.
pub proof fn lemma_exited_user_passes(
    quarantine: Quarantine,
    state: ServiceStateView,
    message: Message,
)
    requires
        state.chat(message.chat_id).quarantine_exited.contains(message.from->0.id),
    ensures
        quarantine.step(state, message) == HandlerStepView::Decided(HandledView::Continue),
        quarantine.state_after(state, message) == state,
{
    let chat = state.chat(message.chat_id);
    assert(chat_after_count(chat, message.from->0.id, quarantine.limit()) == chat);
    assert(state.chats.contains_key(message.chat_id));
    assert(state.with_chat(message.chat_id, chat).chats =~= state.chats);
}

/// The state of a chat after `n` messages of `user_id` in a row were
/// counted.
pub open spec fn chat_after_counts(chat: ChatStateView, user_id: UserId, threshold: u8, n: nat)
    -> ChatStateView
    decreases n,
{
    if n == 0 {
        chat
    } else {
        chat_after_count(
            chat_after_counts(chat, user_id, threshold, (n - 1) as nat),
            user_id,
            threshold,
        )
    }
}

proof fn lemma_counts_touch_the_quarantine_only(
    chat: ChatStateView,
    user_id: UserId,
    threshold: u8,
    n: nat,
)
    ensures
        quarantine_of(chat_after_counts(chat, user_id, threshold, n))
            == crate::quarantine::after_messages(quarantine_of(chat), user_id, threshold, n),
        chat_after_counts(chat, user_id, threshold, n) == (ChatStateView {
            message_counter: chat_after_counts(chat, user_id, threshold, n).message_counter,
            quarantine_exited: chat_after_counts(chat, user_id, threshold, n).quarantine_exited,
            ..chat
        }),
    decreases n,
{
    if n > 0 {
        lemma_counts_touch_the_quarantine_only(chat, user_id, threshold, (n - 1) as nat);
    }
}

/// Once a user who was new to a chat has sent as many messages as the
/// threshold, or more, the chat holds no counter for the user and lists the
/// user as gone; nothing else in the chat has changed. By
/// [`lemma_exited_user_passes`] every later message of the user is then let
/// through unasked.
pub proof fn lemma_chat_leaves_quarantine(
    chat: ChatStateView,
    user_id: UserId,
    threshold: u8,
    n: nat,
)
    requires
        crate::quarantine::is_unseen(quarantine_of(chat), user_id),
        threshold >= 1,
        n >= threshold,
    ensures
        chat_after_counts(chat, user_id, threshold, n) == (ChatStateView {
            quarantine_exited: chat.quarantine_exited.insert(user_id),
            ..chat
        }),
        !chat_after_counts(chat, user_id, threshold, n).message_counter.contains_key(user_id),
{
    lemma_counts_touch_the_quarantine_only(chat, user_id, threshold, n);
    crate::quarantine::lemma_quarantine_course(quarantine_of(chat), user_id, threshold, n);
}

} // verus!
