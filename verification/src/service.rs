//! The dispatcher: what becomes of one inbound update, from the moderation
//! checks to the command it may carry.
//!
//! Network calls are not made here. Where the classifier has to be asked or
//! the administrators of a chat have to be fetched, the dispatcher stops and
//! says so; it is resumed with the answer.

use crate::actions::{action_views, Action, ActionView};
use crate::commands::{
    all_commands, command_parts, command_registry, find_command, registered, split_command,
    AnyCommand, Command, CommandContext, PermissionLevel,
};
use crate::handlers::{
    chat_after_verdict, verdict_decision, verdict_of, AnalysisError, AnyHandler, CasBan,
    ClassifierRequest, ClassifierRequestView, Handled, HandledView, HandlerStep, HandlerStepView,
    Quarantine, UpdateHandler,
};
use crate::prompts::AnalysisReport;
use crate::state::{ServiceState, ServiceStateView};
use crate::update::{is_admin_among, is_user_admin, ChatMember, Message, Update};
use vstd::prelude::*;

verus! {

/// The seconds between two polls for updates.
pub const POLL_INTERVAL_SECS: u64 = 3;

/// The seconds between two snapshots of the state.
pub const STATE_SAVE_INTERVAL_SECS: u64 = 30;

/// The seconds between two fetches of the ban list: one hour.
pub const CAS_REFRESH_INTERVAL_SECS: u64 = 3600;

/// How the chain of checks ended for a message.
#[derive(Debug, PartialEq, Eq)]
pub enum Chain {
    /// Every check let the message through.
    Passed,
    /// A check stopped the message; these are its calls.
    Stopped(Vec<Action>),
    /// The check at this place needs the classifier's answer.
    Asked { handler: usize, request: ClassifierRequest },
}

/// The mathematical content of a [`Chain`].
pub enum ChainView {
    Passed,
    Stopped(Seq<ActionView>),
    Asked { handler: int, request: ClassifierRequestView },
}

impl View for Chain {
    type V = ChainView;

    open spec fn view(&self) -> ChainView {
        match self {
            Chain::Passed => ChainView::Passed,
            Chain::Stopped(actions) => ChainView::Stopped(action_views(actions@)),
            Chain::Asked { handler, request } => ChainView::Asked {
                handler: *handler as int,
                request: request@,
            },
        }
    }
}

/// The checks from place `from` on, consulted strictly in order: the chain
/// ends at the first check that stops the message or has to ask, and the
/// checks after it are not consulted. The result is the state that is left
/// and how the chain ended.
pub open spec fn chain_from(
    handlers: Seq<AnyHandler>,
    from: int,
    state: ServiceStateView,
    message: Message,
) -> (ServiceStateView, ChainView)
    decreases handlers.len() - from,
{
    if from < 0 || from >= handlers.len() {
        (state, ChainView::Passed)
    } else {
        let next = handlers[from].state_after(state, message);
        match handlers[from].step(state, message) {
            HandlerStepView::Ask(request) => (next, ChainView::Asked { handler: from, request }),
            HandlerStepView::Decided(HandledView::Break(actions)) => (
                next,
                ChainView::Stopped(actions),
            ),
            HandlerStepView::Decided(HandledView::Continue) => chain_from(
                handlers,
                from + 1,
                next,
                message,
            ),
        }
    }
}

/// What the dispatcher did with an update, or what it waits for.
#[derive(Debug, PartialEq, Eq)]
pub enum Dispatch {
    /// The update is dealt with; these calls are to be made, in order.
    Done(Vec<Action>),
    /// The classifier is to be asked; the dispatcher is resumed with its
    /// answer, for the check at this place.
    AwaitVerdict { handler: usize, request: ClassifierRequest },
    /// The administrators of the chat are to be fetched; the dispatcher is
    /// resumed with them, for this command.
    AwaitAdmins { command: AnyCommand, ctx: CommandContext },
}

/// The mathematical content of a [`Dispatch`].
pub enum DispatchView {
    Done(Seq<ActionView>),
    AwaitVerdict { handler: int, request: ClassifierRequestView },
    AwaitAdmins { command: AnyCommand, message: Message, args: Seq<char> },
}

impl View for Dispatch {
    type V = DispatchView;

    open spec fn view(&self) -> DispatchView {
        match self {
            Dispatch::Done(actions) => DispatchView::Done(action_views(actions@)),
            Dispatch::AwaitVerdict { handler, request } => DispatchView::AwaitVerdict {
                handler: *handler as int,
                request: request@,
            },
            Dispatch::AwaitAdmins { command, ctx } => DispatchView::AwaitAdmins {
                command: *command,
                message: ctx.message,
                args: ctx.args_raw@,
            },
        }
    }
}

impl Dispatch {
    /// The result of an update that asks for nothing.
    pub fn nothing() -> (out: Dispatch)
        ensures
            out@ == DispatchView::Done(Seq::empty()),
    {
        let out = Dispatch::Done(Vec::new());
        assert(out@->Done_0 =~= Seq::empty());
        out
    }
}

/// The command that a message calls, with its arguments: the message's text
/// must begin with the command marker, and the token before its first space
/// must be a registered name. An unknown token calls nothing.
pub open spec fn pending_command(commands: Seq<AnyCommand>, message: Message) -> Option<
    (AnyCommand, Seq<char>),
> {
    match message.text {
        Some(text) => match command_parts(text@) {
            Some((name, args)) => match registered(commands, name) {
                Some(command) => Some((command, args)),
                None => None,
            },
            None => None,
        },
        None => None,
    }
}

/// Whether running `command` may take the state from `before` to `after`
/// with the calls `actions`: the command works on the state of the
/// message's chat, and its answer is sent as a reply to the message.
pub open spec fn command_run(
    command: AnyCommand,
    message: Message,
    args: Seq<char>,
    before: ServiceStateView,
    after: ServiceStateView,
    actions: Seq<ActionView>,
) -> bool {
    &&& after == before.with_chat(message.chat_id, after.chat(message.chat_id))
    &&& actions.len() == 1
    &&& actions[0] matches ActionView::Reply { chat_id, message_id, notice }
    &&& chat_id == message.chat_id
    &&& message_id == message.message_id
    &&& command.effect(
        before.chat(message.chat_id),
        message,
        args,
        after.chat(message.chat_id),
        notice,
    )
}

/// Whether the command stage may take the state from `before` to `after`
/// with the result `out`: a public command runs at once, a command for
/// administrators waits for the list of administrators, and a message that
/// calls no command does nothing.
pub open spec fn command_stage(
    commands: Seq<AnyCommand>,
    message: Message,
    before: ServiceStateView,
    after: ServiceStateView,
    out: DispatchView,
) -> bool {
    match pending_command(commands, message) {
        None => after == before && out == DispatchView::Done(Seq::empty()),
        Some((command, args)) => match command.required_permission() {
            PermissionLevel::Public => out is Done && command_run(
                command,
                message,
                args,
                before,
                after,
                out->Done_0,
            ),
            PermissionLevel::Admin => after == before && out == (DispatchView::AwaitAdmins {
                command,
                message,
                args,
            }),
        },
    }
}

/// Whether, once the chain ended as `chain` in the state `mid`, the
/// dispatcher may end in `after` with `out`: only a message that passed
/// every check reaches the command stage.
pub open spec fn after_chain(
    commands: Seq<AnyCommand>,
    message: Message,
    mid: ServiceStateView,
    chain: ChainView,
    after: ServiceStateView,
    out: DispatchView,
) -> bool {
    match chain {
        ChainView::Stopped(actions) => after == mid && out == DispatchView::Done(actions),
        ChainView::Asked { handler, request } => after == mid && out == (
        DispatchView::AwaitVerdict { handler, request }),
        ChainView::Passed => command_stage(commands, message, mid, after, out),
    }
}

/// The checks of the service: the ban-list check, then the quarantine check.
pub open spec fn standard_handlers(quarantine: Quarantine) -> Seq<AnyHandler> {
    seq![AnyHandler::CasBan(CasBan), AnyHandler::Quarantine(quarantine)]
}

/// The dispatcher with its checks and its commands, both fixed when it is
/// made.
#[derive(Debug, PartialEq, Eq)]
pub struct Service {
    pub update_handlers: Vec<AnyHandler>,
    pub command_registry: Vec<AnyCommand>,
}

impl Service {
    /// The service with the usual quarantine threshold.
    pub fn new() -> (service: Self)
        ensures
            service.command_registry@ == all_commands(),
            service.update_handlers@.len() == 2,
            service.update_handlers@[0] is CasBan,
            service.update_handlers@[1] is Quarantine,
            service.update_handlers@[1]->Quarantine_0.limit()
                == crate::quarantine::QUARANTINED_MESSAGES_AMOUNT_INITIAL,
    {
        Service::with_quarantine(Quarantine::new())
    }

    /// The service with a quarantine check of one's own.
    pub fn with_quarantine(quarantine: Quarantine) -> (service: Self)
        ensures
            service.command_registry@ == all_commands(),
            service.update_handlers@ == standard_handlers(quarantine),
    {
        let mut update_handlers: Vec<AnyHandler> = Vec::new();
        // the order matters: the cheap check comes first
        update_handlers.push(AnyHandler::CasBan(CasBan::new()));
        update_handlers.push(AnyHandler::Quarantine(quarantine));
        assert(update_handlers@ =~= standard_handlers(quarantine));
        Service { update_handlers, command_registry: command_registry() }
    }

    /// Installs the ban list that a freshly fetched export holds, in place of
    /// the one in use. The list is replaced as a whole, never changed in
    /// place: afterwards it is exactly the set of the export, and the chats
    /// are untouched.
    pub fn update_cas_banned_ids(&self, state: &mut ServiceState, export: &str)
        ensures
            final(state)@ == old(state)@.with_ban_list(crate::cas::ban_list_in(export@)),
    {
        state.update_cas_banned_ids(crate::cas::read_ban_list(export));
    }

    /// Whether the dispatcher may take the state from `before` to `after`
    /// on `update` with the result `out`. An update that is no message of a
    /// person changes nothing and asks for nothing.
    pub open spec fn dispatched(
        self,
        before: ServiceStateView,
        update: Update,
        after: ServiceStateView,
        out: DispatchView,
    ) -> bool {
        match update.moderated() {
            None => after == before && out == DispatchView::Done(Seq::empty()),
            Some(message) => {
                let (mid, chain) = chain_from(self.update_handlers@, 0, before, message);
                after_chain(self.command_registry@, message, mid, chain, after, out)
            },
        }
    }

    /// Whether the dispatcher, resumed with the classifier's `answer` for
    /// the quarantine check at place `handler`, may take the state from
    /// `before` to `after` with the result `out`.
    pub open spec fn resumed_with_verdict(
        self,
        before: ServiceStateView,
        message: Message,
        handler: int,
        answer: Result<AnalysisReport, AnalysisError>,
        after: ServiceStateView,
        out: DispatchView,
    ) -> bool {
        let chat = before.chat(message.chat_id);
        let user_id = message.from->0.id;
        let concluded = before.with_chat(
            message.chat_id,
            chat_after_verdict(chat, user_id, verdict_of(answer)),
        );
        match verdict_decision(
            verdict_of(answer),
            chat.working_mode,
            chat.language,
            message.chat_id,
            user_id,
            message.message_id,
        ) {
            HandledView::Break(actions) => after == concluded && out == DispatchView::Done(
                actions,
            ),
            HandledView::Continue => {
                let (mid, chain) = chain_from(
                    self.update_handlers@,
                    handler + 1,
                    concluded,
                    message,
                );
                after_chain(self.command_registry@, message, mid, chain, after, out)
            },
        }
    }

    /// Runs the checks from place `from` on.
    pub fn run_chain(&self, from: usize, state: &mut ServiceState, message: &Message) -> (chain:
        Chain)
        requires
            message.from is Some,
        ensures
            (final(state)@, chain@) == chain_from(
                self.update_handlers@,
                from as int,
                old(state)@,
                *message,
            ),
        decreases self.update_handlers@.len() - from,
    {
        if from >= self.update_handlers.len() {
            return Chain::Passed;
        }
        match self.update_handlers[from].handle(state, message) {
            HandlerStep::Ask(request) => Chain::Asked { handler: from, request },
            HandlerStep::Decided(Handled::Break(actions)) => Chain::Stopped(actions),
            HandlerStep::Decided(Handled::Continue) => self.run_chain(from + 1, state, message),
        }
    }

    /// Runs `command` on the state of the message's chat and wraps its
    /// answer into the reply to send.
    pub fn run_command(&self, state: &mut ServiceState, command: &AnyCommand, ctx: &CommandContext) -> (actions:
        Vec<Action>)
        requires
            ctx.message.from is Some,
        ensures
            command_run(
                *command,
                ctx.message,
                ctx.args_raw@,
                old(state)@,
                final(state)@,
                action_views(actions@),
            ),
    {
        let mut chat = state.get_chat_state(ctx.message.chat_id);
        let notice = command.execute(&mut chat, ctx);
        state.set_chat_state(ctx.message.chat_id, chat);
        let mut actions: Vec<Action> = Vec::new();
        actions.push(
            Action::Reply {
                chat_id: ctx.message.chat_id,
                message_id: ctx.message.message_id,
                notice,
            },
        );
        assert(final(state)@.chats =~= old(state)@.with_chat(
            ctx.message.chat_id,
            final(state)@.chat(ctx.message.chat_id),
        ).chats);
        actions
    }

    fn command_stage(&self, state: &mut ServiceState, message: &Message) -> (out: Dispatch)
        requires
            message.from is Some,
        ensures
            command_stage(self.command_registry@, *message, old(state)@, final(state)@, out@),
    {
        let text = match &message.text {
            Some(text) => text.as_str(),
            None => {
                return Dispatch::nothing();
            },
        };
        let (name, args) = match split_command(text) {
            Some(parts) => parts,
            None => {
                return Dispatch::nothing();
            },
        };
        let command = match find_command(&self.command_registry, name) {
            Some(command) => command,
            None => {
                return Dispatch::nothing();
            },
        };
        let ctx = CommandContext { message: message.clone(), args_raw: args.to_owned() };
        match command.permission() {
            PermissionLevel::Public => Dispatch::Done(self.run_command(state, &command, &ctx)),
            PermissionLevel::Admin => Dispatch::AwaitAdmins { command, ctx },
        }
    }

    fn finish(&self, state: &mut ServiceState, message: &Message, chain: Chain) -> (out: Dispatch)
        requires
            message.from is Some,
        ensures
            after_chain(
                self.command_registry@,
                *message,
                old(state)@,
                chain@,
                final(state)@,
                out@,
            ),
    {
        match chain {
            Chain::Stopped(actions) => Dispatch::Done(actions),
            Chain::Asked { handler, request } => Dispatch::AwaitVerdict { handler, request },
            Chain::Passed => self.command_stage(state, message),
        }
    }

    /// Deals with one update: passes over what is no message of a person,
    /// runs the checks in order and, where they all let the message
    /// through, looks for a command in it.
    pub fn dispatch_update(&self, state: &mut ServiceState, update: &Update) -> (out: Dispatch)
        ensures
            self.dispatched(old(state)@, *update, final(state)@, out@),
    {
        match update.message() {
            None => Dispatch::nothing(),
            Some(message) => {
                let chain = self.run_chain(0, state, message);
                self.finish(state, message, chain)
            },
        }
    }

    /// Goes on after the classifier answered for the quarantine check at
    /// place `handler`.
    pub fn resume_with_verdict(
        &self,
        state: &mut ServiceState,
        message: &Message,
        handler: usize,
        answer: &Result<AnalysisReport, AnalysisError>,
    ) -> (out: Dispatch)
        requires
            message.from is Some,
            handler < self.update_handlers@.len(),
            self.update_handlers@[handler as int] is Quarantine,
        ensures
            self.resumed_with_verdict(
                old(state)@,
                *message,
                handler as int,
                *answer,
                final(state)@,
                out@,
            ),
    {
        let count = self.update_handlers.len();
        let handled = match &self.update_handlers[handler] {
            AnyHandler::Quarantine(quarantine) => quarantine.conclude(state, message, answer),
            AnyHandler::CasBan(_) => Handled::Continue,
        };
        match handled {
            Handled::Break(actions) => Dispatch::Done(actions),
            Handled::Continue => {
                let chain = self.run_chain(handler + 1, state, message);
                self.finish(state, message, chain)
            },
        }
    }

    /// Goes on after the administrators of the chat were fetched: the
    /// command runs where its sender is among them, and is passed over in
    /// silence where not.
    pub fn resume_with_admins(
        &self,
        state: &mut ServiceState,
        command: &AnyCommand,
        ctx: &CommandContext,
        admins: &Vec<ChatMember>,
    ) -> (actions: Vec<Action>)
        requires
            ctx.message.from is Some,
        ensures
            if is_admin_among(admins@, ctx.message.from->0.id) {
                command_run(
                    *command,
                    ctx.message,
                    ctx.args_raw@,
                    old(state)@,
                    final(state)@,
                    action_views(actions@),
                )
            } else {
                final(state)@ == old(state)@ && actions@.len() == 0
            },
    {
        let user_id = match &ctx.message.from {
            Some(user) => user.id,
            None => 0,
        };
        if is_user_admin(admins, user_id) {
            self.run_command(state, command, ctx)
        } else {
            Vec::new()
        }
    }
}

/// A user on the ban list is banned on the very first message, whatever it
/// says: the dispatcher ends with the calls of the ban-list check, asks the
/// classifier nothing, runs no command, and counts nothing for the user.
pub proof fn lemma_banned_user_is_stopped_first(
    service: Service,
    quarantine: Quarantine,
    before: ServiceStateView,
    update: Update,
    after: ServiceStateView,
    out: DispatchView,
)
    requires
        service.update_handlers@ == standard_handlers(quarantine),
        update.moderated() is Some,
        before.banned.contains(update.moderated()->0.from->0.id),
        service.dispatched(before, update, after, out),
    ensures
        out == DispatchView::Done(
            crate::handlers::ban_list_actions(
                before.chat(update.moderated()->0.chat_id).language,
                update.moderated()->0.chat_id,
                update.moderated()->0.from->0.id,
                update.moderated()->0.message_id,
            ),
        ),
        after.chat(update.moderated()->0.chat_id) == before.chat(update.moderated()->0.chat_id),
        after.banned == before.banned,
{
    let message = update.moderated()->0;
    let handlers = service.update_handlers@;
    assert(handlers[0] == AnyHandler::CasBan(CasBan));
    reveal_with_fuel(chain_from, 2);
}

/// A user who is not on the ban list and is under quarantine has the
/// message counted once and handed to the classifier; no call is made
/// before the classifier has answered.
pub proof fn lemma_quarantined_message_is_asked_about(
    service: Service,
    quarantine: Quarantine,
    before: ServiceStateView,
    update: Update,
    after: ServiceStateView,
    out: DispatchView,
)
    requires
        service.update_handlers@ == standard_handlers(quarantine),
        update.moderated() is Some,
        !before.banned.contains(update.moderated()->0.from->0.id),
        crate::quarantine::is_under_quarantine(
            crate::handlers::quarantine_of(before.chat(update.moderated()->0.chat_id)),
            update.moderated()->0.from->0.id,
            quarantine.limit(),
        ),
        service.dispatched(before, update, after, out),
    ensures
        out == (DispatchView::AwaitVerdict {
            handler: 1,
            request: crate::handlers::classifier_request(
                before.chat(update.moderated()->0.chat_id),
                update.moderated()->0,
            ),
        }),
        after == before.with_chat(
            update.moderated()->0.chat_id,
            crate::handlers::chat_after_count(
                before.chat(update.moderated()->0.chat_id),
                update.moderated()->0.from->0.id,
                quarantine.limit(),
            ),
        ),
{
    let handlers = service.update_handlers@;
    assert(handlers[0] == AnyHandler::CasBan(CasBan));
    assert(handlers[1] == AnyHandler::Quarantine(quarantine));
    reveal_with_fuel(chain_from, 3);
}

/// After `/set_mode notify` a flag bans nobody: the calls for a flagged
/// message in the chat hold no ban, and the notice is still sent.
pub proof fn lemma_notify_then_flag(
    before: crate::state::ChatStateView,
    command: Message,
    args: Seq<char>,
    after: crate::state::ChatStateView,
    reply: crate::actions::NoticeView,
    report: crate::prompts::AnalysisReportView,
    flagged: Message,
)
    requires
        crate::commands::mode_named(args) == Some(crate::state::Mode::Notify),
        crate::commands::SetMode.effect(before, command, args, after, reply),
        report.assessment_outcome == crate::prompts::AssessmentOutcome::Flag,
    ensures
        verdict_decision(
            Some(report),
            after.working_mode,
            after.language,
            flagged.chat_id,
            flagged.from->0.id,
            flagged.message_id,
        ) matches HandledView::Break(actions) && actions.len() == 2 && actions[0]
            is DeleteMessage && actions[1] is SendMessage,
{
}

} // verus!
