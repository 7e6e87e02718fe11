//! The chat commands: what each does to the state of a chat and what it
//! answers, and who may run it.

use crate::actions::{Notice, NoticeView, Usage};
use crate::prompts::{AdminDirective, AdminDirectiveView};
use crate::state::{language_named, ChatState, ChatStateView, Language, Mode};
use crate::text::{
    ascii_lowered, eq_ignore_ascii_case, first_index, same_text, split_once, starts_with_char,
    trim, trim_ascii, trimmed, trimmed_ascii,
};
use crate::update::Message;
use vstd::prelude::*;

verus! {

/// Who may run a command.
#[derive(Debug, Clone, Copy, PartialEq, Eq, Structural)]
pub enum PermissionLevel {
    /// Anyone in the chat.
    Public,
    /// The creator and the administrators of the chat.
    Admin,
}

/// A command as it was sent: the message, and what followed the command's
/// name in it.
#[derive(Debug, PartialEq, Eq)]
pub struct CommandContext {
    pub message: Message,
    pub args_raw: String,
}

impl CommandContext {
    /// The arguments of the command: the words that followed its name.
    pub fn args(&self) -> (list: Vec<&str>)
        ensures
            crate::text::slice_views(list@) == crate::text::words(self.args_raw@),
    {
        crate::text::split_whitespace(self.args_raw.as_str())
    }
}

/// The current time as `jiff` prints it: made by
/// `jiff::Timestamp::try_from` from the system clock and printed with
/// `to_string`. `None` where the clock is outside the range of a
/// `jiff::Timestamp`. Nothing is claimed of the text.
#[verifier::external_body]
fn timestamp_now() -> Option<String> {
    match jiff::Timestamp::try_from(std::time::SystemTime::now()) {
        Ok(now) => Some(now.to_string()),
        Err(_) => None,
    }
}

/// The mode that an argument of `/set_mode` names, whatever the case of its
/// letters and the whitespace around it.
pub open spec fn mode_named(args: Seq<char>) -> Option<Mode> {
    let word = ascii_lowered(trimmed(args));
    if word == "ban"@ {
        Some(Mode::Ban)
    } else if word == "notify"@ {
        Some(Mode::Notify)
    } else {
        None
    }
}

proof fn lemma_mode_words()
    ensures
        ascii_lowered("ban"@) == "ban"@,
        ascii_lowered("notify"@) == "notify"@,
{
    reveal_strlit("ban");
    reveal_strlit("notify");
    assert(ascii_lowered("ban"@) =~= "ban"@);
    assert(ascii_lowered("notify"@) =~= "notify"@);
}

/// Reads the argument of `/set_mode`.
pub fn parse_mode(args: &str) -> (mode: Option<Mode>)
    ensures
        mode == mode_named(args@),
{
    proof {
        lemma_mode_words();
    }
    let word = trim(args);
    if eq_ignore_ascii_case(word, "ban") {
        Some(Mode::Ban)
    } else if eq_ignore_ascii_case(word, "notify") {
        Some(Mode::Notify)
    } else {
        None
    }
}

/// A chat command.
pub trait Command {
    /// The token that calls the command.
    spec fn title(&self) -> Seq<char>;

    /// Who may run the command.
    spec fn required_permission(&self) -> PermissionLevel;

    /// Whether running the command, sent in `message` with the arguments
    /// `args`, may take a chat from `before` to `after` with the answer
    /// `reply`.
    spec fn effect(
        &self,
        before: ChatStateView,
        message: Message,
        args: Seq<char>,
        after: ChatStateView,
        reply: NoticeView,
    ) -> bool;

    fn name(&self) -> (n: &'static str)
        ensures
            n@ == self.title(),
    ;

    fn permission(&self) -> (p: PermissionLevel)
        ensures
            p == self.required_permission(),
    ;

    /// Runs the command on the state of its chat and gives the answer.
    fn execute(&self, chat: &mut ChatState, ctx: &CommandContext) -> (reply: Notice)
        requires
            ctx.message.from is Some,
        ensures
            self.effect(old(chat)@, ctx.message, ctx.args_raw@, final(chat)@, reply@),
    ;
}

/// `/help`: shows the help text.
#[derive(Debug, Clone, Copy, PartialEq, Eq)]
pub struct Help;

/// `/set_mode [ban|notify]`: sets what happens to the sender of a flagged
/// message.
#[derive(Debug, Clone, Copy, PartialEq, Eq)]
pub struct SetMode;

/// `/set_lang [en|ru]`: sets the language of the chat's notices.
#[derive(Debug, Clone, Copy, PartialEq, Eq)]
pub struct SetLang;

/// `/inject <text>`: adds a directive to the classifier's prompt.
#[derive(Debug, Clone, Copy, PartialEq, Eq)]
pub struct Inject;

/// `/toggle_inject`: switches the directives on or off.
#[derive(Debug, Clone, Copy, PartialEq, Eq)]
pub struct ToggleInject;

/// `/clear_injects`: removes all directives.
#[derive(Debug, Clone, Copy, PartialEq, Eq)]
pub struct ClearInjects;

/// `/status`: shows the state of the chat.
#[derive(Debug, Clone, Copy, PartialEq, Eq)]
pub struct Status;

impl Help {
    pub fn new() -> Self {
        Help
    }
}

impl Command for Help {
    open spec fn title(&self) -> Seq<char> {
        "/help"@
    }

    open spec fn required_permission(&self) -> PermissionLevel {
        PermissionLevel::Public
    }

    open spec fn effect(
        &self,
        before: ChatStateView,
        message: Message,
        args: Seq<char>,
        after: ChatStateView,
        reply: NoticeView,
    ) -> bool {
        after == before && reply == (NoticeView::Help { lang: before.language })
    }

    fn name(&self) -> (n: &'static str) {
        "/help"
    }

    fn permission(&self) -> (p: PermissionLevel) {
        PermissionLevel::Public
    }

    fn execute(&self, chat: &mut ChatState, ctx: &CommandContext) -> (reply: Notice) {
        Notice::Help { lang: chat.language }
    }
}

impl SetMode {
    pub fn new() -> Self {
        SetMode
    }
}

impl Command for SetMode {
    open spec fn title(&self) -> Seq<char> {
        "/set_mode"@
    }

    open spec fn required_permission(&self) -> PermissionLevel {
        PermissionLevel::Admin
    }

    open spec fn effect(
        &self,
        before: ChatStateView,
        message: Message,
        args: Seq<char>,
        after: ChatStateView,
        reply: NoticeView,
    ) -> bool {
        match mode_named(args) {
            Some(mode) => after == (ChatStateView { working_mode: mode, ..before }) && reply == (
            NoticeView::SetMode { lang: before.language, mode }),
            None => after == before && reply == (NoticeView::CommandUsage {
                lang: before.language,
                command: Usage::SetMode,
            }),
        }
    }

    fn name(&self) -> (n: &'static str) {
        "/set_mode"
    }

    fn permission(&self) -> (p: PermissionLevel) {
        PermissionLevel::Admin
    }

    fn execute(&self, chat: &mut ChatState, ctx: &CommandContext) -> (reply: Notice) {
        let lang = chat.language;
        match parse_mode(ctx.args_raw.as_str()) {
            Some(mode) => {
                chat.working_mode = mode;
                Notice::SetMode { lang, mode }
            },
            None => Notice::CommandUsage { lang, command: Usage::SetMode },
        }
    }
}

impl SetLang {
    pub fn new() -> Self {
        SetLang
    }
}

impl Command for SetLang {
    open spec fn title(&self) -> Seq<char> {
        "/set_lang"@
    }

    open spec fn required_permission(&self) -> PermissionLevel {
        PermissionLevel::Admin
    }

    open spec fn effect(
        &self,
        before: ChatStateView,
        message: Message,
        args: Seq<char>,
        after: ChatStateView,
        reply: NoticeView,
    ) -> bool {
        match language_named(trimmed(args)) {
            Some(lang) => after == (ChatStateView { language: lang, ..before }) && reply == (
            NoticeView::SetLang { lang }),
            None => after == before && reply == (NoticeView::CommandUsage {
                lang: before.language,
                command: Usage::SetLang,
            }),
        }
    }

    fn name(&self) -> (n: &'static str) {
        "/set_lang"
    }

    fn permission(&self) -> (p: PermissionLevel) {
        PermissionLevel::Admin
    }

    fn execute(&self, chat: &mut ChatState, ctx: &CommandContext) -> (reply: Notice) {
        match Language::parse(trim(ctx.args_raw.as_str())) {
            Ok(lang) => {
                chat.language = lang;
                Notice::SetLang { lang }
            },
            Err(_) => Notice::CommandUsage { lang: chat.language, command: Usage::SetLang },
        }
    }
}

/// The directive that `author` wrote at `timestamp`.
pub open spec fn directive(author: Seq<char>, timestamp: Seq<char>, text: Seq<char>)
    -> AdminDirectiveView {
    AdminDirectiveView { author, timestamp, directive_text: text }
}

/// The timestamp that is stored for a directive: the one that the clock
/// gave, or the empty text where it gave none.
pub open spec fn stored_timestamp(timestamp: Option<String>) -> Seq<char> {
    match timestamp {
        Some(t) => t@,
        None => Seq::empty(),
    }
}

/// The state of a chat with one more directive at the end of its list.
pub open spec fn chat_with_directive(chat: ChatStateView, directive: AdminDirectiveView)
    -> ChatStateView {
    ChatStateView {
        admin_prompt_injections: chat.admin_prompt_injections.push(directive),
        ..chat
    }
}

impl Inject {
    pub fn new() -> Self {
        Inject
    }

    /// Adds the directive `text`, written by `author`, to the end of the
    /// chat's list. Its timestamp is `timestamp`, or empty where the clock
    /// gave none: the directive is stored all the same.
    pub fn add_directive(
        chat: &mut ChatState,
        author: String,
        timestamp: Option<String>,
        text: String,
    )
        ensures
            final(chat)@ == chat_with_directive(
                old(chat)@,
                directive(author@, stored_timestamp(timestamp), text@),
            ),
    {
        let timestamp = match timestamp {
            Some(t) => t,
            None => String::new(),
        };
        chat.admin_prompt_injections.push(
            AdminDirective { author, timestamp, directive_text: text },
        );
        assert(chat@.admin_prompt_injections =~= old(chat)@.admin_prompt_injections.push(
            AdminDirectiveView { author: author@, timestamp: timestamp@, directive_text: text@ },
        ));
    }
}

impl Command for Inject {
    open spec fn title(&self) -> Seq<char> {
        "/inject"@
    }

    open spec fn required_permission(&self) -> PermissionLevel {
        PermissionLevel::Admin
    }

    /// An empty argument changes nothing and is answered with the usage.
    /// Otherwise the trimmed argument becomes the newest directive, with the
    /// sender's first name as its author and the time of the call, whatever
    /// it is, as its timestamp.
    open spec fn effect(
        &self,
        before: ChatStateView,
        message: Message,
        args: Seq<char>,
        after: ChatStateView,
        reply: NoticeView,
    ) -> bool {
        let text = trimmed_ascii(args);
        if text.len() == 0 {
            after == before && reply == (NoticeView::CommandUsage {
                lang: before.language,
                command: Usage::Inject,
            })
        } else {
            &&& reply == (NoticeView::Inject { lang: before.language })
            &&& exists|timestamp: Seq<char>|
                after == chat_with_directive(
                    before,
                    #[trigger] directive(message.from->0.first_name@, timestamp, text),
                )
        }
    }

    fn name(&self) -> (n: &'static str) {
        "/inject"
    }

    fn permission(&self) -> (p: PermissionLevel) {
        PermissionLevel::Admin
    }

    fn execute(&self, chat: &mut ChatState, ctx: &CommandContext) -> (reply: Notice) {
        let lang = chat.language;
        let text = trim_ascii(ctx.args_raw.as_str());
        if text.unicode_len() == 0 {
            return Notice::CommandUsage { lang, command: Usage::Inject };
        }
        let author = match &ctx.message.from {
            Some(user) => user.first_name.clone(),
            None => String::new(),
        };
        let timestamp = timestamp_now();
        let ghost added = directive(author@, stored_timestamp(timestamp), text@);
        Inject::add_directive(chat, author, timestamp, text.to_owned());
        assert(chat@ == chat_with_directive(old(chat)@, added));
        Notice::Inject { lang }
    }
}

impl ToggleInject {
    pub fn new() -> Self {
        ToggleInject
    }
}

impl Command for ToggleInject {
    open spec fn title(&self) -> Seq<char> {
        "/toggle_inject"@
    }

    open spec fn required_permission(&self) -> PermissionLevel {
        PermissionLevel::Admin
    }

    open spec fn effect(
        &self,
        before: ChatStateView,
        message: Message,
        args: Seq<char>,
        after: ChatStateView,
        reply: NoticeView,
    ) -> bool {
        &&& after == (ChatStateView {
            admin_prompt_injections_active: !before.admin_prompt_injections_active,
            ..before
        })
        &&& reply == (NoticeView::ToggleInject {
            lang: before.language,
            activated: !before.admin_prompt_injections_active,
        })
    }

    fn name(&self) -> (n: &'static str) {
        "/toggle_inject"
    }

    fn permission(&self) -> (p: PermissionLevel) {
        PermissionLevel::Admin
    }

    fn execute(&self, chat: &mut ChatState, ctx: &CommandContext) -> (reply: Notice) {
        let activated = !chat.admin_prompt_injections_active;
        chat.admin_prompt_injections_active = activated;
        Notice::ToggleInject { lang: chat.language, activated }
    }
}

impl ClearInjects {
    pub fn new() -> Self {
        ClearInjects
    }
}

impl Command for ClearInjects {
    open spec fn title(&self) -> Seq<char> {
        "/clear_injects"@
    }

    open spec fn required_permission(&self) -> PermissionLevel {
        PermissionLevel::Admin
    }

    open spec fn effect(
        &self,
        before: ChatStateView,
        message: Message,
        args: Seq<char>,
        after: ChatStateView,
        reply: NoticeView,
    ) -> bool {
        &&& after == (ChatStateView { admin_prompt_injections: Seq::empty(), ..before })
        &&& reply == (NoticeView::ClearInjects { lang: before.language })
    }

    fn name(&self) -> (n: &'static str) {
        "/clear_injects"
    }

    fn permission(&self) -> (p: PermissionLevel) {
        PermissionLevel::Admin
    }

    fn execute(&self, chat: &mut ChatState, ctx: &CommandContext) -> (reply: Notice) {
        chat.admin_prompt_injections.clear();
        assert(chat@.admin_prompt_injections =~= Seq::empty());
        Notice::ClearInjects { lang: chat.language }
    }
}

impl Status {
    pub fn new() -> Self {
        Status
    }
}

impl Command for Status {
    open spec fn title(&self) -> Seq<char> {
        "/status"@
    }

    open spec fn required_permission(&self) -> PermissionLevel {
        PermissionLevel::Admin
    }

    open spec fn effect(
        &self,
        before: ChatStateView,
        message: Message,
        args: Seq<char>,
        after: ChatStateView,
        reply: NoticeView,
    ) -> bool {
        after == before && reply == (NoticeView::Status { chat: before })
    }

    fn name(&self) -> (n: &'static str) {
        "/status"
    }

    fn permission(&self) -> (p: PermissionLevel) {
        PermissionLevel::Admin
    }

    fn execute(&self, chat: &mut ChatState, ctx: &CommandContext) -> (reply: Notice) {
        Notice::Status { chat: chat.clone() }
    }
}

/// Any of the commands.
#[derive(Debug, Clone, Copy, PartialEq, Eq)]
pub enum AnyCommand {
    Help(Help),
    SetMode(SetMode),
    SetLang(SetLang),
    Inject(Inject),
    ToggleInject(ToggleInject),
    ClearInjects(ClearInjects),
    Status(Status),
}

impl Command for AnyCommand {
    open spec fn title(&self) -> Seq<char> {
        match self {
            AnyCommand::Help(c) => c.title(),
            AnyCommand::SetMode(c) => c.title(),
            AnyCommand::SetLang(c) => c.title(),
            AnyCommand::Inject(c) => c.title(),
            AnyCommand::ToggleInject(c) => c.title(),
            AnyCommand::ClearInjects(c) => c.title(),
            AnyCommand::Status(c) => c.title(),
        }
    }

    open spec fn required_permission(&self) -> PermissionLevel {
        match self {
            AnyCommand::Help(c) => c.required_permission(),
            AnyCommand::SetMode(c) => c.required_permission(),
            AnyCommand::SetLang(c) => c.required_permission(),
            AnyCommand::Inject(c) => c.required_permission(),
            AnyCommand::ToggleInject(c) => c.required_permission(),
            AnyCommand::ClearInjects(c) => c.required_permission(),
            AnyCommand::Status(c) => c.required_permission(),
        }
    }

    open spec fn effect(
        &self,
        before: ChatStateView,
        message: Message,
        args: Seq<char>,
        after: ChatStateView,
        reply: NoticeView,
    ) -> bool {
        match self {
            AnyCommand::Help(c) => c.effect(before, message, args, after, reply),
            AnyCommand::SetMode(c) => c.effect(before, message, args, after, reply),
            AnyCommand::SetLang(c) => c.effect(before, message, args, after, reply),
            AnyCommand::Inject(c) => c.effect(before, message, args, after, reply),
            AnyCommand::ToggleInject(c) => c.effect(before, message, args, after, reply),
            AnyCommand::ClearInjects(c) => c.effect(before, message, args, after, reply),
            AnyCommand::Status(c) => c.effect(before, message, args, after, reply),
        }
    }

    fn name(&self) -> (n: &'static str) {
        match self {
            AnyCommand::Help(c) => c.name(),
            AnyCommand::SetMode(c) => c.name(),
            AnyCommand::SetLang(c) => c.name(),
            AnyCommand::Inject(c) => c.name(),
            AnyCommand::ToggleInject(c) => c.name(),
            AnyCommand::ClearInjects(c) => c.name(),
            AnyCommand::Status(c) => c.name(),
        }
    }

    fn permission(&self) -> (p: PermissionLevel) {
        match self {
            AnyCommand::Help(c) => c.permission(),
            AnyCommand::SetMode(c) => c.permission(),
            AnyCommand::SetLang(c) => c.permission(),
            AnyCommand::Inject(c) => c.permission(),
            AnyCommand::ToggleInject(c) => c.permission(),
            AnyCommand::ClearInjects(c) => c.permission(),
            AnyCommand::Status(c) => c.permission(),
        }
    }

    fn execute(&self, chat: &mut ChatState, ctx: &CommandContext) -> (reply: Notice) {
        match self {
            AnyCommand::Help(c) => c.execute(chat, ctx),
            AnyCommand::SetMode(c) => c.execute(chat, ctx),
            AnyCommand::SetLang(c) => c.execute(chat, ctx),
            AnyCommand::Inject(c) => c.execute(chat, ctx),
            AnyCommand::ToggleInject(c) => c.execute(chat, ctx),
            AnyCommand::ClearInjects(c) => c.execute(chat, ctx),
            AnyCommand::Status(c) => c.execute(chat, ctx),
        }
    }
}

/// The command's name and its arguments in a text: a text that begins with
/// `/` is split at its first space, which belongs to neither part; without a
/// space the whole text is the name. Any other text is no command.
pub open spec fn command_parts(text: Seq<char>) -> Option<(Seq<char>, Seq<char>)> {
    if text.len() > 0 && text[0] == '/' {
        let at = first_index(text, ' ');
        if at < text.len() {
            Some((text.take(at), text.skip(at + 1)))
        } else {
            Some((text, Seq::empty()))
        }
    } else {
        None
    }
}

/// Splits a text into the command's name and its arguments.
pub fn split_command(text: &str) -> (parts: Option<(&str, &str)>)
    ensures
        match parts {
            Some((name, args)) => command_parts(text@) == Some((name@, args@)),
            None => command_parts(text@) is None,
        },
{
    if !starts_with_char(text, '/') {
        return None;
    }
    match split_once(text, ' ') {
        Some(parts) => Some(parts),
        None => {
            proof {
                reveal_strlit("");
                assert(""@ =~= Seq::<char>::empty());
            }
            Some((text, ""))
        },
    }
}

/// The command registered under `token`: the first with this very name.
pub open spec fn registered(commands: Seq<AnyCommand>, token: Seq<char>) -> Option<AnyCommand>
    decreases commands.len(),
{
    if commands.len() == 0 {
        None
    } else if commands[0].title() == token {
        Some(commands[0])
    } else {
        registered(commands.drop_first(), token)
    }
}

/// Looks a command up by its exact name. An unknown name finds nothing.
pub fn find_command(commands: &Vec<AnyCommand>, token: &str) -> (found: Option<AnyCommand>)
    ensures
        found == registered(commands@, token@),
{
    let n = commands.len();
    let mut i: usize = 0;
    assert(commands@.subrange(0, n as int) =~= commands@);
    while i < n
        invariant
            i <= n,
            n == commands@.len(),
            registered(commands@, token@) == registered(
                commands@.subrange(i as int, n as int),
                token@,
            ),
        decreases n - i,
    {
        if same_text(commands[i].name(), token) {
            return Some(commands[i]);
        }
        assert(commands@.subrange(i as int, n as int).drop_first() =~= commands@.subrange(
            i + 1,
            n as int,
        ));
        i += 1;
    }
    None
}

/// The commands of the service, in the order of their registration.
pub open spec fn all_commands() -> Seq<AnyCommand> {
    seq![
        AnyCommand::Help(Help),
        AnyCommand::SetMode(SetMode),
        AnyCommand::SetLang(SetLang),
        AnyCommand::Inject(Inject),
        AnyCommand::ToggleInject(ToggleInject),
        AnyCommand::ClearInjects(ClearInjects),
        AnyCommand::Status(Status),
    ]
}

/// Builds the registry of commands.
pub fn command_registry() -> (commands: Vec<AnyCommand>)
    ensures
        commands@ == all_commands(),
{
    let mut commands: Vec<AnyCommand> = Vec::new();
    commands.push(AnyCommand::Help(Help::new()));
    commands.push(AnyCommand::SetMode(SetMode::new()));
    commands.push(AnyCommand::SetLang(SetLang::new()));
    commands.push(AnyCommand::Inject(Inject::new()));
    commands.push(AnyCommand::ToggleInject(ToggleInject::new()));
    commands.push(AnyCommand::ClearInjects(ClearInjects::new()));
    commands.push(AnyCommand::Status(Status::new()));
    assert(commands@ =~= all_commands());
    commands
}

/// After `/set_mode` with an argument that names a mode, the chat is in that
/// mode and in every other respect as before.
pub proof fn lemma_set_mode_sets_the_mode(
    before: ChatStateView,
    message: Message,
    args: Seq<char>,
    after: ChatStateView,
    reply: NoticeView,
    mode: Mode,
)
    requires
        mode_named(args) == Some(mode),
        SetMode.effect(before, message, args, after, reply),
    ensures
        after.working_mode == mode,
        after == (ChatStateView { working_mode: mode, ..before }),
{
}

} // verus!
