use tg_ai_moderator::actions::{Notice, Usage};
use tg_ai_moderator::commands::{
    command_registry, find_command, parse_mode, split_command, AnyCommand, ClearInjects, Command,
    CommandContext, Help, Inject, PermissionLevel, SetLang, SetMode, Status, ToggleInject,
};
use tg_ai_moderator::prompts::AdminDirective;
use tg_ai_moderator::state::{ChatState, Language, Mode};
use tg_ai_moderator::update::{Message, User};

fn context(args: &str) -> CommandContext {
    CommandContext {
        message: Message {
            message_id: 9,
            chat_id: 1,
            from: Some(User {
                id: 5,
                is_bot: false,
                first_name: "Ann".to_string(),
                last_name: None,
                username: None,
            }),
            text: None,
        },
        args_raw: args.to_string(),
    }
}

#[test]
fn names_and_permissions_of_the_commands() {
    let expected = [
        ("/help", PermissionLevel::Public),
        ("/set_mode", PermissionLevel::Admin),
        ("/set_lang", PermissionLevel::Admin),
        ("/inject", PermissionLevel::Admin),
        ("/toggle_inject", PermissionLevel::Admin),
        ("/clear_injects", PermissionLevel::Admin),
        ("/status", PermissionLevel::Admin),
    ];
    let registry = command_registry();
    assert_eq!(registry.len(), expected.len());
    for (command, (name, permission)) in registry.iter().zip(expected) {
        assert_eq!(command.name(), name);
        assert_eq!(command.permission(), permission);
        assert_eq!(find_command(&registry, name), Some(*command));
    }
    assert_eq!(Help::new().name(), "/help");
    assert_eq!(SetMode::new().permission(), PermissionLevel::Admin);
}

#[test]
fn commands_are_found_by_their_exact_name() {
    let registry = command_registry();
    assert_eq!(find_command(&registry, "/help"), Some(AnyCommand::Help(Help)));
    assert_eq!(find_command(&registry, "/status"), Some(AnyCommand::Status(Status)));
    for token in ["", "/", "help", "/Help", "/help ", "/helpx", "/set"] {
        assert_eq!(find_command(&registry, token), None, "{token:?}");
    }
    assert_eq!(find_command(&vec![], "/help"), None);
}

#[test]
fn command_text_is_split_at_the_first_space() {
    assert_eq!(split_command("/set_mode ban"), Some(("/set_mode", "ban")));
    assert_eq!(split_command("/inject  be  strict "), Some(("/inject", " be  strict ")));
    assert_eq!(split_command("/help"), Some(("/help", "")));
    assert_eq!(split_command("/"), Some(("/", "")));
    assert_eq!(split_command("/ x"), Some(("/", "x")));
    assert_eq!(split_command("help"), None);
    assert_eq!(split_command(" /help"), None);
    assert_eq!(split_command(""), None);
}

#[test]
fn mode_argument_is_read_whatever_its_case() {
    assert_eq!(parse_mode("ban"), Some(Mode::Ban));
    assert_eq!(parse_mode("  BAN \n"), Some(Mode::Ban));
    assert_eq!(parse_mode("Notify"), Some(Mode::Notify));
    for args in ["", "b an", "banned", "notify me", "0"] {
        assert_eq!(parse_mode(args), None, "{args:?}");
        assert!(!matches!(args.trim().to_lowercase().as_str(), "ban" | "notify"));
    }
}

#[test]
fn help_changes_nothing() {
    let mut chat = ChatState::default();
    chat.language = Language::Russian;
    let before = chat.clone();
    assert_eq!(Help.execute(&mut chat, &context("")), Notice::Help { lang: Language::Russian });
    assert_eq!(chat, before);
}

#[test]
fn set_mode_sets_the_mode() {
    let mut chat = ChatState::default();
    assert_eq!(chat.working_mode, Mode::Ban);
    assert_eq!(
        SetMode.execute(&mut chat, &context(" notify ")),
        Notice::SetMode { lang: Language::English, mode: Mode::Notify }
    );
    assert_eq!(chat.working_mode, Mode::Notify);
    assert_eq!(
        SetMode.execute(&mut chat, &context("nothing")),
        Notice::CommandUsage { lang: Language::English, command: Usage::SetMode }
    );
    assert_eq!(chat.working_mode, Mode::Notify);
    assert_eq!(
        SetMode.execute(&mut chat, &context("BAN")),
        Notice::SetMode { lang: Language::English, mode: Mode::Ban }
    );
    assert_eq!(chat.working_mode, Mode::Ban);
}

#[test]
fn set_lang_sets_the_language_and_answers_in_it() {
    let mut chat = ChatState::default();
    assert_eq!(
        SetLang.execute(&mut chat, &context(" ru ")),
        Notice::SetLang { lang: Language::Russian }
    );
    assert_eq!(chat.language, Language::Russian);
    assert_eq!(
        SetLang.execute(&mut chat, &context("de")),
        Notice::CommandUsage { lang: Language::Russian, command: Usage::SetLang }
    );
    assert_eq!(chat.language, Language::Russian);
    assert_eq!(
        SetLang.execute(&mut chat, &context("English")),
        Notice::SetLang { lang: Language::English }
    );
}

#[test]
fn inject_appends_the_trimmed_directive() {
    let mut chat = ChatState::default();
    assert_eq!(
        Inject.execute(&mut chat, &context("  be strict with links \t")),
        Notice::Inject { lang: Language::English }
    );
    assert_eq!(Inject.execute(&mut chat, &context("second")), Notice::Inject { lang: Language::English });
    assert_eq!(chat.admin_prompt_injections.len(), 2);
    assert_eq!(chat.admin_prompt_injections[0].author, "Ann");
    assert_eq!(chat.admin_prompt_injections[0].directive_text, "be strict with links");
    assert_eq!(chat.admin_prompt_injections[1].directive_text, "second");
    assert!(chat.admin_prompt_injections[0].timestamp.len() >= 20);
    assert!(chat.admin_prompt_injections[0].timestamp.ends_with('Z'));
}

#[test]
fn inject_rejects_an_empty_directive() {
    let mut chat = ChatState::default();
    for args in ["", "   ", "\t\n"] {
        assert_eq!(
            Inject.execute(&mut chat, &context(args)),
            Notice::CommandUsage { lang: Language::English, command: Usage::Inject }
        );
    }
    assert!(chat.admin_prompt_injections.is_empty());
}

#[test]
fn inject_with_a_given_timestamp() {
    let mut chat = ChatState::default();
    Inject::add_directive(&mut chat, "a".to_string(), Some("t".to_string()), "x".to_string());
    Inject::add_directive(&mut chat, "b".to_string(), None, "y".to_string());
    assert_eq!(
        chat.admin_prompt_injections,
        vec![
            AdminDirective {
                author: "a".to_string(),
                timestamp: "t".to_string(),
                directive_text: "x".to_string(),
            },
            AdminDirective {
                author: "b".to_string(),
                timestamp: "".to_string(),
                directive_text: "y".to_string(),
            },
        ]
    );
}

#[test]
fn toggle_inject_flips_the_switch() {
    let mut chat = ChatState::default();
    assert_eq!(
        ToggleInject.execute(&mut chat, &context("")),
        Notice::ToggleInject { lang: Language::English, activated: true }
    );
    assert!(chat.admin_prompt_injections_active);
    assert_eq!(
        ToggleInject.execute(&mut chat, &context("")),
        Notice::ToggleInject { lang: Language::English, activated: false }
    );
    assert!(!chat.admin_prompt_injections_active);
}

#[test]
fn clear_injects_empties_the_list() {
    let mut chat = ChatState::default();
    Inject.execute(&mut chat, &context("one"));
    Inject.execute(&mut chat, &context("two"));
    assert_eq!(
        ClearInjects.execute(&mut chat, &context("")),
        Notice::ClearInjects { lang: Language::English }
    );
    assert!(chat.admin_prompt_injections.is_empty());
}

#[test]
fn status_shows_the_state() {
    let mut chat = ChatState::default();
    chat.message_counter.insert(3, 2);
    let before = chat.clone();
    assert_eq!(Status.execute(&mut chat, &context("")), Notice::Status { chat: before.clone() });
    assert_eq!(chat, before);
}

#[test]
fn usage_schemas() {
    assert_eq!(Usage::Inject.schema(), "/inject <directive text>");
    assert_eq!(Usage::SetMode.schema(), "/set_mode [ban|notify]");
    assert_eq!(Usage::SetLang.schema(), "/set_lang [en|ru]");
}

#[test]
fn arguments_of_a_command() {
    assert_eq!(context("  a  bb\tc ").args(), vec!["a", "bb", "c"]);
    assert_eq!(context("").args(), Vec::<&str>::new());
    assert_eq!(context("   ").args(), Vec::<&str>::new());
}
