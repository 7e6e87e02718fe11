use std::collections::HashSet;
use tg_ai_moderator::actions::{Action, Notice, Reason, Usage};
use tg_ai_moderator::classifier::MalformedVerdict;
use tg_ai_moderator::commands::{AnyCommand, SetMode};
use tg_ai_moderator::handlers::{
    cas_ban_actions, decide_on_verdict, interpret_answer, is_banned, AnalysisError, AnyHandler,
    CasBan, Handled, HandlerStep, Quarantine, UpdateHandler,
};
use tg_ai_moderator::prompts::{
    AdminDirective, AnalysisReport, AssessmentOutcome, SuggestedAction,
};
use tg_ai_moderator::provider::ProviderError;
use tg_ai_moderator::service::{Chain, Dispatch, Service};
use tg_ai_moderator::state::{Language, Mode, ServiceState};
use tg_ai_moderator::update::{ChatMember, Message, Update, User};

const CHAT: i64 = -100;
const USER: u64 = 42;

const PASS: &str = r#"{"assessmentOutcome":"PASS", "violatedPolicies":[], "confidenceScore":0, "suggestedAction":"NO_ACTION"}"#;
const FLAG: &str = r#"{"assessmentOutcome":"FLAG","primaryReason":"Scam","detailedReasoning":"...","violatedPolicies":["x"],"confidenceScore":90,"suggestedAction":"ADMIN_REVIEW_URGENT"}"#;

fn user() -> User {
    User {
        id: USER,
        is_bot: false,
        first_name: "Ann".to_string(),
        last_name: Some("Lee".to_string()),
        username: Some("annlee".to_string()),
    }
}

fn message(id: i32, text: &str) -> Message {
    Message { message_id: id, chat_id: CHAT, from: Some(user()), text: Some(text.to_string()) }
}

fn flagged_notice(lang: Language) -> Notice {
    Notice::Antispam {
        lang,
        user_id: USER,
        reason: Reason::Flagged {
            primary_reason: "Scam".to_string(),
            reason_details: "...".to_string(),
        },
    }
}

fn answer(raw: &str) -> Result<AnalysisReport, AnalysisError> {
    interpret_answer(Ok(raw.to_string()))
}

/// Dispatches a message that is expected to be put to the classifier and
/// resumes with the raw answer.
fn moderate(service: &Service, state: &mut ServiceState, msg: &Message, raw: &str) -> Dispatch {
    match service.dispatch_update(state, &Update::Message(msg.clone())) {
        Dispatch::AwaitVerdict { handler, .. } => {
            service.resume_with_verdict(state, msg, handler, &answer(raw))
        }
        other => panic!("the classifier was not asked: {other:?}"),
    }
}

#[test]
fn pass_verdict_lets_the_message_through_without_calls() {
    let service = Service::new();
    let mut state = ServiceState::default();
    let out = moderate(&service, &mut state, &message(1, "hello"), PASS);
    assert_eq!(out, Dispatch::Done(vec![]));
    assert_eq!(state.tg_chat_states[&CHAT].message_counter.get(&USER), Some(&1));
}

#[test]
fn flag_verdict_in_ban_mode_bans_deletes_and_notifies() {
    let service = Service::new();
    let mut state = ServiceState::default();
    let out = moderate(&service, &mut state, &message(7, "buy coins"), FLAG);
    assert_eq!(
        out,
        Dispatch::Done(vec![
            Action::BanUser { chat_id: CHAT, user_id: USER },
            Action::DeleteMessage { chat_id: CHAT, message_id: 7 },
            Action::SendMessage { chat_id: CHAT, notice: flagged_notice(Language::English) },
        ])
    );
}

#[test]
fn flag_verdict_stops_the_chain() {
    let report = answer(FLAG);
    let handled = decide_on_verdict(&report, Mode::Ban, Language::English, CHAT, USER, 7);
    assert!(matches!(handled, Handled::Break(_)));
    assert!(handled.flow().is_break());
    let handled = decide_on_verdict(&answer(PASS), Mode::Ban, Language::English, CHAT, USER, 7);
    assert_eq!(handled, Handled::Continue);
    assert!(handled.flow().is_continue());
}

#[test]
fn acted_upon_user_loses_the_counter() {
    let service = Service::new();
    let mut state = ServiceState::default();
    moderate(&service, &mut state, &message(1, "hello"), PASS);
    assert_eq!(state.tg_chat_states[&CHAT].message_counter.get(&USER), Some(&1));
    moderate(&service, &mut state, &message(2, "buy coins"), FLAG);
    assert_eq!(state.tg_chat_states[&CHAT].message_counter.get(&USER), None);
}

#[test]
fn malformed_answer_causes_no_call() {
    let service = Service::new();
    let mut state = ServiceState::default();
    let out = moderate(&service, &mut state, &message(1, "hello"), r#"{"assessmentOutcome":"FLAG","prim"#);
    assert_eq!(out, Dispatch::Done(vec![]));
    assert_eq!(state.tg_chat_states[&CHAT].message_counter.get(&USER), Some(&1));
}

#[test]
fn provider_failure_causes_no_call() {
    let service = Service::new();
    let mut state = ServiceState::default();
    let msg = message(1, "hello");
    let failure = interpret_answer(Err(ProviderError::Transport("timed out".to_string())));
    assert_eq!(
        failure,
        Err(AnalysisError::Provider(ProviderError::Transport("timed out".to_string())))
    );
    match service.dispatch_update(&mut state, &Update::Message(msg.clone())) {
        Dispatch::AwaitVerdict { handler, .. } => {
            let out = service.resume_with_verdict(&mut state, &msg, handler, &failure);
            assert_eq!(out, Dispatch::Done(vec![]));
        }
        other => panic!("{other:?}"),
    }
}

#[test]
fn malformed_answer_is_an_error_of_its_own() {
    assert_eq!(
        answer("not json"),
        Err(AnalysisError::Malformed(MalformedVerdict { raw: "not json".to_string() }))
    );
}

#[test]
fn set_mode_notify_then_flag_notifies_without_a_ban() {
    let service = Service::new();
    let mut state = ServiceState::default();
    let command = message(1, "/set_mode notify");
    let (cmd, ctx) = match moderate(&service, &mut state, &command, PASS) {
        Dispatch::AwaitAdmins { command, ctx } => (command, ctx),
        other => panic!("{other:?}"),
    };
    assert_eq!(cmd, AnyCommand::SetMode(SetMode));
    assert_eq!(ctx.args_raw, "notify");
    let admins = vec![ChatMember::Other(1), ChatMember::Administrator(USER)];
    let actions = service.resume_with_admins(&mut state, &cmd, &ctx, &admins);
    assert_eq!(
        actions,
        vec![Action::Reply {
            chat_id: CHAT,
            message_id: 1,
            notice: Notice::SetMode { lang: Language::English, mode: Mode::Notify },
        }]
    );
    assert_eq!(state.tg_chat_states[&CHAT].working_mode, Mode::Notify);

    let out = moderate(&service, &mut state, &message(2, "buy coins"), FLAG);
    assert_eq!(
        out,
        Dispatch::Done(vec![
            Action::DeleteMessage { chat_id: CHAT, message_id: 2 },
            Action::SendMessage { chat_id: CHAT, notice: flagged_notice(Language::English) },
        ])
    );
}

#[test]
fn banned_user_is_banned_on_the_first_message_before_any_counting() {
    let service = Service::new();
    let mut state = ServiceState::default();
    state.update_cas_banned_ids(HashSet::from([USER, 5]));
    for text in ["hello", "/help", ""] {
        let out = service.dispatch_update(&mut state, &Update::Message(message(3, text)));
        assert_eq!(
            out,
            Dispatch::Done(vec![
                Action::BanUser { chat_id: CHAT, user_id: USER },
                Action::DeleteMessage { chat_id: CHAT, message_id: 3 },
                Action::SendMessage {
                    chat_id: CHAT,
                    notice: Notice::Antispam {
                        lang: Language::English,
                        user_id: USER,
                        reason: Reason::BanList,
                    },
                },
            ])
        );
        assert!(state.tg_chat_states[&CHAT].message_counter.is_empty());
    }
}

#[test]
fn ban_list_is_replaced_as_a_whole() {
    let mut state = ServiceState::default();
    assert!(!state.is_banned(1));
    state.update_cas_banned_ids(HashSet::from([1, 2]));
    assert!(state.is_banned(1) && state.is_banned(2) && !state.is_banned(3));
    state.update_cas_banned_ids(HashSet::from([3]));
    assert!(!state.is_banned(1) && !state.is_banned(2) && state.is_banned(3));
    assert!(is_banned(&state.cas_banned_ids, 3));
}

#[test]
fn ban_list_actions_in_order() {
    let actions = cas_ban_actions(Language::Russian, 1, 2, 3);
    assert_eq!(actions.len(), 3);
    assert!(!actions[0].is_best_effort());
    assert!(actions[1].is_best_effort());
    assert!(!actions[2].is_best_effort());
    assert_eq!(actions[0], Action::BanUser { chat_id: 1, user_id: 2 });
}

#[test]
fn updates_that_are_no_message_of_a_person_are_passed_over() {
    let service = Service::new();
    let mut state = ServiceState::default();
    assert_eq!(service.dispatch_update(&mut state, &Update::Other), Dispatch::Done(vec![]));
    let mut from_bot = message(1, "/help");
    from_bot.from.as_mut().unwrap().is_bot = true;
    assert_eq!(
        service.dispatch_update(&mut state, &Update::Message(from_bot)),
        Dispatch::Done(vec![])
    );
    let mut anonymous = message(1, "/help");
    anonymous.from = None;
    assert_eq!(
        service.dispatch_update(&mut state, &Update::Message(anonymous)),
        Dispatch::Done(vec![])
    );
    assert!(state.tg_chat_states.is_empty());
}

#[test]
fn third_message_leaves_quarantine_and_reaches_the_command() {
    let service = Service::new();
    let mut state = ServiceState::default();
    moderate(&service, &mut state, &message(1, "a"), PASS);
    moderate(&service, &mut state, &message(2, "b"), PASS);
    let out = service.dispatch_update(&mut state, &Update::Message(message(3, "/help")));
    assert_eq!(
        out,
        Dispatch::Done(vec![Action::Reply {
            chat_id: CHAT,
            message_id: 3,
            notice: Notice::Help { lang: Language::English },
        }])
    );
    assert_eq!(state.tg_chat_states[&CHAT].message_counter.get(&USER), None);
}

#[test]
fn later_messages_of_a_user_who_left_are_never_classified_again() {
    let service = Service::new();
    let mut state = ServiceState::default();
    moderate(&service, &mut state, &message(1, "a"), PASS);
    moderate(&service, &mut state, &message(2, "b"), PASS);
    for id in 3..20 {
        let out = service.dispatch_update(&mut state, &Update::Message(message(id, "spam?")));
        assert_eq!(out, Dispatch::Done(vec![]));
        let chat = &state.tg_chat_states[&CHAT];
        assert_eq!(chat.message_counter.get(&USER), None);
        assert!(chat.quarantine_exited.contains(&USER));
    }
}

#[test]
fn of_four_messages_in_a_row_two_are_classified() {
    let service = Service::new();
    let mut state = ServiceState::default();
    let mut asked = 0;
    for id in 1..=4 {
        let msg = message(id, "x");
        if let Dispatch::AwaitVerdict { handler, .. } =
            service.dispatch_update(&mut state, &Update::Message(msg.clone()))
        {
            asked += 1;
            service.resume_with_verdict(&mut state, &msg, handler, &answer(PASS));
        }
    }
    assert_eq!(asked, 2);
    assert!(state.tg_chat_states[&CHAT].message_counter.is_empty());
}

#[test]
fn failed_calls_end_the_handling_unless_they_are_deletions() {
    let ban = Action::BanUser { chat_id: 1, user_id: 2 };
    let delete = Action::DeleteMessage { chat_id: 1, message_id: 3 };
    let send = Action::SendMessage { chat_id: 1, notice: Notice::Help { lang: Language::English } };
    for action in [&ban, &delete, &send] {
        assert!(action.goes_on_after(false));
    }
    assert!(!ban.goes_on_after(true));
    assert!(delete.goes_on_after(true));
    assert!(!send.goes_on_after(true));
}

#[test]
fn intervals_of_the_service() {
    assert_eq!(tg_ai_moderator::service::POLL_INTERVAL_SECS, 3);
    assert_eq!(tg_ai_moderator::service::STATE_SAVE_INTERVAL_SECS, 30);
    assert_eq!(tg_ai_moderator::service::CAS_REFRESH_INTERVAL_SECS, 60 * 60);
}

#[test]
fn classifier_request_carries_the_message_and_the_directives() {
    let service = Service::new();
    let mut state = ServiceState::default();
    let mut chat = state.get_chat_state(CHAT);
    chat.language = Language::Russian;
    chat.admin_prompt_injections_active = true;
    chat.admin_prompt_injections.push(AdminDirective {
        author: "Bo".to_string(),
        timestamp: "t".to_string(),
        directive_text: "be strict".to_string(),
    });
    state.set_chat_state(CHAT, chat);
    match service.dispatch_update(&mut state, &Update::Message(message(1, "hi"))) {
        Dispatch::AwaitVerdict { handler, request } => {
            assert_eq!(handler, 1);
            assert_eq!(request.analysis.original_message_text, "hi");
            assert_eq!(request.analysis.user_account_name, "Ann Lee");
            assert_eq!(request.analysis.user_account_description, Some("annlee".to_string()));
            assert_eq!(request.analysis.user_account_join_date, None);
            assert_eq!(request.analysis.output_language, "ru");
            let injection = request.injection.unwrap();
            assert_eq!(injection.recent_admin_directives.len(), 1);
            assert_eq!(injection.recent_admin_directives[0].directive_text, "be strict");
        }
        other => panic!("{other:?}"),
    }
}

#[test]
fn directives_are_left_out_when_switched_off_or_empty() {
    let service = Service::new();
    let mut state = ServiceState::default();
    let mut chat = state.get_chat_state(CHAT);
    chat.admin_prompt_injections.push(AdminDirective {
        author: "Bo".to_string(),
        timestamp: "t".to_string(),
        directive_text: "be strict".to_string(),
    });
    state.set_chat_state(CHAT, chat);
    match service.dispatch_update(&mut state, &Update::Message(message(1, "hi"))) {
        Dispatch::AwaitVerdict { request, .. } => assert_eq!(request.injection, None),
        other => panic!("{other:?}"),
    }
    let mut state = ServiceState::default();
    let mut chat = state.get_chat_state(CHAT);
    chat.admin_prompt_injections_active = true;
    state.set_chat_state(CHAT, chat);
    match service.dispatch_update(&mut state, &Update::Message(message(1, "hi"))) {
        Dispatch::AwaitVerdict { request, .. } => assert_eq!(request.injection, None),
        other => panic!("{other:?}"),
    }
}

#[test]
fn sender_without_last_name() {
    let service = Service::new();
    let mut state = ServiceState::default();
    let mut msg = message(1, "hi");
    msg.from.as_mut().unwrap().last_name = None;
    msg.text = None;
    match service.dispatch_update(&mut state, &Update::Message(msg)) {
        Dispatch::AwaitVerdict { request, .. } => {
            assert_eq!(request.analysis.user_account_name, "Ann ");
            assert_eq!(request.analysis.original_message_text, "");
        }
        other => panic!("{other:?}"),
    }
}

#[test]
fn command_of_someone_who_is_no_administrator_is_passed_over() {
    let service = Service::with_quarantine(Quarantine::with_threshold(1));
    let mut state = ServiceState::default();
    let msg = message(1, "/set_lang ru");
    let (cmd, ctx) = match service.dispatch_update(&mut state, &Update::Message(msg)) {
        Dispatch::AwaitAdmins { command, ctx } => (command, ctx),
        other => panic!("{other:?}"),
    };
    let before = state.tg_chat_states[&CHAT].clone();
    let admins = vec![ChatMember::Creator(1), ChatMember::Other(USER)];
    assert_eq!(service.resume_with_admins(&mut state, &cmd, &ctx, &admins), vec![]);
    assert_eq!(state.tg_chat_states[&CHAT], before);
    let admins = vec![ChatMember::Creator(USER)];
    assert_eq!(
        service.resume_with_admins(&mut state, &cmd, &ctx, &admins),
        vec![Action::Reply {
            chat_id: CHAT,
            message_id: 1,
            notice: Notice::SetLang { lang: Language::Russian },
        }]
    );
    assert_eq!(state.tg_chat_states[&CHAT].language, Language::Russian);
}

#[test]
fn unknown_command_and_plain_text_do_nothing() {
    let service = Service::with_quarantine(Quarantine::with_threshold(1));
    let mut state = ServiceState::default();
    for text in ["/nope", "/helpme", "help", " /help", "/HELP", "/set_modeban"] {
        let out = service.dispatch_update(&mut state, &Update::Message(message(1, text)));
        assert_eq!(out, Dispatch::Done(vec![]), "{text:?}");
    }
}

#[test]
fn usage_is_shown_for_a_wrong_argument() {
    let service = Service::with_quarantine(Quarantine::with_threshold(1));
    let mut state = ServiceState::default();
    let msg = message(1, "/set_mode maybe");
    let (cmd, ctx) = match service.dispatch_update(&mut state, &Update::Message(msg)) {
        Dispatch::AwaitAdmins { command, ctx } => (command, ctx),
        other => panic!("{other:?}"),
    };
    let actions =
        service.resume_with_admins(&mut state, &cmd, &ctx, &vec![ChatMember::Creator(USER)]);
    assert_eq!(
        actions,
        vec![Action::Reply {
            chat_id: CHAT,
            message_id: 1,
            notice: Notice::CommandUsage { lang: Language::English, command: Usage::SetMode },
        }]
    );
    assert_eq!(state.tg_chat_states[&CHAT].working_mode, Mode::Ban);
}

#[test]
fn checks_run_in_their_order() {
    let service = Service::new();
    assert_eq!(
        service.update_handlers,
        vec![AnyHandler::CasBan(CasBan), AnyHandler::Quarantine(Quarantine::new())]
    );
    assert_eq!(Quarantine::new().threshold(), 3);
    let mut state = ServiceState::default();
    state.update_cas_banned_ids(HashSet::from([USER]));
    let msg = message(1, "x");
    assert!(matches!(service.run_chain(0, &mut state, &msg), Chain::Stopped(_)));
    assert!(matches!(service.run_chain(1, &mut state, &msg), Chain::Asked { handler: 1, .. }));
    assert!(matches!(service.run_chain(2, &mut state, &msg), Chain::Passed));
    assert!(matches!(
        CasBan::new().handle(&mut state, &msg),
        HandlerStep::Decided(Handled::Break(_))
    ));
}

#[test]
fn export_is_installed_as_the_ban_list() {
    let service = Service::new();
    let mut state = ServiceState::default();
    state.get_chat_state(CHAT);
    service.update_cas_banned_ids(&mut state, "1\n2\nsomething\n\n3\r\n");
    assert_eq!(state.cas_banned_ids, HashSet::from([1, 2, 3]));
    service.update_cas_banned_ids(&mut state, "4\n");
    assert_eq!(state.cas_banned_ids, HashSet::from([4]));
    service.update_cas_banned_ids(&mut state, "");
    assert!(state.cas_banned_ids.is_empty());
    assert_eq!(state.tg_chat_states.len(), 1);
}
