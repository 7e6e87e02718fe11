use std::sync::Arc;
use tg_ai_moderator::actions::{Notice, Reason, Usage};
use tg_ai_moderator::handlers::{
    render_conversation, AnalysisError, ClassifierRequest, Quarantine,
};
use tg_ai_moderator::messages::{
    antispam_context, details_call, mode_name, notice_call, template_name, BuildInfo,
    MessageManager, TemplateCall,
};
use tg_ai_moderator::prompt_manager::{analysis_values, injection_values, PromptManager};
use tg_ai_moderator::prompts::{
    AdminDirective, AdminInjectionContext, AssessmentOutcome, MessageAnalysisContext,
};
use tg_ai_moderator::provider::{ChatMessage, Provider, ProviderError};
use tg_ai_moderator::state::{ChatState, Language, Mode};
use tg_ai_moderator::templates::TemplateValue;

fn environment() -> Arc<minijinja::Environment<'static>> {
    let mut env = minijinja::Environment::new();
    let templates = [
        ("messages/antispam_en.jinja", "user {{ user_id }}: {{ primary_reason }} ({{ reason_details }})"),
        ("messages/antispam_ru.jinja", "пользователь {{ user_id }}: {{ primary_reason }} ({{ reason_details }})"),
        ("messages/cas_en.jinja", "listed by CAS"),
        ("messages/help_en.jinja", "v{{ pkg_version }} {{ commit_hash }} {{ commit_branch }} {{ commit_date }} {% if git_clean %}clean{% else %}dirty{% endif %}"),
        ("messages/clear_injects_en.jinja", "cleared"),
        ("messages/command_usage_en.jinja", "usage: {{ command_schema }}"),
        ("messages/inject_en.jinja", "added"),
        ("messages/set_lang_ru.jinja", "язык: {{ new_language }}"),
        ("messages/set_mode_en.jinja", "mode: {{ new_mode }}"),
        ("messages/toggle_inject_en.jinja", "{% if activated %}on{% else %}off{% endif %}"),
        ("prompts/moderator_motd.jinja", "You are a moderator."),
        ("prompts/admin_prompt_inject.jinja", "{% for d in recent_admin_directives %}[{{ d.author }}@{{ d.timestamp }}: {{ d.directive_text }}]{% endfor %}"),
        ("prompts/check_message.jinja", "{{ user_account_name }}|{% if user_account_description is none %}-{% else %}{{ user_account_description }}{% endif %}|{% if user_account_join_date is none %}-{% else %}{{ user_account_join_date }}{% endif %}|{{ output_language }}|{{ original_message_text }}"),
    ];
    for (name, source) in templates {
        env.add_template(name, source).unwrap();
    }
    Arc::new(env)
}

fn build() -> BuildInfo {
    BuildInfo {
        pkg_version: "1.2.3".to_string(),
        commit_hash: "abc".to_string(),
        commit_branch: "main".to_string(),
        commit_date: "today".to_string(),
        git_clean: true,
    }
}

#[test]
fn template_names() {
    assert_eq!(template_name("help", Language::English), "messages/help_en.jinja");
    assert_eq!(template_name("antispam", Language::Russian), "messages/antispam_ru.jinja");
    assert_eq!(mode_name(Mode::Ban), "Ban");
    assert_eq!(mode_name(Mode::Notify), "Notify");
}

#[test]
fn antispam_values() {
    let expected = TemplateValue::Record(vec![
        ("user_id".to_string(), TemplateValue::Number(5)),
        ("primary_reason".to_string(), TemplateValue::Text("Scam".to_string())),
        ("reason_details".to_string(), TemplateValue::Text("why".to_string())),
    ]);
    assert_eq!(antispam_context(5, "Scam", "why"), expected);
}

fn record(entries: &[(&str, TemplateValue)]) -> TemplateValue {
    let mut list = Vec::new();
    for (key, value) in entries {
        let value = match value {
            TemplateValue::Text(t) => TemplateValue::Text(t.clone()),
            TemplateValue::Number(n) => TemplateValue::Number(*n),
            TemplateValue::Flag(b) => TemplateValue::Flag(*b),
            _ => TemplateValue::Nothing,
        };
        list.push((key.to_string(), value));
    }
    TemplateValue::Record(list)
}

fn text(t: &str) -> TemplateValue {
    TemplateValue::Text(t.to_string())
}

#[test]
fn template_and_values_of_every_notice() {
    let info = build();
    let call = |name: &str, values: TemplateValue| {
        Some(TemplateCall { name: name.to_string(), values })
    };
    let flagged = Notice::Antispam {
        lang: Language::Russian,
        user_id: 9,
        reason: Reason::Flagged {
            primary_reason: "Scam".to_string(),
            reason_details: "d".to_string(),
        },
    };
    assert_eq!(details_call(&flagged), None);
    assert_eq!(
        notice_call(&flagged, &info, "unused"),
        call(
            "messages/antispam_ru.jinja",
            record(&[
                ("user_id", TemplateValue::Number(9)),
                ("primary_reason", text("Scam")),
                ("reason_details", text("d")),
            ])
        )
    );
    let listed = Notice::Antispam { lang: Language::English, user_id: 9, reason: Reason::BanList };
    assert_eq!(details_call(&listed), call("messages/cas_en.jinja", record(&[])));
    assert_eq!(
        notice_call(&listed, &info, "listed by CAS"),
        call(
            "messages/antispam_en.jinja",
            record(&[
                ("user_id", TemplateValue::Number(9)),
                ("primary_reason", text("CAS Ban")),
                ("reason_details", text("listed by CAS")),
            ])
        )
    );
    assert_eq!(
        notice_call(&Notice::Help { lang: Language::English }, &info, ""),
        call(
            "messages/help_en.jinja",
            record(&[
                ("pkg_version", text("1.2.3")),
                ("commit_hash", text("abc")),
                ("commit_branch", text("main")),
                ("commit_date", text("today")),
                ("git_clean", TemplateValue::Flag(true)),
            ])
        )
    );
    assert_eq!(
        notice_call(&Notice::ClearInjects { lang: Language::Russian }, &info, ""),
        call("messages/clear_injects_ru.jinja", record(&[]))
    );
    assert_eq!(
        notice_call(&Notice::Inject { lang: Language::English }, &info, ""),
        call("messages/inject_en.jinja", record(&[]))
    );
    assert_eq!(
        notice_call(
            &Notice::CommandUsage { lang: Language::English, command: Usage::Inject },
            &info,
            ""
        ),
        call(
            "messages/command_usage_en.jinja",
            record(&[("command_schema", text("/inject <directive text>"))])
        )
    );
    assert_eq!(
        notice_call(&Notice::SetLang { lang: Language::Russian }, &info, ""),
        call("messages/set_lang_ru.jinja", record(&[("new_language", text("ru"))]))
    );
    assert_eq!(
        notice_call(&Notice::SetMode { lang: Language::English, mode: Mode::Notify }, &info, ""),
        call("messages/set_mode_en.jinja", record(&[("new_mode", text("Notify"))]))
    );
    assert_eq!(
        notice_call(
            &Notice::ToggleInject { lang: Language::English, activated: false },
            &info,
            ""
        ),
        call(
            "messages/toggle_inject_en.jinja",
            record(&[("activated", TemplateValue::Flag(false))])
        )
    );
    let status = Notice::Status { chat: ChatState::default() };
    assert_eq!(details_call(&status), None);
    assert_eq!(notice_call(&status, &info, ""), None);
}

#[test]
fn messages_are_rendered() {
    let manager = MessageManager::new(environment());
    assert_eq!(
        manager.antispam_notification(Language::English, 5, "Scam", "why"),
        Some("user 5: Scam (why)".to_string())
    );
    assert_eq!(manager.cas(Language::English), Some("listed by CAS".to_string()));
    assert_eq!(
        manager.help(Language::English, &build()),
        Some("v1.2.3 abc main today clean".to_string())
    );
    assert_eq!(manager.clear_injects(Language::English), Some("cleared".to_string()));
    assert_eq!(
        manager.command_usage(Language::English, "/set_mode [ban|notify]"),
        Some("usage: /set_mode [ban|notify]".to_string())
    );
    assert_eq!(manager.inject(Language::English), Some("added".to_string()));
    assert_eq!(manager.set_lang(Language::Russian, "ru"), Some("язык: ru".to_string()));
    assert_eq!(manager.set_mode(Language::English, "Notify"), Some("mode: Notify".to_string()));
    assert_eq!(manager.toggle_inject(Language::English, true), Some("on".to_string()));
    assert_eq!(manager.toggle_inject(Language::English, false), Some("off".to_string()));
}

#[test]
fn missing_template_gives_no_text() {
    let manager = MessageManager::new(environment());
    assert_eq!(manager.cas(Language::Russian), None);
    assert_eq!(manager.help(Language::Russian, &build()), None);
    let empty = MessageManager::new(Arc::new(minijinja::Environment::new()));
    assert_eq!(empty.inject(Language::English), None);
}

#[test]
fn notices_are_rendered() {
    let manager = MessageManager::new(environment());
    let info = build();
    let ban_list =
        Notice::Antispam { lang: Language::English, user_id: 9, reason: Reason::BanList };
    assert_eq!(
        manager.render(&ban_list, &info),
        Some("user 9: CAS Ban (listed by CAS)".to_string())
    );
    let flagged = Notice::Antispam {
        lang: Language::Russian,
        user_id: 9,
        reason: Reason::Flagged {
            primary_reason: "Scam".to_string(),
            reason_details: "d".to_string(),
        },
    };
    assert_eq!(manager.render(&flagged, &info), Some("пользователь 9: Scam (d)".to_string()));
    assert_eq!(
        manager.render(&Notice::SetMode { lang: Language::English, mode: Mode::Ban }, &info),
        Some("mode: Ban".to_string())
    );
    assert_eq!(
        manager.render(&Notice::SetLang { lang: Language::Russian }, &info),
        Some("язык: ru".to_string())
    );
    assert_eq!(
        manager.render(
            &Notice::CommandUsage { lang: Language::English, command: Usage::SetLang },
            &info
        ),
        Some("usage: /set_lang [en|ru]".to_string())
    );
    assert_eq!(
        manager.render(&Notice::ToggleInject { lang: Language::English, activated: true }, &info),
        Some("on".to_string())
    );
    let status = manager.render(&Notice::Status { chat: ChatState::default() }, &info).unwrap();
    assert_eq!(status, format!("{:#?}", ChatState::default()));
    assert!(status.contains("working_mode: Ban"));
}

fn directive(text: &str) -> AdminDirective {
    AdminDirective {
        author: "Bo".to_string(),
        timestamp: "t0".to_string(),
        directive_text: text.to_string(),
    }
}

fn analysis() -> MessageAnalysisContext {
    MessageAnalysisContext {
        original_message_text: "hi".to_string(),
        user_account_name: "Ann Lee".to_string(),
        user_account_description: Some("annlee".to_string()),
        user_account_join_date: None,
        output_language: "en".to_string(),
    }
}

#[test]
fn prompt_values() {
    let context = AdminInjectionContext { recent_admin_directives: vec![directive("x")] };
    assert_eq!(
        injection_values(&context),
        TemplateValue::Record(vec![(
            "recent_admin_directives".to_string(),
            TemplateValue::List(vec![TemplateValue::Record(vec![
                ("author".to_string(), TemplateValue::Text("Bo".to_string())),
                ("timestamp".to_string(), TemplateValue::Text("t0".to_string())),
                ("directive_text".to_string(), TemplateValue::Text("x".to_string())),
            ])]),
        )])
    );
    assert_eq!(
        analysis_values(&analysis()),
        TemplateValue::Record(vec![
            ("original_message_text".to_string(), TemplateValue::Text("hi".to_string())),
            ("user_account_name".to_string(), TemplateValue::Text("Ann Lee".to_string())),
            ("user_account_description".to_string(), TemplateValue::Text("annlee".to_string())),
            ("user_account_join_date".to_string(), TemplateValue::Nothing),
            ("output_language".to_string(), TemplateValue::Text("en".to_string())),
        ])
    );
}

#[test]
fn prompts_are_rendered() {
    let prompts = PromptManager::new(environment());
    assert_eq!(prompts.moderator_system_prompt(), Some("You are a moderator.".to_string()));
    let context =
        AdminInjectionContext { recent_admin_directives: vec![directive("x"), directive("y")] };
    assert_eq!(prompts.admin_prompt_inject(&context), Some("[Bo@t0: x][Bo@t0: y]".to_string()));
    assert_eq!(
        prompts.check_message_prompt(&analysis()),
        Some("Ann Lee|annlee|-|en|hi".to_string())
    );
}

#[test]
fn conversation_is_rendered_in_order() {
    let prompts = PromptManager::new(environment());
    let request = ClassifierRequest {
        injection: Some(AdminInjectionContext { recent_admin_directives: vec![directive("x")] }),
        analysis: analysis(),
    };
    assert_eq!(
        render_conversation(&prompts, &request),
        Some(vec![
            ChatMessage::System("You are a moderator.".to_string()),
            ChatMessage::User("[Bo@t0: x]".to_string()),
            ChatMessage::User("Ann Lee|annlee|-|en|hi".to_string()),
        ])
    );
    let request = ClassifierRequest { injection: None, analysis: analysis() };
    assert_eq!(render_conversation(&prompts, &request).unwrap().len(), 2);
    let empty = PromptManager::new(Arc::new(minijinja::Environment::new()));
    assert_eq!(render_conversation(&empty, &request), None);
}

struct Canned {
    reply: Result<String, ProviderError>,
}

impl Provider for Canned {
    fn token(&self) -> String {
        "token".to_string()
    }

    fn chat(&self, messages: Vec<ChatMessage>) -> Result<String, ProviderError> {
        assert!(messages.len() >= 2);
        match &self.reply {
            Ok(text) => Ok(text.clone()),
            Err(ProviderError::NoChoice) => Err(ProviderError::NoChoice),
            Err(ProviderError::Transport(e)) => Err(ProviderError::Transport(e.clone())),
        }
    }
}

#[test]
fn message_is_analysed_through_a_provider() {
    let prompts = PromptManager::new(environment());
    let request = ClassifierRequest { injection: None, analysis: analysis() };
    let quarantine = Quarantine::new();
    let flag = r#"```json
{"assessmentOutcome":"FLAG","primaryReason":"Scam","detailedReasoning":"...","violatedPolicies":["x"],"confidenceScore":90,"suggestedAction":"ADMIN_REVIEW_URGENT"}
```"#;
    let provider = Canned { reply: Ok(flag.to_string()) };
    assert_eq!(provider.token(), "token");
    let report = quarantine.analyze_message(&provider, &prompts, &request).unwrap();
    assert_eq!(report.assessment_outcome, AssessmentOutcome::Flag);
    assert_eq!(report.confidence_score, 90);

    let provider = Canned { reply: Ok("{".to_string()) };
    assert!(matches!(
        quarantine.analyze_message(&provider, &prompts, &request),
        Err(AnalysisError::Malformed(_))
    ));
    let provider = Canned { reply: Err(ProviderError::NoChoice) };
    assert_eq!(
        quarantine.analyze_message(&provider, &prompts, &request),
        Err(AnalysisError::Provider(ProviderError::NoChoice))
    );
    let empty = PromptManager::new(Arc::new(minijinja::Environment::new()));
    let provider = Canned { reply: Ok(flag.to_string()) };
    assert_eq!(
        quarantine.analyze_message(&provider, &empty, &request),
        Err(AnalysisError::Prompt)
    );
}
