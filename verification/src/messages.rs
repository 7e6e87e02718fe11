//! The texts sent to a chat: which template each is rendered from, and with
//! which values.

use crate::actions::{Notice, NoticeView, Reason, ReasonView};
use crate::state::{ChatState, Language, Mode, UserId};
use crate::templates::{
    is_named, is_text, named, render_template, text_value, TemplateValue,
};
use std::sync::Arc;
use vstd::prelude::*;
use vstd::string::StringExecFns;

verus! {

/// The name of the template of the message `kind` in the language `lang`.
pub open spec fn message_template(kind: Seq<char>, lang: Language) -> Seq<char> {
    "messages/"@ + kind + "_"@ + lang.identifier() + ".jinja"@
}

/// The name of the template of the message `kind` in the language `lang`.
pub fn template_name(kind: &str, lang: Language) -> (name: String)
    ensures
        name@ == message_template(kind@, lang),
{
    let mut name = "messages/".to_owned();
    name.append(kind);
    name.append("_");
    name.append(lang.as_identifier());
    name.append(".jinja");
    name
}

/// What is known of the build, for the help text.
#[derive(Debug, PartialEq, Eq)]
pub struct BuildInfo {
    pub pkg_version: String,
    pub commit_hash: String,
    pub commit_branch: String,
    pub commit_date: String,
    pub git_clean: bool,
}

/// The mathematical content of a [`BuildInfo`].
pub struct BuildInfoView {
    pub pkg_version: Seq<char>,
    pub commit_hash: Seq<char>,
    pub commit_branch: Seq<char>,
    pub commit_date: Seq<char>,
    pub git_clean: bool,
}

impl View for BuildInfo {
    type V = BuildInfoView;

    open spec fn view(&self) -> BuildInfoView {
        BuildInfoView {
            pkg_version: self.pkg_version@,
            commit_hash: self.commit_hash@,
            commit_branch: self.commit_branch@,
            commit_date: self.commit_date@,
            git_clean: self.git_clean,
        }
    }
}

/// A value that a notice hands to its template.
pub enum FieldView {
    Text(Seq<char>),
    Number(u64),
    Flag(bool),
}

/// Whether a template value is the value `field`.
pub open spec fn is_field(value: TemplateValue, field: FieldView) -> bool {
    match field {
        FieldView::Text(text) => is_text(value, text),
        FieldView::Number(n) => value == TemplateValue::Number(n),
        FieldView::Flag(b) => value == TemplateValue::Flag(b),
    }
}

/// Whether a template value is the record of exactly the named values
/// `fields`, in their order.
pub open spec fn holds_fields(values: TemplateValue, fields: Seq<(Seq<char>, FieldView)>) -> bool {
    &&& values matches TemplateValue::Record(entries)
    &&& entries@.len() == fields.len()
    &&& forall|i: int|
        0 <= i < fields.len() ==> is_named(#[trigger] entries@[i], fields[i].0) && is_field(
            entries@[i].1,
            fields[i].1,
        )
}

/// A template and the values to render it with.
#[derive(Debug, PartialEq, Eq)]
pub struct TemplateCall {
    pub name: String,
    pub values: TemplateValue,
}

/// The mathematical content of a [`TemplateCall`].
pub struct TemplateCallView {
    pub name: Seq<char>,
    pub fields: Seq<(Seq<char>, FieldView)>,
}

/// Whether a call asks for the template and the values of `view`.
pub open spec fn is_call(call: TemplateCall, view: TemplateCallView) -> bool {
    call.name@ == view.name && holds_fields(call.values, view.fields)
}

/// The values of the notice about a user who was acted upon.
pub open spec fn antispam_fields(
    user_id: UserId,
    primary_reason: Seq<char>,
    reason_details: Seq<char>,
) -> Seq<(Seq<char>, FieldView)> {
    seq![
        ("user_id"@, FieldView::Number(user_id)),
        ("primary_reason"@, FieldView::Text(primary_reason)),
        ("reason_details"@, FieldView::Text(reason_details)),
    ]
}

/// The values of the help text.
pub open spec fn help_fields(build: BuildInfoView) -> Seq<(Seq<char>, FieldView)> {
    seq![
        ("pkg_version"@, FieldView::Text(build.pkg_version)),
        ("commit_hash"@, FieldView::Text(build.commit_hash)),
        ("commit_branch"@, FieldView::Text(build.commit_branch)),
        ("commit_date"@, FieldView::Text(build.commit_date)),
        ("git_clean"@, FieldView::Flag(build.git_clean)),
    ]
}

/// The reason that the notice about a user on the ban list names.
pub open spec fn ban_list_reason() -> Seq<char> {
    "CAS Ban"@
}

/// What is rendered before a notice, to be a part of it: for the notice
/// about a user on the ban list the ban-list text, which becomes the details
/// of the notice; for any other notice nothing.
pub open spec fn details_request(notice: NoticeView) -> Option<TemplateCallView> {
    match notice {
        NoticeView::Antispam { lang, user_id, reason: ReasonView::BanList } => Some(
            TemplateCallView { name: message_template("cas"@, lang), fields: Seq::empty() },
        ),
        _ => None,
    }
}

/// The template of a notice and the values it is rendered with, in the
/// language that the notice names. `details` is the text rendered before the
/// notice, where there is one. The status of a chat has no template.
pub open spec fn notice_request(notice: NoticeView, build: BuildInfoView, details: Seq<char>)
    -> Option<TemplateCallView> {
    match notice {
        NoticeView::Antispam { lang, user_id, reason } => Some(
            TemplateCallView {
                name: message_template("antispam"@, lang),
                fields: match reason {
                    ReasonView::BanList => antispam_fields(user_id, ban_list_reason(), details),
                    ReasonView::Flagged { primary_reason, reason_details } => antispam_fields(
                        user_id,
                        primary_reason,
                        reason_details,
                    ),
                },
            },
        ),
        NoticeView::Help { lang } => Some(
            TemplateCallView { name: message_template("help"@, lang), fields: help_fields(build) },
        ),
        NoticeView::ClearInjects { lang } => Some(
            TemplateCallView {
                name: message_template("clear_injects"@, lang),
                fields: Seq::empty(),
            },
        ),
        NoticeView::CommandUsage { lang, command } => Some(
            TemplateCallView {
                name: message_template("command_usage"@, lang),
                fields: seq![("command_schema"@, FieldView::Text(command.schema_text()))],
            },
        ),
        NoticeView::Inject { lang } => Some(
            TemplateCallView { name: message_template("inject"@, lang), fields: Seq::empty() },
        ),
        NoticeView::SetLang { lang } => Some(
            TemplateCallView {
                name: message_template("set_lang"@, lang),
                fields: seq![("new_language"@, FieldView::Text(lang.identifier()))],
            },
        ),
        NoticeView::SetMode { lang, mode } => Some(
            TemplateCallView {
                name: message_template("set_mode"@, lang),
                fields: seq![("new_mode"@, FieldView::Text(mode_title(mode)))],
            },
        ),
        NoticeView::ToggleInject { lang, activated } => Some(
            TemplateCallView {
                name: message_template("toggle_inject"@, lang),
                fields: seq![("activated"@, FieldView::Flag(activated))],
            },
        ),
        NoticeView::Status { chat } => None,
    }
}

/// The name of a mode as the notices show it.
pub open spec fn mode_title(mode: Mode) -> Seq<char> {
    match mode {
        Mode::Ban => "Ban"@,
        Mode::Notify => "Notify"@,
    }
}

/// The name of a mode as the notices show it.
pub fn mode_name(mode: Mode) -> (name: &'static str)
    ensures
        name@ == mode_title(mode),
{
    match mode {
        Mode::Ban => "Ban",
        Mode::Notify => "Notify",
    }
}

/// The state of a chat as `Debug` of std prints it, in its pretty form.
/// Nothing is claimed of the text.
#[verifier::external_body]
fn debug_dump(chat: &ChatState) -> String {
    format!("{:#?}", chat)
}

/// The values of the notice about a user who was acted upon.
pub fn antispam_context(user_id: UserId, primary_reason: &str, reason_details: &str) -> (context:
    TemplateValue)
    ensures
        holds_fields(context, antispam_fields(user_id, primary_reason@, reason_details@)),
{
    let mut entries: Vec<(String, TemplateValue)> = Vec::new();
    entries.push(named("user_id", TemplateValue::Number(user_id)));
    entries.push(named("primary_reason", text_value(primary_reason)));
    entries.push(named("reason_details", text_value(reason_details)));
    TemplateValue::Record(entries)
}

/// The values of the help text.
pub fn help_context(build: &BuildInfo) -> (context: TemplateValue)
    ensures
        holds_fields(context, help_fields(build@)),
{
    let mut entries: Vec<(String, TemplateValue)> = Vec::new();
    entries.push(named("pkg_version", text_value(build.pkg_version.as_str())));
    entries.push(named("commit_hash", text_value(build.commit_hash.as_str())));
    entries.push(named("commit_branch", text_value(build.commit_branch.as_str())));
    entries.push(named("commit_date", text_value(build.commit_date.as_str())));
    entries.push(named("git_clean", TemplateValue::Flag(build.git_clean)));
    TemplateValue::Record(entries)
}

/// A record with the single entry `key`.
pub fn single_value(key: &str, value: TemplateValue) -> (context: TemplateValue)
    ensures
        context matches TemplateValue::Record(entries) && entries@.len() == 1 && is_named(
            entries@[0],
            key@,
        ) && entries@[0].1 == value,
        forall|field: FieldView|
            is_field(value, field) ==> #[trigger] holds_fields(context, seq![(key@, field)]),
{
    let mut entries: Vec<(String, TemplateValue)> = Vec::new();
    entries.push(named(key, value));
    TemplateValue::Record(entries)
}

/// A record without entries.
pub fn no_values() -> (context: TemplateValue)
    ensures
        context matches TemplateValue::Record(entries) && entries@.len() == 0,
        holds_fields(context, Seq::empty()),
{
    TemplateValue::Record(Vec::new())
}

/// What is to be rendered before a notice, where anything is.
pub fn details_call(notice: &Notice) -> (call: Option<TemplateCall>)
    ensures
        match call {
            Some(c) => details_request(notice@) is Some && is_call(c, details_request(notice@)->0),
            None => details_request(notice@) is None,
        },
{
    match notice {
        Notice::Antispam { lang, user_id, reason } => match reason {
            Reason::BanList => Some(
                TemplateCall { name: template_name("cas", *lang), values: no_values() },
            ),
            Reason::Flagged { .. } => None,
        },
        _ => None,
    }
}

/// Chooses the template of a notice and the values to render it with.
/// `details` is the text that was rendered before the notice, where
/// [`details_call`] asked for one; it is not read otherwise.
pub fn notice_call(notice: &Notice, build: &BuildInfo, details: &str) -> (call: Option<
    TemplateCall,
>)
    ensures
        match call {
            Some(c) => notice_request(notice@, build@, details@) is Some && is_call(
                c,
                notice_request(notice@, build@, details@)->0,
            ),
            None => notice_request(notice@, build@, details@) is None,
        },
{
    match notice {
        Notice::Antispam { lang, user_id, reason } => {
            let values = match reason {
                Reason::BanList => antispam_context(*user_id, "CAS Ban", details),
                Reason::Flagged { primary_reason, reason_details } => antispam_context(
                    *user_id,
                    primary_reason.as_str(),
                    reason_details.as_str(),
                ),
            };
            Some(TemplateCall { name: template_name("antispam", *lang), values })
        },
        Notice::Help { lang } => Some(
            TemplateCall { name: template_name("help", *lang), values: help_context(build) },
        ),
        Notice::ClearInjects { lang } => Some(
            TemplateCall { name: template_name("clear_injects", *lang), values: no_values() },
        ),
        Notice::CommandUsage { lang, command } => {
            let values = single_value("command_schema", text_value(command.schema()));
            assert(is_field(values->Record_0@[0].1, FieldView::Text(command.schema_text())));
            Some(TemplateCall { name: template_name("command_usage", *lang), values })
        },
        Notice::Inject { lang } => Some(
            TemplateCall { name: template_name("inject", *lang), values: no_values() },
        ),
        Notice::SetLang { lang } => {
            let values = single_value("new_language", text_value(lang.as_identifier()));
            assert(is_field(values->Record_0@[0].1, FieldView::Text(lang.identifier())));
            Some(TemplateCall { name: template_name("set_lang", *lang), values })
        },
        Notice::SetMode { lang, mode } => {
            let values = single_value("new_mode", text_value(mode_name(*mode)));
            assert(is_field(values->Record_0@[0].1, FieldView::Text(mode_title(*mode))));
            Some(TemplateCall { name: template_name("set_mode", *lang), values })
        },
        Notice::ToggleInject { lang, activated } => {
            let values = single_value("activated", TemplateValue::Flag(*activated));
            assert(is_field(values->Record_0@[0].1, FieldView::Flag(*activated)));
            Some(TemplateCall { name: template_name("toggle_inject", *lang), values })
        },
        Notice::Status { .. } => None,
    }
}

/// Renders the texts for the chats. Every text is `None` where the
/// environment lacks the template or cannot render it.
pub struct MessageManager<'a> {
    env: Arc<minijinja::Environment<'a>>,
}

impl<'a> MessageManager<'a> {
    /// The environment whose templates the texts are rendered from.
    pub closed spec fn environment(self) -> Arc<minijinja::Environment<'a>> {
        self.env
    }

    /// The manager that renders from the templates of `jinja_env`.
    pub fn new(jinja_env: Arc<minijinja::Environment<'a>>) -> (manager: Self)
        ensures
            manager.environment() == jinja_env,
    {
        MessageManager { env: jinja_env }
    }

    /// The notice about a user who was acted upon.
    pub fn antispam_notification(
        &self,
        lang: Language,
        user_id: UserId,
        primary_reason: &str,
        reason_details: &str,
    ) -> Option<String> {
        let name = template_name("antispam", lang);
        let context = antispam_context(user_id, primary_reason, reason_details);
        render_template(&self.env, name.as_str(), &context)
    }

    /// The help text.
    pub fn help(&self, lang: Language, build: &BuildInfo) -> Option<String> {
        let name = template_name("help", lang);
        render_template(&self.env, name.as_str(), &help_context(build))
    }

    /// The details given for a user who is on the ban list.
    pub fn cas(&self, lang: Language) -> Option<String> {
        let name = template_name("cas", lang);
        render_template(&self.env, name.as_str(), &no_values())
    }

    /// The answer to `/clear_injects`.
    pub fn clear_injects(&self, lang: Language) -> Option<String> {
        let name = template_name("clear_injects", lang);
        render_template(&self.env, name.as_str(), &no_values())
    }

    /// The usage of a command.
    pub fn command_usage(&self, lang: Language, command_schema: &str) -> Option<String> {
        let name = template_name("command_usage", lang);
        let context = single_value("command_schema", text_value(command_schema));
        render_template(&self.env, name.as_str(), &context)
    }

    /// The answer to `/inject`.
    pub fn inject(&self, lang: Language) -> Option<String> {
        let name = template_name("inject", lang);
        render_template(&self.env, name.as_str(), &no_values())
    }

    /// The answer to `/set_lang`.
    pub fn set_lang(&self, lang: Language, new_language: &str) -> Option<String> {
        let name = template_name("set_lang", lang);
        let context = single_value("new_language", text_value(new_language));
        render_template(&self.env, name.as_str(), &context)
    }

    /// The answer to `/set_mode`.
    pub fn set_mode(&self, lang: Language, new_mode: &str) -> Option<String> {
        let name = template_name("set_mode", lang);
        let context = single_value("new_mode", text_value(new_mode));
        render_template(&self.env, name.as_str(), &context)
    }

    /// The answer to `/toggle_inject`.
    pub fn toggle_inject(&self, lang: Language, activated: bool) -> Option<String> {
        let name = template_name("toggle_inject", lang);
        let context = single_value("activated", TemplateValue::Flag(activated));
        render_template(&self.env, name.as_str(), &context)
    }

    /// The text of a notice: that of the template and the values which
    /// [`notice_call`] chooses, after the text which [`details_call`] asks
    /// for was rendered. The status of a chat is the state as it prints
    /// itself; it needs no template, so it always has a text.
    pub fn render(&self, notice: &Notice, build: &BuildInfo) -> (text: Option<String>)
        ensures
            *notice is Status ==> text is Some,
    {
        match notice {
            Notice::Status { chat } => Some(debug_dump(chat)),
            _ => {
                let details = match details_call(notice) {
                    Some(call) => match render_template(
                        &self.env,
                        call.name.as_str(),
                        &call.values,
                    ) {
                        Some(text) => text,
                        None => {
                            return None;
                        },
                    },
                    None => String::new(),
                };
                match notice_call(notice, build, details.as_str()) {
                    Some(call) => render_template(&self.env, call.name.as_str(), &call.values),
                    None => None,
                }
            },
        }
    }
}

} // verus!
