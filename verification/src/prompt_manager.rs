//! The prompts put to the classifier: which template each is rendered from,
//! and with which values.

use crate::prompts::{
    directive_views, AdminDirective, AdminDirectiveView, AdminInjectionContext,
    MessageAnalysisContext,
};
use crate::templates::{
    is_named, is_optional_text, is_text, named, optional_text_value, render_template, text_value,
    TemplateValue,
};
use std::sync::Arc;
use vstd::prelude::*;

verus! {

/// Whether a value is the record of the directive `directive`.
pub open spec fn is_directive_value(value: TemplateValue, directive: AdminDirectiveView) -> bool {
    &&& value matches TemplateValue::Record(entries)
    &&& entries@.len() == 3
    &&& is_named(entries@[0], "author"@)
    &&& is_text(entries@[0].1, directive.author)
    &&& is_named(entries@[1], "timestamp"@)
    &&& is_text(entries@[1].1, directive.timestamp)
    &&& is_named(entries@[2], "directive_text"@)
    &&& is_text(entries@[2].1, directive.directive_text)
}

/// Whether a value is the list of the records of `directives`, in order.
pub open spec fn is_directive_list(value: TemplateValue, directives: Seq<AdminDirectiveView>)
    -> bool {
    &&& value matches TemplateValue::List(items)
    &&& items@.len() == directives.len()
    &&& forall|i: int|
        0 <= i < directives.len() ==> is_directive_value(#[trigger] items@[i], directives[i])
}

/// The record of one directive.
pub fn directive_value(directive: &AdminDirective) -> (value: TemplateValue)
    ensures
        is_directive_value(value, directive@),
{
    let mut entries: Vec<(String, TemplateValue)> = Vec::new();
    entries.push(named("author", text_value(directive.author.as_str())));
    entries.push(named("timestamp", text_value(directive.timestamp.as_str())));
    entries.push(named("directive_text", text_value(directive.directive_text.as_str())));
    TemplateValue::Record(entries)
}

/// The values of the administrators' part of the prompt: the directives, in
/// order, under the name `recent_admin_directives`.
pub fn injection_values(context: &AdminInjectionContext) -> (value: TemplateValue)
    ensures
        value matches TemplateValue::Record(entries) && entries@.len() == 1 && is_named(
            entries@[0],
            "recent_admin_directives"@,
        ) && is_directive_list(entries@[0].1, directive_views(context.recent_admin_directives@)),
{
    let list = &context.recent_admin_directives;
    let mut items: Vec<TemplateValue> = Vec::new();
    let mut i: usize = 0;
    while i < list.len()
        invariant
            i <= list@.len(),
            items@.len() == i,
            forall|k: int| 0 <= k < i ==> is_directive_value(#[trigger] items@[k], list@[k]@),
        decreases list@.len() - i,
    {
        items.push(directive_value(&list[i]));
        i += 1;
    }
    let mut entries: Vec<(String, TemplateValue)> = Vec::new();
    entries.push(named("recent_admin_directives", TemplateValue::List(items)));
    TemplateValue::Record(entries)
}

/// The values of the prompt about a message, each under the name of its
/// field.
pub fn analysis_values(context: &MessageAnalysisContext) -> (value: TemplateValue)
    ensures
        value matches TemplateValue::Record(entries) && entries@.len() == 5 && is_named(
            entries@[0],
            "original_message_text"@,
        ) && is_text(entries@[0].1, context@.original_message_text) && is_named(
            entries@[1],
            "user_account_name"@,
        ) && is_text(entries@[1].1, context@.user_account_name) && is_named(
            entries@[2],
            "user_account_description"@,
        ) && is_optional_text(entries@[2].1, context@.user_account_description) && is_named(
            entries@[3],
            "user_account_join_date"@,
        ) && is_optional_text(entries@[3].1, context@.user_account_join_date) && is_named(
            entries@[4],
            "output_language"@,
        ) && is_text(entries@[4].1, context@.output_language),
{
    let mut entries: Vec<(String, TemplateValue)> = Vec::new();
    entries.push(named("original_message_text", text_value(context.original_message_text.as_str())));
    entries.push(named("user_account_name", text_value(context.user_account_name.as_str())));
    entries.push(
        named("user_account_description", optional_text_value(&context.user_account_description)),
    );
    entries.push(
        named("user_account_join_date", optional_text_value(&context.user_account_join_date)),
    );
    entries.push(named("output_language", text_value(context.output_language.as_str())));
    TemplateValue::Record(entries)
}

/// Renders the prompts for the classifier. Every prompt is `None` where the
/// environment lacks the template or cannot render it.
pub struct PromptManager<'a> {
    env: Arc<minijinja::Environment<'a>>,
}

impl<'a> PromptManager<'a> {
    /// The environment whose templates the prompts are rendered from.
    pub closed spec fn environment(self) -> Arc<minijinja::Environment<'a>> {
        self.env
    }

    /// The manager that renders from the templates of `jinja_env`.
    pub fn new(jinja_env: Arc<minijinja::Environment<'a>>) -> (manager: Self)
        ensures
            manager.environment() == jinja_env,
    {
        PromptManager { env: jinja_env }
    }

    /// The system instruction.
    pub fn moderator_system_prompt(&self) -> Option<String> {
        render_template(&self.env, "prompts/moderator_motd.jinja", &crate::messages::no_values())
    }

    /// The administrators' part of the prompt.
    pub fn admin_prompt_inject(&self, context: &AdminInjectionContext) -> Option<String> {
        render_template(
            &self.env,
            "prompts/admin_prompt_inject.jinja",
            &injection_values(context),
        )
    }

    /// The prompt about one message.
    pub fn check_message_prompt(&self, context: &MessageAnalysisContext) -> Option<String> {
        render_template(&self.env, "prompts/check_message.jinja", &analysis_values(context))
    }
}

} // verus!
