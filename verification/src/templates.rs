//! Rendering of named templates by `minijinja`, from values that are built
//! here.

use std::sync::Arc;
use vstd::prelude::*;

verus! {

/// A value handed to a template.
#[derive(Debug, PartialEq, Eq)]
pub enum TemplateValue {
    /// The absent value.
    Nothing,
    Flag(bool),
    Number(u64),
    Text(String),
    List(Vec<TemplateValue>),
    /// Named values. A template finds them by name; their order means
    /// nothing to it.
    Record(Vec<(String, TemplateValue)>),
}

#[verifier::external_type_specification]
#[verifier::external_body]
pub struct ExEnvironment<'a>(minijinja::Environment<'a>);

#[verifier::external_type_specification]
#[verifier::external_body]
pub struct ExEngineValue(minijinja::Value);

/// Moves a [`TemplateValue`] into a `minijinja::Value`, variant by variant:
/// a list becomes a sequence object and a record a map object with string
/// keys. Nothing is claimed of the result.
#[verifier::external_body]
fn to_engine_value(value: &TemplateValue) -> minijinja::Value {
    match value {
        TemplateValue::Nothing => minijinja::Value::from(()),
        TemplateValue::Flag(b) => minijinja::Value::from(*b),
        TemplateValue::Number(n) => minijinja::Value::from(*n),
        TemplateValue::Text(s) => minijinja::Value::from(s.as_str()),
        TemplateValue::List(items) => minijinja::Value::from_object(
            items.iter().map(to_engine_value).collect::<Vec<minijinja::Value>>(),
        ),
        TemplateValue::Record(entries) => minijinja::Value::from_object(
            entries.iter().map(|e| (e.0.clone(), to_engine_value(&e.1))).collect::<
                std::collections::BTreeMap<String, minijinja::Value>,
            >(),
        ),
    }
}

/// Looks the template `name` up with `minijinja::Environment::get_template`
/// and renders it with `minijinja::Template::render` on `context`. `None`
/// where the environment holds no such template or the rendering fails.
/// Nothing is claimed of the text: it depends on the templates that the
/// environment was loaded with.
#[verifier::external_body]
pub(crate) fn render_template(
    env: &Arc<minijinja::Environment<'_>>,
    name: &str,
    context: &TemplateValue,
) -> Option<String> {
    match env.get_template(name) {
        Ok(template) => template.render(to_engine_value(context)).ok(),
        Err(_) => None,
    }
}

/// Whether an entry of a record has the name `key`.
pub open spec fn is_named(entry: (String, TemplateValue), key: Seq<char>) -> bool {
    entry.0@ == key
}

/// Whether a value is the text `text`.
pub open spec fn is_text(value: TemplateValue, text: Seq<char>) -> bool {
    value matches TemplateValue::Text(t) && t@ == text
}

/// Whether a value is the optional text `text`: the text, or the absent
/// value.
pub open spec fn is_optional_text(value: TemplateValue, text: Option<Seq<char>>) -> bool {
    match text {
        Some(t) => is_text(value, t),
        None => value is Nothing,
    }
}

/// A text as a template value.
pub fn text_value(text: &str) -> (value: TemplateValue)
    ensures
        is_text(value, text@),
{
    TemplateValue::Text(text.to_owned())
}

/// An optional text as a template value.
pub fn optional_text_value(text: &Option<String>) -> (value: TemplateValue)
    ensures
        is_optional_text(value, crate::prompts::text_view(*text)),
{
    match text {
        Some(t) => TemplateValue::Text(t.clone()),
        None => TemplateValue::Nothing,
    }
}

/// An entry of a record.
pub fn named(key: &str, value: TemplateValue) -> (entry: (String, TemplateValue))
    ensures
        is_named(entry, key@),
        entry.1 == value,
{
    (key.to_owned(), value)
}

} // verus!
