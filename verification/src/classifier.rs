//! The classifier gateway: the conversation that is sent, and the reading of
//! the raw answer as a verdict.

use crate::json::{get_member, json_document, member, parse_json, Json};
use crate::prompts::{
    text_view, text_views, AnalysisReport, AnalysisReportView, AssessmentOutcome, SuggestedAction,
};
use crate::provider::ChatMessage;
use crate::text::{
    same_text, trim, trim_end_matches, trim_start_matches, trimmed, without_prefixes,
    without_suffixes,
};
use vstd::prelude::*;

verus! {

/// The raw answer without the code fence that a model may wrap it in.
pub open spec fn without_fence(raw: Seq<char>) -> Seq<char> {
    trimmed(without_suffixes(without_prefixes(trimmed(raw), "```json"@), "```"@))
}

/// Strips surrounding whitespace and an incidental code fence.
pub fn strip_code_fence(raw: &str) -> (clean: &str)
    ensures
        clean@ == without_fence(raw@),
{
    trim(trim_end_matches(trim_start_matches(trim(raw), "```json"), "```"))
}

/// The outcome that a word of the verdict names.
pub open spec fn outcome_named(word: Seq<char>) -> Option<AssessmentOutcome> {
    if word == "FLAG"@ {
        Some(AssessmentOutcome::Flag)
    } else if word == "PASS"@ {
        Some(AssessmentOutcome::Pass)
    } else {
        None
    }
}

/// The suggested action that a word of the verdict names.
pub open spec fn action_named(word: Seq<char>) -> Option<SuggestedAction> {
    if word == "ADMIN_REVIEW_URGENT"@ {
        Some(SuggestedAction::AdminReviewUrgent)
    } else if word == "ADMIN_REVIEW_NORMAL"@ {
        Some(SuggestedAction::AdminReviewNormal)
    } else if word == "LOG_ONLY"@ {
        Some(SuggestedAction::LogOnly)
    } else if word == "NO_ACTION"@ {
        Some(SuggestedAction::NoAction)
    } else {
        None
    }
}

/// The text of a member that must be a string.
pub open spec fn required_text(value: Option<Json>) -> Option<Seq<char>> {
    match value {
        Some(Json::Text(s)) => Some(s@),
        _ => None,
    }
}

/// The text of a member that may be left out or null: `None` where it is
/// anything but a string, null or absent.
pub open spec fn optional_text(value: Option<Json>) -> Option<Option<Seq<char>>> {
    match value {
        None => Some(None),
        Some(Json::Null) => Some(None),
        Some(Json::Text(s)) => Some(Some(s@)),
        _ => None,
    }
}

/// Whether every item of a list is a string.
pub open spec fn all_text(items: Seq<Json>) -> bool {
    forall|i: int| 0 <= i < items.len() ==> #[trigger] items[i] is Text
}

/// The texts of a member that must be a list of strings.
pub open spec fn required_texts(value: Option<Json>) -> Option<Seq<Seq<char>>> {
    match value {
        Some(Json::List(items)) => if all_text(items@) {
            Some(Seq::new(items@.len(), |i: int| items@[i]->Text_0@))
        } else {
            None
        },
        _ => None,
    }
}

/// The value of a member that must be a whole number from 0 to 100.
pub open spec fn required_percentage(value: Option<Json>) -> Option<u8> {
    match value {
        Some(Json::Unsigned(n)) => if n <= 100 {
            Some(n as u8)
        } else {
            None
        },
        _ => None,
    }
}

/// The verdict that a JSON document holds, or `None` where it does not
/// conform: it must be an object with the members `assessmentOutcome`,
/// `violatedPolicies`, `confidenceScore` and `suggestedAction`, and
/// optionally `primaryReason` and `detailedReasoning`, both of which a flag
/// must have. Other members are ignored.
pub open spec fn report_in(doc: Json) -> Option<AnalysisReportView> {
    match doc {
        Json::Record(entries) => {
            let outcome = match required_text(member(entries@, "assessmentOutcome"@)) {
                Some(word) => outcome_named(word),
                None => None,
            };
            let primary = optional_text(member(entries@, "primaryReason"@));
            let detailed = optional_text(member(entries@, "detailedReasoning"@));
            let policies = required_texts(member(entries@, "violatedPolicies"@));
            let score = required_percentage(member(entries@, "confidenceScore"@));
            let action = match required_text(member(entries@, "suggestedAction"@)) {
                Some(word) => action_named(word),
                None => None,
            };
            if outcome is Some && primary is Some && detailed is Some && policies is Some
                && score is Some && action is Some {
                let report = AnalysisReportView {
                    assessment_outcome: outcome->0,
                    primary_reason: primary->0,
                    detailed_reasoning: detailed->0,
                    violated_policies: policies->0,
                    confidence_score: score->0,
                    suggested_action: action->0,
                };
                if report.conforms() {
                    Some(report)
                } else {
                    None
                }
            } else {
                None
            }
        },
        _ => None,
    }
}

fn read_outcome(value: Option<&Json>) -> (r: Option<AssessmentOutcome>)
    ensures
        r == match required_text(crate::classifier::lift(value)) {
            Some(word) => outcome_named(word),
            None => None,
        },
{
    match value {
        Some(Json::Text(s)) => {
            if same_text(s.as_str(), "FLAG") {
                Some(AssessmentOutcome::Flag)
            } else if same_text(s.as_str(), "PASS") {
                Some(AssessmentOutcome::Pass)
            } else {
                None
            }
        },
        _ => None,
    }
}

fn read_action(value: Option<&Json>) -> (r: Option<SuggestedAction>)
    ensures
        r == match required_text(crate::classifier::lift(value)) {
            Some(word) => action_named(word),
            None => None,
        },
{
    match value {
        Some(Json::Text(s)) => {
            if same_text(s.as_str(), "ADMIN_REVIEW_URGENT") {
                Some(SuggestedAction::AdminReviewUrgent)
            } else if same_text(s.as_str(), "ADMIN_REVIEW_NORMAL") {
                Some(SuggestedAction::AdminReviewNormal)
            } else if same_text(s.as_str(), "LOG_ONLY") {
                Some(SuggestedAction::LogOnly)
            } else if same_text(s.as_str(), "NO_ACTION") {
                Some(SuggestedAction::NoAction)
            } else {
                None
            }
        },
        _ => None,
    }
}

/// A borrowed member as the value it refers to.
pub open spec fn lift(value: Option<&Json>) -> Option<Json> {
    match value {
        Some(v) => Some(*v),
        None => None,
    }
}

fn read_optional_text(value: Option<&Json>) -> (r: Option<Option<String>>)
    ensures
        match r {
            Some(t) => optional_text(lift(value)) == Some(text_view(t)),
            None => optional_text(lift(value)) is None,
        },
{
    match value {
        None => Some(None),
        Some(Json::Null) => Some(None),
        Some(Json::Text(s)) => Some(Some(s.clone())),
        _ => None,
    }
}

fn read_texts(value: Option<&Json>) -> (r: Option<Vec<String>>)
    ensures
        match r {
            Some(list) => required_texts(lift(value)) == Some(text_views(list@)),
            None => required_texts(lift(value)) is None,
        },
{
    match value {
        Some(Json::List(items)) => {
            let mut list: Vec<String> = Vec::new();
            let mut i: usize = 0;
            while i < items.len()
                invariant
                    i <= items@.len(),
                    list@.len() == i,
                    lift(value) == Some(Json::List(*items)),
                    forall|k: int| 0 <= k < i ==> #[trigger] items@[k] is Text,
                    forall|k: int| 0 <= k < i ==> list@[k]@ == items@[k]->Text_0@,
                decreases items@.len() - i,
            {
                let item = &items[i];
                match item {
                    Json::Text(s) => {
                        list.push(s.clone());
                    },
                    _ => {
                        assert(!(items@[i as int] is Text));
                        return None;
                    },
                }
                i += 1;
            }
            assert(all_text(items@));
            assert(text_views(list@) =~= Seq::new(items@.len(), |i: int| items@[i]->Text_0@));
            Some(list)
        },
        _ => None,
    }
}

fn read_percentage(value: Option<&Json>) -> (r: Option<u8>)
    ensures
        r == required_percentage(lift(value)),
{
    match value {
        Some(Json::Unsigned(n)) => {
            if *n <= 100 {
                Some(*n as u8)
            } else {
                None
            }
        },
        _ => None,
    }
}

/// Reads a verdict from a JSON document.
pub fn report_from_json(doc: &Json) -> (r: Option<AnalysisReport>)
    ensures
        match r {
            Some(report) => report_in(*doc) == Some(report@),
            None => report_in(*doc) is None,
        },
{
    match doc {
        Json::Record(entries) => {
            let outcome = read_outcome(get_member(entries, "assessmentOutcome"));
            let primary = read_optional_text(get_member(entries, "primaryReason"));
            let detailed = read_optional_text(get_member(entries, "detailedReasoning"));
            let policies = read_texts(get_member(entries, "violatedPolicies"));
            let score = read_percentage(get_member(entries, "confidenceScore"));
            let action = read_action(get_member(entries, "suggestedAction"));
            match (outcome, primary, detailed, policies, score, action) {
                (
                    Some(assessment_outcome),
                    Some(primary_reason),
                    Some(detailed_reasoning),
                    Some(violated_policies),
                    Some(confidence_score),
                    Some(suggested_action),
                ) => {
                    let report = AnalysisReport {
                        assessment_outcome,
                        primary_reason,
                        detailed_reasoning,
                        violated_policies,
                        confidence_score,
                        suggested_action,
                    };
                    if report.is_conforming() {
                        Some(report)
                    } else {
                        None
                    }
                },
                _ => None,
            }
        },
        _ => None,
    }
}

/// An answer of the classifier that is no verdict, with the raw text kept
/// for diagnosis.
#[derive(Debug, PartialEq, Eq)]
pub struct MalformedVerdict {
    pub raw: String,
}

/// The verdict that a raw answer holds, once its fence is stripped.
pub open spec fn verdict_in(raw: Seq<char>) -> Option<AnalysisReportView> {
    match json_document(without_fence(raw)) {
        Some(doc) => report_in(doc),
        None => None,
    }
}

/// Reads the classifier's raw answer. An answer that is no JSON document or
/// does not conform to the verdict schema is an error that carries the raw
/// text; it is never taken for a pass.
pub fn parse_verdict(raw: &str) -> (r: Result<AnalysisReport, MalformedVerdict>)
    ensures
        match r {
            Ok(report) => verdict_in(raw@) == Some(report@),
            Err(e) => verdict_in(raw@) is None && e.raw@ == raw@,
        },
{
    let clean = strip_code_fence(raw);
    let report = match parse_json(clean) {
        Some(doc) => report_from_json(&doc),
        None => None,
    };
    match report {
        Some(report) => Ok(report),
        None => Err(MalformedVerdict { raw: raw.to_owned() }),
    }
}

/// The conversation sent to the classifier: the system instruction, then the
/// administrators' part where there is one, then the prompt about the
/// message.
pub open spec fn conversation(
    system_prompt: Seq<char>,
    admin_prompt: Option<Seq<char>>,
    check_prompt: Seq<char>,
) -> Seq<(Seq<char>, Seq<char>)> {
    let head = seq![("system"@, system_prompt)];
    let middle = match admin_prompt {
        Some(p) => seq![("user"@, p)],
        None => Seq::empty(),
    };
    head + middle + seq![("user"@, check_prompt)]
}

/// The roles and texts of a list of messages, in order.
pub open spec fn turns(messages: Seq<ChatMessage>) -> Seq<(Seq<char>, Seq<char>)> {
    Seq::new(messages.len(), |i: int| (messages[i].role_name(), messages[i].content()))
}

/// Puts the rendered prompts into the order in which they are sent.
pub fn build_conversation(
    system_prompt: String,
    admin_prompt: Option<String>,
    check_prompt: String,
) -> (messages: Vec<ChatMessage>)
    ensures
        turns(messages@) == conversation(system_prompt@, text_view(admin_prompt), check_prompt@),
        messages@[0] is System,
        forall|i: int| 1 <= i < messages@.len() ==> messages@[i] is User,
{
    let mut messages: Vec<ChatMessage> = Vec::new();
    messages.push(ChatMessage::System(system_prompt));
    match admin_prompt {
        Some(p) => {
            messages.push(ChatMessage::User(p));
        },
        None => {},
    }
    messages.push(ChatMessage::User(check_prompt));
    assert(turns(messages@) =~= conversation(
        system_prompt@,
        text_view(admin_prompt),
        check_prompt@,
    ));
    messages
}

} // verus!
