//! What is handed to the classifier and what comes back from it.

use vstd::prelude::*;

verus! {

/// An instruction that an administrator added to the classifier's prompt.
#[derive(Debug, PartialEq, Eq)]
pub struct AdminDirective {
    pub author: String,
    pub timestamp: String,
    pub directive_text: String,
}

/// The mathematical content of an [`AdminDirective`].
pub struct AdminDirectiveView {
    pub author: Seq<char>,
    pub timestamp: Seq<char>,
    pub directive_text: Seq<char>,
}

impl View for AdminDirective {
    type V = AdminDirectiveView;

    open spec fn view(&self) -> AdminDirectiveView {
        AdminDirectiveView {
            author: self.author@,
            timestamp: self.timestamp@,
            directive_text: self.directive_text@,
        }
    }
}

impl Clone for AdminDirective {
    fn clone(&self) -> (copy: Self)
        ensures
            copy@ == self@,
    {
        AdminDirective {
            author: self.author.clone(),
            timestamp: self.timestamp.clone(),
            directive_text: self.directive_text.clone(),
        }
    }
}

/// The views of a list of directives, in order.
pub open spec fn directive_views(list: Seq<AdminDirective>) -> Seq<AdminDirectiveView> {
    Seq::new(list.len(), |i: int| list[i]@)
}

/// Copies a list of directives.
pub fn clone_directives(list: &Vec<AdminDirective>) -> (copy: Vec<AdminDirective>)
    ensures
        directive_views(copy@) == directive_views(list@),
{
    let mut copy: Vec<AdminDirective> = Vec::new();
    let mut i: usize = 0;
    while i < list.len()
        invariant
            i <= list@.len(),
            copy@.len() == i,
            forall|k: int| 0 <= k < i ==> copy@[k]@ == list@[k]@,
        decreases list@.len() - i,
    {
        copy.push(list[i].clone());
        i += 1;
    }
    assert(directive_views(copy@) =~= directive_views(list@));
    copy
}

/// The values from which the prompt about one message is rendered.
#[derive(Debug, PartialEq, Eq)]
pub struct MessageAnalysisContext {
    pub original_message_text: String,
    pub user_account_name: String,
    pub user_account_description: Option<String>,
    pub user_account_join_date: Option<String>,
    pub output_language: String,
}

/// The values from which the administrators' part of the prompt is rendered.
#[derive(Debug, PartialEq, Eq)]
pub struct AdminInjectionContext {
    pub recent_admin_directives: Vec<AdminDirective>,
}

/// The final verdict of an analysis.
#[derive(Debug, Clone, Copy, PartialEq, Eq, Structural)]
pub enum AssessmentOutcome {
    Flag,
    Pass,
}

/// The next step that the classifier recommends.
#[derive(Debug, Clone, Copy, PartialEq, Eq, Structural)]
pub enum SuggestedAction {
    AdminReviewUrgent,
    AdminReviewNormal,
    LogOnly,
    NoAction,
}

/// The classifier's structured verdict on one message.
#[derive(Debug, PartialEq, Eq)]
pub struct AnalysisReport {
    pub assessment_outcome: AssessmentOutcome,
    /// Main category of the flag; absent on a pass.
    pub primary_reason: Option<String>,
    /// Short explanation of the flag; absent on a pass.
    pub detailed_reasoning: Option<String>,
    pub violated_policies: Vec<String>,
    /// Confidence in the assessment, from 0 to 100.
    pub confidence_score: u8,
    pub suggested_action: SuggestedAction,
}

/// The mathematical content of an [`AnalysisReport`].
pub struct AnalysisReportView {
    pub assessment_outcome: AssessmentOutcome,
    pub primary_reason: Option<Seq<char>>,
    pub detailed_reasoning: Option<Seq<char>>,
    pub violated_policies: Seq<Seq<char>>,
    pub confidence_score: u8,
    pub suggested_action: SuggestedAction,
}

/// The view of an optional text.
pub open spec fn text_view(t: Option<String>) -> Option<Seq<char>> {
    match t {
        Some(s) => Some(s@),
        None => None,
    }
}

/// The views of a list of texts, in order.
pub open spec fn text_views(list: Seq<String>) -> Seq<Seq<char>> {
    Seq::new(list.len(), |i: int| list[i]@)
}

impl View for AnalysisReport {
    type V = AnalysisReportView;

    open spec fn view(&self) -> AnalysisReportView {
        AnalysisReportView {
            assessment_outcome: self.assessment_outcome,
            primary_reason: text_view(self.primary_reason),
            detailed_reasoning: text_view(self.detailed_reasoning),
            violated_policies: text_views(self.violated_policies@),
            confidence_score: self.confidence_score,
            suggested_action: self.suggested_action,
        }
    }
}

impl AnalysisReportView {
    /// A report conforms when its score is a percentage and a flag comes
    /// with both of its reasons.
    pub open spec fn conforms(self) -> bool {
        &&& self.confidence_score <= 100
        &&& self.assessment_outcome == AssessmentOutcome::Flag ==> self.primary_reason is Some
            && self.detailed_reasoning is Some
    }
}

impl AnalysisReport {
    /// Whether the report conforms to the verdict schema.
    pub fn is_conforming(&self) -> (b: bool)
        ensures
            b == self@.conforms(),
    {
        self.confidence_score <= 100 && (self.assessment_outcome != AssessmentOutcome::Flag || (
        self.primary_reason.is_some() && self.detailed_reasoning.is_some()))
    }
}

} // verus!
