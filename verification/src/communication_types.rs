//! The structured evaluation record produced by the response extractor:
//! optional scores in [0, 10], free-text feedback, ordered lists of strengths
//! and areas to improve, and an optional sub-record of observations.

use vstd::prelude::*;

use crate::score::Score;

verus! {

/// Detailed observations for each communication category.
#[derive(Clone, Debug)]
pub struct CommunicationObservations {
    /// Observation about clarity of communication.
    pub clarity: Option<String>,
    /// Observation about structure of the discourse.
    pub structure: Option<String>,
    /// How objections were handled.
    pub objections: Option<String>,
    /// Analysis of calls to action.
    pub calls_to_action: Option<String>,
}

/// Communication feedback with scores and detailed analysis.
#[derive(Clone, Debug)]
pub struct CommunicationFeedback {
    /// Overall communication score (0-10).
    pub overall_score: Option<Score>,
    /// Clarity score (0-10): how clear and understandable the message is.
    pub clarity: Option<Score>,
    /// Engagement score (0-10): how participative and involved the speaker is.
    pub engagement: Option<Score>,
    /// Structure score (0-10): how organized the discourse is.
    pub structure: Option<Score>,
    /// General feedback text.
    pub feedback: Option<String>,
    /// Summary of the communication analysis (alternative to feedback).
    pub summary: Option<String>,
    /// List of communication strengths.
    pub strengths: Option<Vec<String>>,
    /// List of areas that need improvement.
    pub areas_to_improve: Option<Vec<String>>,
    /// Detailed observations by category.
    pub observations: Option<CommunicationObservations>,
}

/// The mathematical content of an optional owned string.
pub open spec fn view_opt_string(o: Option<String>) -> Option<Seq<char>> {
    match o {
        Some(s) => Some(s@),
        None => None,
    }
}

/// The mathematical content of an optional list of owned strings.
pub open spec fn view_opt_strings(o: Option<Vec<String>>) -> Option<Seq<Seq<char>>> {
    match o {
        Some(v) => Some(v.deep_view()),
        None => None,
    }
}

/// The mathematical content of a `CommunicationObservations`.
pub struct ObservationsView {
    pub clarity: Option<Seq<char>>,
    pub structure: Option<Seq<char>>,
    pub objections: Option<Seq<char>>,
    pub calls_to_action: Option<Seq<char>>,
}

/// The mathematical content of a `CommunicationFeedback`.
pub struct FeedbackView {
    pub overall_score: Option<Score>,
    pub clarity: Option<Score>,
    pub engagement: Option<Score>,
    pub structure: Option<Score>,
    pub feedback: Option<Seq<char>>,
    pub summary: Option<Seq<char>>,
    pub strengths: Option<Seq<Seq<char>>>,
    pub areas_to_improve: Option<Seq<Seq<char>>>,
    pub observations: Option<ObservationsView>,
}

impl View for CommunicationObservations {
    type V = ObservationsView;

    open spec fn view(&self) -> ObservationsView {
        ObservationsView {
            clarity: view_opt_string(self.clarity),
            structure: view_opt_string(self.structure),
            objections: view_opt_string(self.objections),
            calls_to_action: view_opt_string(self.calls_to_action),
        }
    }
}

/// The mathematical content of an optional observations sub-record.
pub open spec fn view_opt_observations(o: Option<CommunicationObservations>) -> Option<
    ObservationsView,
> {
    match o {
        Some(v) => Some(v@),
        None => None,
    }
}

impl View for CommunicationFeedback {
    type V = FeedbackView;

    open spec fn view(&self) -> FeedbackView {
        FeedbackView {
            overall_score: self.overall_score,
            clarity: self.clarity,
            engagement: self.engagement,
            structure: self.structure,
            feedback: view_opt_string(self.feedback),
            summary: view_opt_string(self.summary),
            strengths: view_opt_strings(self.strengths),
            areas_to_improve: view_opt_strings(self.areas_to_improve),
            observations: view_opt_observations(self.observations),
        }
    }
}

/// The view of an observations record with every field absent.
pub open spec fn empty_observations_view() -> ObservationsView {
    ObservationsView { clarity: None, structure: None, objections: None, calls_to_action: None }
}

/// The view of a feedback record with every field absent.
pub open spec fn empty_feedback_view() -> FeedbackView {
    FeedbackView {
        overall_score: None,
        clarity: None,
        engagement: None,
        structure: None,
        feedback: None,
        summary: None,
        strengths: None,
        areas_to_improve: None,
        observations: None,
    }
}

impl Default for CommunicationObservations {
    /// A record with every field absent.
    fn default() -> (r: Self)
        ensures
            r@ == empty_observations_view(),
    {
        CommunicationObservations { clarity: None, structure: None, objections: None, calls_to_action: None }
    }
}

impl Default for CommunicationFeedback {
    /// A record with every field absent.
    fn default() -> (r: Self)
        ensures
            r@ == empty_feedback_view(),
    {
        CommunicationFeedback {
            overall_score: None,
            clarity: None,
            engagement: None,
            structure: None,
            feedback: None,
            summary: None,
            strengths: None,
            areas_to_improve: None,
            observations: None,
        }
    }
}

} // verus!
