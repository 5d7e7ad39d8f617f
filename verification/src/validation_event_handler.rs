//! Answering requests to validate the schema of an ontology.
//!
//! Receiving requests and publishing results is left to the caller. What is
//! decided here is the result that an answer of the validation service
//! amounts to.

use vstd::prelude::*;
use vstd::string::*;

verus! {

/// A service that validates the schema of an ontology. The answer holds
/// whether the schema is valid and what is wrong with it; an error says why
/// there is no answer.
pub trait LinkMLValidationService {
    /// Validates the schema of the ontology `ontology_id`.
    fn validate_linkml_schema(&self, ontology_id: String) -> Result<(bool, Vec<String>), String>;
}

/// The result of a validation request.
#[derive(Debug)]
pub enum ValidationOutcome {
    /// The schema is valid.
    Success,
    /// The schema is not valid, for these reasons.
    Failure(Vec<String>),
}

/// What a [`ValidationOutcome`] holds, as mathematical values.
pub enum ValidationOutcomeView {
    Success,
    Failure(Seq<Seq<char>>),
}

impl DeepView for ValidationOutcome {
    type V = ValidationOutcomeView;

    open spec fn deep_view(&self) -> ValidationOutcomeView {
        match self {
            ValidationOutcome::Success => ValidationOutcomeView::Success,
            ValidationOutcome::Failure(errors) => {
                ValidationOutcomeView::Failure(errors.deep_view())
            },
        }
    }
}

/// The result that an answer of the service amounts to: success if the
/// service found the schema valid and named no error; failure with the errors
/// it named otherwise; failure with one error that says why if the service
/// gave no answer.
pub open spec fn spec_outcome(valid: bool, errors: Seq<Seq<char>>, failure: Option<Seq<char>>)
    -> ValidationOutcomeView {
    match failure {
        Some(e) => ValidationOutcomeView::Failure(seq!["Validation error: "@ + e]),
        None => if valid && errors.len() == 0 {
            ValidationOutcomeView::Success
        } else {
            ValidationOutcomeView::Failure(errors)
        },
    }
}

/// The result that an answer of the service amounts to.
pub fn validation_outcome(answer: Result<(bool, Vec<String>), String>) -> (r: ValidationOutcome)
    ensures
        r.deep_view() == match answer {
            Ok((valid, errors)) => spec_outcome(valid, errors.deep_view(), None),
            Err(e) => spec_outcome(false, Seq::empty(), Some(e@)),
        },
{
    match answer {
        Ok((valid, errors)) => {
            if valid && errors.len() == 0 {
                ValidationOutcome::Success
            } else {
                ValidationOutcome::Failure(errors)
            }
        },
        Err(e) => {
            let mut message = String::from_str("Validation error: ");
            message.append(e.as_str());
            let mut errors: Vec<String> = Vec::new();
            errors.push(message);
            assert(errors.deep_view() =~= seq!["Validation error: "@ + e@]);
            ValidationOutcome::Failure(errors)
        },
    }
}

/// Answers validation requests with a validation service.
pub struct LinkMLValidationRequestHandler<S: LinkMLValidationService> {
    /// The service that validates.
    pub linkml_service: S,
}

impl<S: LinkMLValidationService> LinkMLValidationRequestHandler<S> {
    /// A handler that answers with `linkml_service`.
    pub fn new(linkml_service: S) -> (r: Self)
        ensures
            r.linkml_service == linkml_service,
    {
        LinkMLValidationRequestHandler { linkml_service }
    }

    /// Answers the request to validate the schema of the ontology
    /// `ontology_id`: the service is asked, and [`validation_outcome`] says
    /// what its answer amounts to.
    pub fn handle(&self, ontology_id: String) -> (r: ValidationOutcome) {
        validation_outcome(self.linkml_service.validate_linkml_schema(ontology_id))
    }
}

} // verus!
