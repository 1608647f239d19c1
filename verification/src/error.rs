//! Errors of prefill routing.

use vstd::prelude::*;

verus! {

/// Errors that can occur during prefill routing. `C` is what the underlying errors are.
#[derive(Debug, PartialEq, Eq)]
pub enum PrefillError<C> {
    /// The prefill router has not been activated yet.
    NotActivated,
    /// The prefill failed: what failed, and the underlying error if there is one.
    PrefillError(String, Option<C>),
    /// The prefill response holds no disaggregated params.
    NoDisaggregatedParams(String),
}

/// What a [`PrefillError`] says.
pub enum PrefillErrorView<C> {
    NotActivated,
    PrefillError(Seq<char>, Option<C>),
    NoDisaggregatedParams(Seq<char>),
}

impl<C> View for PrefillError<C> {
    type V = PrefillErrorView<C>;

    open spec fn view(&self) -> PrefillErrorView<C> {
        match self {
            PrefillError::NotActivated => PrefillErrorView::NotActivated,
            PrefillError::PrefillError(what, cause) => PrefillErrorView::PrefillError(
                what@,
                *cause,
            ),
            PrefillError::NoDisaggregatedParams(what) => PrefillErrorView::NoDisaggregatedParams(
                what@,
            ),
        }
    }
}

impl<C> PrefillErrorView<C> {
    /// The text shown to a user.
    pub open spec fn text(self) -> Seq<char> {
        match self {
            PrefillErrorView::NotActivated => "Prefill router not yet activated"@,
            PrefillErrorView::PrefillError(what, _) => "Prefill execution failed: "@ + what,
            PrefillErrorView::NoDisaggregatedParams(what) =>
                "No disaggregated params in prefill response: "@ + what,
        }
    }
}

/// A result with its error seen through its view.
pub open spec fn seen<T, C>(result: Result<T, PrefillError<C>>) -> Result<T, PrefillErrorView<C>> {
    match result {
        Ok(value) => Ok(value),
        Err(error) => Err(error@),
    }
}

impl<C> PrefillError<C> {
    /// The text shown to a user. The underlying error is not part of it.
    pub fn message(&self) -> (text: String)
        ensures
            text@ == self@.text(),
    {
        match self {
            PrefillError::NotActivated => text("Prefill router not yet activated"),
            PrefillError::PrefillError(what, _) => {
                text("Prefill execution failed: ").concat(what.as_str())
            },
            PrefillError::NoDisaggregatedParams(what) => {
                text("No disaggregated params in prefill response: ").concat(what.as_str())
            },
        }
    }
}

/// An owned copy of `literal`.
pub(crate) fn text(literal: &str) -> (owned: String)
    ensures
        owned@ == literal@,
{
    literal.to_owned()
}

/// What an error says is what it was made with: no kind of error is taken for another, and neither
/// the words nor the underlying error are lost.
pub proof fn law_errors_say_what_they_were_made_with<C>(what: String, cause: Option<C>)
    ensures
        PrefillError::<C>::NotActivated@ is NotActivated,
        PrefillError::PrefillError(what, cause)@ matches PrefillErrorView::PrefillError(
            said,
            underlying,
        ) && said == what@ && underlying == cause,
        PrefillError::<C>::NoDisaggregatedParams(what)@ matches
            PrefillErrorView::NoDisaggregatedParams(said) && said == what@,
{
}

/// Looking at a result through its error's view changes neither its success nor its value.
pub proof fn law_seeing_keeps_the_result<T, C>(result: Result<T, PrefillError<C>>)
    ensures
        result matches Ok(value) ==> (seen(result) matches Ok(same) && same == value),
        result matches Err(error) ==> (seen(result) matches Err(said) && said == error@),
{
}

/// The text of an error begins with its kind and ends with what failed. The underlying error is not
/// part of it.
pub proof fn law_texts_of_errors<C>(what: Seq<char>, cause: Option<C>)
    ensures
        PrefillErrorView::<C>::NotActivated.text() == "Prefill router not yet activated"@,
        PrefillErrorView::PrefillError(what, cause).text() == "Prefill execution failed: "@ + what,
        PrefillErrorView::<C>::NoDisaggregatedParams(what).text()
            == "No disaggregated params in prefill response: "@ + what,
{
}

} // verus!
