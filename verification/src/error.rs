use crate::collection::RecipeId;
use crate::host::Host;
use vstd::string::*;
use vstd::prelude::*;

verus! {

/// What can go wrong in the controller or in the work that it hands out.
pub enum TuiError<H: Host> {
    /// A message named a recipe that the collection does not hold.
    UnknownRecipe { recipe_id: RecipeId },
    /// The collection file could not be opened in an editor.
    OpenFile { source: H::Error },
    /// The body of a request was to be copied, but it has none.
    NoBody,
    /// The body of a request was to be copied, but it is not text.
    BodyNotText { body: Vec<u8> },
    /// A preview was rendered for a destination that already holds one.
    PreviewTaken,
    /// An error that is passed on as it came.
    Other(H::Error),
}

impl<H: Host> TuiError<H> {
    /// The text that the error is shown under; `None` where the error is passed on and has a text
    /// of its own. Nothing is filled in but the ID: the braces of the second text are shown as they
    /// stand.
    pub open spec fn text(self) -> Option<Seq<char>> {
        match self {
            TuiError::UnknownRecipe { recipe_id } => Some(
                "No recipe with ID `"@ + recipe_id@ + "`"@,
            ),
            TuiError::OpenFile { .. } => Some("Error opening {path:?}"@),
            TuiError::NoBody => Some("Request has no body"@),
            TuiError::BodyNotText { .. } => Some("Cannot copy request body"@),
            TuiError::PreviewTaken => Some("Multiple writes to template preview lock"@),
            TuiError::Other(_) => None,
        }
    }

    /// Renders [`Self::text`].
    pub fn message(&self) -> (message: Option<String>)
        ensures
            self.text() matches Some(text) ==> message matches Some(m) && m@ == text,
            self.text() is None ==> message is None,
    {
        match self {
            TuiError::UnknownRecipe { recipe_id } => {
                let message = "No recipe with ID `".to_string();
                Some(message.concat(recipe_id.0.as_str()).concat("`"))
            },
            TuiError::OpenFile { .. } => Some("Error opening {path:?}".to_string()),
            TuiError::NoBody => Some("Request has no body".to_string()),
            TuiError::BodyNotText { .. } => Some("Cannot copy request body".to_string()),
            TuiError::PreviewTaken => Some("Multiple writes to template preview lock".to_string()),
            TuiError::Other(_) => None,
        }
    }
}

} // verus!
