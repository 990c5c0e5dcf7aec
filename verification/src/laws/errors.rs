//! What holds of the texts that errors are shown under.
use crate::collection::RecipeId;
use crate::error::TuiError;
use crate::host::Host;
use vstd::prelude::*;

verus! {

/// The error about a recipe that the collection does not have shows the ID that was asked for, all
/// of it, between its quotes.
pub proof fn the_unknown_recipe_is_named<H: Host>(recipe_id: RecipeId)
    ensures
        (TuiError::<H>::UnknownRecipe { recipe_id }).text() matches Some(text) && text
            =~= "No recipe with ID `"@ + recipe_id.0@ + "`"@,
{
}

/// Errors about different recipes have different texts.
pub proof fn different_recipes_read_differently<H: Host>(recipe_id: RecipeId, other_id: RecipeId)
    requires
        recipe_id.0@ != other_id.0@,
    ensures
        (TuiError::<H>::UnknownRecipe { recipe_id }).text() != (TuiError::<H>::UnknownRecipe {
            recipe_id: other_id,
        }).text(),
{
    reveal_strlit("No recipe with ID `");
    reveal_strlit("`");
    let head = "No recipe with ID `"@;
    let tail = "`"@;
    let text = head + recipe_id.0@ + tail;
    let other_text = head + other_id.0@ + tail;
    if text == other_text {
        let end = text.len() - tail.len();
        assert(text.subrange(head.len() as int, end) =~= recipe_id.0@);
        assert(other_text.subrange(head.len() as int, end) =~= other_id.0@);
    }
}

/// The other errors of the controller have one text each, whatever they carry, and an error that
/// is handed on has none but its own.
pub proof fn other_errors_have_one_text<H: Host>(source: H::Error, body: Vec<u8>)
    ensures
        (TuiError::<H>::OpenFile { source }).text() == Some("Error opening {path:?}"@),
        TuiError::<H>::NoBody.text() == Some("Request has no body"@),
        (TuiError::<H>::BodyNotText { body }).text() == Some("Cannot copy request body"@),
        TuiError::<H>::PreviewTaken.text() == Some("Multiple writes to template preview lock"@),
        TuiError::<H>::Other(source).text() is None,
{
}

} // verus!
