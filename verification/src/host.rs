use vstd::prelude::*;

verus! {

/// The values that travel through the controller without being looked into.
///
/// The surrounding program picks the concrete types. The controller only moves them from a
/// message to an effect, so nothing is asked of them.
pub trait Host: Sized {
    /// Where a collection file is stored.
    type Path;

    /// The user's configuration.
    type Config;

    /// Everything in a collection besides the recipes that requests are built from.
    type CollectionData;

    /// A recipe: the description of a request before its templates are rendered.
    type Recipe;

    /// What the user changed about a recipe for one request.
    type Options;

    /// The persistence layer of one collection.
    type Database;

    /// The engine that builds and sends requests.
    type HttpEngine;

    /// A built request that is ready to be sent.
    type Ticket;

    /// The record of a request that was built.
    type Request;

    /// A request together with its response.
    type Exchange;

    /// Why a request could not be built.
    type BuildError;

    /// Why a request that was sent got no response.
    type RequestError;

    /// Values that take the place of a profile's when templates are rendered.
    type Overrides;

    /// A template whose preview is shown.
    type Template;

    /// The place that a rendered preview is written to, once.
    type Destination;

    /// A raw input event of the terminal.
    type InputEvent;

    /// An action that an input event is bound to, other than the forced quit.
    type InputAction;

    /// A question to the user that is answered with text.
    type Prompt;

    /// A question to the user that is answered with yes or no.
    type Confirm;

    /// An error of any other kind.
    type Error;
}

} // verus!
