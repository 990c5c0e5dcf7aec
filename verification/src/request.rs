use crate::clock::Timestamp;
use crate::collection::{Collection, ProfileId, RecipeId};
use crate::host::Host;
use std::sync::Arc;
use vstd::prelude::*;

verus! {

/// Names one request, from the moment that it is asked for.
#[derive(Clone, Copy, Debug, PartialEq, Eq, Structural)]
pub struct RequestId(pub u128);

/// A request that the user asks for.
pub struct RequestConfig<H: Host> {
    pub profile_id: Option<ProfileId>,
    pub recipe_id: RecipeId,
    pub options: H::Options,
}

/// What a request is built from.
pub struct RequestSeed<H: Host> {
    pub id: RequestId,
    pub recipe: Arc<H::Recipe>,
    pub options: H::Options,
}

/// Who answers when a template asks the user for a value.
#[derive(Clone, Copy, Debug, PartialEq, Eq, Structural)]
pub enum Prompter {
    /// The user is asked, by way of the message queue.
    Messages,
    /// A placeholder stands in for the answer.
    Preview,
}

/// What templates are rendered against.
pub struct TemplateContext<H: Host> {
    pub selected_profile: Option<ProfileId>,
    pub collection: Arc<Collection<H>>,
    /// The engine for requests that templates trigger.
    pub http_engine: Option<Arc<H::HttpEngine>>,
    pub database: Arc<H::Database>,
    /// Values that take precedence over those of the profile, if there are any.
    pub overrides: Option<H::Overrides>,
    pub prompter: Prompter,
    /// How many templates are being rendered around this one.
    pub recursion_count: u8,
}

/// How far a request has come, as the view shows it.
#[allow(inconsistent_fields)]
pub enum RequestState<H: Host> {
    /// The request is being built.
    Building {
        id: RequestId,
        start_time: Timestamp,
        profile_id: Option<ProfileId>,
        recipe_id: RecipeId,
    },
    /// The request could not be built.
    BuildError { error: H::BuildError },
    /// The request is on its way.
    Loading { request: Arc<H::Request> },
    /// The response is here.
    Response { exchange: H::Exchange },
    /// The request was sent and failed.
    RequestError { error: H::RequestError },
}

} // verus!
