use crate::collection::{Collection, ProfileId};
use crate::error::TuiError;
use crate::host::Host;
use crate::request::RequestConfig;
use std::sync::Arc;
use vstd::prelude::*;

verus! {

/// What an input event means to the user.
pub enum Action<H: Host> {
    /// Leave the program, whatever has the focus.
    ForceQuit,
    /// Any other action, which is the view's business.
    Other(H::InputAction),
}

/// What the view and the background tasks tell the controller.
#[allow(inconsistent_fields)]
pub enum Message<H: Host> {
    /// The collection file changed: load it again.
    CollectionStartReload,
    /// The collection file was loaded again.
    CollectionEndReload(Arc<Collection<H>>),
    /// Open the collection file in the user's editor.
    CollectionEdit,
    /// Render the URL of a request and copy it.
    CopyRequestUrl(RequestConfig<H>),
    /// Render the body of a request and copy it.
    CopyRequestBody(RequestConfig<H>),
    /// Render a request and copy it as a curl command.
    CopyRequestCurl(RequestConfig<H>),
    /// Copy a text to the clipboard.
    CopyText(String),
    /// Write data to a file that the user picks.
    SaveFile { default_path: Option<String>, data: Vec<u8> },
    /// Something failed in the background.
    Error { error: TuiError<H> },
    /// Build a request and send it.
    HttpBeginRequest(RequestConfig<H>),
    /// A request could not be built.
    HttpBuildError { error: H::BuildError },
    /// A request was built and is being sent.
    HttpLoading { request: Arc<H::Request> },
    /// A request came to its end.
    HttpComplete(Result<H::Exchange, H::RequestError>),
    /// The user pressed a key or used the mouse.
    Input { event: H::InputEvent, action: Option<Action<H>> },
    /// Show a short notice.
    Notify(String),
    /// Ask the user for a text.
    PromptStart(H::Prompt),
    /// Ask the user for a yes or no.
    ConfirmStart(H::Confirm),
    /// Render a template for show.
    TemplatePreview {
        template: H::Template,
        profile_id: Option<ProfileId>,
        destination: H::Destination,
    },
    /// Leave the program.
    Quit,
}

impl<H: Host> Message<H> {
    /// Whether the message ends the program: a plain quit, or an input that is bound to the
    /// forced quit.
    pub open spec fn quits(self) -> bool {
        match self {
            Message::Quit => true,
            Message::Input { action: Some(Action::ForceQuit), .. } => true,
            _ => false,
        }
    }

    /// The request that the message asks for, where it asks for one.
    pub open spec fn wanted_request(self) -> Option<RequestConfig<H>> {
        match self {
            Message::CopyRequestUrl(config) => Some(config),
            Message::CopyRequestBody(config) => Some(config),
            Message::CopyRequestCurl(config) => Some(config),
            Message::HttpBeginRequest(config) => Some(config),
            _ => None,
        }
    }
}

} // verus!
