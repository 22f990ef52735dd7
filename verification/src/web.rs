//! A client of the authenticated asset API that holds its credential from
//! the start.

use crate::backends::{
    cloud_reply, Action, ActionView, Backend, CloudBackend, Event, EventView, FetchError, Stage,
    Step, StepView,
};
use crate::manifest::{Plugin, PluginView};
use vstd::prelude::*;

verus! {

/// The turn of a download of asset `id` by a client that holds `cookie`:
/// that of a cloud backend with the same credential, but the bytes are
/// delivered without an extension.
pub open spec fn web_reply(cookie: Seq<char>, id: u64, stage: Stage, event: EventView) -> StepView {
    let step = cloud_reply(Some(cookie), PluginView::Cloud(id), stage, event);
    match step.action {
        ActionView::Deliver { data, .. } => StepView {
            stage: step.stage,
            action: ActionView::Deliver { data, extension: None },
        },
        _ => step,
    }
}

/// A client of the asset API with its session credential.
#[derive(Debug)]
pub struct WebClient {
    cookie: String,
}

impl WebClient {
    /// The credential this client holds.
    pub closed spec fn cookie(&self) -> Seq<char> {
        self.cookie@
    }

    /// A client that holds `cookie`. Without a credential there is no
    /// client.
    pub fn new(cookie: Option<String>) -> (client: Result<WebClient, FetchError>)
        ensures
            match cookie {
                Some(c) => client matches Ok(w) && w.cookie() == c@,
                None => client == Err::<WebClient, FetchError>(FetchError::Credential),
            },
    {
        match cookie {
            Some(cookie) => Ok(WebClient { cookie }),
            None => Err(FetchError::Credential),
        }
    }

    /// Takes one turn of a download of asset `id`.
    pub fn download_plugin(&self, id: u64, stage: Stage, event: Event) -> (step: Step)
        ensures
            step@ == web_reply(self.cookie(), id, stage, event@),
    {
        let mut backend = CloudBackend::with_cookie(self.cookie.clone());
        let step = backend.download(&Plugin::Cloud(id), stage, event);
        match step.action {
            Action::Deliver { data, .. } => Step {
                stage: step.stage,
                action: Action::Deliver { data, extension: None },
            },
            action => Step { stage: step.stage, action },
        }
    }
}

} // verus!
