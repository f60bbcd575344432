//! Activation-token operations.
//!
//! A token request is filed under a fresh ticket; the compositor's answer
//! comes back later and is forwarded under the same ticket, so the shell
//! can resolve whichever one-shot completion the consumer is awaiting.
//! When the compositor lacks the activation extension the answer is an
//! immediate empty token under the ticket, so the consumer never hangs.

use vstd::prelude::*;
use crate::events::{ProtocolRequest, SctkEvent, StepOutput};
use crate::ids::{Id, ObjectId};
use crate::state::{find_layer, find_window, SctkState, StateModel};

verus! {

/// The surface an activation command resolves its window id against: a
/// tracked window first, a layer surface second.
pub open spec fn resolve_activation_surface(s: StateModel, window: Option<Id>) -> Option<
    ObjectId,
> {
    match window {
        Some(id) => if find_window(s.windows, id) is Some {
            Some(s.windows[find_window(s.windows, id)->0 as int].surface)
        } else if find_layer(s.layer_surfaces, id) is Some {
            Some(s.layer_surfaces[find_layer(s.layer_surfaces, id)->0 as int].surface)
        } else {
            None
        },
        None => None,
    }
}

/// What a token request does: a fresh ticket either way; the request goes
/// out under the ticket with the extension present, and the empty answer
/// comes back at once without it.
pub open spec fn request_token_post(
    pre: StateModel,
    post: StateModel,
    app_id: Option<String>, window: Option<Id>,
    reqs: Seq<ProtocolRequest>,
    evs: Seq<SctkEvent>,
) -> bool {
    &&& post == (StateModel {
        activation_token_ctr: ((pre.activation_token_ctr + 1) % 0x1_0000_0000) as u32,
        ..pre
    })
    &&& if pre.caps.activation {
        reqs == seq![
            ProtocolRequest::RequestActivationToken {
                ticket: pre.activation_token_ctr,
                app_id,
                surface: resolve_activation_surface(pre, window),
            },
        ] && evs == Seq::<SctkEvent>::empty()
    } else {
        reqs == Seq::<ProtocolRequest>::empty() && evs == seq![
            SctkEvent::ActivationToken {
                ticket: pre.activation_token_ctr,
                token: None,
            },
        ]
    }
}

/// What the compositor's token answer does: it is forwarded under its
/// ticket.
pub open spec fn token_done_post(
    pre: StateModel,
    post: StateModel,
    ticket: u32, token: Option<String>,
    reqs: Seq<ProtocolRequest>,
    evs: Seq<SctkEvent>,
) -> bool {
    &&& post == pre
    &&& reqs == Seq::<ProtocolRequest>::empty()
    &&& evs == seq![SctkEvent::ActivationToken { ticket, token }]
}

/// What an activate command does: the call goes out for a tracked window
/// with the extension present, and nothing otherwise.
pub open spec fn activate_post(
    pre: StateModel,
    post: StateModel,
    window: Id, token: String,
    reqs: Seq<ProtocolRequest>,
    evs: Seq<SctkEvent>,
) -> bool {
    &&& post == pre
    &&& evs == Seq::<SctkEvent>::empty()
    &&& reqs == (if pre.caps.activation && find_window(
        pre.windows,
        window,
    ) is Some {
        seq![
            ProtocolRequest::Activate {
                surface: pre.windows[find_window(
                    pre.windows,
                    window,
                )->0 as int].surface,
                token,
            },
        ]
    } else {
        Seq::<ProtocolRequest>::empty()
    })
}

impl SctkState {
    /// Resolves a window id to a live surface, windows before layer
    /// surfaces.
    fn activation_surface(&self, window: Option<Id>) -> (r: Option<ObjectId>)
        ensures
            r == resolve_activation_surface(self@, window),
    {
        match window {
            Some(id) => match self.find_window_index(id) {
                Some(i) => Some(self.windows[i].surface),
                None => match self.find_layer_index(id) {
                    Some(i) => Some(self.layer_surfaces[i].surface),
                    None => None,
                },
            },
            None => None,
        }
    }

    /// Asks the compositor for an activation token.
    ///
    /// A fresh ticket is drawn either way. With the extension present the
    /// request goes out under the ticket and the answer arrives later as an
    /// `ActivationToken` notification; without it the empty answer is
    /// emitted at once, so the consumer never waits for a compositor that
    /// cannot reply.
    pub fn request_token(&mut self, app_id: Option<String>, window: Option<Id>) -> (out:
        StepOutput)
        requires
            old(self).wf(),
        ensures
            final(self).wf(),
            request_token_post(old(self)@, final(self)@, app_id, window, out.requests@, out.events@),
    {
        let mut out = StepOutput::new();
        let ticket = self.activation_token_ctr;
        self.activation_token_ctr = self.activation_token_ctr.wrapping_add(1);
        if self.caps.activation {
            let surface = self.activation_surface(window);
            out.requests.push(
                ProtocolRequest::RequestActivationToken { ticket, app_id, surface },
            );
        } else {
            out.events.push(SctkEvent::ActivationToken { ticket, token: None });
        }
        out
    }

    /// Forwards the compositor's answer to a token request under its
    /// ticket.
    pub fn token_done(&mut self, ticket: u32, token: Option<String>) -> (out: StepOutput)
        requires
            old(self).wf(),
        ensures
            final(self).wf(),
            token_done_post(old(self)@, final(self)@, ticket, token, out.requests@, out.events@),
    {
        let mut out = StepOutput::new();
        out.events.push(SctkEvent::ActivationToken { ticket, token });
        out
    }

    /// Activates a window with a previously obtained token. Needs the
    /// extension and a tracked window; otherwise the command is dropped.
    pub fn activate(&mut self, window: Id, token: String) -> (out: StepOutput)
        requires
            old(self).wf(),
        ensures
            final(self).wf(),
            activate_post(old(self)@, final(self)@, window, token, out.requests@, out.events@),
    {
        let mut out = StepOutput::new();
        if !self.caps.activation {
            return out;
        }
        match self.find_window_index(window) {
            Some(i) => {
                out.requests.push(
                    ProtocolRequest::Activate { surface: self.windows[i].surface, token },
                );
            }
            None => {}
        }
        out
    }
}

} // verus!
