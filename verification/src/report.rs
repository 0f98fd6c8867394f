//! The report overview: what the client keeps of the overview endpoint's
//! reply.

use vstd::prelude::*;

use crate::http::{TextReply, TextReplyView};
use crate::spec_status_success;
use crate::status_is_success;

verus! {

/// The overview text a reply yields: the body on success, a fixed error
/// line on any failing status or transport failure.
pub open spec fn overview_step(r: TextReplyView) -> Seq<char> {
    match r {
        TextReplyView::Response { status, body } => if spec_status_success(status) {
            body
        } else {
            "Error querying report overview!"@
        },
        TextReplyView::Failed { .. } => "Error querying report overview!"@,
    }
}

/// Reads the reply to an overview fetch, as [`overview_step`] describes.
pub fn overview_from_reply(reply: TextReply) -> (s: String)
    ensures
        s@ == overview_step(reply@),
{
    match reply {
        TextReply::Response { status, body } => {
            if status_is_success(status) {
                body
            } else {
                String::from_str("Error querying report overview!")
            }
        },
        TextReply::Failed { .. } => String::from_str("Error querying report overview!"),
    }
}

} // verus!
