//! The refusal that a caller gets who may not see the listing.

use crate::response::{refusal_reply, spec_refusal_reply, Reply};
use vstd::prelude::*;

verus! {

/// The page that tells a caller why the listing is refused.
#[derive(Debug)]
pub struct SecretErrorTemplate<'a> {
    /// The reason, as shown to the caller.
    pub message: &'a str,
}

/// The refusal page with the given message.
pub fn render_secret_error_page(message: &'static str) -> (page: SecretErrorTemplate<'static>)
    ensures
        page.message@ == message@,
{
    SecretErrorTemplate { message }
}

impl SecretErrorTemplate<'_> {
    /// The reply that presents this page: the message itself, as plain text
    /// under `401 Unauthorized`.
    pub fn into_response(self) -> (reply: Reply)
        ensures
            reply@ == spec_refusal_reply(self.message@),
    {
        refusal_reply(self.message)
    }
}

} // verus!
