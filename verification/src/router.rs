//! The two operations of the inbox: taking in a delivery, and listing what
//! was received to a caller who knows the secret. Both work on the store
//! that they are handed; [`SharedWebhookStore`] hands it to them under its
//! lock.

use crate::clock::is_timestamp;
use crate::error_page::{render_secret_error_page, SecretErrorTemplate};
use crate::record::{spec_decode, spec_stamp, DecodeError, WebhookPayload};
use crate::response::Status;
use crate::secret::secret_matches;
use crate::shared::SharedWebhookStore;
use crate::store::{spec_append, WebhookStore, CAPACITY};
use crate::webhooks::{spec_listing, WebhooksTemplate};
use std::sync::Arc;
use vstd::prelude::*;

verus! {

/// What a caller is told who gave no secret.
pub const NO_SECRET: &'static str = "No secret provided.";

/// What a caller is told who gave another secret than the expected one.
pub const WRONG_SECRET: &'static str = "Wrong secret.";

/// What every request handler shares: the store, the secret that guards the
/// listing, and the port that the inbox listens on.
#[derive(Clone)]
pub struct AppState {
    pub webhooks: Arc<SharedWebhookStore>,
    pub secret: String,
    pub port: String,
}

/// The answer to a request for the listing.
pub enum RootPage {
    /// The caller is refused, and told why.
    Denied(SecretErrorTemplate<'static>),
    /// The caller is shown the received deliveries.
    Listing(WebhooksTemplate),
}

/// Why a caller who provided `provided` is refused by an inbox whose secret
/// is `expected`; `None` if the caller is admitted. Only the secret itself
/// admits.
pub open spec fn spec_refusal(expected: Seq<char>, provided: Option<Seq<char>>) -> Option<
    Seq<char>,
> {
    match provided {
        None => Some(NO_SECRET@),
        Some(given) => if given == expected {
            None
        } else {
            Some(WRONG_SECRET@)
        },
    }
}

/// The status that reports a body that was not accepted.
pub open spec fn spec_rejection_status(e: DecodeError) -> Status {
    match e {
        DecodeError::Syntax => Status::BadRequest,
        DecodeError::Data => Status::UnprocessableEntity,
    }
}

/// Holds a caller's credential against the secret: the refusal page for a
/// caller who is not admitted, `None` for one who is.
pub fn check_secret(expected: &String, provided: &Option<String>) -> (refusal: Option<
    SecretErrorTemplate<'static>,
>)
    ensures
        match refusal {
            Some(page) => spec_refusal(expected@, provided.deep_view()) == Some(page.message@),
            None => spec_refusal(expected@, provided.deep_view()) is None,
        },
{
    match provided {
        None => Some(render_secret_error_page(NO_SECRET)),
        Some(given) => if secret_matches(expected, given) {
            None
        } else {
            Some(render_secret_error_page(WRONG_SECRET))
        },
    }
}

/// The status that reports why a body was not accepted.
pub fn rejection_status(e: DecodeError) -> (status: Status)
    ensures
        status == spec_rejection_status(e),
{
    match e {
        DecodeError::Syntax => Status::BadRequest,
        DecodeError::Data => Status::UnprocessableEntity,
    }
}

/// Answers a request for the listing of `store`: a caller who does not
/// provide the secret is refused and told why, one who does is shown every
/// record held, oldest first. The store is left as it is.
pub fn root_handler(
    store: &WebhookStore,
    expected: &String,
    port: &String,
    provided: &Option<String>,
) -> (page: RootPage)
    ensures
        match spec_refusal(expected@, provided.deep_view()) {
            Some(message) => page matches RootPage::Denied(refusal) && refusal.message@ == message,
            None => {
                &&& page matches RootPage::Listing(listing)
                &&& listing@ == spec_listing(port@, store@)
                &&& listing.webhooks@.len() == store@.len()
                &&& listing.webhooks_count == store@.len()
                &&& listing.webhooks_count <= CAPACITY
            },
        },
{
    match check_secret(expected, provided) {
        Some(refusal) => RootPage::Denied(refusal),
        None => {
            let records = store.snapshot();
            RootPage::Listing(WebhooksTemplate::list(port.as_str(), &records))
        },
    }
}

/// Takes in a delivery for `store`, given the outcome of decoding its body.
/// A payload is ingested at the current time and answered with `200`; a
/// body that was not accepted is answered with a client error and leaves
/// the store as it was.
pub fn webhook_handler(
    store: &mut WebhookStore,
    delivery: Result<WebhookPayload, DecodeError>,
) -> (status: Status)
    ensures
        match delivery {
            Ok(payload) => {
                &&& status == Status::Success
                &&& exists|now: Seq<char>|
                    is_timestamp(now) && final(store)@ == spec_append(
                        old(store)@,
                        #[trigger] spec_stamp(payload@, now),
                    )
            },
            Err(e) => {
                &&& status == spec_rejection_status(e)
                &&& final(store)@ == old(store)@
            },
        },
{
    match delivery {
        Ok(payload) => {
            store.ingest(payload);
            Status::Success
        },
        Err(e) => rejection_status(e),
    }
}

/// Takes in a request body for `store`: the body is decoded and the outcome
/// handed to [`webhook_handler`]. Every JSON object is accepted; any other
/// body is answered with a client error and leaves the store as it was.
pub fn accept_delivery(store: &mut WebhookStore, body: &[u8]) -> (status: Status)
    ensures
        match spec_decode(body@) {
            Ok(payload) => {
                &&& status == Status::Success
                &&& exists|now: Seq<char>|
                    is_timestamp(now) && final(store)@ == spec_append(
                        old(store)@,
                        #[trigger] spec_stamp(payload, now),
                    )
            },
            Err(e) => {
                &&& status == spec_rejection_status(e)
                &&& final(store)@ == old(store)@
            },
        },
{
    webhook_handler(store, WebhookPayload::decode(body))
}

impl AppState {
    /// The state of an inbox that has received nothing yet.
    pub fn new(secret: String, port: String) -> (state: AppState)
        ensures
            state.secret@ == secret@,
            state.port@ == port@,
    {
        AppState { webhooks: Arc::new(SharedWebhookStore::new()), secret, port }
    }
}

} // verus!
