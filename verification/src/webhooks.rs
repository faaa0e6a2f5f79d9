//! The page that lists the received deliveries.

use crate::record::{spec_record_json, spec_views, RecordView, WebhookRecord};
use crate::response::{page_reply, spec_page_reply, Reply};
use vstd::prelude::*;

verus! {

/// One delivery as the listing shows it.
#[derive(Debug)]
pub struct WebhookDisplay {
    /// The delivery's time of receipt.
    pub timestamp: String,
    /// The delivery as pretty-printed JSON.
    pub json: String,
}

/// The listing of the received deliveries, oldest first.
#[derive(Debug)]
pub struct WebhooksTemplate {
    /// The address to which deliveries are to be sent.
    pub endpoint: String,
    /// The deliveries, oldest first.
    pub webhooks: Vec<WebhookDisplay>,
    /// The number of deliveries listed.
    pub webhooks_count: usize,
}

/// The mathematical content of a [`WebhookDisplay`].
pub struct DisplayView {
    pub timestamp: Seq<char>,
    pub json: Seq<char>,
}

/// The mathematical content of a [`WebhooksTemplate`].
pub struct ListingView {
    pub endpoint: Seq<char>,
    pub webhooks: Seq<DisplayView>,
    pub webhooks_count: nat,
}

impl View for WebhookDisplay {
    type V = DisplayView;

    open spec fn view(&self) -> DisplayView {
        DisplayView { timestamp: self.timestamp@, json: self.json@ }
    }
}

impl View for WebhooksTemplate {
    type V = ListingView;

    open spec fn view(&self) -> ListingView {
        ListingView {
            endpoint: self.endpoint@,
            webhooks: self.webhooks@.map_values(|shown: WebhookDisplay| shown@),
            webhooks_count: self.webhooks_count as nat,
        }
    }
}

/// How a record is shown: its time of receipt and its JSON text.
pub open spec fn spec_display(record: RecordView) -> DisplayView {
    DisplayView { timestamp: record.received_at, json: spec_record_json(record) }
}

/// The address of the inbox on the local machine, given the port it
/// listens on.
pub open spec fn spec_endpoint(port: Seq<char>) -> Seq<char> {
    "http://localhost:"@ + port + "/"@
}

/// The listing of `records` for an inbox that listens on `port`: every
/// record is shown, in the same order, and counted.
pub open spec fn spec_listing(port: Seq<char>, records: Seq<RecordView>) -> ListingView {
    ListingView {
        endpoint: spec_endpoint(port),
        webhooks: records.map_values(|record: RecordView| spec_display(record)),
        webhooks_count: records.len(),
    }
}

impl WebhookDisplay {
    /// Shows a record.
    pub fn of(record: &WebhookRecord) -> (shown: WebhookDisplay)
        ensures
            shown@ == spec_display(record@),
    {
        WebhookDisplay { timestamp: record.received_at.clone(), json: record.to_json() }
    }
}

impl WebhooksTemplate {
    /// The listing of `records`, which are given oldest first, for an inbox
    /// that listens on `port`.
    pub fn list(port: &str, records: &Vec<WebhookRecord>) -> (listing: WebhooksTemplate)
        ensures
            listing@ == spec_listing(port@, spec_views(records@)),
            listing.webhooks@.len() == records@.len(),
            listing.webhooks_count == records@.len(),
    {
        let mut webhooks: Vec<WebhookDisplay> = Vec::new();
        let mut i: usize = 0;
        while i < records.len()
            invariant
                i <= records@.len(),
                webhooks@.len() == i,
                forall|j: int| 0 <= j < i ==> (#[trigger] webhooks@[j])@ == spec_display(records@[j]@),
            decreases records@.len() - i,
        {
            webhooks.push(WebhookDisplay::of(&records[i]));
            i = i + 1;
        }
        let webhooks_count = webhooks.len();
        let mut endpoint = "http://localhost:".to_string();
        endpoint.append(port);
        endpoint.append("/");
        let listing = WebhooksTemplate { endpoint, webhooks, webhooks_count };
        assert(listing@.webhooks =~= spec_listing(port@, spec_views(records@)).webhooks);
        listing
    }

    /// The reply that presents this listing, given the outcome of rendering
    /// it: the rendered page as `200 OK`, or a plain `500` if rendering
    /// failed (`None`).
    pub fn into_response(self, rendered: Option<String>) -> (reply: Reply)
        ensures
            reply@ == spec_page_reply(rendered.deep_view()),
    {
        page_reply(rendered)
    }
}

} // verus!
