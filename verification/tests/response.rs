use webhook_inbox::error_page::SecretErrorTemplate;
use webhook_inbox::response::{page_reply, refusal_reply, ContentType, Status};
use webhook_inbox::webhooks::WebhooksTemplate;

#[test]
fn statuses_have_their_numbers() {
    assert_eq!(Status::Success.code(), 200);
    assert_eq!(Status::BadRequest.code(), 400);
    assert_eq!(Status::Unauthorized.code(), 401);
    assert_eq!(Status::UnprocessableEntity.code(), 422);
    assert_eq!(Status::InternalServerError.code(), 500);
}

#[test]
fn client_errors_are_the_four_hundreds() {
    assert!(!Status::Success.is_client_error());
    assert!(Status::BadRequest.is_client_error());
    assert!(Status::Unauthorized.is_client_error());
    assert!(Status::UnprocessableEntity.is_client_error());
    assert!(!Status::InternalServerError.is_client_error());
}

#[test]
fn a_rendered_page_is_sent_as_html() {
    let reply = page_reply(Some("<html></html>".to_string()));
    assert_eq!(reply.status, Status::Success);
    assert_eq!(reply.content_type, ContentType::Html);
    assert_eq!(reply.body, "<html></html>");
}

#[test]
fn a_failed_rendering_is_an_internal_error() {
    let reply = page_reply(None);
    assert_eq!(reply.status, Status::InternalServerError);
    assert_eq!(reply.content_type, ContentType::PlainText);
    assert_eq!(reply.body, "Template rendering failed");
}

#[test]
fn a_refusal_is_the_message_as_plain_text() {
    let reply = refusal_reply("Wrong secret.");
    assert_eq!(reply.status, Status::Unauthorized);
    assert_eq!(reply.status.code(), 401);
    assert_eq!(reply.content_type, ContentType::PlainText);
    assert_eq!(reply.body, "Wrong secret.");
}

#[test]
fn the_error_page_is_unauthorized() {
    let page = SecretErrorTemplate { message: "No secret provided." };
    let reply = page.into_response();
    assert_eq!(reply.status, Status::Unauthorized);
    assert_eq!(reply.content_type, ContentType::PlainText);
    assert_eq!(reply.body, "No secret provided.");
}

#[test]
fn the_listing_is_a_success() {
    let listing = WebhooksTemplate::list("3000", &Vec::new());
    let reply = listing.into_response(Some("<ul></ul>".to_string()));
    assert_eq!(reply.status, Status::Success);
    assert_eq!(reply.content_type, ContentType::Html);
    assert_eq!(reply.body, "<ul></ul>");
    let listing = WebhooksTemplate::list("3000", &Vec::new());
    let reply = listing.into_response(None);
    assert_eq!(reply.status, Status::InternalServerError);
    assert_eq!(reply.content_type, ContentType::PlainText);
    assert_eq!(reply.body, "Template rendering failed");
}
