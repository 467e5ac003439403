use zero2prod::email_client::{EmailMessage, GatewayError};
use zero2prod::routes::subscriptions_confirm::Parameters;
use zero2prod::routes::Response;
use zero2prod::service::SubscriptionService;
use zero2prod::store::SubscriptionStatus;

const BASE_URL: &str = "https://my-api.com";

fn register(
    service: &mut SubscriptionService,
    name: Option<&str>,
    email: Option<&str>,
) -> (Response, Option<EmailMessage>) {
    service.register(
        name.map(|n| n.to_string()),
        email.map(|e| e.to_string()),
        BASE_URL.to_string(),
        1_700_000_000,
        Ok(()),
    )
}

fn link_in(message: &EmailMessage) -> String {
    let body = &message.html_content;
    let start = body.find("href=\"").unwrap() + "href=\"".len();
    let end = start + body[start..].find('"').unwrap();
    body[start..end].to_string()
}

fn token_in(link: &str) -> String {
    let marker = "subscription_token=";
    let start = link.find(marker).unwrap() + marker.len();
    link[start..].to_string()
}

#[test]
fn subscription_subscribe_returns_200_for_valid_request_data() {
    let mut service = SubscriptionService::new();

    let (response, _) = register(&mut service, Some("le guin"), Some("ursula_le_guin@gmail.com"));

    assert_eq!(200, response.status_code());
}

#[test]
fn health_check_subscribe_returns_200_for_valid_request_data() {
    let mut service = SubscriptionService::new();

    let (response, _) = register(&mut service, Some("le guin"), Some("ursula_le_guin@gmail.com"));

    assert_eq!(200, response.status_code());
    let saved = service.subscribers().get(0);
    assert_eq!(saved.email, "ursula_le_guin@gmail.com");
    assert_eq!(saved.name, "le guin");
}

#[test]
fn subscribe_persists_the_new_subscriber() {
    let mut service = SubscriptionService::new();

    let (response, _) = register(&mut service, Some("le guin"), Some("ursula_le_guin@gmail.com"));
    assert_eq!(200, response.status_code());

    assert_eq!(service.subscribers().len(), 1);
    let saved = service.subscribers().get(0);
    assert_eq!(saved.email, "ursula_le_guin@gmail.com");
    assert_eq!(saved.name, "le guin");
    assert_eq!(saved.status.as_str(), "pending_confirmation");
    assert_eq!(saved.subscribed_at, 1_700_000_000);
}

#[test]
fn subscribe_send_a_confirmation_email_for_valid_data() {
    let mut service = SubscriptionService::new();

    let (response, message) = register(&mut service, Some("le guin"), Some("ursula_le_guin@gmail.com"));
    assert_eq!(200, response.status_code());

    let message = message.unwrap();
    assert_eq!(message.recipient.as_str(), "ursula_le_guin@gmail.com");
    assert_eq!(message.subject, "Welcome!");
    let link = link_in(&message);
    assert!(link.starts_with("https://my-api.com/subscriptions/confirm"));
    assert_eq!(token_in(&link).len(), 25);
}

fn assert_all_rejected_with_400(cases: Vec<(Option<&str>, Option<&str>, &str)>) {
    for (name, email, description) in cases {
        let mut service = SubscriptionService::new();
        let (response, message) = register(&mut service, name, email);
        assert_eq!(
            400,
            response.status_code(),
            "The API did not fail with 400 Bad Request when the payload was {}.",
            description
        );
        assert!(message.is_none());
        assert_eq!(service.subscribers().len(), 0);
    }
}

#[test]
fn subscription_subscribe_returns_400_for_not_valid_request_data() {
    assert_all_rejected_with_400(vec![
        (Some("le guin"), None, "missing the email"),
        (None, Some("ursula_le_guin@gmail.com"), "missing the name"),
        (None, None, "missing both name and email"),
    ]);
}

#[test]
fn health_check_subscribe_returns_400_for_not_valid_request_data() {
    assert_all_rejected_with_400(vec![
        (Some("le guin"), None, "missing the email"),
        (None, Some("ursula_le_guin@gmail.com"), "missing the name"),
        (None, None, "missing both name and email"),
    ]);
}

#[test]
fn subscribe_returns_400_when_fields_is_present_but_invalid() {
    assert_all_rejected_with_400(vec![
        (Some(""), Some("email=ursula_le_guin@gmail.com"), "empty name"),
        (Some("le guin"), Some(""), "empty email"),
        (Some("Ursula"), Some("not-valid-email"), "missing both name and email"),
    ]);
}

#[test]
fn confirmation_without_token_reject_with_400() {
    let mut service = SubscriptionService::new();

    let response = service.confirm(None);

    assert_eq!(response.status_code(), 400);
}

#[test]
fn the_link_returned_by_subscribe_returns_a_200_if_called() {
    let mut service = SubscriptionService::new();
    let (_, message) = register(&mut service, Some("le guin"), Some("ursula_le_guin@gmail.com"));
    let link = link_in(&message.unwrap());

    let response = service.confirm(Some(Parameters::new(token_in(&link))));

    assert_eq!(response.status_code(), 200);
}

#[test]
fn clicking_on_the_confirmation_link_confirms_a_subscriber() {
    let mut service = SubscriptionService::new();
    let (_, message) = register(&mut service, Some("le guin"), Some("ursula_le_guin@gmail.com"));
    let link = link_in(&message.unwrap());

    service.confirm(Some(Parameters::new(token_in(&link))));

    let saved = service.subscribers().get(0);
    assert_eq!(saved.email, "ursula_le_guin@gmail.com");
    assert_eq!(saved.name, "le guin");
    assert_eq!(saved.status.as_str(), "confirmed");
}

#[test]
fn registering_the_same_email_twice_fails_and_keeps_one_row() {
    let mut service = SubscriptionService::new();
    let (first, _) = register(&mut service, Some("le guin"), Some("ursula_le_guin@gmail.com"));
    assert_eq!(first, Response::Accepted);

    let (second, message) = register(&mut service, Some("Ursula"), Some("ursula_le_guin@gmail.com"));

    assert_eq!(second.status_code(), 500);
    assert!(message.is_none());
    assert_eq!(service.subscribers().len(), 1);
    assert_eq!(service.tokens().len(), 1);
    assert_eq!(service.subscribers().get(0).name, "le guin");
}

#[test]
fn confirming_with_an_unknown_token_is_unauthorized() {
    let mut service = SubscriptionService::new();
    register(&mut service, Some("le guin"), Some("ursula_le_guin@gmail.com"));

    let response = service.confirm(Some(Parameters::new("abcdefghijklmnopqrstuvwxy".to_string())));

    assert_eq!(response.status_code(), 401);
    assert_eq!(service.subscribers().get(0).status, SubscriptionStatus::PendingConfirmation);
}

#[test]
fn confirming_twice_succeeds_both_times() {
    let mut service = SubscriptionService::new();
    let (_, message) = register(&mut service, Some("le guin"), Some("ursula_le_guin@gmail.com"));
    let token = token_in(&link_in(&message.unwrap()));

    let first = service.confirm(Some(Parameters::new(token.clone())));
    let second = service.confirm(Some(Parameters::new(token)));

    assert_eq!(first.status_code(), 200);
    assert_eq!(second.status_code(), 200);
    assert_eq!(service.subscribers().get(0).status, SubscriptionStatus::Confirmed);
}

#[test]
fn failed_delivery_keeps_the_subscriber_and_a_usable_token() {
    let mut service = SubscriptionService::new();
    let (response, message) = service.register(
        Some("le guin".to_string()),
        Some("ursula_le_guin@gmail.com".to_string()),
        BASE_URL.to_string(),
        0,
        Err(GatewayError),
    );
    assert_eq!(response.status_code(), 500);
    assert_eq!(service.subscribers().get(0).status, SubscriptionStatus::PendingConfirmation);

    let token = token_in(&link_in(&message.unwrap()));
    assert_eq!(service.confirm(Some(Parameters::new(token))).status_code(), 200);
    assert_eq!(service.subscribers().get(0).status, SubscriptionStatus::Confirmed);
}

#[test]
fn each_registration_issues_its_own_token() {
    let mut service = SubscriptionService::new();
    let (_, first) = register(&mut service, Some("le guin"), Some("ursula_le_guin@gmail.com"));
    let (_, second) = register(&mut service, Some("Octavia"), Some("octavia@example.com"));
    let first = token_in(&link_in(&first.unwrap()));
    let second = token_in(&link_in(&second.unwrap()));
    assert_ne!(first, second);
    assert_eq!(service.tokens().len(), 2);

    service.confirm(Some(Parameters::new(second)));
    assert_eq!(service.subscribers().get(0).status, SubscriptionStatus::PendingConfirmation);
    assert_eq!(service.subscribers().get(1).status, SubscriptionStatus::Confirmed);
}
