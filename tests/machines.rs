use zero2prod::email_client::{send_email_url, GatewayError};
use zero2prod::routes::subscriptions::{
    confirmation_body, confirmation_email, confirmation_link, generate_subscription_token,
    Registration, RegistrationAction, RegistrationEvent,
};
use zero2prod::routes::subscriptions_confirm::{
    after_confirm, after_lookup, start_confirmation, ConfirmAction, Parameters,
};
use zero2prod::routes::Response;
use zero2prod::store::StoreError;
use zero2prod::domain::SubscriberEmail;

fn submitted(name: &str, email: &str) -> RegistrationEvent {
    RegistrationEvent::Submitted { name: Some(name.to_string()), email: Some(email.to_string()) }
}

#[test]
fn registration_runs_through_its_stages() {
    let mut registration = Registration::new("http://localhost:8000".to_string());
    match registration.step(submitted("le guin", "ursula_le_guin@gmail.com")) {
        RegistrationAction::InsertPending(s) => assert_eq!(s.name.as_str(), "le guin"),
        other => panic!("unexpected {:?}", other),
    }
    let token = match registration.step(RegistrationEvent::Inserted(Ok(5))) {
        RegistrationAction::StoreToken { token, subscriber_id } => {
            assert_eq!(subscriber_id, 5);
            token
        }
        other => panic!("unexpected {:?}", other),
    };
    match registration.step(RegistrationEvent::TokenStored(Ok(()))) {
        RegistrationAction::SendEmail(m) => {
            assert_eq!(m.recipient.as_str(), "ursula_le_guin@gmail.com");
            assert!(m.html_content.contains(&format!(
                "http://localhost:8000/subscriptions/confirm?subscription_token={}",
                token
            )));
        }
        other => panic!("unexpected {:?}", other),
    }
    assert!(!registration.is_over());
    match registration.step(RegistrationEvent::EmailSent(Ok(()))) {
        RegistrationAction::Respond(r) => assert_eq!(r, Response::Accepted),
        other => panic!("unexpected {:?}", other),
    }
    assert!(registration.is_over());
}

fn respond(action: RegistrationAction) -> Response {
    match action {
        RegistrationAction::Respond(r) => r,
        other => panic!("unexpected {:?}", other),
    }
}

#[test]
fn registration_failures_end_it() {
    let mut r = Registration::new("x".to_string());
    let ev = RegistrationEvent::Submitted { name: None, email: Some("a@example.com".to_string()) };
    assert_eq!(respond(r.step(ev)), Response::BadRequest);
    assert!(r.is_over());

    let mut r = Registration::new("x".to_string());
    r.step(submitted("a", "a@example.com"));
    assert_eq!(respond(r.step(RegistrationEvent::Inserted(Err(StoreError::Conflict)))), Response::InternalServerError);
    assert!(r.is_over());

    let mut r = Registration::new("x".to_string());
    r.step(submitted("a", "a@example.com"));
    r.step(RegistrationEvent::Inserted(Ok(1)));
    assert_eq!(respond(r.step(RegistrationEvent::TokenStored(Err(StoreError::Unavailable)))), Response::InternalServerError);

    let mut r = Registration::new("x".to_string());
    r.step(submitted("a", "a@example.com"));
    r.step(RegistrationEvent::Inserted(Ok(1)));
    r.step(RegistrationEvent::TokenStored(Ok(())));
    assert_eq!(respond(r.step(RegistrationEvent::EmailSent(Err(GatewayError)))), Response::InternalServerError);
    assert!(r.is_over());
}

#[test]
fn an_answer_out_of_order_fails_the_registration() {
    let mut r = Registration::new("x".to_string());
    assert_eq!(respond(r.step(RegistrationEvent::Inserted(Ok(1)))), Response::InternalServerError);
    assert!(r.is_over());
}

#[test]
fn confirmation_steps() {
    assert_eq!(start_confirmation(None), ConfirmAction::Respond(Response::BadRequest));
    assert_eq!(
        start_confirmation(Some(Parameters::new("abc".to_string()))),
        ConfirmAction::Lookup("abc".to_string())
    );
    assert_eq!(after_lookup(Ok(None)), ConfirmAction::Respond(Response::Unauthorized));
    assert_eq!(after_lookup(Ok(Some(3))), ConfirmAction::Confirm(3));
    assert_eq!(after_lookup(Err(StoreError::Unavailable)), ConfirmAction::Respond(Response::InternalServerError));
    assert_eq!(after_confirm(Ok(())), Response::Accepted);
    assert_eq!(after_confirm(Err(StoreError::Unavailable)), Response::InternalServerError);
}

#[test]
fn status_codes() {
    assert_eq!(Response::Accepted.status_code(), 200);
    assert_eq!(Response::BadRequest.status_code(), 400);
    assert_eq!(Response::Unauthorized.status_code(), 401);
    assert_eq!(Response::InternalServerError.status_code(), 500);
}

#[test]
fn tokens_are_25_alphanumeric_characters() {
    let a = generate_subscription_token();
    let b = generate_subscription_token();
    assert_eq!(a.len(), 25);
    assert!(a.chars().all(|c| c.is_ascii_alphanumeric()));
    assert_ne!(a, b);
}

#[test]
fn confirmation_link_and_body() {
    let link = confirmation_link("https://my-api.com", "abc123");
    assert_eq!(link, "https://my-api.com/subscriptions/confirm?subscription_token=abc123");
    assert_eq!(
        confirmation_body(&link),
        "Welcome to our newsletter!<br />Click <a href=\"https://my-api.com/subscriptions/confirm?subscription_token=abc123\">here</a> to confirm your subscription."
    );
    let to = SubscriberEmail::parse("a@example.com".to_string()).unwrap();
    let message = confirmation_email(to, "https://my-api.com", "abc123");
    assert_eq!(message.subject, "Welcome!");
    assert!(message.html_content.contains(&link));
}

#[test]
fn delivery_endpoint() {
    assert_eq!(send_email_url("http://127.0.0.1:4000"), "http://127.0.0.1:4000/v3/smtp/email");
}
