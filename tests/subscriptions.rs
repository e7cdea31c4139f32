use zero2prod_core::domain::{SubscriberEmail, SubscriberName};
use zero2prod_core::email_client::{delivery_result, BearerToken, DeliveryError, EmailClient};
use zero2prod_core::store::{StoreError, Subscriber, SubscriptionStatus, SubscriptionStore};
use zero2prod_core::token::generate_subscription_token;
use zero2prod_core::workflow::{
    confirm, confirmation_email_body, confirmation_link, submit_status, subscribe, subscribe_with,
    FormData, SubmitStep,
};

const APP_URL: &str = "http://127.0.0.1:8000";

fn email_client() -> EmailClient {
    EmailClient::new(
        "http://127.0.0.1:9000".to_string(),
        SubscriberEmail::parse("newsletter@example.com".to_string()).unwrap(),
        BearerToken::new("test-bearer-token".to_string()),
    )
}

fn form(name: &str, email: &str) -> FormData {
    FormData { name: name.to_string(), email: email.to_string() }
}

fn sent_body(step: &SubmitStep) -> String {
    match step {
        SubmitStep::Send(req) => req.content[0].value.clone(),
        _ => panic!("no confirmation email to send"),
    }
}

fn links_in(text: &str) -> Vec<String> {
    let mut links = Vec::new();
    let mut rest = text;
    while let Some(start) = rest.find("http://").or_else(|| rest.find("https://")) {
        let tail = &rest[start..];
        let end = tail.find(|c: char| c == '"' || c == '<' || c.is_whitespace()).unwrap_or(tail.len());
        links.push(tail[..end].to_string());
        rest = &tail[end..];
    }
    links
}

fn token_of(link: &str) -> String {
    let at = link.find("?token=").unwrap();
    link[at + "?token=".len()..].to_string()
}

#[test]
fn subscriptions_subscribe_return_a_200_for_valid_form_data() {
    let mut store = SubscriptionStore::new();
    let client = email_client();
    let step = subscribe(&mut store, &client, APP_URL, form("hsu marvin", "marvin_hsu@gmail.com"));
    assert_eq!(200, submit_status(&step, Some(200)));
}

#[test]
fn subscribe_persists_the_new_subscriber() {
    let mut store = SubscriptionStore::new();
    let client = email_client();
    let step = subscribe(&mut store, &client, APP_URL, form("hsu marvin", "marvin_hsu@gmail.com"));
    assert_eq!(200, submit_status(&step, Some(200)));
    assert_eq!(store.subscriber_count(), 1);
    let saved = store.subscriber_at(0);
    assert_eq!(saved.email.as_str(), "marvin_hsu@gmail.com");
    assert_eq!(saved.name.as_str(), "hsu marvin");
    assert_eq!(saved.status.as_str(), "pending_confirmation");
}

#[test]
fn subscriptions_subscribe_return_a_400_when_fields_are_present_but_empty() {
    let test_case = vec![
        (form("", "marvin_hsu@gmail.com"), "empty name"),
        (form("marvinhsu", ""), "empty name"),
        (form("marvinhsu", "definitely-not-an-email"), "invalid email"),
    ];
    let client = email_client();
    for (body, description) in test_case {
        let mut store = SubscriptionStore::new();
        let step = subscribe(&mut store, &client, APP_URL, body);
        assert_eq!(
            400,
            submit_status(&step, None),
            "The API did not return a 400 Bad Request when the payload was {}",
            description
        );
        assert_eq!(store.subscriber_count(), 0);
    }
}

#[test]
fn subscribe_sends_a_confirmation_email_for_valid_data() {
    let mut store = SubscriptionStore::new();
    let client = email_client();
    let step = subscribe(&mut store, &client, APP_URL, form("hsu marvin", "marvin_hsu@gmail.com"));
    match &step {
        SubmitStep::Send(req) => {
            assert_eq!(req.personalizations.len(), 1);
            assert_eq!(req.personalizations[0].to.len(), 1);
            assert_eq!(req.personalizations[0].to[0].email, "marvin_hsu@gmail.com");
            assert_eq!(req.from.email, "newsletter@example.com");
        }
        _ => panic!("expected a confirmation email"),
    }
}

#[test]
fn subscribe_sends_a_confirmation_email_with_a_link() {
    let mut store = SubscriptionStore::new();
    let client = email_client();
    let step = subscribe(&mut store, &client, APP_URL, form("hsu marvin", "marvin_hsu@gmail.com"));
    let content = sent_body(&step);
    assert_eq!(links_in(&content).len(), 1);
}

#[test]
fn confirmations_without_token_are_rejected_with_a_400() {
    let mut store = SubscriptionStore::new();
    assert_eq!(confirm(&mut store, None), 400);
}

#[test]
fn the_link_return_by_subscribe_returns_a_200_if_called() {
    let mut store = SubscriptionStore::new();
    let client = email_client();
    let step = subscribe(&mut store, &client, APP_URL, form("marvinhsu", "marvinhsu@gmail.com"));
    let links = links_in(&sent_body(&step));
    let confirmation_link = &links[0];
    assert!(confirmation_link.starts_with("http://127.0.0.1:8000/"));
    let token = token_of(confirmation_link);
    assert_eq!(confirm(&mut store, Some(token)), 200);
    assert_eq!(store.subscriber_at(0).status, SubscriptionStatus::Confirmed);
}

#[test]
fn send_email_fires_a_request_to_base_url() {
    let client = email_client();
    let recipient = SubscriberEmail::parse("someone@example.org".to_string()).unwrap();
    let req = client.build_request(&recipient, "A subject", "text/plain", "Some content");
    assert_eq!(client.endpoint(), "http://127.0.0.1:9000/v3/mail/send");
    assert_eq!(client.authorization_header(), "Bearer test-bearer-token");
    assert_eq!(req.from.email, "newsletter@example.com");
    assert_eq!(req.personalizations[0].to[0].email, "someone@example.org");
    assert_eq!(req.personalizations[0].subject, "A subject");
    assert_eq!(req.content[0].type_field, "text/plain");
    assert_eq!(req.content[0].value, "Some content");
    assert_eq!(delivery_result(Some(200)), Ok(()));
}

#[test]
fn send_email_fails_if_the_server_returns_500() {
    assert_eq!(delivery_result(Some(500)), Err(DeliveryError::Rejected));
}

#[test]
fn send_email_times_out_if_the_server_takes_too_long() {
    let client = email_client();
    assert_eq!(client.timeout_millis(), 10_000);
    assert_eq!(delivery_result(None), Err(DeliveryError::Unreachable));
}

#[test]
fn gateway_500_keeps_subscriber_and_token() {
    let mut store = SubscriptionStore::new();
    let client = email_client();
    let step = subscribe(&mut store, &client, APP_URL, form("hsu marvin", "marvin_hsu@gmail.com"));
    assert_eq!(submit_status(&step, Some(500)), 500);
    assert_eq!(store.subscriber_count(), 1);
    assert_eq!(store.token_count(), 1);
    let id = store.subscriber_at(0).id;
    assert_eq!(store.token_at(0).subscriber_id, id);
    assert_eq!(store.find_status(id), Some(SubscriptionStatus::PendingConfirmation));
}

#[test]
fn gateway_timeout_gives_500() {
    let mut store = SubscriptionStore::new();
    let client = email_client().with_timeout(200);
    assert_eq!(client.timeout_millis(), 200);
    let step = subscribe(&mut store, &client, APP_URL, form("hsu marvin", "marvin_hsu@gmail.com"));
    assert_eq!(submit_status(&step, None), 500);
    assert_eq!(store.subscriber_count(), 1);
    assert_eq!(store.token_count(), 1);
}

#[test]
fn valid_submission_is_pending_with_exactly_one_token() {
    let mut store = SubscriptionStore::new();
    let client = email_client();
    let step = subscribe_with(
        &mut store,
        &client,
        APP_URL,
        form("hsu marvin", "marvin_hsu@gmail.com"),
        7,
        "abcdefghijklmnopqrstuvwxy".to_string(),
        1_700_000_000,
    );
    assert!(matches!(step, SubmitStep::Send(_)));
    assert_eq!(store.find_status(7), Some(SubscriptionStatus::PendingConfirmation));
    assert_eq!(store.token_count(), 1);
    assert_eq!(store.find_token_owner("abcdefghijklmnopqrstuvwxy"), Some(7));
    assert_eq!(store.subscriber_at(0).subscribed_at, 1_700_000_000);
    assert_eq!(
        sent_body(&step),
        "Welcome to our newsletter!<br />Click <a href=\"http://127.0.0.1:8000/subscriptions/confirm?token=abcdefghijklmnopqrstuvwxy\">here</a> to confirm your subscription."
    );
}

#[test]
fn reused_id_or_token_fails_with_500() {
    let mut store = SubscriptionStore::new();
    let client = email_client();
    let first = subscribe_with(&mut store, &client, APP_URL, form("a b", "a@b.c"), 1, "tok".to_string(), 0);
    assert!(matches!(first, SubmitStep::Send(_)));
    let same_id = subscribe_with(&mut store, &client, APP_URL, form("c d", "c@d.e"), 1, "tok2".to_string(), 0);
    assert_eq!(submit_status(&same_id, Some(200)), 500);
    assert_eq!(store.subscriber_count(), 1);
    let same_token = subscribe_with(&mut store, &client, APP_URL, form("c d", "c@d.e"), 2, "tok".to_string(), 0);
    assert_eq!(submit_status(&same_token, Some(200)), 500);
    assert_eq!(store.subscriber_count(), 2);
    assert_eq!(store.token_count(), 1);
    assert_eq!(store.find_status(2), Some(SubscriptionStatus::PendingConfirmation));
}

#[test]
fn confirm_is_idempotent() {
    let mut store = SubscriptionStore::new();
    let client = email_client();
    subscribe_with(&mut store, &client, APP_URL, form("a b", "a@b.c"), 1, "first".to_string(), 0);
    subscribe_with(&mut store, &client, APP_URL, form("x y", "x@y.z"), 2, "other".to_string(), 0);
    assert_eq!(store.store_token("second".to_string(), 1), Ok(()));
    assert_eq!(confirm(&mut store, Some("first".to_string())), 200);
    assert_eq!(store.find_status(1), Some(SubscriptionStatus::Confirmed));
    assert_eq!(store.find_status(2), Some(SubscriptionStatus::PendingConfirmation));
    assert_eq!(confirm(&mut store, Some("first".to_string())), 200);
    assert_eq!(confirm(&mut store, Some("second".to_string())), 200);
    assert_eq!(store.find_status(1), Some(SubscriptionStatus::Confirmed));
    assert_eq!(store.find_status(2), Some(SubscriptionStatus::PendingConfirmation));
    assert_eq!(store.subscriber_count(), 2);
}

#[test]
fn unknown_token_is_401_missing_token_is_400() {
    let mut store = SubscriptionStore::new();
    let client = email_client();
    subscribe_with(&mut store, &client, APP_URL, form("a b", "a@b.c"), 1, "issued".to_string(), 0);
    assert_eq!(confirm(&mut store, Some("never-issued".to_string())), 401);
    assert_eq!(confirm(&mut store, None), 400);
    assert_eq!(store.confirm_by_token("never-issued"), Err(StoreError::TokenNotFound));
    assert_eq!(store.find_status(1), Some(SubscriptionStatus::PendingConfirmation));
}

#[test]
fn store_refuses_token_for_unknown_subscriber() {
    let mut store = SubscriptionStore::new();
    assert_eq!(store.store_token("t".to_string(), 9), Err(StoreError::UnknownSubscriber));
    assert_eq!(store.token_count(), 0);
}

#[test]
fn generated_tokens_are_alphanumeric_and_distinct() {
    let a = generate_subscription_token();
    let b = generate_subscription_token();
    assert_eq!(a.chars().count(), 25);
    assert!(a.chars().all(|c| c.is_ascii_alphanumeric()));
    assert_ne!(a, b);
}

#[test]
fn confirmation_link_and_body() {
    let link = confirmation_link("https://app.example", "abc");
    assert_eq!(link, "https://app.example/subscriptions/confirm?token=abc");
    let body = confirmation_email_body(&link);
    assert_eq!(links_in(&body), vec![link]);
}

#[test]
fn health_check_subscribe_return_a_200_for_valid_form_data() {
    let mut store = SubscriptionStore::new();
    let client = email_client();
    let step = subscribe(&mut store, &client, APP_URL, form("hsu marvin", "marvin_hsu@gmail.com"));
    assert_eq!(200, submit_status(&step, Some(200)));
    let saved = store.subscriber_at(0);
    assert_eq!(saved.email.as_str(), "marvin_hsu@gmail.com");
    assert_eq!(saved.name.as_str(), "hsu marvin");
}

#[test]
fn health_check_subscribe_return_a_400_when_fields_are_present_but_empty() {
    let test_case = vec![
        (form("", "marvin_hsu@gmail.com"), "empty name"),
        (form("marvinhsu", ""), "empty name"),
        (form("marvinhsu", "definitely-not-an-email"), "invalid email"),
    ];
    let client = email_client();
    for (body, description) in test_case {
        let mut store = SubscriptionStore::new();
        let step = subscribe(&mut store, &client, APP_URL, body);
        assert_eq!(
            400,
            submit_status(&step, None),
            "The API did not return a 400 Bad Request when the payload was {}",
            description
        );
    }
}

#[test]
fn inserted_subscribers_start_pending() {
    let mut store = SubscriptionStore::new();
    let s = Subscriber {
        id: 3,
        email: SubscriberEmail::parse("a@b.c".to_string()).unwrap(),
        name: SubscriberName::parse("a b".to_string()).unwrap(),
        status: SubscriptionStatus::Confirmed,
        subscribed_at: 0,
    };
    assert_eq!(store.insert_subscriber(s), Ok(()));
    assert_eq!(store.find_status(3), Some(SubscriptionStatus::PendingConfirmation));
}
