use greptile_client::conversation::{GreptileMessage, Role};
use greptile_client::identity::GreptileRepository;
use greptile_client::request::{GreptileIndexRequest, GreptileQueryRequest};

fn message(id: &str, role: Role) -> GreptileMessage {
    GreptileMessage::with_id(id.to_string(), format!("content {}", id), role)
}

#[test]
fn index_request_forces_reload_and_notify() {
    let repo = GreptileRepository::new("github".to_string(), "dev".to_string(), "a/b".to_string());
    let req: GreptileIndexRequest = repo.into();
    assert_eq!(req.remote, "github");
    assert_eq!(req.branch, "dev");
    assert_eq!(req.repository, "a/b");
    assert!(req.reload);
    assert!(req.notify);
}

#[test]
fn index_request_flags_with_empty_fields() {
    let repo = GreptileRepository::new(String::new(), String::new(), String::new());
    let req = GreptileIndexRequest::from(repo);
    assert!(req.reload && req.notify);
}

#[test]
fn query_request_defaults() {
    let repo = GreptileRepository::github_main("acme/widgets".to_string());
    let m = message("1", Role::User);
    let req = GreptileQueryRequest::new(repo.clone(), m.clone());
    assert_eq!(req.messages, vec![m]);
    assert_eq!(req.repositories, vec![repo]);
    assert_eq!(req.session_id, "");
    assert!(!req.stream);
    assert!(!req.genius);
}

#[test]
fn query_request_with_messages_keeps_order() {
    let repo = GreptileRepository::github_main("acme/widgets".to_string());
    let ms = vec![message("1", Role::System), message("2", Role::User), message("3", Role::Assistant)];
    let req = GreptileQueryRequest::with_messages(repo.clone(), ms.clone());
    assert_eq!(req.messages, ms);
    assert_eq!(req.repositories, vec![repo]);
    assert_eq!(req.session_id, "");
    assert!(!req.stream && !req.genius);
}

#[test]
fn push_message_appends_last() {
    let repo = GreptileRepository::github_main("acme/widgets".to_string());
    let first = message("1", Role::User);
    let second = message("2", Role::Assistant);
    let third = message("3", Role::User);
    let req = GreptileQueryRequest::new(repo.clone(), first.clone())
        .push_message(second.clone())
        .push_message(third.clone());
    assert_eq!(req.messages, vec![first, second, third]);
    assert_eq!(req.repositories, vec![repo]);
}

#[test]
fn push_message_on_empty_conversation() {
    let repo = GreptileRepository::github_main("acme/widgets".to_string());
    let m = message("1", Role::User);
    let req = GreptileQueryRequest::with_messages(repo, Vec::new()).push_message(m.clone());
    assert_eq!(req.messages, vec![m]);
}

#[test]
fn explicit_argument_end_to_end() {
    let repo = GreptileRepository::github_main("acme/widgets".to_string());
    assert_eq!(repo.remote, "github");
    assert_eq!(repo.branch, "main");
    assert_eq!(repo.repository, "acme/widgets");
    assert_eq!(repo.as_repo_id(), "github:main:acme/widgets");
    let req = GreptileQueryRequest::new(repo.clone(), GreptileMessage::user("What is this?".to_string()));
    assert_eq!(req.messages.len(), 1);
    assert_eq!(req.messages[0].role, Role::User);
    assert_eq!(req.messages[0].content, "What is this?");
    assert_eq!(req.repositories, vec![repo]);
    assert!(!req.stream);
    assert!(!req.genius);
    assert_eq!(req.session_id, "");
}
