use vstd::prelude::*;

use crate::conversation::GreptileMessage;
use crate::identity::GreptileRepository;

verus! {

/// Asks the service to (re)index a repository.
#[derive(Clone, Debug, PartialEq, Eq)]
pub struct GreptileIndexRequest {
    pub remote: String,
    pub repository: String,
    pub branch: String,
    /// Index again even if the repository is known.
    pub reload: bool,
    /// Notify when indexing has finished.
    pub notify: bool,
}

impl From<GreptileRepository> for GreptileIndexRequest {
    /// Always forces a reload and asks for a notification.
    fn from(value: GreptileRepository) -> (r: Self)
        ensures
            r.remote == value.remote,
            r.repository == value.repository,
            r.branch == value.branch,
            r.reload,
            r.notify,
    {
        GreptileIndexRequest {
            remote: value.remote,
            repository: value.repository,
            branch: value.branch,
            reload: true,
            notify: true,
        }
    }
}

impl vstd::std_specs::convert::FromSpecImpl<GreptileRepository> for GreptileIndexRequest {
    open spec fn obeys_from_spec() -> bool {
        true
    }

    open spec fn from_spec(v: GreptileRepository) -> Self {
        GreptileIndexRequest {
            remote: v.remote,
            repository: v.repository,
            branch: v.branch,
            reload: true,
            notify: true,
        }
    }
}

/// A question about one repository: the conversation so far, oldest message
/// first. Streaming and extended reasoning are off; an empty session id
/// starts a new session.
#[derive(Clone, Debug, PartialEq, Eq)]
pub struct GreptileQueryRequest {
    pub messages: Vec<GreptileMessage>,
    pub repositories: Vec<GreptileRepository>,
    pub session_id: String,
    pub stream: bool,
    pub genius: bool,
}

/// The fixed settings of every query request, and its single repository.
pub open spec fn is_default_query_for(req: GreptileQueryRequest, repository: GreptileRepository) -> bool {
    &&& req.repositories@ == seq![repository]
    &&& req.session_id@ == Seq::<char>::empty()
    &&& !req.stream
    &&& !req.genius
}

impl GreptileQueryRequest {
    /// A query that starts with a single message.
    pub fn new(repository: GreptileRepository, message: GreptileMessage) -> (r: Self)
        ensures
            r.messages@ == seq![message],
            is_default_query_for(r, repository),
    {
        let mut messages = Vec::new();
        messages.push(message);
        let mut repositories = Vec::new();
        repositories.push(repository);
        GreptileQueryRequest {
            messages,
            repositories,
            session_id: String::new(),
            stream: false,
            genius: false,
        }
    }

    /// A query that carries on an existing conversation.
    pub fn with_messages(repository: GreptileRepository, messages: Vec<GreptileMessage>) -> (r:
        Self)
        ensures
            r.messages == messages,
            is_default_query_for(r, repository),
    {
        let mut repositories = Vec::new();
        repositories.push(repository);
        GreptileQueryRequest {
            messages,
            repositories,
            session_id: String::new(),
            stream: false,
            genius: false,
        }
    }

    /// Appends a message at the end; the earlier messages stay as they were.
    pub fn push_message(self, message: GreptileMessage) -> (r: Self)
        ensures
            r.messages@ == self.messages@.push(message),
            r.messages@.len() == self.messages@.len() + 1,
            forall|i: int| 0 <= i < self.messages@.len() ==> r.messages@[i] == self.messages@[i],
            r.messages@.last() == message,
            r.repositories == self.repositories,
            r.session_id == self.session_id,
            r.stream == self.stream,
            r.genius == self.genius,
    {
        let mut req = self;
        req.messages.push(message);
        req
    }
}

} // verus!
