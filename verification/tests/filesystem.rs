use femail::auth::{StoredToken, TokenFile};
use femail::error::Error;
use femail::filesystem::GmailFilesystem;
use femail::gmail::{
    ApiReply, GmailClient, Header, Label, ListingStep, Message, MessageListing, MessagePart,
    MessageResource, Payload,
};

fn client() -> GmailClient {
    let token = StoredToken { access_token: "abc123".to_string() };
    GmailClient::new(TokenFile::Present(token)).unwrap()
}

fn files() -> GmailFilesystem {
    GmailFilesystem::new(client())
}

fn labels_reply() -> ApiReply {
    ApiReply::Answered {
        status: 200,
        body: "{}".to_string(),
        payload: Payload::Labels(vec![
            Label { id: "SENT".to_string(), name: "SENT".to_string() },
            Label { id: "INBOX".to_string(), name: "INBOX".to_string() },
        ]),
    }
}

fn ids_reply() -> ApiReply {
    ApiReply::Answered {
        status: 200,
        body: "{}".to_string(),
        payload: Payload::MessageIds(vec!["m1".to_string()]),
    }
}

fn message_reply() -> ApiReply {
    ApiReply::Answered {
        status: 200,
        body: "{}".to_string(),
        payload: Payload::Message(MessageResource {
            id: "m1".to_string(),
            snippet: "Hi".to_string(),
            payload: MessagePart {
                mime_type: "text/plain".to_string(),
                headers: vec![Header { name: "Subject".to_string(), value: "Hello".to_string() }],
                data: Some("SGkgdGhlcmU".to_string()),
                parts: vec![],
            },
        }),
    }
}

fn refusal() -> ApiReply {
    ApiReply::Answered {
        status: 403,
        body: "Forbidden".to_string(),
        payload: Payload::Invalid,
    }
}

#[test]
fn requests_are_those_of_the_client() {
    assert_eq!(files().labels_request(), client().labels_request());
    assert_eq!(files().messages_request("My Label"), client().messages_request("My Label"));
    assert_eq!(files().message_request("m 1"), client().message_request("m 1"));
}

#[test]
fn list_labels_is_that_of_the_client() {
    assert_eq!(files().list_labels(labels_reply()), client().list_labels(labels_reply()));
    assert_eq!(
        files().list_labels(labels_reply()),
        Ok(vec![
            Label { id: "SENT".to_string(), name: "SENT".to_string() },
            Label { id: "INBOX".to_string(), name: "INBOX".to_string() },
        ])
    );
}

#[test]
fn list_labels_passes_the_failure_on_unchanged() {
    assert_eq!(
        files().list_labels(refusal()),
        Err(Error::Api { status: Some(403), detail: "Forbidden".to_string() })
    );
    assert_eq!(files().list_labels(refusal()), client().list_labels(refusal()));
}

#[test]
fn list_messages_is_that_of_the_client() {
    assert_eq!(
        files().list_messages(MessageListing::Identifiers, ids_reply()),
        client().list_messages(MessageListing::Identifiers, ids_reply())
    );
    let listing = match files().list_messages(MessageListing::Identifiers, ids_reply()) {
        ListingStep::Fetch { listing, .. } => listing,
        other => panic!("{:?}", other),
    };
    assert_eq!(
        files().list_messages(listing, message_reply()),
        ListingStep::Finished(Ok(vec![Message {
            id: "m1".to_string(),
            subject: "Hello".to_string(),
            from: String::new(),
            snippet: "Hi".to_string(),
        }]))
    );
}

#[test]
fn list_messages_passes_the_failure_on_unchanged() {
    assert_eq!(
        files().list_messages(MessageListing::Identifiers, refusal()),
        ListingStep::Finished(Err(Error::Api {
            status: Some(403),
            detail: "Forbidden".to_string(),
        }))
    );
}

#[test]
fn read_message_is_the_content_that_the_client_gets() {
    assert_eq!(files().read_message(message_reply()), Ok("Hi there".to_string()));
    assert_eq!(
        files().read_message(message_reply()),
        client().get_message_content(message_reply())
    );
}

#[test]
fn read_message_passes_the_failure_on_unchanged() {
    assert_eq!(
        files().read_message(refusal()),
        Err(Error::Api { status: Some(403), detail: "Forbidden".to_string() })
    );
}
