//! The mailbox as a file tree: labels are the directories, messages are the files.

use crate::error::{result_view, Error};
use crate::gmail::{
    content_in, labels_of, labels_request_of, listing_step, message_request_of,
    messages_request_of, ApiReply, ApiRequest, GmailClient, Label, ListingStep, MessageListing,
};
use vstd::prelude::*;

verus! {

/// The file tree over a client. It adds nothing to what the client does: each operation is
/// the client's, under the name that it has in a file tree. Its view is the client's.
#[derive(Debug)]
pub struct GmailFilesystem {
    gmail_client: GmailClient,
}

impl View for GmailFilesystem {
    type V = Seq<char>;

    closed spec fn view(&self) -> Seq<char> {
        self.gmail_client@
    }
}

impl GmailFilesystem {
    /// The file tree over `gmail_client`.
    pub fn new(gmail_client: GmailClient) -> (out: Self)
        ensures
            out@ == gmail_client@,
    {
        Self { gmail_client }
    }

    /// The request to make before `list_labels`.
    pub fn labels_request(&self) -> (out: ApiRequest)
        ensures
            out@ == labels_request_of(self@),
    {
        self.gmail_client.labels_request()
    }

    /// The directories: the labels in the reply to `labels_request`, in the provider's
    /// order, or the client's failure unchanged.
    pub fn list_labels(&self, reply: ApiReply) -> (out: Result<Vec<Label>, Error>)
        ensures
            result_view(out) == labels_of(reply@),
    {
        self.gmail_client.list_labels(reply)
    }

    /// The request that starts the listing of the directory `label_id`, which then stands
    /// at `MessageListing::Identifiers`.
    pub fn messages_request(&self, label_id: &str) -> (out: ApiRequest)
        ensures
            out@ == messages_request_of(self@, label_id@),
    {
        self.gmail_client.messages_request(label_id)
    }

    /// The files of a directory: takes the listing one step on with the reply to its last
    /// request, as the client does.
    pub fn list_messages(&self, listing: MessageListing, reply: ApiReply) -> (out: ListingStep)
        ensures
            out@ == listing_step(self@, listing@, reply@),
    {
        self.gmail_client.list_messages(listing, reply)
    }

    /// The request to make before `read_message`.
    pub fn message_request(&self, message_id: &str) -> (out: ApiRequest)
        ensures
            out@ == message_request_of(self@, message_id@),
    {
        self.gmail_client.message_request(message_id)
    }

    /// The content of a file: the text of the message in the reply to `message_request`,
    /// or the client's failure unchanged.
    pub fn read_message(&self, reply: ApiReply) -> (out: Result<String, Error>)
        ensures
            result_view(out) == content_in(reply@),
    {
        self.gmail_client.get_message_content(reply)
    }
}

} // verus!
