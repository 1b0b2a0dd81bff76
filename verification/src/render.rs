//! What the commands print, line by line.

use crate::error::{message_of, Error, ErrorView};
use crate::gmail::{Label, LabelView, Message, MessageView};
use crate::text::{contains, lemma_contains_middle};
use vstd::prelude::*;

verus! {

/// The number of characters of a snippet that a listing shows.
pub const PREVIEW_LIMIT: usize = 50;

/// The lines that every run starts with.
pub open spec fn banner() -> Seq<Seq<char>> {
    seq!["Femail - Gmail Filesystem Browser"@, "Now with real Gmail API integration!"@, ""@]
}

/// The lines that a run without a command prints.
pub open spec fn help_lines() -> Seq<Seq<char>> {
    seq![
        "Gmail Filesystem Browser - Real API Integration"@,
        ""@,
        "Available commands:"@,
        "  femail auth              - Authenticate with Gmail (run this first)"@,
        "  femail labels            - List Gmail labels"@,
        "  femail messages <label>  - List messages in a label"@,
        "  femail read <label> <id> - Read a specific message"@,
        ""@,
        "Example usage:"@,
        "  femail auth"@,
        "  femail labels"@,
        "  femail messages INBOX"@,
        "  femail read INBOX 123abc..."@,
    ]
}

/// The lines that tell how to get a token and ask for it.
pub open spec fn auth_prompt() -> Seq<Seq<char>> {
    seq![
        "Setting up Gmail authentication..."@,
        ""@,
        "To use the Gmail API, you need an access token."@,
        ""@,
        "📋 Steps to get your access token:"@,
        "1. Go to https://developers.google.com/oauthplayground/"@,
        "2. In the left panel, find 'Gmail API v1'"@,
        "3. Select 'https://www.googleapis.com/auth/gmail.readonly'"@,
        "4. Click 'Authorize APIs' and sign in with your Google account"@,
        "5. Click 'Exchange authorization code for tokens'"@,
        "6. Copy the 'Access token' value"@,
        ""@,
        "Enter your access token:"@,
    ]
}

/// The line for a blank answer to the prompt.
pub open spec fn no_token_lines() -> Seq<Seq<char>> {
    seq!["❌ No token provided."@]
}

/// The lines that confirm that the token is stored, and warn that it expires.
pub open spec fn saved_lines() -> Seq<Seq<char>> {
    seq![
        "✅ Access token saved successfully!"@,
        "You can now use other commands like 'femail labels'"@,
        ""@,
        "Note: This token will expire after 1 hour. You'll need to"@,
        "repeat the auth process when it expires."@,
    ]
}

/// The line for a token that could not be stored.
pub open spec fn save_failure(error: ErrorView) -> Seq<Seq<char>> {
    seq!["❌ Error saving token: "@ + message_of(error)]
}

/// The line for input that could not be read.
pub open spec fn input_failure(why: Seq<char>) -> Seq<Seq<char>> {
    seq!["❌ Error reading input: "@ + why]
}

/// The line that announces the labels.
pub open spec fn labels_notice() -> Seq<Seq<char>> {
    seq!["Fetching Gmail labels..."@]
}

/// The line that announces the messages of a label.
pub open spec fn messages_notice(label: Seq<char>) -> Seq<Seq<char>> {
    seq!["Fetching messages from '"@ + label + "'..."@]
}

/// The line that announces a message.
pub open spec fn read_notice(label: Seq<char>, message_id: Seq<char>) -> Seq<Seq<char>> {
    seq!["Fetching message '"@ + message_id + "' from '"@ + label + "'..."@]
}

/// The line for one label: its name, and its identifier in brackets.
pub open spec fn label_line(label: LabelView) -> Seq<char> {
    "  📁 "@ + label.name + " ("@ + label.id + ")"@
}

/// The lines for the labels: a heading, then one line for each, in their order.
pub open spec fn labels_lines(labels: Seq<LabelView>) -> Seq<Seq<char>> {
    seq!["Available labels (directories):"@] + labels.map_values(|l: LabelView| label_line(l))
}

/// The lines for labels that could not be fetched: the error, and the hint to authenticate.
pub open spec fn labels_failure(error: ErrorView) -> Seq<Seq<char>> {
    seq![
        "❌ Error fetching labels: "@ + message_of(error),
        "Try running 'femail auth' first if you haven't authenticated."@,
    ]
}

/// A snippet as a listing shows it: whole if it has at most `PREVIEW_LIMIT` characters,
/// else its first `PREVIEW_LIMIT` characters and three dots.
pub open spec fn preview(snippet: Seq<char>) -> Seq<char> {
    if snippet.len() > PREVIEW_LIMIT {
        snippet.take(PREVIEW_LIMIT as int) + "..."@
    } else {
        snippet
    }
}

/// The line for one message: subject, sender and the snippet's preview.
pub open spec fn message_line(message: MessageView) -> Seq<char> {
    "  📧 "@ + message.subject + " (from: "@ + message.from + ") - "@ + preview(message.snippet)
}

/// The lines for the messages of a label: a heading and one line for each, in their order;
/// for a label without messages, a notice in place of both.
pub open spec fn messages_lines(label: Seq<char>, messages: Seq<MessageView>) -> Seq<Seq<char>> {
    if messages.len() == 0 {
        seq!["No messages found in '"@ + label + "'"@]
    } else {
        seq!["Messages in '"@ + label + "':"@] + messages.map_values(
            |m: MessageView| message_line(m),
        )
    }
}

/// The lines for messages that could not be listed: the error, and a hint that names the
/// label.
pub open spec fn messages_failure(label: Seq<char>, error: ErrorView) -> Seq<Seq<char>> {
    seq![
        "❌ Error fetching messages: "@ + message_of(error),
        "Make sure the label '"@ + label + "' exists and you're authenticated."@,
    ]
}

/// The hint for a message that could not be read. It names the message and its label.
pub open spec fn read_hint(label: Seq<char>, message_id: Seq<char>) -> Seq<char> {
    "Make sure the message ID '"@ + message_id + "' in '"@ + label
        + "' is correct and accessible."@
}

/// The lines for a message that could not be read: the error, and the hint that names the
/// message and its label.
pub open spec fn read_failure(
    label: Seq<char>,
    message_id: Seq<char>,
    error: ErrorView,
) -> Seq<Seq<char>> {
    seq!["❌ Error reading message: "@ + message_of(error), read_hint(label, message_id)]
}

/// Whatever the label, the message and the error: the lines for a message that could not be
/// read are two, the first ends with the error's sentence, and the second holds the
/// message's identifier and the label's name.
pub proof fn lemma_read_failure_names_both(
    label: Seq<char>,
    message_id: Seq<char>,
    error: ErrorView,
)
    ensures
        read_failure(label, message_id, error).len() == 2,
        read_failure(label, message_id, error)[0] == "❌ Error reading message: "@ + message_of(
            error,
        ),
        contains(read_failure(label, message_id, error)[1], message_id),
        contains(read_failure(label, message_id, error)[1], label),
{
    let start = "Make sure the message ID '"@;
    let between = "' in '"@;
    let end = "' is correct and accessible."@;
    let hint = read_hint(label, message_id);
    lemma_contains_middle(start, message_id, between + label + end);
    assert(start + message_id + (between + label + end) =~= hint);
    lemma_contains_middle(start + message_id + between, label, end);
}

/// Adds a line.
pub(crate) fn push_line(lines: &mut Vec<String>, line: String)
    ensures
        final(lines).deep_view() == old(lines).deep_view().push(line@),
{
    lines.push(line);
}

/// Adds a line of fixed text.
pub(crate) fn push_text(lines: &mut Vec<String>, line: &str)
    ensures
        final(lines).deep_view() == old(lines).deep_view().push(line@),
{
    push_line(lines, String::from_str(line));
}

/// Adds lines at the end.
pub(crate) fn push_lines(lines: &mut Vec<String>, more: Vec<String>)
    ensures
        final(lines).deep_view() == old(lines).deep_view() + more.deep_view(),
{
    let mut more = more;
    lines.append(&mut more);
}

/// No lines yet.
pub(crate) fn no_lines() -> (out: Vec<String>)
    ensures
        out.deep_view() == Seq::<Seq<char>>::empty(),
{
    Vec::new()
}

/// The lines that every run starts with.
pub fn render_banner() -> (out: Vec<String>)
    ensures
        out.deep_view() == banner(),
{
    let mut out = no_lines();
    push_text(&mut out, "Femail - Gmail Filesystem Browser");
    push_text(&mut out, "Now with real Gmail API integration!");
    push_text(&mut out, "");
    out
}

/// The lines that a run without a command prints.
pub fn render_help() -> (out: Vec<String>)
    ensures
        out.deep_view() == help_lines(),
{
    let mut out = no_lines();
    push_text(&mut out, "Gmail Filesystem Browser - Real API Integration");
    push_text(&mut out, "");
    push_text(&mut out, "Available commands:");
    push_text(&mut out, "  femail auth              - Authenticate with Gmail (run this first)");
    push_text(&mut out, "  femail labels            - List Gmail labels");
    push_text(&mut out, "  femail messages <label>  - List messages in a label");
    push_text(&mut out, "  femail read <label> <id> - Read a specific message");
    push_text(&mut out, "");
    push_text(&mut out, "Example usage:");
    push_text(&mut out, "  femail auth");
    push_text(&mut out, "  femail labels");
    push_text(&mut out, "  femail messages INBOX");
    push_text(&mut out, "  femail read INBOX 123abc...");
    out
}

/// The lines that tell how to get a token and ask for it.
pub fn render_auth_prompt() -> (out: Vec<String>)
    ensures
        out.deep_view() == auth_prompt(),
{
    let mut out = no_lines();
    push_text(&mut out, "Setting up Gmail authentication...");
    push_text(&mut out, "");
    push_text(&mut out, "To use the Gmail API, you need an access token.");
    push_text(&mut out, "");
    push_text(&mut out, "📋 Steps to get your access token:");
    push_text(&mut out, "1. Go to https://developers.google.com/oauthplayground/");
    push_text(&mut out, "2. In the left panel, find 'Gmail API v1'");
    push_text(&mut out, "3. Select 'https://www.googleapis.com/auth/gmail.readonly'");
    push_text(&mut out, "4. Click 'Authorize APIs' and sign in with your Google account");
    push_text(&mut out, "5. Click 'Exchange authorization code for tokens'");
    push_text(&mut out, "6. Copy the 'Access token' value");
    push_text(&mut out, "");
    push_text(&mut out, "Enter your access token:");
    out
}

/// The line for a blank answer to the prompt.
pub fn render_no_token() -> (out: Vec<String>)
    ensures
        out.deep_view() == no_token_lines(),
{
    let mut out = no_lines();
    push_text(&mut out, "❌ No token provided.");
    out
}

/// The lines that confirm that the token is stored.
pub fn render_saved() -> (out: Vec<String>)
    ensures
        out.deep_view() == saved_lines(),
{
    let mut out = no_lines();
    push_text(&mut out, "✅ Access token saved successfully!");
    push_text(&mut out, "You can now use other commands like 'femail labels'");
    push_text(&mut out, "");
    push_text(&mut out, "Note: This token will expire after 1 hour. You'll need to");
    push_text(&mut out, "repeat the auth process when it expires.");
    out
}

fn framed(before: &str, text: &str, after: &str) -> (out: String)
    ensures
        out@ == before@ + text@ + after@,
{
    let mut out = String::from_str(before);
    out.append(text);
    out.append(after);
    out
}

fn described(before: &str, error: &Error) -> (out: String)
    ensures
        out@ == before@ + message_of(error@),
{
    let mut out = String::from_str(before);
    out.append(error.message().as_str());
    out
}

/// The line for a token that could not be stored.
pub fn render_save_failure(error: &Error) -> (out: Vec<String>)
    ensures
        out.deep_view() == save_failure(error@),
{
    let mut out = no_lines();
    push_line(&mut out, described("❌ Error saving token: ", error));
    out
}

/// The line for input that could not be read.
pub fn render_input_failure(why: &str) -> (out: Vec<String>)
    ensures
        out.deep_view() == input_failure(why@),
{
    let mut out = no_lines();
    let mut line = String::from_str("❌ Error reading input: ");
    line.append(why);
    push_line(&mut out, line);
    out
}

/// The line that announces the labels.
pub fn render_labels_notice() -> (out: Vec<String>)
    ensures
        out.deep_view() == labels_notice(),
{
    let mut out = no_lines();
    push_text(&mut out, "Fetching Gmail labels...");
    out
}

/// The line that announces the messages of a label.
pub fn render_messages_notice(label: &str) -> (out: Vec<String>)
    ensures
        out.deep_view() == messages_notice(label@),
{
    let mut out = no_lines();
    push_line(&mut out, framed("Fetching messages from '", label, "'..."));
    out
}

/// The line that announces a message.
pub fn render_read_notice(label: &str, message_id: &str) -> (out: Vec<String>)
    ensures
        out.deep_view() == read_notice(label@, message_id@),
{
    let mut out = no_lines();
    let mut line = framed("Fetching message '", message_id, "' from '");
    line.append(label);
    line.append("'...");
    push_line(&mut out, line);
    out
}

/// The lines for the labels.
pub fn render_labels(labels: &Vec<Label>) -> (out: Vec<String>)
    ensures
        out.deep_view() == labels_lines(labels.deep_view()),
{
    let ghost all = labels.deep_view();
    let mut out = no_lines();
    push_text(&mut out, "Available labels (directories):");
    let mut i: usize = 0;
    while i < labels.len()
        invariant
            i <= labels.len(),
            all == labels.deep_view(),
            out.deep_view() == labels_lines(all.take(i as int)),
        decreases labels.len() - i,
    {
        let label = &labels[i];
        let mut line = framed("  📁 ", label.name.as_str(), " (");
        line.append(label.id.as_str());
        line.append(")");
        push_line(&mut out, line);
        i += 1;
    }
    out
}

/// The lines for labels that could not be fetched.
pub fn render_labels_failure(error: &Error) -> (out: Vec<String>)
    ensures
        out.deep_view() == labels_failure(error@),
{
    let mut out = no_lines();
    push_line(&mut out, described("❌ Error fetching labels: ", error));
    push_text(&mut out, "Try running 'femail auth' first if you haven't authenticated.");
    out
}

/// A snippet as a listing shows it.
pub fn render_preview(snippet: &str) -> (out: String)
    ensures
        out@ == preview(snippet@),
        snippet@.len() <= PREVIEW_LIMIT ==> out@ == snippet@,
        snippet@.len() > PREVIEW_LIMIT ==> out@ == snippet@.take(PREVIEW_LIMIT as int) + "..."@,
{
    if snippet.unicode_len() > PREVIEW_LIMIT {
        let mut out = String::from_str(snippet.substring_char(0, PREVIEW_LIMIT));
        out.append("...");
        out
    } else {
        String::from_str(snippet)
    }
}

fn render_message(message: &Message) -> (out: String)
    ensures
        out@ == message_line(message@),
{
    let mut out = framed("  📧 ", message.subject.as_str(), " (from: ");
    out.append(message.from.as_str());
    out.append(") - ");
    out.append(render_preview(message.snippet.as_str()).as_str());
    out
}

/// The lines for the messages of a label. A label without messages gets the notice that
/// there are none, and no heading.
pub fn render_messages(label: &str, messages: &Vec<Message>) -> (out: Vec<String>)
    ensures
        out.deep_view() == messages_lines(label@, messages.deep_view()),
        messages@.len() == 0 ==> out.deep_view() == seq!["No messages found in '"@ + label@ + "'"@],
{
    let ghost all = messages.deep_view();
    let mut out = no_lines();
    if messages.len() == 0 {
        push_line(&mut out, framed("No messages found in '", label, "'"));
        return out;
    }
    let ghost heading = seq!["Messages in '"@ + label@ + "':"@];
    push_line(&mut out, framed("Messages in '", label, "':"));
    let mut i: usize = 0;
    while i < messages.len()
        invariant
            i <= messages.len(),
            all == messages.deep_view(),
            heading == seq!["Messages in '"@ + label@ + "':"@],
            out.deep_view() == heading + all.take(i as int).map_values(
                |m: MessageView| message_line(m),
            ),
        decreases messages.len() - i,
    {
        push_line(&mut out, render_message(&messages[i]));
        i += 1;
    }
    out
}

/// The lines for messages that could not be listed.
pub fn render_messages_failure(label: &str, error: &Error) -> (out: Vec<String>)
    ensures
        out.deep_view() == messages_failure(label@, error@),
{
    let mut out = no_lines();
    push_line(&mut out, described("❌ Error fetching messages: ", error));
    push_line(
        &mut out,
        framed("Make sure the label '", label, "' exists and you're authenticated."),
    );
    out
}

/// The lines for a message that could not be read.
pub fn render_read_failure(label: &str, message_id: &str, error: &Error) -> (out: Vec<String>)
    ensures
        out.deep_view() == read_failure(label@, message_id@, error@),
{
    let mut out = no_lines();
    push_line(&mut out, described("❌ Error reading message: ", error));
    let mut hint = framed("Make sure the message ID '", message_id, "' in '");
    hint.append(label);
    hint.append("' is correct and accessible.");
    push_line(&mut out, hint);
    out
}

} // verus!
