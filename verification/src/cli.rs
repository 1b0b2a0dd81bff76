//! The command dispatcher as a machine that performs nothing itself: each turn gives the
//! lines to print and the one thing to do next, and the next turn takes what came of it.

use crate::auth::{
    loaded, location_of, save_token, token_from_input, token_location, token_of_input, TokenFile,
    TokenFileView, TokenLocation, TokenLocationView, TokenWrite, TokenWriteView,
};
use crate::error::{Error, ErrorView};
use crate::filesystem::GmailFilesystem;
use crate::gmail::{
    content_in, labels_of, labels_request_of, listing_step, message_ids_of, message_request_of,
    messages_request_of, ApiReply, ApiRequest, GmailClient, ListingStep, ListingStepView,
    ListingView, MessageListing, ReplyView, RequestView,
};
use crate::render::{
    auth_prompt, banner, help_lines, input_failure, labels_failure, labels_lines, labels_notice,
    lemma_read_failure_names_both, messages_failure, messages_lines, messages_notice, no_lines,
    no_token_lines, push_line, push_lines, read_failure, read_notice, render_auth_prompt,
    render_banner, render_help, render_input_failure, render_labels, render_labels_failure,
    render_labels_notice, render_messages, render_messages_failure, render_messages_notice,
    render_no_token, render_read_failure, render_read_notice, render_save_failure, render_saved,
    save_failure, saved_lines,
};
use crate::text::{contains, is_blank, lemma_trimmed_empty, trimmed};
use vstd::prelude::*;

verus! {

/// What the user asked for.
#[derive(Debug, PartialEq, Eq)]
pub enum Command {
    /// Store a token.
    Auth,
    /// List the labels.
    Labels,
    /// List the messages under a label.
    Messages { label: String },
    /// Show a message.
    Read { label: String, message_id: String },
}

/// The mathematical value of a [`Command`].
pub enum CommandView {
    Auth,
    Labels,
    Messages { label: Seq<char> },
    Read { label: Seq<char>, message_id: Seq<char> },
}

impl DeepView for Command {
    type V = CommandView;

    open spec fn deep_view(&self) -> CommandView {
        match *self {
            Command::Auth => CommandView::Auth,
            Command::Labels => CommandView::Labels,
            Command::Messages { label } => CommandView::Messages { label: label@ },
            Command::Read { label, message_id } => CommandView::Read {
                label: label@,
                message_id: message_id@,
            },
        }
    }
}

/// The one thing to do after a turn.
#[derive(Debug, PartialEq, Eq)]
pub enum Action {
    /// Nothing more: the run is over, and it has not failed.
    Exit,
    /// Read a line from standard input; answer with `Event::Line` or `Event::LineFailed`.
    ReadLine,
    /// Create the directory of the order's place if it is missing and write its token as
    /// JSON to the path, in place of what is there; answer with `Event::Written` or
    /// `Event::WriteFailed`.
    WriteToken(TokenWrite),
    /// Create the directory of the place if it is missing and look at the file at its
    /// path; answer with `Event::Token`.
    ReadToken(TokenLocation),
    /// Make the request; answer with `Event::Reply`.
    Fetch(ApiRequest),
}

/// The mathematical value of an [`Action`].
pub enum ActionView {
    Exit,
    ReadLine,
    WriteToken(TokenWriteView),
    ReadToken(TokenLocationView),
    Fetch(RequestView),
}

impl View for Action {
    type V = ActionView;

    open spec fn view(&self) -> ActionView {
        match *self {
            Action::Exit => ActionView::Exit,
            Action::ReadLine => ActionView::ReadLine,
            Action::WriteToken(order) => ActionView::WriteToken(order@),
            Action::ReadToken(place) => ActionView::ReadToken(place@),
            Action::Fetch(request) => ActionView::Fetch(request@),
        }
    }
}

/// What came of the last action.
#[derive(Debug, PartialEq, Eq)]
pub enum Event {
    /// The line that was read.
    Line(String),
    /// No line could be read; the system's description.
    LineFailed(String),
    /// The token is written.
    Written,
    /// The token could not be written; the system's description.
    WriteFailed(String),
    /// What was found at the token's place.
    Token(TokenFile),
    /// What came back for the request.
    Reply(ApiReply),
}

/// The mathematical value of an [`Event`].
pub enum EventView {
    Line(Seq<char>),
    LineFailed(Seq<char>),
    Written,
    WriteFailed(Seq<char>),
    Token(TokenFileView),
    Reply(ReplyView),
}

impl View for Event {
    type V = EventView;

    open spec fn view(&self) -> EventView {
        match *self {
            Event::Line(line) => EventView::Line(line@),
            Event::LineFailed(why) => EventView::LineFailed(why@),
            Event::Written => EventView::Written,
            Event::WriteFailed(why) => EventView::WriteFailed(why@),
            Event::Token(found) => EventView::Token(found@),
            Event::Reply(reply) => EventView::Reply(reply@),
        }
    }
}

/// Where a run stands between two turns.
#[derive(Debug)]
pub enum Session {
    /// The run is over.
    Finished,
    /// `auth` waits for the line with the token.
    AwaitingInput { home: Option<String> },
    /// `auth` waits for the token to be written.
    AwaitingWrite,
    /// `labels` waits for the stored token.
    LabelsToken,
    /// `labels` waits for the labels.
    Labels { files: GmailFilesystem },
    /// `messages` waits for the stored token.
    MessagesToken { label: String },
    /// `messages` waits for the next reply of the listing.
    Messages { files: GmailFilesystem, label: String, listing: MessageListing },
    /// `read` waits for the stored token.
    ReadToken { label: String, message_id: String },
    /// `read` waits for the message.
    Read { files: GmailFilesystem, label: String, message_id: String },
}

/// The mathematical value of a [`Session`].
pub enum SessionView {
    Finished,
    AwaitingInput { home: Option<Seq<char>> },
    AwaitingWrite,
    LabelsToken,
    Labels { files: Seq<char> },
    MessagesToken { label: Seq<char> },
    Messages { files: Seq<char>, label: Seq<char>, listing: ListingView },
    ReadToken { label: Seq<char>, message_id: Seq<char> },
    Read { files: Seq<char>, label: Seq<char>, message_id: Seq<char> },
}

impl View for Session {
    type V = SessionView;

    open spec fn view(&self) -> SessionView {
        match *self {
            Session::Finished => SessionView::Finished,
            Session::AwaitingInput { home } => SessionView::AwaitingInput {
                home: home.deep_view(),
            },
            Session::AwaitingWrite => SessionView::AwaitingWrite,
            Session::LabelsToken => SessionView::LabelsToken,
            Session::Labels { files } => SessionView::Labels { files: files@ },
            Session::MessagesToken { label } => SessionView::MessagesToken { label: label@ },
            Session::Messages { files, label, listing } => SessionView::Messages {
                files: files@,
                label: label@,
                listing: listing@,
            },
            Session::ReadToken { label, message_id } => SessionView::ReadToken {
                label: label@,
                message_id: message_id@,
            },
            Session::Read { files, label, message_id } => SessionView::Read {
                files: files@,
                label: label@,
                message_id: message_id@,
            },
        }
    }
}

/// One turn of a run: the lines to print, then the thing to do, and where the run stands
/// while that is done.
#[derive(Debug)]
pub struct Turn {
    pub output: Vec<String>,
    pub action: Action,
    pub session: Session,
}

/// The mathematical value of a [`Turn`].
pub struct TurnView {
    pub output: Seq<Seq<char>>,
    pub action: ActionView,
    pub session: SessionView,
}

impl View for Turn {
    type V = TurnView;

    open spec fn view(&self) -> TurnView {
        TurnView { output: self.output.deep_view(), action: self.action@, session: self.session@ }
    }
}

/// The turn that prints `output` and ends the run.
pub open spec fn last_turn(output: Seq<Seq<char>>) -> TurnView {
    TurnView { output, action: ActionView::Exit, session: SessionView::Finished }
}

/// The turn that prints nothing and does `action`.
pub open spec fn silent_turn(action: ActionView, session: SessionView) -> TurnView {
    TurnView { output: Seq::empty(), action, session }
}

/// The first turn of a command that needs the stored token: after `notice` it looks for the
/// token, or, without a home directory, prints `failure` and ends.
pub open spec fn token_sought(
    notice: Seq<Seq<char>>,
    home: Option<Seq<char>>,
    waiting: SessionView,
    failure: Seq<Seq<char>>,
) -> TurnView {
    match home {
        Some(h) => TurnView {
            output: banner() + notice,
            action: ActionView::ReadToken(location_of(h)),
            session: waiting,
        },
        None => last_turn(banner() + notice + failure),
    }
}

/// The first turn of a run.
pub open spec fn started(command: Option<CommandView>, home: Option<Seq<char>>) -> TurnView {
    match command {
        None => last_turn(banner() + help_lines()),
        Some(CommandView::Auth) => TurnView {
            output: banner() + auth_prompt(),
            action: ActionView::ReadLine,
            session: SessionView::AwaitingInput { home },
        },
        Some(CommandView::Labels) => token_sought(
            labels_notice(),
            home,
            SessionView::LabelsToken,
            labels_failure(ErrorView::Environment),
        ),
        Some(CommandView::Messages { label }) => token_sought(
            messages_notice(label),
            home,
            SessionView::MessagesToken { label },
            messages_failure(label, ErrorView::Environment),
        ),
        Some(CommandView::Read { label, message_id }) => token_sought(
            read_notice(label, message_id),
            home,
            SessionView::ReadToken { label, message_id },
            read_failure(label, message_id, ErrorView::Environment),
        ),
    }
}

/// The turn of `auth` on the line that was read: a blank line ends the run with a notice
/// and nothing written; any other gives the token to write.
pub open spec fn input_taken(home: Option<Seq<char>>, line: Seq<char>) -> TurnView {
    match token_of_input(line) {
        None => last_turn(no_token_lines()),
        Some(token) => match home {
            Some(h) => silent_turn(
                ActionView::WriteToken(TokenWriteView { place: location_of(h), token }),
                SessionView::AwaitingWrite,
            ),
            None => last_turn(save_failure(ErrorView::Environment)),
        },
    }
}

/// The turn of `messages` on a step of its listing.
pub open spec fn listing_turn(
    files: Seq<char>,
    label: Seq<char>,
    step: ListingStepView,
) -> TurnView {
    match step {
        ListingStepView::Fetch { request, listing } => silent_turn(
            ActionView::Fetch(request),
            SessionView::Messages { files, label, listing },
        ),
        ListingStepView::Finished(Ok(messages)) => last_turn(messages_lines(label, messages)),
        ListingStepView::Finished(Err(error)) => last_turn(messages_failure(label, error)),
    }
}

/// The turn that follows when `event` comes in `session`. An event that the session does
/// not wait for ends the run without a word.
pub open spec fn stepped(session: SessionView, event: EventView) -> TurnView {
    match (session, event) {
        (SessionView::AwaitingInput { home }, EventView::Line(line)) => input_taken(home, line),
        (SessionView::AwaitingInput { .. }, EventView::LineFailed(why)) => last_turn(
            input_failure(why),
        ),
        (SessionView::AwaitingWrite, EventView::Written) => last_turn(saved_lines()),
        (SessionView::AwaitingWrite, EventView::WriteFailed(why)) => last_turn(
            save_failure(ErrorView::Io(why)),
        ),
        (SessionView::LabelsToken, EventView::Token(found)) => match loaded(found) {
            Ok(token) => silent_turn(
                ActionView::Fetch(labels_request_of(token)),
                SessionView::Labels { files: token },
            ),
            Err(error) => last_turn(labels_failure(error)),
        },
        (SessionView::Labels { .. }, EventView::Reply(reply)) => match labels_of(reply) {
            Ok(labels) => last_turn(labels_lines(labels)),
            Err(error) => last_turn(labels_failure(error)),
        },
        (SessionView::MessagesToken { label }, EventView::Token(found)) => match loaded(found) {
            Ok(token) => silent_turn(
                ActionView::Fetch(messages_request_of(token, label)),
                SessionView::Messages { files: token, label, listing: ListingView::Identifiers },
            ),
            Err(error) => last_turn(messages_failure(label, error)),
        },
        (SessionView::Messages { files, label, listing }, EventView::Reply(reply)) => listing_turn(
            files,
            label,
            listing_step(files, listing, reply),
        ),
        (SessionView::ReadToken { label, message_id }, EventView::Token(found)) => match loaded(
            found,
        ) {
            Ok(token) => silent_turn(
                ActionView::Fetch(message_request_of(token, message_id)),
                SessionView::Read { files: token, label, message_id },
            ),
            Err(error) => last_turn(read_failure(label, message_id, error)),
        },
        (SessionView::Read { label, message_id, .. }, EventView::Reply(reply)) => match content_in(
            reply,
        ) {
            Ok(text) => last_turn(seq![text]),
            Err(error) => last_turn(read_failure(label, message_id, error)),
        },
        _ => last_turn(Seq::empty()),
    }
}

fn finish(output: Vec<String>) -> (out: Turn)
    ensures
        out@ == last_turn(output.deep_view()),
{
    Turn { output, action: Action::Exit, session: Session::Finished }
}

fn proceed(action: Action, session: Session) -> (out: Turn)
    ensures
        out@ == silent_turn(action@, session@),
{
    Turn { output: no_lines(), action, session }
}

fn seek_token(
    notice: Vec<String>,
    home: Option<String>,
    waiting: Session,
    failure: Vec<String>,
) -> (out: Turn)
    ensures
        out@ == token_sought(notice.deep_view(), home.deep_view(), waiting@, failure.deep_view()),
{
    let mut output = render_banner();
    push_lines(&mut output, notice);
    let place = match &home {
        Some(h) => token_location(Some(h.as_str())),
        None => token_location(None),
    };
    match place {
        Ok(place) => Turn { output, action: Action::ReadToken(place), session: waiting },
        Err(_) => {
            push_lines(&mut output, failure);
            finish(output)
        },
    }
}

/// The first turn of a run: what `command` prints at once and what it needs first. Without
/// a command the run prints the help and ends. `home` is the user's home directory, if the
/// system names one.
pub fn start(command: Option<Command>, home: Option<String>) -> (out: Turn)
    ensures
        out@ == started(command.deep_view(), home.deep_view()),
{
    match command {
        None => {
            let mut output = render_banner();
            push_lines(&mut output, render_help());
            finish(output)
        },
        Some(Command::Auth) => {
            let mut output = render_banner();
            push_lines(&mut output, render_auth_prompt());
            Turn { output, action: Action::ReadLine, session: Session::AwaitingInput { home } }
        },
        Some(Command::Labels) => seek_token(
            render_labels_notice(),
            home,
            Session::LabelsToken,
            render_labels_failure(&Error::Environment),
        ),
        Some(Command::Messages { label }) => {
            let notice = render_messages_notice(label.as_str());
            let failure = render_messages_failure(label.as_str(), &Error::Environment);
            seek_token(notice, home, Session::MessagesToken { label }, failure)
        },
        Some(Command::Read { label, message_id }) => {
            let notice = render_read_notice(label.as_str(), message_id.as_str());
            let failure = render_read_failure(
                label.as_str(),
                message_id.as_str(),
                &Error::Environment,
            );
            seek_token(notice, home, Session::ReadToken { label, message_id }, failure)
        },
    }
}

fn take_input(home: Option<String>, line: String) -> (out: Turn)
    ensures
        out@ == input_taken(home.deep_view(), line@),
{
    match token_from_input(line.as_str()) {
        None => finish(render_no_token()),
        Some(token) => {
            let order = match &home {
                Some(h) => save_token(&token, Some(h.as_str())),
                None => save_token(&token, None),
            };
            match order {
                Ok(order) => proceed(Action::WriteToken(order), Session::AwaitingWrite),
                Err(error) => finish(render_save_failure(&error)),
            }
        },
    }
}

fn take_listing_step(files: GmailFilesystem, label: String, step: ListingStep) -> (out: Turn)
    ensures
        out@ == listing_turn(files@, label@, step@),
{
    match step {
        ListingStep::Fetch { request, listing } => proceed(
            Action::Fetch(request),
            Session::Messages { files, label, listing },
        ),
        ListingStep::Finished(Ok(messages)) => finish(render_messages(label.as_str(), &messages)),
        ListingStep::Finished(Err(error)) => finish(
            render_messages_failure(label.as_str(), &error),
        ),
    }
}

/// The next turn of a run: what to print and to do now that `event` has come of the last
/// action.
pub fn step(session: Session, event: Event) -> (out: Turn)
    ensures
        out@ == stepped(session@, event@),
{
    match (session, event) {
        (Session::AwaitingInput { home }, Event::Line(line)) => take_input(home, line),
        (Session::AwaitingInput { .. }, Event::LineFailed(why)) => finish(
            render_input_failure(why.as_str()),
        ),
        (Session::AwaitingWrite, Event::Written) => finish(render_saved()),
        (Session::AwaitingWrite, Event::WriteFailed(why)) => finish(
            render_save_failure(&Error::Io(why)),
        ),
        (Session::LabelsToken, Event::Token(found)) => match GmailClient::new(found) {
            Ok(client) => {
                let files = GmailFilesystem::new(client);
                let request = files.labels_request();
                proceed(Action::Fetch(request), Session::Labels { files })
            },
            Err(error) => finish(render_labels_failure(&error)),
        },
        (Session::Labels { files }, Event::Reply(reply)) => match files.list_labels(reply) {
            Ok(labels) => finish(render_labels(&labels)),
            Err(error) => finish(render_labels_failure(&error)),
        },
        (Session::MessagesToken { label }, Event::Token(found)) => match GmailClient::new(found) {
            Ok(client) => {
                let files = GmailFilesystem::new(client);
                let request = files.messages_request(label.as_str());
                proceed(
                    Action::Fetch(request),
                    Session::Messages { files, label, listing: MessageListing::Identifiers },
                )
            },
            Err(error) => finish(render_messages_failure(label.as_str(), &error)),
        },
        (Session::Messages { files, label, listing }, Event::Reply(reply)) => {
            let step = files.list_messages(listing, reply);
            take_listing_step(files, label, step)
        },
        (Session::ReadToken { label, message_id }, Event::Token(found)) => match GmailClient::new(
            found,
        ) {
            Ok(client) => {
                let files = GmailFilesystem::new(client);
                let request = files.message_request(message_id.as_str());
                proceed(Action::Fetch(request), Session::Read { files, label, message_id })
            },
            Err(error) => finish(
                render_read_failure(label.as_str(), message_id.as_str(), &error),
            ),
        },
        (Session::Read { files, label, message_id }, Event::Reply(reply)) => {
            match files.read_message(reply) {
                Ok(text) => {
                    let mut output = no_lines();
                    push_line(&mut output, text);
                    finish(output)
                },
                Err(error) => finish(
                    render_read_failure(label.as_str(), message_id.as_str(), &error),
                ),
            }
        },
        _ => finish(no_lines()),
    }
}

/// Whether a session waits for what an action brings: for a line after `ReadLine`, for the
/// outcome of the write after `WriteToken`, for the token file after `ReadToken`, for a reply
/// after `Fetch`, and for nothing after `Exit`.
pub open spec fn awaits(session: SessionView, action: ActionView) -> bool {
    match action {
        ActionView::Exit => session is Finished,
        ActionView::ReadLine => session is AwaitingInput,
        ActionView::WriteToken(_) => session is AwaitingWrite,
        ActionView::ReadToken(_) => session is LabelsToken || session is MessagesToken
            || session is ReadToken,
        ActionView::Fetch(_) => session is Labels || session is Messages || session is Read,
    }
}

/// In every turn, the first and the later ones, the session waits for what the action
/// brings. So a run that answers each action with its event never meets the turn that ends
/// a run without a word.
pub proof fn lemma_session_awaits_action(
    command: Option<CommandView>,
    home: Option<Seq<char>>,
    session: SessionView,
    event: EventView,
)
    ensures
        awaits(started(command, home).session, started(command, home).action),
        awaits(stepped(session, event).session, stepped(session, event).action),
{
}

/// A blank line in answer to the prompt of `auth` ends the run with the notice that no
/// token was given. Nothing is written.
pub proof fn lemma_blank_input_ends_run(home: Option<Seq<char>>, line: Seq<char>)
    requires
        is_blank(line),
    ensures
        stepped(SessionView::AwaitingInput { home }, EventView::Line(line)) == last_turn(
            no_token_lines(),
        ),
{
    lemma_trimmed_empty(line);
}

/// No run starts by writing a token.
pub proof fn lemma_start_writes_nothing(command: Option<CommandView>, home: Option<Seq<char>>)
    ensures
        !(started(command, home).action is WriteToken),
{
}

/// A token is written in one turn only: that of `auth` on a line that is not blank. What
/// is written is that line without the white space around it, so never the empty text,
/// and it goes to the token's place under the home directory.
pub proof fn lemma_only_input_is_written(session: SessionView, event: EventView)
    ensures
        stepped(session, event).action matches ActionView::WriteToken(order) ==> {
            &&& session matches SessionView::AwaitingInput { home: Some(h) }
            &&& event matches EventView::Line(line)
            &&& !is_blank(line)
            &&& order.token == trimmed(line)
            &&& order.token.len() > 0
            &&& order.place == location_of(h)
        },
{
    match event {
        EventView::Line(line) => lemma_trimmed_empty(line),
        _ => {},
    }
}

/// Without a token file, a command that needs the token ends with its failure lines for
/// the error that nobody has authenticated yet, and makes no request.
pub proof fn lemma_missing_token_ends_run(session: SessionView)
    ensures
        session is LabelsToken ==> stepped(session, EventView::Token(TokenFileView::Missing))
            == last_turn(labels_failure(ErrorView::NotAuthenticated)),
        session matches SessionView::MessagesToken { label } ==> stepped(
            session,
            EventView::Token(TokenFileView::Missing),
        ) == last_turn(messages_failure(label, ErrorView::NotAuthenticated)),
        session matches SessionView::ReadToken { label, message_id } ==> stepped(
            session,
            EventView::Token(TokenFileView::Missing),
        ) == last_turn(read_failure(label, message_id, ErrorView::NotAuthenticated)),
{
}

/// Wherever `read` fails, without a home directory, without a stored token or on the reply,
/// the run ends with the failure lines of `read` and prints no content. Whatever the error,
/// the hint among these lines names the message and the label.
pub proof fn lemma_failed_read_names_message_and_label(
    files: Seq<char>,
    label: Seq<char>,
    message_id: Seq<char>,
    found: TokenFileView,
    reply: ReplyView,
)
    ensures
        started(Some(CommandView::Read { label, message_id }), None) == last_turn(
            banner() + read_notice(label, message_id) + read_failure(
                label,
                message_id,
                ErrorView::Environment,
            ),
        ),
        loaded(found) matches Err(error) ==> stepped(
            SessionView::ReadToken { label, message_id },
            EventView::Token(found),
        ) == last_turn(read_failure(label, message_id, error)),
        content_in(reply) matches Err(error) ==> stepped(
            SessionView::Read { files, label, message_id },
            EventView::Reply(reply),
        ) == last_turn(read_failure(label, message_id, error)),
        forall|error: ErrorView|
            {
                let lines = #[trigger] read_failure(label, message_id, error);
                &&& lines.len() == 2
                &&& contains(lines[1], message_id)
                &&& contains(lines[1], label)
            },
{
    assert forall|error: ErrorView|
        {
            let lines = #[trigger] read_failure(label, message_id, error);
            &&& lines.len() == 2
            &&& contains(lines[1], message_id)
            &&& contains(lines[1], label)
        } by {
        lemma_read_failure_names_both(label, message_id, error);
    }
}

/// With a token in its file, a command that needs the token goes on to its first request,
/// which presents that token.
pub proof fn lemma_stored_token_is_presented(session: SessionView, token: Seq<char>)
    requires
        session is LabelsToken || session is MessagesToken || session is ReadToken,
    ensures
        stepped(session, EventView::Token(TokenFileView::Present(token))).action
            matches ActionView::Fetch(request) && request.bearer == token,
{
}

/// What `auth` stores is what the other commands present. Where the token file is found to
/// hold what `auth` ordered written for a line of input, the first request of a command
/// that needs the token carries that line without the white space around it.
pub proof fn lemma_stored_input_is_presented(
    home: Seq<char>,
    line: Seq<char>,
    session: SessionView,
)
    requires
        !is_blank(line),
        session is LabelsToken || session is MessagesToken || session is ReadToken,
    ensures
        stepped(SessionView::AwaitingInput { home: Some(home) }, EventView::Line(line)).action
            matches ActionView::WriteToken(order) && stepped(
            session,
            EventView::Token(TokenFileView::Present(order.token)),
        ).action matches ActionView::Fetch(request) && request.bearer == trimmed(line),
{
    lemma_trimmed_empty(line);
}

/// For a label without messages the run prints the notice that there are none, and
/// nothing else: no heading with an empty list under it.
pub proof fn lemma_empty_label_prints_notice(
    files: Seq<char>,
    label: Seq<char>,
    reply: ReplyView,
)
    requires
        message_ids_of(reply) == Ok::<Seq<Seq<char>>, ErrorView>(Seq::empty()),
    ensures
        stepped(
            SessionView::Messages { files, label, listing: ListingView::Identifiers },
            EventView::Reply(reply),
        ) == last_turn(seq!["No messages found in '"@ + label + "'"@]),
{
}

/// A run that has ended stays ended, whatever comes.
pub proof fn lemma_finished_stays_finished(event: EventView)
    ensures
        stepped(SessionView::Finished, event) == last_turn(Seq::empty()),
{
}

} // verus!
