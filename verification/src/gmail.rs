//! The provider's interface, without the transport: which requests the client makes, and
//! what it makes of the replies.

use crate::auth::{load_token, loaded, StoredToken, TokenFile};
use crate::base64url;
use crate::error::{is_success, result_view, Error, ErrorView};
use crate::percent;
use crate::text::chars_of;
use vstd::prelude::*;

verus! {

/// A label of the mailbox, shown as a directory.
#[derive(Debug, PartialEq, Eq)]
pub struct Label {
    pub id: String,
    pub name: String,
}

/// The mathematical value of a [`Label`].
pub struct LabelView {
    pub id: Seq<char>,
    pub name: Seq<char>,
}

impl DeepView for Label {
    type V = LabelView;

    open spec fn deep_view(&self) -> LabelView {
        LabelView { id: self.id@, name: self.name@ }
    }
}

impl View for Label {
    type V = LabelView;

    open spec fn view(&self) -> LabelView {
        self.deep_view()
    }
}

/// What a listing shows of one message.
#[derive(Debug, PartialEq, Eq)]
pub struct Message {
    pub id: String,
    pub subject: String,
    pub from: String,
    pub snippet: String,
}

/// The mathematical value of a [`Message`].
pub struct MessageView {
    pub id: Seq<char>,
    pub subject: Seq<char>,
    pub from: Seq<char>,
    pub snippet: Seq<char>,
}

impl DeepView for Message {
    type V = MessageView;

    open spec fn deep_view(&self) -> MessageView {
        MessageView {
            id: self.id@,
            subject: self.subject@,
            from: self.from@,
            snippet: self.snippet@,
        }
    }
}

impl View for Message {
    type V = MessageView;

    open spec fn view(&self) -> MessageView {
        self.deep_view()
    }
}

/// One header line of a message part.
#[derive(Debug, PartialEq, Eq)]
pub struct Header {
    pub name: String,
    pub value: String,
}

/// The mathematical value of a [`Header`].
pub struct HeaderView {
    pub name: Seq<char>,
    pub value: Seq<char>,
}

impl DeepView for Header {
    type V = HeaderView;

    open spec fn deep_view(&self) -> HeaderView {
        HeaderView { name: self.name@, value: self.value@ }
    }
}

/// A part of a message as the provider delivers it: its type, its headers, its body in
/// URL-safe base64 if it has one, and the parts that it is made of.
#[derive(Debug, PartialEq, Eq)]
pub struct MessagePart {
    pub mime_type: String,
    pub headers: Vec<Header>,
    pub data: Option<String>,
    pub parts: Vec<MessagePart>,
}

/// The mathematical value of a [`MessagePart`].
pub struct PartView {
    pub mime_type: Seq<char>,
    pub headers: Seq<HeaderView>,
    pub data: Option<Seq<char>>,
    pub parts: Seq<PartView>,
}

/// The mathematical value of a part: that of its fields, and of its parts in their order.
pub open spec fn part_view(part: MessagePart) -> PartView
    decreases part,
{
    PartView {
        mime_type: part.mime_type@,
        headers: part.headers.deep_view(),
        data: part.data.deep_view(),
        parts: Seq::new(
            part.parts@.len(),
            |i: int|
                if 0 <= i < part.parts@.len() {
                    part_view(part.parts@[i])
                } else {
                    arbitrary()
                },
        ),
    }
}

impl DeepView for MessagePart {
    type V = PartView;

    open spec fn deep_view(&self) -> PartView {
        part_view(*self)
    }
}

/// A message as the provider delivers it.
#[derive(Debug, PartialEq, Eq)]
pub struct MessageResource {
    pub id: String,
    pub snippet: String,
    pub payload: MessagePart,
}

/// The mathematical value of a [`MessageResource`].
pub struct ResourceView {
    pub id: Seq<char>,
    pub snippet: Seq<char>,
    pub payload: PartView,
}

impl DeepView for MessageResource {
    type V = ResourceView;

    open spec fn deep_view(&self) -> ResourceView {
        ResourceView { id: self.id@, snippet: self.snippet@, payload: self.payload.deep_view() }
    }
}

/// What the body of an answer holds, once it is read as JSON.
#[derive(Debug, PartialEq, Eq)]
pub enum Payload {
    /// Not JSON of the shape that was asked for.
    Invalid,
    /// The labels, in the provider's order.
    Labels(Vec<Label>),
    /// The identifiers of the messages under a label, in the provider's order.
    MessageIds(Vec<String>),
    /// One message.
    Message(MessageResource),
}

/// The mathematical value of a [`Payload`].
pub enum PayloadView {
    Invalid,
    Labels(Seq<LabelView>),
    MessageIds(Seq<Seq<char>>),
    Message(ResourceView),
}

impl DeepView for Payload {
    type V = PayloadView;

    open spec fn deep_view(&self) -> PayloadView {
        match *self {
            Payload::Invalid => PayloadView::Invalid,
            Payload::Labels(labels) => PayloadView::Labels(labels.deep_view()),
            Payload::MessageIds(ids) => PayloadView::MessageIds(ids.deep_view()),
            Payload::Message(resource) => PayloadView::Message(resource.deep_view()),
        }
    }
}

/// What came back for a request.
#[derive(Debug, PartialEq, Eq)]
pub enum ApiReply {
    /// No answer came; the transport's description.
    Unreachable(String),
    /// The provider answered.
    Answered { status: u16, body: String, payload: Payload },
}

/// The mathematical value of an [`ApiReply`].
pub enum ReplyView {
    Unreachable(Seq<char>),
    Answered { status: u16, body: Seq<char>, payload: PayloadView },
}

impl View for ApiReply {
    type V = ReplyView;

    open spec fn view(&self) -> ReplyView {
        match *self {
            ApiReply::Unreachable(why) => ReplyView::Unreachable(why@),
            ApiReply::Answered { status, body, payload } => ReplyView::Answered {
                status,
                body: body@,
                payload: payload.deep_view(),
            },
        }
    }
}

/// The shape of the JSON that a request asks for.
#[derive(Debug, Clone, Copy, PartialEq, Eq, Structural)]
pub enum Expect {
    Labels,
    MessageIds,
    Message,
}

/// A request to the provider: a `GET` of `url` that presents `bearer` as the bearer token
/// and whose answer is read as `expects` says.
#[derive(Debug, PartialEq, Eq)]
pub struct ApiRequest {
    pub url: String,
    pub bearer: String,
    pub expects: Expect,
}

/// The mathematical value of an [`ApiRequest`].
pub struct RequestView {
    pub url: Seq<char>,
    pub bearer: Seq<char>,
    pub expects: Expect,
}

impl View for ApiRequest {
    type V = RequestView;

    open spec fn view(&self) -> RequestView {
        RequestView { url: self.url@, bearer: self.bearer@, expects: self.expects }
    }
}

/// The value of the `Authorization` header that presents a bearer token.
pub open spec fn authorization_of(bearer: Seq<char>) -> Seq<char> {
    "Bearer "@ + bearer
}

impl ApiRequest {
    /// The value of the `Authorization` header with which the request presents its token:
    /// the word `Bearer`, a space, and the token.
    pub fn authorization(&self) -> (out: String)
        ensures
            out@ == authorization_of(self@.bearer),
    {
        let mut out = String::from_str("Bearer ");
        out.append(self.bearer.as_str());
        out
    }
}

/// The address under which the provider serves the mailbox of the token's owner.
pub open spec fn api_root() -> Seq<char> {
    "https://gmail.googleapis.com/gmail/v1/users/me"@
}

/// The request for the labels.
pub open spec fn labels_request_of(token: Seq<char>) -> RequestView {
    RequestView { url: api_root() + "/labels"@, bearer: token, expects: Expect::Labels }
}

/// The request for the identifiers of the messages under a label.
pub open spec fn messages_request_of(token: Seq<char>, label_id: Seq<char>) -> RequestView {
    RequestView {
        url: api_root() + "/messages?labelIds="@ + percent::encoded(label_id),
        bearer: token,
        expects: Expect::MessageIds,
    }
}

/// The request for what a listing shows of one message.
pub open spec fn summary_request_of(token: Seq<char>, message_id: Seq<char>) -> RequestView {
    RequestView {
        url: api_root() + "/messages/"@ + percent::encoded(message_id)
            + "?format=metadata&metadataHeaders=Subject&metadataHeaders=From"@,
        bearer: token,
        expects: Expect::Message,
    }
}

/// The request for one message with its body.
pub open spec fn message_request_of(token: Seq<char>, message_id: Seq<char>) -> RequestView {
    RequestView {
        url: api_root() + "/messages/"@ + percent::encoded(message_id) + "?format=full"@,
        bearer: token,
        expects: Expect::Message,
    }
}

/// The error for an answer that reports success and does not hold what was asked for: its
/// body is not JSON of the expected shape, or its content cannot be read. The error holds the
/// status and the body.
pub open spec fn unexpected(status: u16, body: Seq<char>) -> ErrorView {
    ErrorView::Api { status: Some(status), detail: body }
}

/// The answer in a reply: its status, body and payload. There is none, and an error in its
/// place, where no answer came and where the answer's status does not report success. The
/// error holds the status and the body.
pub open spec fn answered(reply: ReplyView) -> Result<(u16, Seq<char>, PayloadView), ErrorView> {
    match reply {
        ReplyView::Unreachable(why) => Err(ErrorView::Api { status: None, detail: why }),
        ReplyView::Answered { status, body, payload } => if is_success(status) {
            Ok((status, body, payload))
        } else {
            Err(ErrorView::Api { status: Some(status), detail: body })
        },
    }
}

/// The labels in a reply, in the provider's order.
pub open spec fn labels_of(reply: ReplyView) -> Result<Seq<LabelView>, ErrorView> {
    match answered(reply) {
        Ok((status, body, payload)) => match payload {
            PayloadView::Labels(labels) => Ok(labels),
            _ => Err(unexpected(status, body)),
        },
        Err(error) => Err(error),
    }
}

/// The message identifiers in a reply, in the provider's order.
pub open spec fn message_ids_of(reply: ReplyView) -> Result<Seq<Seq<char>>, ErrorView> {
    match answered(reply) {
        Ok((status, body, payload)) => match payload {
            PayloadView::MessageIds(ids) => Ok(ids),
            _ => Err(unexpected(status, body)),
        },
        Err(error) => Err(error),
    }
}

/// A character of a header's name with the case of ASCII letters set aside.
pub open spec fn folded(c: char) -> char {
    if 'A' <= c <= 'Z' {
        ((c as u8) + 32) as u8 as char
    } else {
        c
    }
}

/// Whether two header names are the same but for the case of ASCII letters.
pub open spec fn same_name(a: Seq<char>, b: Seq<char>) -> bool {
    &&& a.len() == b.len()
    &&& forall|i: int| 0 <= i < a.len() ==> folded(#[trigger] a[i]) == folded(b[i])
}

/// The value of the first header called `name`.
pub open spec fn header_value(headers: Seq<HeaderView>, name: Seq<char>) -> Option<Seq<char>>
    decreases headers.len(),
{
    if headers.len() == 0 {
        None
    } else if same_name(headers[0].name, name) {
        Some(headers[0].value)
    } else {
        header_value(headers.drop_first(), name)
    }
}

/// The value of the first header called `name`, and the empty text where there is none.
pub open spec fn header_text(headers: Seq<HeaderView>, name: Seq<char>) -> Seq<char> {
    match header_value(headers, name) {
        Some(value) => value,
        None => Seq::empty(),
    }
}

/// What a listing shows of a message: its identifier, its `Subject` and `From` headers and
/// the provider's snippet.
pub open spec fn summary_of(resource: ResourceView) -> MessageView {
    MessageView {
        id: resource.id,
        subject: header_text(resource.payload.headers, "Subject"@),
        from: header_text(resource.payload.headers, "From"@),
        snippet: resource.snippet,
    }
}

/// What a listing shows of the message in a reply.
pub open spec fn summary_in(reply: ReplyView) -> Result<MessageView, ErrorView> {
    match answered(reply) {
        Ok((status, body, payload)) => match payload {
            PayloadView::Message(resource) => Ok(summary_of(resource)),
            _ => Err(unexpected(status, body)),
        },
        Err(error) => Err(error),
    }
}

/// Whether a part offers a body: it carries data and, where only plain text is wanted, is
/// of the type `text/plain`.
pub open spec fn offers_body(part: PartView, plain_only: bool) -> bool {
    part.data is Some && (plain_only ==> part.mime_type == "text/plain"@)
}

/// The encoded body of the first part that offers one, the part itself coming before the
/// parts it is made of, and those in their order.
pub open spec fn first_body(part: PartView, plain_only: bool) -> Option<Seq<char>>
    decreases part, 1int,
{
    if offers_body(part, plain_only) {
        part.data
    } else {
        first_body_among(part.parts, plain_only)
    }
}

/// The encoded body of the first of `parts` that has one to show.
pub open spec fn first_body_among(parts: Seq<PartView>, plain_only: bool) -> Option<Seq<char>>
    decreases parts, 0int,
{
    if parts.len() == 0 {
        None
    } else {
        match first_body(parts[0], plain_only) {
            Some(data) => Some(data),
            None => first_body_among(parts.drop_first(), plain_only),
        }
    }
}

/// The encoded body to show for a message: that of its first plain-text part, else that of
/// its first part with any body.
pub open spec fn body_of(part: PartView) -> Option<Seq<char>> {
    match first_body(part, true) {
        Some(data) => Some(data),
        None => first_body(part, false),
    }
}

/// The text to show for a message: its body decoded, the empty text where it has no body,
/// and none where the body does not decode.
pub open spec fn text_of(part: PartView) -> Option<Seq<char>> {
    match body_of(part) {
        Some(data) => base64url::decoded_text(data),
        None => Some(Seq::empty()),
    }
}

/// The text of the message in a reply.
pub open spec fn content_in(reply: ReplyView) -> Result<Seq<char>, ErrorView> {
    match answered(reply) {
        Ok((status, body, payload)) => match payload {
            PayloadView::Message(resource) => match text_of(resource.payload) {
                Some(text) => Ok(text),
                None => Err(unexpected(status, body)),
            },
            _ => Err(unexpected(status, body)),
        },
        Err(error) => Err(error),
    }
}

/// An answer whose status does not report success is an error that holds the status and
/// the body, whatever was asked for and whatever the payload: so it is for a label or a
/// message that the provider does not have.
pub proof fn lemma_refusal_is_passed_on(status: u16, body: Seq<char>, payload: PayloadView)
    requires
        !is_success(status),
    ensures
        ({
            let reply = ReplyView::Answered { status, body, payload };
            let error = ErrorView::Api { status: Some(status), detail: body };
            &&& labels_of(reply) == Err::<Seq<LabelView>, ErrorView>(error)
            &&& message_ids_of(reply) == Err::<Seq<Seq<char>>, ErrorView>(error)
            &&& summary_in(reply) == Err::<MessageView, ErrorView>(error)
            &&& content_in(reply) == Err::<Seq<char>, ErrorView>(error)
        }),
{
}

fn fold(c: char) -> (out: char)
    ensures
        out == folded(c),
{
    if 'A' <= c && c <= 'Z' {
        ((c as u8) + 32) as char
    } else {
        c
    }
}

fn names_match(a: &str, b: &str) -> (yes: bool)
    ensures
        yes == same_name(a@, b@),
{
    let left = chars_of(a);
    let right = chars_of(b);
    if left.len() != right.len() {
        return false;
    }
    let mut i: usize = 0;
    while i < left.len()
        invariant
            i <= left.len(),
            left.len() == right.len(),
            left@ == a@,
            right@ == b@,
            forall|k: int| 0 <= k < i ==> folded(#[trigger] left@[k]) == folded(right@[k]),
        decreases left.len() - i,
    {
        if fold(left[i]) != fold(right[i]) {
            return false;
        }
        i += 1;
    }
    true
}

fn find_header(headers: &Vec<Header>, name: &str) -> (out: String)
    ensures
        out@ == header_text(headers.deep_view(), name@),
{
    let mut i: usize = 0;
    assert(headers.deep_view().skip(0) =~= headers.deep_view());
    while i < headers.len()
        invariant
            i <= headers.len(),
            header_value(headers.deep_view(), name@) == header_value(
                headers.deep_view().skip(i as int),
                name@,
            ),
        decreases headers.len() - i,
    {
        if names_match(headers[i].name.as_str(), name) {
            return headers[i].value.clone();
        }
        assert(headers.deep_view().skip(i as int).drop_first() =~= headers.deep_view().skip(
            i + 1,
        ));
        i += 1;
    }
    String::new()
}

fn summarize(resource: MessageResource) -> (out: Message)
    ensures
        out@ == summary_of(resource.deep_view()),
{
    let subject = find_header(&resource.payload.headers, "Subject");
    let from = find_header(&resource.payload.headers, "From");
    Message { id: resource.id, subject, from, snippet: resource.snippet }
}

fn find_body(part: &MessagePart, plain_only: bool) -> (out: Option<String>)
    ensures
        out.deep_view() == first_body(part.deep_view(), plain_only),
    decreases part,
{
    let ghost view = part.deep_view();
    if part.data.is_some() && (!plain_only || part.mime_type == String::from_str("text/plain")) {
        return part.data.clone();
    }
    let mut i: usize = 0;
    assert(view.parts.skip(0) =~= view.parts);
    while i < part.parts.len()
        invariant
            i <= part.parts.len(),
            view == part.deep_view(),
            view.parts.len() == part.parts@.len(),
            !offers_body(view, plain_only),
            first_body_among(view.parts, plain_only) == first_body_among(
                view.parts.skip(i as int),
                plain_only,
            ),
        decreases part.parts.len() - i,
    {
        let found = find_body(&part.parts[i], plain_only);
        if found.is_some() {
            return found;
        }
        assert(view.parts.skip(i as int).drop_first() =~= view.parts.skip(i + 1));
        i += 1;
    }
    None
}

fn read_text(part: &MessagePart) -> (out: Option<String>)
    ensures
        out.deep_view() == text_of(part.deep_view()),
{
    let body = match find_body(part, true) {
        Some(data) => Some(data),
        None => find_body(part, false),
    };
    match body {
        Some(data) => base64url::decode_text(data.as_str()),
        None => Some(String::new()),
    }
}

fn accept(reply: ApiReply) -> (out: Result<(u16, String, Payload), Error>)
    ensures
        match out {
            Ok(answer) => answered(reply@) == Ok::<_, ErrorView>(
                (answer.0, answer.1@, answer.2.deep_view()),
            ),
            Err(error) => answered(reply@) == Err::<(u16, Seq<char>, PayloadView), _>(error@),
        },
{
    match reply {
        ApiReply::Unreachable(why) => Err(Error::Api { status: None, detail: why }),
        ApiReply::Answered { status, body, payload } => {
            if 200 <= status && status < 300 {
                Ok((status, body, payload))
            } else {
                Err(Error::Api { status: Some(status), detail: body })
            }
        },
    }
}

/// How far the listing of a label's messages has come.
#[derive(Debug, PartialEq, Eq)]
pub enum MessageListing {
    /// The identifiers were asked for.
    Identifiers,
    /// The messages are asked for one by one, in the order of `ids`; `messages` holds what
    /// came so far.
    Summaries { ids: Vec<String>, messages: Vec<Message> },
}

/// The mathematical value of a [`MessageListing`].
pub enum ListingView {
    Identifiers,
    Summaries { ids: Seq<Seq<char>>, messages: Seq<MessageView> },
}

impl View for MessageListing {
    type V = ListingView;

    open spec fn view(&self) -> ListingView {
        match *self {
            MessageListing::Identifiers => ListingView::Identifiers,
            MessageListing::Summaries { ids, messages } => ListingView::Summaries {
                ids: ids.deep_view(),
                messages: messages.deep_view(),
            },
        }
    }
}

/// What a listing does next.
#[derive(Debug, PartialEq, Eq)]
pub enum ListingStep {
    /// Make `request` and come back with its reply and `listing`.
    Fetch { request: ApiRequest, listing: MessageListing },
    /// The listing has ended, with the messages or with the first failure.
    Finished(Result<Vec<Message>, Error>),
}

/// The mathematical value of a [`ListingStep`].
pub enum ListingStepView {
    Fetch { request: RequestView, listing: ListingView },
    Finished(Result<Seq<MessageView>, ErrorView>),
}

impl View for ListingStep {
    type V = ListingStepView;

    open spec fn view(&self) -> ListingStepView {
        match *self {
            ListingStep::Fetch { request, listing } => ListingStepView::Fetch {
                request: request@,
                listing: listing@,
            },
            ListingStep::Finished(result) => ListingStepView::Finished(result_view(result)),
        }
    }
}

/// What a listing does once `messages` have come for the first of `ids`: it asks for the
/// next message, or ends where none is left.
pub open spec fn listing_after(
    token: Seq<char>,
    ids: Seq<Seq<char>>,
    messages: Seq<MessageView>,
) -> ListingStepView {
    if messages.len() >= ids.len() {
        ListingStepView::Finished(Ok(messages))
    } else {
        ListingStepView::Fetch {
            request: summary_request_of(token, ids[messages.len() as int]),
            listing: ListingView::Summaries { ids, messages },
        }
    }
}

/// What a listing does with the reply to its last request. The first failure ends it.
pub open spec fn listing_step(
    token: Seq<char>,
    listing: ListingView,
    reply: ReplyView,
) -> ListingStepView {
    match listing {
        ListingView::Identifiers => match message_ids_of(reply) {
            Ok(ids) => listing_after(token, ids, Seq::empty()),
            Err(error) => ListingStepView::Finished(Err(error)),
        },
        ListingView::Summaries { ids, messages } => match summary_in(reply) {
            Ok(message) => listing_after(token, ids, messages.push(message)),
            Err(error) => ListingStepView::Finished(Err(error)),
        },
    }
}

/// Where a listing stands after `replies` have come one by one: each reply goes to the
/// listing as it then stands, until the replies or the listing end.
pub open spec fn listing_run(
    token: Seq<char>,
    step: ListingStepView,
    replies: Seq<ReplyView>,
) -> ListingStepView
    decreases replies.len(),
{
    if replies.len() > 0 && step is Fetch {
        listing_run(token, listing_step(token, step->listing, replies[0]), replies.drop_first())
    } else {
        step
    }
}

/// What a listing shows of the messages in `replies`, in their order.
pub open spec fn summaries_in(replies: Seq<ReplyView>) -> Seq<MessageView> {
    replies.map_values(|reply: ReplyView| summary_in(reply)->Ok_0)
}

/// A listing that has `messages` for the first of `ids` and gets a message in reply for
/// each of the others ends with all of them, in the order of `ids`.
pub proof fn lemma_listing_continues(
    token: Seq<char>,
    ids: Seq<Seq<char>>,
    messages: Seq<MessageView>,
    replies: Seq<ReplyView>,
)
    requires
        messages.len() + replies.len() == ids.len(),
        forall|k: int| 0 <= k < replies.len() ==> summary_in(#[trigger] replies[k]) is Ok,
    ensures
        listing_run(token, listing_after(token, ids, messages), replies)
            == ListingStepView::Finished(Ok(messages + summaries_in(replies))),
    decreases replies.len(),
{
    if replies.len() > 0 {
        let first = summary_in(replies[0])->Ok_0;
        let rest = replies.drop_first();
        lemma_listing_continues(token, ids, messages.push(first), rest);
        assert(messages.push(first) + summaries_in(rest) =~= messages + summaries_in(replies));
    }
}

/// A whole listing. Where the first reply holds the identifiers and each of the next
/// holds a message, one for each identifier, the listing ends with what it shows of these
/// messages, in the provider's order. For a label without messages that is the empty list.
pub proof fn lemma_listing_in_order(token: Seq<char>, first: ReplyView, replies: Seq<ReplyView>)
    requires
        message_ids_of(first) matches Ok(ids) && ids.len() == replies.len(),
        forall|k: int| 0 <= k < replies.len() ==> summary_in(#[trigger] replies[k]) is Ok,
    ensures
        listing_run(token, listing_step(token, ListingView::Identifiers, first), replies)
            == ListingStepView::Finished(Ok(summaries_in(replies))),
{
    let ids = message_ids_of(first)->Ok_0;
    lemma_listing_continues(token, ids, Seq::empty(), replies);
}

/// Every reply for a message ends the listing or leaves it with one message more, and
/// still fewer than identifiers: a listing ends after at most as many replies as there are
/// identifiers.
pub proof fn lemma_listing_advances(
    token: Seq<char>,
    ids: Seq<Seq<char>>,
    messages: Seq<MessageView>,
    reply: ReplyView,
)
    ensures
        match listing_step(token, ListingView::Summaries { ids, messages }, reply) {
            ListingStepView::Fetch {
                listing: ListingView::Summaries { ids: left, messages: got },
                ..
            } => {
                &&& left == ids
                &&& got.len() == messages.len() + 1
                &&& got.len() < ids.len()
            },
            ListingStepView::Fetch { listing: ListingView::Identifiers, .. } => false,
            ListingStepView::Finished(_) => true,
        },
{
}

/// While a listing goes on, its next request is for the first message that has not come.
pub proof fn lemma_listing_asks_in_order(
    token: Seq<char>,
    ids: Seq<Seq<char>>,
    messages: Seq<MessageView>,
)
    requires
        messages.len() < ids.len(),
    ensures
        listing_after(token, ids, messages) matches ListingStepView::Fetch { request, .. }
            && request == summary_request_of(token, ids[messages.len() as int]),
{
}

/// The client of the provider's interface. It holds the token and makes no call itself:
/// it says which request to make and reads the reply. Its view is the token's text.
#[derive(Debug)]
pub struct GmailClient {
    token: StoredToken,
}

impl View for GmailClient {
    type V = Seq<char>;

    closed spec fn view(&self) -> Seq<char> {
        self.token@
    }
}

impl GmailClient {
    /// Makes a client from what was found at the token's place. Without a stored token
    /// there is no client.
    pub fn new(found: TokenFile) -> (out: Result<GmailClient, Error>)
        ensures
            match out {
                Ok(client) => loaded(found@) == Ok::<_, ErrorView>(client@),
                Err(error) => loaded(found@) == Err::<Seq<char>, _>(error@),
            },
    {
        match load_token(found) {
            Ok(token) => Ok(GmailClient { token }),
            Err(error) => Err(error),
        }
    }

    fn root() -> (out: String)
        ensures
            out@ == api_root(),
    {
        String::from_str("https://gmail.googleapis.com/gmail/v1/users/me")
    }

    fn request(&self, url: String, expects: Expect) -> (out: ApiRequest)
        ensures
            out@ == (RequestView { url: url@, bearer: self@, expects }),
    {
        ApiRequest { url, bearer: self.token.access_token.clone(), expects }
    }

    /// The request for the labels.
    pub fn labels_request(&self) -> (out: ApiRequest)
        ensures
            out@ == labels_request_of(self@),
    {
        let mut url = Self::root();
        url.append("/labels");
        self.request(url, Expect::Labels)
    }

    /// Reads the labels from the reply to `labels_request`, in the provider's order.
    pub fn list_labels(&self, reply: ApiReply) -> (out: Result<Vec<Label>, Error>)
        ensures
            result_view(out) == labels_of(reply@),
    {
        match accept(reply) {
            Ok((status, body, payload)) => match payload {
                Payload::Labels(labels) => Ok(labels),
                _ => Err(Error::Api { status: Some(status), detail: body }),
            },
            Err(error) => Err(error),
        }
    }

    /// The request for the identifiers of the messages under a label: the first request
    /// of a listing, which then stands at `MessageListing::Identifiers`.
    pub fn messages_request(&self, label_id: &str) -> (out: ApiRequest)
        ensures
            out@ == messages_request_of(self@, label_id@),
    {
        let mut url = Self::root();
        url.append("/messages?labelIds=");
        url.append(percent::encode(label_id).as_str());
        self.request(url, Expect::MessageIds)
    }

    fn summary_request(&self, message_id: &str) -> (out: ApiRequest)
        ensures
            out@ == summary_request_of(self@, message_id@),
    {
        let mut url = Self::root();
        url.append("/messages/");
        url.append(percent::encode(message_id).as_str());
        url.append("?format=metadata&metadataHeaders=Subject&metadataHeaders=From");
        self.request(url, Expect::Message)
    }

    fn proceed(&self, ids: Vec<String>, messages: Vec<Message>) -> (out: ListingStep)
        ensures
            out@ == listing_after(self@, ids.deep_view(), messages.deep_view()),
    {
        if messages.len() >= ids.len() {
            ListingStep::Finished(Ok(messages))
        } else {
            let request = self.summary_request(ids[messages.len()].as_str());
            ListingStep::Fetch { request, listing: MessageListing::Summaries { ids, messages } }
        }
    }

    /// Takes a listing one step on with the reply to its last request: it asks for the
    /// next message, or ends with the messages in the provider's order, or with the first
    /// failure. A label without messages gives the empty list.
    pub fn list_messages(&self, listing: MessageListing, reply: ApiReply) -> (out: ListingStep)
        ensures
            out@ == listing_step(self@, listing@, reply@),
    {
        match accept(reply) {
            Ok((status, body, payload)) => match (listing, payload) {
                (MessageListing::Identifiers, Payload::MessageIds(ids)) => {
                    let messages: Vec<Message> = Vec::new();
                    assert(messages.deep_view() =~= Seq::empty());
                    self.proceed(ids, messages)
                },
                (MessageListing::Summaries { ids, messages }, Payload::Message(resource)) => {
                    let ghost before = messages.deep_view();
                    let mut messages = messages;
                    let message = summarize(resource);
                    let ghost added = message@;
                    messages.push(message);
                    assert(messages.deep_view() =~= before.push(added));
                    self.proceed(ids, messages)
                },
                _ => ListingStep::Finished(Err(Error::Api { status: Some(status), detail: body })),
            },
            Err(error) => ListingStep::Finished(Err(error)),
        }
    }

    /// The request for one message with its body.
    pub fn message_request(&self, message_id: &str) -> (out: ApiRequest)
        ensures
            out@ == message_request_of(self@, message_id@),
    {
        let mut url = Self::root();
        url.append("/messages/");
        url.append(percent::encode(message_id).as_str());
        url.append("?format=full");
        self.request(url, Expect::Message)
    }

    /// Reads the text of a message from the reply to `message_request`.
    pub fn get_message_content(&self, reply: ApiReply) -> (out: Result<String, Error>)
        ensures
            result_view(out) == content_in(reply@),
    {
        match accept(reply) {
            Ok((status, body, payload)) => match payload {
                Payload::Message(resource) => match read_text(&resource.payload) {
                    Some(text) => Ok(text),
                    None => Err(Error::Api { status: Some(status), detail: body }),
                },
                _ => Err(Error::Api { status: Some(status), detail: body }),
            },
            Err(error) => Err(error),
        }
    }
}

} // verus!
