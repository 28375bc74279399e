//! The front end: which action a request asks for, how its form is read,
//! and what each action does to the registry and answers.
//!
//! The handlers here are plain functions from the request's bytes and the
//! registry to a typed answer. Reading the request from the network,
//! waiting between polls, the attribute store and writing the answer as XML
//! are the caller's part.

pub mod change_message_visibility;
pub mod create_queue;
pub mod delete_message;
pub mod form;
pub mod get_queue_attributes;
pub mod get_queue_url;
pub mod helpers;
pub mod laws;
pub mod list_queues;
pub mod receive_message;
pub mod send_message;
pub mod set_queue_attributes;

use crate::api::form::{get_required, number_result, required_field, Fields};
use crate::deps::{decode_form, form_fields, pairs_view};
use crate::text::{ascii_lower, joined, lower_equals, starts_with};
use vstd::prelude::*;

verus! {

/// A parameter of a request, by its name in the form.
#[derive(Clone, Copy, Debug, PartialEq, Eq, Structural)]
pub enum Param {
    Action,
    QueueName,
    QueueNamePrefix,
    QueueUrl,
    MessageBody,
    DelaySeconds,
    MaxNumberOfMessages,
    WaitTimeSeconds,
    VisibilityTimeout,
    ReceiptHandle,
}

impl Param {
    /// The name under which the form holds the parameter.
    pub open spec fn spec_name(self) -> Seq<char> {
        match self {
            Param::Action => "Action"@,
            Param::QueueName => "QueueName"@,
            Param::QueueNamePrefix => "QueueNamePrefix"@,
            Param::QueueUrl => "QueueUrl"@,
            Param::MessageBody => "MessageBody"@,
            Param::DelaySeconds => "DelaySeconds"@,
            Param::MaxNumberOfMessages => "MaxNumberOfMessages"@,
            Param::WaitTimeSeconds => "WaitTimeSeconds"@,
            Param::VisibilityTimeout => "VisibilityTimeout"@,
            Param::ReceiptHandle => "ReceiptHandle"@,
        }
    }

    pub fn name(self) -> (r: &'static str)
        ensures
            r@ == self.spec_name(),
    {
        match self {
            Param::Action => "Action",
            Param::QueueName => "QueueName",
            Param::QueueNamePrefix => "QueueNamePrefix",
            Param::QueueUrl => "QueueUrl",
            Param::MessageBody => "MessageBody",
            Param::DelaySeconds => "DelaySeconds",
            Param::MaxNumberOfMessages => "MaxNumberOfMessages",
            Param::WaitTimeSeconds => "WaitTimeSeconds",
            Param::VisibilityTimeout => "VisibilityTimeout",
            Param::ReceiptHandle => "ReceiptHandle",
        }
    }
}

/// Why a request is refused.
#[derive(Debug)]
pub enum ApiError {
    /// The action is missing or is none of the known ones.
    InvalidAction,
    /// The request came in the JSON protocol.
    JsonNotSupported,
    /// The body is no form.
    MalformedBody,
    MissingParameter(Param),
    RepeatedParameter(Param),
    /// The parameter's value is no number of the kind asked for.
    InvalidParameter(Param),
    /// The queue URL has no queue name after its last `/`.
    InvalidQueueUrl,
    /// A request to set attributes names none.
    NoAttributes,
    /// No queue of this name is registered.
    NonExistentQueue(String),
    /// The receipt handle belongs to no message in flight.
    InvalidReceiptHandle,
    /// The answer could not be written, or the attribute store failed.
    Internal(String),
}

/// What an `ApiError` holds, as plain values.
pub ghost enum ErrorView {
    InvalidAction,
    JsonNotSupported,
    MalformedBody,
    MissingParameter(Param),
    RepeatedParameter(Param),
    InvalidParameter(Param),
    InvalidQueueUrl,
    NoAttributes,
    NonExistentQueue(Seq<char>),
    InvalidReceiptHandle,
    Internal(Seq<char>),
}

impl View for ApiError {
    type V = ErrorView;

    open spec fn view(&self) -> ErrorView {
        match self {
            ApiError::InvalidAction => ErrorView::InvalidAction,
            ApiError::JsonNotSupported => ErrorView::JsonNotSupported,
            ApiError::MalformedBody => ErrorView::MalformedBody,
            ApiError::MissingParameter(p) => ErrorView::MissingParameter(*p),
            ApiError::RepeatedParameter(p) => ErrorView::RepeatedParameter(*p),
            ApiError::InvalidParameter(p) => ErrorView::InvalidParameter(*p),
            ApiError::InvalidQueueUrl => ErrorView::InvalidQueueUrl,
            ApiError::NoAttributes => ErrorView::NoAttributes,
            ApiError::NonExistentQueue(name) => ErrorView::NonExistentQueue(name@),
            ApiError::InvalidReceiptHandle => ErrorView::InvalidReceiptHandle,
            ApiError::Internal(text) => ErrorView::Internal(text@),
        }
    }
}

impl ErrorView {
    /// The HTTP status of the answer: 500 for an internal failure, 400 for
    /// everything the client got wrong.
    pub open spec fn status(self) -> u16 {
        match self {
            ErrorView::Internal(_) => 500,
            _ => 400,
        }
    }

    /// The text of the answer. It begins with the error code where the
    /// protocol has one.
    pub open spec fn message(self) -> Seq<char> {
        match self {
            ErrorView::InvalidAction => "Invalid action"@,
            ErrorView::JsonNotSupported => "JSON is not supported yet"@,
            ErrorView::MalformedBody => "Failed to parse payload: the body is not a form"@,
            ErrorView::MissingParameter(p) => "Failed to parse payload: missing field "@
                + p.spec_name(),
            ErrorView::RepeatedParameter(p) => "Failed to parse payload: duplicate field "@
                + p.spec_name(),
            ErrorView::InvalidParameter(p) => "Failed to parse payload: invalid value for "@
                + p.spec_name(),
            ErrorView::InvalidQueueUrl => "Invalid QueueUrl: could not extract queue name"@,
            ErrorView::NoAttributes => "No attributes provided"@,
            ErrorView::NonExistentQueue(name) => "AWS.SimpleQueueService.NonExistentQueue; Queue: "@
                + name,
            ErrorView::InvalidReceiptHandle => "ReceiptHandleIsInvalid; The input receipt handle is not a valid receipt handle."@,
            ErrorView::Internal(text) => text,
        }
    }
}

/// Whether `r` is the failure `error`.
pub open spec fn fails_with<T>(r: Result<T, ApiError>, error: ErrorView) -> bool {
    match r {
        Ok(_) => false,
        Err(e) => e@ == error,
    }
}

impl ApiError {
    pub fn status(&self) -> (r: u16)
        ensures
            r == self@.status(),
    {
        match self {
            ApiError::Internal(_) => 500,
            _ => 400,
        }
    }

    pub fn message(&self) -> (r: String)
        ensures
            r@ == self@.message(),
    {
        match self {
            ApiError::InvalidAction => "Invalid action".to_owned(),
            ApiError::JsonNotSupported => "JSON is not supported yet".to_owned(),
            ApiError::MalformedBody => "Failed to parse payload: the body is not a form".to_owned(),
            ApiError::MissingParameter(p) => joined(
                "Failed to parse payload: missing field ",
                p.name(),
            ),
            ApiError::RepeatedParameter(p) => joined(
                "Failed to parse payload: duplicate field ",
                p.name(),
            ),
            ApiError::InvalidParameter(p) => joined(
                "Failed to parse payload: invalid value for ",
                p.name(),
            ),
            ApiError::InvalidQueueUrl => "Invalid QueueUrl: could not extract queue name".to_owned(),
            ApiError::NoAttributes => "No attributes provided".to_owned(),
            ApiError::NonExistentQueue(name) => joined(
                "AWS.SimpleQueueService.NonExistentQueue; Queue: ",
                name.as_str(),
            ),
            ApiError::InvalidReceiptHandle => "ReceiptHandleIsInvalid; The input receipt handle is not a valid receipt handle.".to_owned(),
            ApiError::Internal(text) => text.clone(),
        }
    }
}

/// An action of the protocol.
#[derive(Clone, Copy, Debug, PartialEq, Eq, Structural)]
pub enum Action {
    CreateQueue,
    ListQueues,
    SendMessage,
    ReceiveMessage,
    DeleteMessage,
    ChangeMessageVisibility,
    GetQueueUrl,
    GetQueueAttributes,
    SetQueueAttributes,
}

impl Action {
    /// The action's name in small letters.
    pub open spec fn spec_lower_name(self) -> Seq<char> {
        match self {
            Action::CreateQueue => "createqueue"@,
            Action::ListQueues => "listqueues"@,
            Action::SendMessage => "sendmessage"@,
            Action::ReceiveMessage => "receivemessage"@,
            Action::DeleteMessage => "deletemessage"@,
            Action::ChangeMessageVisibility => "changemessagevisibility"@,
            Action::GetQueueUrl => "getqueueurl"@,
            Action::GetQueueAttributes => "getqueueattributes"@,
            Action::SetQueueAttributes => "setqueueattributes"@,
        }
    }

    /// The action's name in small letters behind the service prefix.
    pub open spec fn spec_prefixed_name(self) -> Seq<char> {
        match self {
            Action::CreateQueue => "amazonsqs.createqueue"@,
            Action::ListQueues => "amazonsqs.listqueues"@,
            Action::SendMessage => "amazonsqs.sendmessage"@,
            Action::ReceiveMessage => "amazonsqs.receivemessage"@,
            Action::DeleteMessage => "amazonsqs.deletemessage"@,
            Action::ChangeMessageVisibility => "amazonsqs.changemessagevisibility"@,
            Action::GetQueueUrl => "amazonsqs.getqueueurl"@,
            Action::GetQueueAttributes => "amazonsqs.getqueueattributes"@,
            Action::SetQueueAttributes => "amazonsqs.setqueueattributes"@,
        }
    }

    /// Whether `text` names the action: in any mix of capital and small
    /// ASCII letters, with or without the service prefix.
    pub open spec fn named_by(self, text: Seq<char>) -> bool {
        ascii_lower(text) == self.spec_lower_name() || ascii_lower(text)
            == self.spec_prefixed_name()
    }

    pub fn lower_name(self) -> (r: &'static str)
        ensures
            r@ == self.spec_lower_name(),
    {
        match self {
            Action::CreateQueue => "createqueue",
            Action::ListQueues => "listqueues",
            Action::SendMessage => "sendmessage",
            Action::ReceiveMessage => "receivemessage",
            Action::DeleteMessage => "deletemessage",
            Action::ChangeMessageVisibility => "changemessagevisibility",
            Action::GetQueueUrl => "getqueueurl",
            Action::GetQueueAttributes => "getqueueattributes",
            Action::SetQueueAttributes => "setqueueattributes",
        }
    }

    pub fn prefixed_name(self) -> (r: &'static str)
        ensures
            r@ == self.spec_prefixed_name(),
    {
        match self {
            Action::CreateQueue => "amazonsqs.createqueue",
            Action::ListQueues => "amazonsqs.listqueues",
            Action::SendMessage => "amazonsqs.sendmessage",
            Action::ReceiveMessage => "amazonsqs.receivemessage",
            Action::DeleteMessage => "amazonsqs.deletemessage",
            Action::ChangeMessageVisibility => "amazonsqs.changemessagevisibility",
            Action::GetQueueUrl => "amazonsqs.getqueueurl",
            Action::GetQueueAttributes => "amazonsqs.getqueueattributes",
            Action::SetQueueAttributes => "amazonsqs.setqueueattributes",
        }
    }

    /// Computes `named_by`.
    pub fn is_named_by(self, text: &str) -> (r: bool)
        ensures
            r == self.named_by(text@),
    {
        lower_equals(text, self.lower_name()) || lower_equals(text, self.prefixed_name())
    }
}

/// The action that `text` names, if it names one.
pub open spec fn action_of(text: Seq<char>) -> Option<Action> {
    if Action::CreateQueue.named_by(text) {
        Some(Action::CreateQueue)
    } else if Action::ListQueues.named_by(text) {
        Some(Action::ListQueues)
    } else if Action::SendMessage.named_by(text) {
        Some(Action::SendMessage)
    } else if Action::ReceiveMessage.named_by(text) {
        Some(Action::ReceiveMessage)
    } else if Action::DeleteMessage.named_by(text) {
        Some(Action::DeleteMessage)
    } else if Action::ChangeMessageVisibility.named_by(text) {
        Some(Action::ChangeMessageVisibility)
    } else if Action::GetQueueUrl.named_by(text) {
        Some(Action::GetQueueUrl)
    } else if Action::GetQueueAttributes.named_by(text) {
        Some(Action::GetQueueAttributes)
    } else if Action::SetQueueAttributes.named_by(text) {
        Some(Action::SetQueueAttributes)
    } else {
        None
    }
}

/// Computes `action_of`.
pub fn find_action(text: &str) -> (r: Option<Action>)
    ensures
        r == action_of(text@),
{
    if Action::CreateQueue.is_named_by(text) {
        Some(Action::CreateQueue)
    } else if Action::ListQueues.is_named_by(text) {
        Some(Action::ListQueues)
    } else if Action::SendMessage.is_named_by(text) {
        Some(Action::SendMessage)
    } else if Action::ReceiveMessage.is_named_by(text) {
        Some(Action::ReceiveMessage)
    } else if Action::DeleteMessage.is_named_by(text) {
        Some(Action::DeleteMessage)
    } else if Action::ChangeMessageVisibility.is_named_by(text) {
        Some(Action::ChangeMessageVisibility)
    } else if Action::GetQueueUrl.is_named_by(text) {
        Some(Action::GetQueueUrl)
    } else if Action::GetQueueAttributes.is_named_by(text) {
        Some(Action::GetQueueAttributes)
    } else if Action::SetQueueAttributes.is_named_by(text) {
        Some(Action::SetQueueAttributes)
    } else {
        None
    }
}

/// The action name that a decoded form gives: its `Action` field, if it has
/// exactly one.
pub open spec fn form_action(fields: Fields) -> Option<Seq<char>> {
    match required_field(fields, Param::Action) {
        Ok(v) => Some(v),
        Err(_) => None,
    }
}

/// The action name of a request: the target header as it stands where the
/// request has one, else the `Action` field of the form in its body.
pub open spec fn action_name_of(target: Option<Seq<char>>, body: Seq<u8>) -> Option<Seq<char>> {
    match target {
        Some(t) => Some(t),
        None => match form_fields(body) {
            Some(fields) => form_action(fields),
            None => None,
        },
    }
}

/// The `Action` field of a decoded form.
pub fn action_field(form: &Vec<(String, String)>) -> (r: Option<String>)
    ensures
        match r {
            Some(v) => form_action(pairs_view(form@)) == Some(v@),
            None => form_action(pairs_view(form@)) is None,
        },
{
    match get_required(form, Param::Action) {
        Ok(v) => Some(v),
        Err(_) => None,
    }
}

/// Computes `action_name_of`. `target` is the value of the `x-amz-target`
/// header.
pub fn get_action_name(target: Option<&str>, payload: &[u8]) -> (r: Option<String>)
    ensures
        match r {
            Some(v) => action_name_of(text_view(target), payload@) == Some(v@),
            None => action_name_of(text_view(target), payload@) is None,
        },
{
    match target {
        Some(t) => Some(t.to_owned()),
        None => match decode_form(payload) {
            Some(form) => action_field(&form),
            None => None,
        },
    }
}

/// The view of an optional text.
pub open spec fn text_view(t: Option<&str>) -> Option<Seq<char>> {
    match t {
        Some(s) => Some(s@),
        None => None,
    }
}

/// Where a request goes. A request without an action name, or with one
/// that names no action, is invalid; one whose target header begins with
/// `AmazonSQS` speaks the JSON protocol and is refused as such.
pub open spec fn route_of(target: Option<Seq<char>>, name: Option<Seq<char>>) -> Result<
    Action,
    ErrorView,
> {
    match name {
        None => Err(ErrorView::InvalidAction),
        Some(text) => if target is Some && "AmazonSQS"@.is_prefix_of(text) {
            Err(ErrorView::JsonNotSupported)
        } else {
            match action_of(text) {
                Some(a) => Ok(a),
                None => Err(ErrorView::InvalidAction),
            }
        },
    }
}

/// Decides where a request goes once its action name is known.
pub fn route(from_header: bool, name: Option<&str>) -> (r: Result<Action, ApiError>)
    ensures
        number_result(r) == route_of(
            if from_header {
                text_view(name)
            } else {
                None
            },
            text_view(name),
        ),
{
    match name {
        None => Err(ApiError::InvalidAction),
        Some(text) => {
            if from_header && starts_with(text, "AmazonSQS") {
                Err(ApiError::JsonNotSupported)
            } else {
                match find_action(text) {
                    Some(a) => Ok(a),
                    None => Err(ApiError::InvalidAction),
                }
            }
        },
    }
}

/// The entry point for a posted request: finds the action that the request
/// asks for. The caller then runs `process` of that action's module.
pub fn post_handler(target: Option<&str>, payload: &[u8]) -> (r: Result<Action, ApiError>)
    ensures
        number_result(r) == route_of(
            text_view(target),
            action_name_of(text_view(target), payload@),
        ),
{
    let name = get_action_name(target, payload);
    match name {
        Some(text) => route(target.is_some(), Some(text.as_str())),
        None => route(target.is_some(), None),
    }
}

} // verus!
