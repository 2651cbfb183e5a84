//! Event ingestion: authenticate a delivery, decide whether its event is
//! announced, and hand the announcement to the fan-out.

use vstd::prelude::*;
use vstd::string::*;
use crate::models::FollowerEvent;
use crate::services::outcome::{failures, summary_text, texts, total_failure, AggregateError};
use crate::services::{
    attempted, bound_to_deliver, lemma_delivery_outcome, lemma_failure_outcomes,
    lemma_total_failure_by_count, NotificationManager, NotificationService, ProviderKind,
};
use crate::signature::{
    law_issued_signature_verifies, signature_header, strip_scheme_tag, strip_tag, verification,
    verify_signature,
};

verus! {

/// Why a delivery was not served.
#[derive(Clone, Debug, PartialEq, Eq)]
pub enum HandlerError {
    /// The event has a shape or an action that is not supported.
    ValidationError(String),
    /// The signature is missing or does not authenticate the payload.
    AuthenticationError(String),
    /// An unexpected fault.
    InternalError(String),
    /// A fault of the store.
    DatabaseError(String),
    /// Every configured channel failed.
    NotificationError(String),
}

impl HandlerError {
    /// The message the error carries.
    pub open spec fn text(self) -> Seq<char> {
        match self {
            HandlerError::ValidationError(message) => message@,
            HandlerError::AuthenticationError(message) => message@,
            HandlerError::InternalError(message) => message@,
            HandlerError::DatabaseError(message) => message@,
            HandlerError::NotificationError(message) => message@,
        }
    }

    /// The HTTP status each class of error is answered with: 400 for a
    /// validation error, 401 for an authentication error, 500 for the rest.
    pub open spec fn status(self) -> u16 {
        match self {
            HandlerError::ValidationError(_) => 400,
            HandlerError::AuthenticationError(_) => 401,
            HandlerError::InternalError(_) => 500,
            HandlerError::DatabaseError(_) => 500,
            HandlerError::NotificationError(_) => 500,
        }
    }

    /// The HTTP status the error is answered with.
    pub fn status_code(&self) -> (status: u16)
        ensures
            status == self.status(),
    {
        match self {
            HandlerError::ValidationError(_) => 400,
            HandlerError::AuthenticationError(_) => 401,
            HandlerError::InternalError(_) => 500,
            HandlerError::DatabaseError(_) => 500,
            HandlerError::NotificationError(_) => 500,
        }
    }

    /// The message the error carries.
    pub fn message(&self) -> (message: &str)
        ensures
            message@ == self.text(),
    {
        match self {
            HandlerError::ValidationError(message) => message.as_str(),
            HandlerError::AuthenticationError(message) => message.as_str(),
            HandlerError::InternalError(message) => message.as_str(),
            HandlerError::DatabaseError(message) => message.as_str(),
            HandlerError::NotificationError(message) => message.as_str(),
        }
    }

    /// The parts of the answer to the caller: the status and the error
    /// message to put in its body.
    pub fn into_response(self) -> (response: (u16, String))
        ensures
            response.0 == self.status(),
            response.1@ == self.text(),
    {
        match self {
            HandlerError::ValidationError(message) => (400, message),
            HandlerError::AuthenticationError(message) => (401, message),
            HandlerError::InternalError(message) => (500, message),
            HandlerError::DatabaseError(message) => (500, message),
            HandlerError::NotificationError(message) => (500, message),
        }
    }
}

/// The result of a step in serving a delivery.
pub type HandlerResult<T> = Result<T, HandlerError>;

/// The status a served delivery is answered with.
pub const STATUS_OK: u16 = 200;

/// The one action that is announced.
pub const FOLLOWED_ACTION: &'static str = "followed";

/// The title of every announcement.
pub const ANNOUNCEMENT_TITLE: &'static str = "New GitHub Follower!";

/// One logical notification, as every channel receives it.
#[derive(Clone, Debug, PartialEq, Eq)]
pub struct Notification {
    pub title: String,
    pub message: String,
}

/// Whether an event is announced: only the action `followed` is.
pub open spec fn accepted(event: FollowerEvent) -> bool {
    event.action@ == FOLLOWED_ACTION@
}

/// The message that announces a follower, from the login and the profile
/// address.
pub open spec fn announcement_message(login: Seq<char>, html_url: Seq<char>) -> Seq<char> {
    "User "@ + login + " is now following you!\nProfile: "@ + html_url
}

/// `notification` is the announcement of `event`.
pub open spec fn announces(notification: Notification, event: FollowerEvent) -> bool {
    &&& notification.title@ == ANNOUNCEMENT_TITLE@
    &&& notification.message@ == announcement_message(event.sender.login@, event.sender.html_url@)
}

/// The message of the error that answers a delivery which is not
/// authentic: `None` for a delivery that is. A delivery is authentic when
/// it has a signature header whose value, with the scheme tag removed,
/// verifies for the payload under the secret.
pub open spec fn authentication_failure(
    signature_header: Option<&str>,
    payload: Seq<u8>,
    secret: Seq<char>,
) -> Option<Seq<char>> {
    match signature_header {
        None => Some("Missing signature header"@),
        Some(header) => match verification(payload, strip_tag(header@), secret) {
            Ok(_) => None,
            Err(error) => Some("Invalid signature: "@ + error.description()),
        },
    }
}

/// A delivery that carries the header issued for its payload is authentic,
/// whatever the payload and the non-empty secret.
pub proof fn law_issued_header_authenticates(header: &str, payload: Seq<u8>, secret: Seq<char>)
    requires
        secret.len() > 0,
        header@ == signature_header(payload, secret),
    ensures
        authentication_failure(Some(header), payload, secret) is None,
{
    law_issued_signature_verifies(payload, secret);
}

/// Authenticates a delivery from its signature header and its raw payload
/// bytes. A missing header, an empty secret, a malformed signature and a
/// signature for other bytes are all refused with an authentication error.
pub fn authenticate(signature_header: Option<&str>, payload: &[u8], secret: &str) -> (verdict:
    HandlerResult<()>)
    ensures
        verdict is Ok <==> authentication_failure(signature_header, payload@, secret@) is None,
        verdict is Err ==> {
            &&& verdict->Err_0 is AuthenticationError
            &&& Some(verdict->Err_0.text()) == authentication_failure(
                signature_header,
                payload@,
                secret@,
            )
        },
{
    let header = match signature_header {
        Some(header) => header,
        None => {
            return Err(
                HandlerError::AuthenticationError(String::from_str("Missing signature header")),
            );
        },
    };
    match verify_signature(payload, strip_scheme_tag(header), secret) {
        Ok(_) => Ok(()),
        Err(error) => {
            let mut message = String::from_str("Invalid signature: ");
            message.append(error.describe());
            Err(HandlerError::AuthenticationError(message))
        },
    }
}

/// Decides on an event: an event with the action `followed` is accepted
/// and yields its announcement; any other is rejected with a validation
/// error.
pub fn announcement(event: &FollowerEvent) -> (decision: HandlerResult<Notification>)
    ensures
        decision is Ok <==> accepted(*event),
        decision is Ok ==> announces(decision->Ok_0, *event),
        decision is Err ==> {
            &&& decision->Err_0 is ValidationError
            &&& decision->Err_0.text() == "Unsupported event action"@
        },
{
    let followed = String::from_str(FOLLOWED_ACTION);
    if event.action == followed {
        let mut message = String::from_str("User ");
        message.append(event.sender.login.as_str());
        message.append(" is now following you!\nProfile: ");
        message.append(event.sender.html_url.as_str());
        Ok(Notification { title: String::from_str(ANNOUNCEMENT_TITLE), message })
    } else {
        Err(HandlerError::ValidationError(String::from_str("Unsupported event action")))
    }
}

/// Closes a delivery once its fan-out has returned: a fan-out that
/// succeeded serves the delivery, a total failure becomes a notification
/// error with the account of every channel's error.
pub fn conclude(notification: Notification, delivered: Result<(), AggregateError>) -> (served:
    HandlerResult<Notification>)
    ensures
        served is Ok <==> delivered is Ok,
        served is Ok ==> served->Ok_0 == notification,
        served is Err ==> {
            &&& served->Err_0 is NotificationError
            &&& served->Err_0.text() == summary_text(texts(delivered->Err_0.errors@))
        },
{
    match delivered {
        Ok(_) => Ok(notification),
        Err(error) => Err(HandlerError::NotificationError(error.message())),
    }
}

/// What serving a delivery returns, given what the attempted channels
/// answered.
///
/// A delivery that is not authentic is answered with an authentication
/// error and an event that is not accepted with a validation error, in
/// that order. Otherwise every configured channel was handed the
/// announcement of the event, `outcomes` holds what each of them answered,
/// and the delivery is served unless there is a channel and every channel
/// failed, which is answered with a notification error that carries the
/// account of the failures.
pub open spec fn served<C: NotificationService>(
    manager: &NotificationManager<C>,
    signature_header: Option<&str>,
    payload: Seq<u8>,
    event: FollowerEvent,
    outcomes: Seq<Option<Seq<char>>>,
    response: Result<Notification, HandlerError>,
) -> bool {
    match authentication_failure(signature_header, payload, manager.secret()) {
        Some(message) => {
            &&& response is Err
            &&& response->Err_0 is AuthenticationError
            &&& response->Err_0.text() == message
        },
        None => if !accepted(event) {
            &&& response is Err
            &&& response->Err_0 is ValidationError
            &&& response->Err_0.text() == "Unsupported event action"@
        } else {
            &&& attempted(manager.configured(), outcomes)
            &&& manager.answers_recorded(
                manager.configured(),
                ANNOUNCEMENT_TITLE@,
                announcement_message(event.sender.login@, event.sender.html_url@),
                outcomes,
            )
            &&& response is Err <==> total_failure(outcomes)
            &&& response is Ok ==> announces(response->Ok_0, event)
            &&& response is Err ==> {
                &&& response->Err_0 is NotificationError
                &&& response->Err_0.text() == summary_text(failures(outcomes))
            }
        },
    }
}

/// Serves one delivery: authenticates it against the raw payload bytes,
/// decides on the event, and sends the announcement of an accepted event
/// through every configured channel.
///
/// No channel is attempted for a delivery that is refused. The result of a
/// served delivery is the announcement that was sent.
pub fn handle_webhook<C: NotificationService>(
    manager: &NotificationManager<C>,
    signature_header: Option<&str>,
    payload: &[u8],
    event: &FollowerEvent,
) -> (response: HandlerResult<Notification>)
    ensures
        exists|outcomes: Seq<Option<Seq<char>>>| #[trigger]
            served(manager, signature_header, payload@, *event, outcomes, response),
        authentication_failure(signature_header, payload@, manager.secret()) is None && accepted(
            *event,
        ) && manager.configured().len() == 0 ==> response is Ok,
{
    let ghost nothing = Seq::<Option<Seq<char>>>::empty();
    match authenticate(signature_header, payload, manager.webhook_secret()) {
        Ok(_) => {},
        Err(error) => {
            let response = Err(error);
            assert(served(manager, signature_header, payload@, *event, nothing, response));
            return response;
        },
    }
    let notification = match announcement(event) {
        Ok(notification) => notification,
        Err(error) => {
            let response = Err(error);
            assert(served(manager, signature_header, payload@, *event, nothing, response));
            return response;
        },
    };
    let delivered = manager.notify_all(notification.title.as_str(), notification.message.as_str());
    let ghost outcomes = choose|outcomes: Seq<Option<Seq<char>>>| #[trigger]
        manager.notified(notification.title@, notification.message@, outcomes, delivered);
    let response = conclude(notification, delivered);
    assert(served(manager, signature_header, payload@, *event, outcomes, response));
    response
}

/// An authentic delivery of an accepted event is served whenever some
/// configured channel delivers, however many of the others fail, and its
/// result is the announcement of the event.
pub proof fn law_delivery_is_served<C: NotificationService>(
    manager: &NotificationManager<C>,
    signature_header: Option<&str>,
    payload: Seq<u8>,
    event: FollowerEvent,
    outcomes: Seq<Option<Seq<char>>>,
    response: Result<Notification, HandlerError>,
    delivering: ProviderKind,
)
    requires
        served(manager, signature_header, payload, event, outcomes, response),
        authentication_failure(signature_header, payload, manager.secret()) is None,
        accepted(event),
        manager.is_configured(delivering),
        bound_to_deliver(&(manager.channel(delivering)->Some_0)),
    ensures
        response is Ok,
        announces(response->Ok_0, event),
{
    lemma_delivery_outcome(
        manager,
        ANNOUNCEMENT_TITLE@,
        announcement_message(event.sender.login@, event.sender.html_url@),
        outcomes,
        delivering,
    );
}

/// An authentic delivery of an accepted event, with at least one channel
/// configured and every channel failing, is answered with a notification
/// error. Its text is the account of one error per channel, each the cause
/// that the channel gave to the announcement, with the provider's name in
/// front.
pub proof fn law_total_failure_is_notification_error<C: NotificationService>(
    manager: &NotificationManager<C>,
    signature_header: Option<&str>,
    payload: Seq<u8>,
    event: FollowerEvent,
    outcomes: Seq<Option<Seq<char>>>,
    response: Result<Notification, HandlerError>,
)
    requires
        served(manager, signature_header, payload, event, outcomes, response),
        authentication_failure(signature_header, payload, manager.secret()) is None,
        accepted(event),
        manager.configured().len() >= 1,
        manager.all_bound_to_fail(),
    ensures
        response is Err,
        response->Err_0 is NotificationError,
        response->Err_0.text() == summary_text(failures(outcomes)),
        failures(outcomes).len() == manager.configured().len(),
        forall|i: int|
            0 <= i < manager.configured().len() ==> #[trigger] manager.cause_reported(
                ANNOUNCEMENT_TITLE@,
                announcement_message(event.sender.login@, event.sender.html_url@),
                failures(outcomes),
                i,
            ),
{
    lemma_failure_outcomes(
        manager,
        ANNOUNCEMENT_TITLE@,
        announcement_message(event.sender.login@, event.sender.html_url@),
        outcomes,
    );
}

/// Where every configured channel is bound one way, a delivery is served
/// exactly when it is authentic, its event is accepted, and it is not the
/// case that there is a channel and every channel fails.
pub proof fn law_served_exactly_when<C: NotificationService>(
    manager: &NotificationManager<C>,
    signature_header: Option<&str>,
    payload: Seq<u8>,
    event: FollowerEvent,
    outcomes: Seq<Option<Seq<char>>>,
    response: Result<Notification, HandlerError>,
)
    requires
        served(manager, signature_header, payload, event, outcomes, response),
        manager.all_bound(),
    ensures
        response is Ok <==> {
            &&& authentication_failure(signature_header, payload, manager.secret()) is None
            &&& accepted(event)
            &&& !(manager.configured().len() > 0 && manager.failing_count(manager.configured())
                == manager.configured().len())
        },
{
    if authentication_failure(signature_header, payload, manager.secret()) is None && accepted(
        event,
    ) {
        lemma_total_failure_by_count(
            manager,
            ANNOUNCEMENT_TITLE@,
            announcement_message(event.sender.login@, event.sender.html_url@),
            outcomes,
        );
    }
}

} // verus!
