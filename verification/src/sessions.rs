use vstd::prelude::*;

use crate::events::{
    application_handler_event, job_request_event, proving_request_event, text_note_event,
    EventDraft, APPLICATION_HANDLER_KIND, PROVING_REQUEST_KIND, TEXT_NOTE_KIND,
};
use crate::request::ProvingRequest;

verus! {

/// What the relay pool hands a listener: an event received on a
/// subscription, the pool's shutdown (after which no notification follows),
/// or anything else (relay messages).
#[derive(Debug)]
pub enum Notification {
    Event { subscription_id: String, content: String },
    Shutdown,
    Other,
}

/// `n` is an event received on the subscription `subscription_id`.
pub open spec fn is_event_for(n: Notification, subscription_id: Seq<char>) -> bool {
    n matches Notification::Event { subscription_id: s, .. } && s@ == subscription_id
}

/// Whether `n` is an event received on the subscription `subscription_id`.
pub fn is_event_for_subscription(n: &Notification, subscription_id: &String) -> (b: bool)
    ensures
        b == is_event_for(*n, subscription_id@),
        b <==> (n matches Notification::Event { subscription_id: s, .. } && s@ == subscription_id@),
{
    match n {
        Notification::Event { subscription_id: s, .. } => s.eq(subscription_id),
        Notification::Shutdown | Notification::Other => false,
    }
}

/// What a listener does with one notification: whether it hands the event
/// on, and whether it stops listening afterwards.
#[derive(Clone, Copy, Debug, PartialEq, Eq, Structural)]
pub struct ListenerStep {
    pub deliver: bool,
    pub stop: bool,
}

/// The listener that hands every event of its subscription to a callback.
/// The callback's answer is not consulted: this listener never stops.
pub fn callback_listener_step(n: &Notification, subscription_id: &String) -> (s: ListenerStep)
    ensures
        s.deliver == is_event_for(*n, subscription_id@),
        !s.stop,
{
    ListenerStep { deliver: is_event_for_subscription(n, subscription_id), stop: false }
}

/// What a prover does with one notification.
#[derive(Debug)]
pub enum ProverAction {
    /// Not a proving request for this prover: go on listening.
    Ignore,
    /// Prove this request and publish the response, then go on listening.
    Prove(ProvingRequest),
}

/// The prover's listener: an event of the proving request subscription
/// whose content reads as a proving request (`request`, read by the caller
/// from the event's content) is proved; everything else is ignored.
pub fn prover_listener_step(
    n: &Notification,
    subscription_id: &String,
    request: Option<ProvingRequest>,
) -> (a: ProverAction)
    ensures
        (is_event_for(*n, subscription_id@) && request is Some) ==> a == ProverAction::Prove(
            request->Some_0,
        ),
        !(is_event_for(*n, subscription_id@) && request is Some) ==> a is Ignore,
{
    if is_event_for_subscription(n, subscription_id) {
        match request {
            Some(r) => ProverAction::Prove(r),
            None => ProverAction::Ignore,
        }
    } else {
        ProverAction::Ignore
    }
}

} // verus!

verus! {

/// Where a proving session stands: the step whose outcome it waits for.
#[derive(Clone, Copy, Debug, PartialEq, Eq, Structural)]
pub enum SessionStage {
    Connecting,
    SendingRequest,
    SendingHandler,
    SendingJobRequest,
    PublishingRequest,
    Subscribing,
    Listening,
    Verifying,
    Finished,
    Failed,
}

/// What the session asks its driver to do next.
#[derive(Debug)]
pub enum SessionAction {
    /// Connect to the relays.
    Connect,
    /// Sign the draft with the user's keys and send it.
    Send(EventDraft),
    /// Subscribe, under this identifier, to the events of this kind by this
    /// author (a public key in hex) from now on.
    Subscribe { subscription_id: String, kind: u16, author: String },
    /// Wait for the next notification.
    AwaitNotification,
    /// Verify the proof in this response.
    VerifyResponse { content: String },
    /// The session is over.
    Finish { success: bool },
}

/// What came of the last action.
#[derive(Debug)]
pub enum SessionOutcome {
    /// It was carried out.
    Done,
    /// It failed.
    Failed,
    /// A notification arrived; `response_parsed` tells whether the event's
    /// content reads as a proving response.
    Notified { notification: Notification, response_parsed: bool },
    /// The stream of notifications ended without one.
    Ended,
}

/// An outcome as the session reads it.
pub enum OutcomeClass {
    Done,
    Failed,
    /// A proving response on the session's subscription.
    Response,
    /// Any other notification.
    OtherNotification,
    /// No notification will follow: the stream ended or the pool shut down.
    Ended,
}

/// How the session reads `o`, listening on `subscription_id`.
pub open spec fn classify(o: SessionOutcome, subscription_id: Seq<char>) -> OutcomeClass {
    match o {
        SessionOutcome::Done => OutcomeClass::Done,
        SessionOutcome::Failed => OutcomeClass::Failed,
        SessionOutcome::Ended => OutcomeClass::Ended,
        SessionOutcome::Notified { notification, response_parsed } => {
            if notification is Shutdown {
                OutcomeClass::Ended
            } else if is_event_for(notification, subscription_id) && response_parsed {
                OutcomeClass::Response
            } else {
                OutcomeClass::OtherNotification
            }
        },
    }
}

/// The stage that follows `stage` on an outcome of class `c`. Sending and
/// publishing stop the session when they fail; the outcome of subscribing
/// and of verifying is not consulted; listening ends, and the session with
/// it, on a response (to verify) or when no notification will follow.
pub open spec fn next_stage(stage: SessionStage, c: OutcomeClass) -> SessionStage {
    match stage {
        SessionStage::Connecting => if c is Failed { SessionStage::Failed } else { SessionStage::SendingRequest },
        SessionStage::SendingRequest => if c is Failed { SessionStage::Failed } else { SessionStage::SendingHandler },
        SessionStage::SendingHandler => if c is Failed { SessionStage::Failed } else { SessionStage::SendingJobRequest },
        SessionStage::SendingJobRequest => if c is Failed { SessionStage::Failed } else { SessionStage::PublishingRequest },
        SessionStage::PublishingRequest => if c is Failed { SessionStage::Failed } else { SessionStage::Subscribing },
        SessionStage::Subscribing => SessionStage::Listening,
        SessionStage::Listening => match c {
            OutcomeClass::Response => SessionStage::Verifying,
            OutcomeClass::Ended => SessionStage::Finished,
            _ => SessionStage::Listening,
        },
        SessionStage::Verifying => SessionStage::Finished,
        SessionStage::Finished => SessionStage::Finished,
        SessionStage::Failed => SessionStage::Failed,
    }
}

/// A client's proving session: it announces a proving request and a
/// marketplace handler, posts a NIP-90 job request, publishes the request
/// as a text note, then listens for the prover's response and verifies the
/// first one that arrives on its subscription.
pub struct ProvingSession {
    pub stage: SessionStage,
    pub request_json: String,
    pub handler_json: String,
    pub subscription_id: String,
    /// The public key, in hex, of the prover agent whose response is awaited.
    pub response_author: String,
}

/// `a` is what a session `s` asks for on entering its stage; `content` is
/// the content of the notification that led there, if one did.
pub open spec fn is_action_for(s: ProvingSession, content: Seq<char>, a: SessionAction) -> bool {
    match s.stage {
        SessionStage::Connecting => a is Connect,
        SessionStage::SendingRequest => a matches SessionAction::Send(d) && d.kind
            == PROVING_REQUEST_KIND && d.content@ == s.request_json@ && d.tags@.len() == 0,
        SessionStage::SendingHandler => a matches SessionAction::Send(d) && d.kind
            == APPLICATION_HANDLER_KIND && d.content@ == s.handler_json@ && d.tags@.len() == 0,
        SessionStage::SendingJobRequest => a matches SessionAction::Send(d) && d.kind
            == PROVING_REQUEST_KIND && d.content@ == Seq::<char>::empty() && d.tags@.len() == 0,
        SessionStage::PublishingRequest => a matches SessionAction::Send(d) && d.kind
            == TEXT_NOTE_KIND && d.content@ == s.request_json@ && d.tags@.len() == 0,
        SessionStage::Subscribing => a matches SessionAction::Subscribe {
            subscription_id,
            kind,
            author,
        } && subscription_id@ == s.subscription_id@ && kind == TEXT_NOTE_KIND && author@
            == s.response_author@,
        SessionStage::Listening => a is AwaitNotification,
        SessionStage::Verifying => a matches SessionAction::VerifyResponse { content: c } && c@
            == content,
        SessionStage::Finished => a == (SessionAction::Finish { success: true }),
        SessionStage::Failed => a == (SessionAction::Finish { success: false }),
    }
}

/// The content of the event in `o`, if `o` is a notification of an event.
pub open spec fn outcome_content(o: SessionOutcome) -> Seq<char> {
    match o {
        SessionOutcome::Notified { notification: Notification::Event { content, .. }, .. } => content@,
        _ => Seq::empty(),
    }
}

/// `o` is an outcome that a session at `stage` can be handed: a notification
/// or the end of the stream while listening, a done or a failure at any
/// other step.
pub open spec fn fits_stage(stage: SessionStage, o: SessionOutcome) -> bool {
    if stage is Listening {
        o is Notified || o is Ended
    } else {
        o is Done || o is Failed
    }
}

impl ProvingSession {
    /// A session that will announce `request_json` and `handler_json` and
    /// listen on `subscription_id` for a text note by `response_author`; it
    /// starts by connecting.
    pub fn start(
        request_json: String,
        handler_json: String,
        subscription_id: String,
        response_author: String,
    ) -> (r: (
        ProvingSession,
        SessionAction,
    ))
        ensures
            r.0.stage == SessionStage::Connecting,
            r.0.request_json == request_json,
            r.0.handler_json == handler_json,
            r.0.subscription_id == subscription_id,
            r.0.response_author == response_author,
            r.1 is Connect,
    {
        (
            ProvingSession {
                stage: SessionStage::Connecting,
                request_json,
                handler_json,
                subscription_id,
                response_author,
            },
            SessionAction::Connect,
        )
    }

    /// Takes in the outcome of the last action, moves to the next stage and
    /// says what to do there.
    pub fn advance(&mut self, outcome: SessionOutcome) -> (a: SessionAction)
        requires
            fits_stage(old(self).stage, outcome),
        ensures
            final(self).stage == next_stage(
                old(self).stage,
                classify(outcome, old(self).subscription_id@),
            ),
            final(self).request_json == old(self).request_json,
            final(self).handler_json == old(self).handler_json,
            final(self).subscription_id == old(self).subscription_id,
            final(self).response_author == old(self).response_author,
            is_action_for(*final(self), outcome_content(outcome), a),
            old(self).stage is Verifying ==> (final(self).stage is Finished && a == (
            SessionAction::Finish { success: true })),
    {
        let failed = match &outcome {
            SessionOutcome::Failed => true,
            _ => false,
        };
        let stops_on_failure = match self.stage {
            SessionStage::Connecting | SessionStage::SendingRequest | SessionStage::SendingHandler
            | SessionStage::SendingJobRequest | SessionStage::PublishingRequest => true,
            _ => false,
        };
        if failed && stops_on_failure {
            self.stage = SessionStage::Failed;
            return SessionAction::Finish { success: false };
        }
        let (stage, action) = match self.stage {
            SessionStage::Connecting => (
                SessionStage::SendingRequest,
                SessionAction::Send(proving_request_event(self.request_json.clone())),
            ),
            SessionStage::SendingRequest => (
                SessionStage::SendingHandler,
                SessionAction::Send(application_handler_event(self.handler_json.clone())),
            ),
            SessionStage::SendingHandler => {
                let draft = job_request_event(PROVING_REQUEST_KIND).unwrap();
                (SessionStage::SendingJobRequest, SessionAction::Send(draft))
            },
            SessionStage::SendingJobRequest => (
                SessionStage::PublishingRequest,
                SessionAction::Send(text_note_event(self.request_json.clone())),
            ),
            SessionStage::PublishingRequest => (
                SessionStage::Subscribing,
                SessionAction::Subscribe {
                    subscription_id: self.subscription_id.clone(),
                    kind: TEXT_NOTE_KIND,
                    author: self.response_author.clone(),
                },
            ),
            SessionStage::Subscribing => (SessionStage::Listening, SessionAction::AwaitNotification),
            SessionStage::Listening => match outcome {
                SessionOutcome::Notified { notification: Notification::Shutdown, .. }
                | SessionOutcome::Ended => (
                    SessionStage::Finished,
                    SessionAction::Finish { success: true },
                ),
                SessionOutcome::Notified { notification, response_parsed } => {
                    if response_parsed && is_event_for_subscription(
                        &notification,
                        &self.subscription_id,
                    ) {
                        let content = match notification {
                            Notification::Event { content, .. } => content,
                            _ => String::new(),
                        };
                        (SessionStage::Verifying, SessionAction::VerifyResponse { content })
                    } else {
                        (SessionStage::Listening, SessionAction::AwaitNotification)
                    }
                },
                _ => (SessionStage::Listening, SessionAction::AwaitNotification),
            },
            SessionStage::Verifying | SessionStage::Finished => (
                SessionStage::Finished,
                SessionAction::Finish { success: true },
            ),
            SessionStage::Failed => (SessionStage::Failed, SessionAction::Finish { success: false }),
        };
        self.stage = stage;
        action
    }
}

/// The stage reached from `stage` when each of `n` steps is carried out.
pub open spec fn stage_after_done_steps(stage: SessionStage, n: nat) -> SessionStage
    decreases n,
{
    if n == 0 {
        stage
    } else {
        stage_after_done_steps(next_stage(stage, OutcomeClass::Done), (n - 1) as nat)
    }
}

/// When every step is carried out, a session connects, sends the proving
/// request, the handler, the job request, publishes the request as a text
/// note, subscribes, and is then listening: six steps, in this order.
pub proof fn law_announcement_order()
    ensures
        next_stage(SessionStage::Connecting, OutcomeClass::Done) == SessionStage::SendingRequest,
        next_stage(SessionStage::SendingRequest, OutcomeClass::Done) == SessionStage::SendingHandler,
        next_stage(SessionStage::SendingHandler, OutcomeClass::Done)
            == SessionStage::SendingJobRequest,
        next_stage(SessionStage::SendingJobRequest, OutcomeClass::Done)
            == SessionStage::PublishingRequest,
        next_stage(SessionStage::PublishingRequest, OutcomeClass::Done) == SessionStage::Subscribing,
        next_stage(SessionStage::Subscribing, OutcomeClass::Done) == SessionStage::Listening,
        stage_after_done_steps(SessionStage::Connecting, 6) == SessionStage::Listening,
{
    reveal_with_fuel(stage_after_done_steps, 7);
}

/// A session that has failed or finished stays so, whatever comes.
pub proof fn law_end_is_final(stage: SessionStage, c: OutcomeClass)
    ensures
        stage is Failed ==> next_stage(stage, c) is Failed,
        stage is Finished ==> next_stage(stage, c) is Finished,
{
}

/// A failed send or publish ends the session in failure; a failed
/// subscription or verification does not.
pub proof fn law_failure_stops(stage: SessionStage)
    ensures
        (stage is Connecting || stage is SendingRequest || stage is SendingHandler
            || stage is SendingJobRequest || stage is PublishingRequest)
            ==> next_stage(stage, OutcomeClass::Failed) is Failed,
        stage is Subscribing ==> next_stage(stage, OutcomeClass::Failed) is Listening,
        stage is Verifying ==> next_stage(stage, OutcomeClass::Failed) is Finished,
{
}

/// A listening session verifies only a proving response on its own
/// subscription, and it finishes only by verifying one or when no
/// notification will follow: it ignores every other notification, and
/// nothing ends a listening session in failure.
pub proof fn law_finishes_only_on_response(stage: SessionStage, c: OutcomeClass)
    ensures
        stage is Listening && c is OtherNotification ==> next_stage(stage, c) is Listening,
        stage is Listening ==> !(next_stage(stage, c) is Failed),
        next_stage(stage, c) is Verifying ==> stage is Listening && c is Response,
        next_stage(stage, c) is Finished ==> stage is Verifying || stage is Finished || (
        stage is Listening && c is Ended),
{
}

/// Whether a notification counts as the session's response depends only on
/// its subscription and on whether its content reads as a response.
pub proof fn law_response_needs_own_subscription(
    n: Notification,
    parsed: bool,
    subscription_id: Seq<char>,
)
    ensures
        classify(SessionOutcome::Notified { notification: n, response_parsed: parsed }, subscription_id)
            is Response <==> (is_event_for(n, subscription_id) && parsed),
        classify(SessionOutcome::Notified { notification: n, response_parsed: parsed }, subscription_id)
            is Ended <==> n is Shutdown,
{
}

/// A notification is an event for subscription `subscription_id` exactly
/// when it is an event received under an identifier equal to it as text:
/// two different identifiers never match, and shutdowns and relay messages
/// match none.
pub proof fn law_event_matches_only_its_own_subscription(
    s: String,
    content: String,
    subscription_id: Seq<char>,
)
    ensures
        is_event_for(Notification::Event { subscription_id: s, content }, subscription_id) <==> s@
            == subscription_id,
        s@ != subscription_id ==> !is_event_for(
            Notification::Event { subscription_id: s, content },
            subscription_id,
        ),
        !is_event_for(Notification::Shutdown, subscription_id),
        !is_event_for(Notification::Other, subscription_id),
{
}

/// Once the response is handed to verification the session is over, and it
/// is over in success whatever the verification said: from `Verifying`
/// every outcome leads to `Finished`, never to `Failed`.
pub proof fn law_verification_ends_in_success(c: OutcomeClass)
    ensures
        next_stage(SessionStage::Verifying, c) == SessionStage::Finished,
        !(next_stage(SessionStage::Verifying, c) is Failed),
{
}

} // verus!
