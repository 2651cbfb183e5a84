//! Notification channels and the fan-out over them.

pub mod discord;
pub mod email;
pub mod outcome;
pub mod slack;
pub mod telegram;
pub mod whatsapp;

use vstd::prelude::*;
use vstd::string::*;
use crate::services::outcome::{
    aggregate, failures, lemma_failures_bounded, lemma_failures_of_all_failed, outcome_for,
    outcome_of, outcome_views, tagged, texts, total_failure, AggregateError, DispatchOutcome,
};

verus! {

/// The providers a notification can be sent through.
#[derive(Clone, Copy, Debug, PartialEq, Eq, Hash, Structural)]
pub enum ProviderKind {
    WhatsApp,
    Telegram,
    Discord,
    Slack,
    Email,
}

impl ProviderKind {
    /// The provider's name, as it tags error descriptions.
    pub open spec fn label(self) -> Seq<char> {
        match self {
            ProviderKind::WhatsApp => "WhatsApp"@,
            ProviderKind::Telegram => "Telegram"@,
            ProviderKind::Discord => "Discord"@,
            ProviderKind::Slack => "Slack"@,
            ProviderKind::Email => "Email"@,
        }
    }

    /// The provider's name.
    pub fn name(&self) -> (name: &'static str)
        ensures
            name@ == self.label(),
    {
        match self {
            ProviderKind::WhatsApp => "WhatsApp",
            ProviderKind::Telegram => "Telegram",
            ProviderKind::Discord => "Discord",
            ProviderKind::Slack => "Slack",
            ProviderKind::Email => "Email",
        }
    }
}

/// Why one channel could not deliver.
#[derive(Clone, Debug, PartialEq, Eq)]
pub struct SendError {
    /// Human-readable cause.
    pub cause: String,
}

/// The capability every channel offers: deliver one notification, given
/// its title and message.
///
/// An implementation makes one delivery attempt per call and reports a
/// failure as a [`SendError`].
///
/// Nothing is promised of the result: whether a delivery succeeds is for
/// the provider to decide. `answers` only lets contracts speak of what a
/// call returned, so that a caller can say which answer it recorded. An
/// implementation may state in it what its `send` can return, and then
/// has to prove it; one that states nothing keeps the default, under which
/// every answer is admitted and the contract of `send` holds of any
/// result.
pub trait NotificationService {
    /// Whether `sent` is an answer that this channel may give to a
    /// notification with this title and message. Unless an implementation
    /// says otherwise, every answer is.
    open spec fn answers(
        &self,
        title: Seq<char>,
        message: Seq<char>,
        sent: Result<(), SendError>,
    ) -> bool {
        true
    }

    fn send(&self, title: &str, message: &str) -> (sent: Result<(), SendError>)
        ensures
            self.answers(title@, message@, sent),
    ;
}

/// A channel's outcome is either a delivery or a failure whose text
/// carries the provider's name in front of some cause.
pub open spec fn labelled(kind: ProviderKind, outcome: Option<Seq<char>>) -> bool {
    outcome is Some ==> exists|cause: Seq<char>| outcome == Some(#[trigger] tagged(kind, cause))
}

/// Sends one notification through one channel and records the outcome.
///
/// The channel is handed the title and the message as they are, and what
/// it answers is what is recorded: a success as a delivery, a failure as
/// its cause tagged with the provider's name.
///
/// The channel is asked once; no retry follows a failure.
pub fn dispatch<C: NotificationService>(
    kind: ProviderKind,
    channel: &C,
    title: &str,
    message: &str,
) -> (outcome: DispatchOutcome)
    ensures
        recorded(kind, channel, title@, message@, outcome@),
        labelled(kind, outcome@),
{
    let sent = channel.send(title, message);
    let ghost answer = sent;
    let outcome = outcome_of(kind, sent);
    proof {
        assert(channel.answers(title@, message@, answer) && outcome@ == outcome_for(kind, answer));
        if answer is Err {
            assert(outcome@ == Some(tagged(kind, answer->Err_0.cause@)));
        }
    }
    outcome
}

/// `outcome` records an answer that `channel` gave to a notification with
/// this title and message: a delivery for a success, and for a failure its
/// cause with the provider's name in front.
pub open spec fn recorded<C: NotificationService>(
    kind: ProviderKind,
    channel: &C,
    title: Seq<char>,
    message: Seq<char>,
    outcome: Option<Seq<char>>,
) -> bool {
    exists|sent: Result<(), SendError>| #[trigger]
        channel.answers(title, message, sent) && outcome == outcome_for(kind, sent)
}

/// `outcomes` holds one outcome for each of `kinds`, in their order.
pub open spec fn attempted(kinds: Seq<ProviderKind>, outcomes: Seq<Option<Seq<char>>>) -> bool {
    &&& outcomes.len() == kinds.len()
    &&& forall|i: int| 0 <= i < kinds.len() ==> labelled(kinds[i], #[trigger] outcomes[i])
}

/// What a fan-out over `kinds` returns, given the outcomes of its
/// channels: a failure exactly when there is a channel and every channel
/// failed, and then the error of each.
pub open spec fn fan_out(
    kinds: Seq<ProviderKind>,
    outcomes: Seq<Option<Seq<char>>>,
    result: Result<(), AggregateError>,
) -> bool {
    &&& attempted(kinds, outcomes)
    &&& result is Err <==> total_failure(outcomes)
    &&& result is Err ==> texts(result->Err_0.errors@) == failures(outcomes)
}

/// The sequence that holds `kind` if its channel is present, and nothing
/// otherwise.
pub open spec fn slot(present: bool, kind: ProviderKind) -> Seq<ProviderKind> {
    if present {
        seq![kind]
    } else {
        Seq::empty()
    }
}

/// The configured channels, at most one per provider, and the secret that
/// authenticates inbound deliveries. The set of channels is fixed when the
/// manager is built.
pub struct NotificationManager<C> {
    webhook_secret: String,
    whatsapp: Option<C>,
    telegram: Option<C>,
    discord: Option<C>,
    slack: Option<C>,
    email: Option<C>,
}

impl<C> NotificationManager<C> {
    /// The secret that inbound deliveries are checked against; empty when
    /// none is configured.
    pub closed spec fn secret(&self) -> Seq<char> {
        self.webhook_secret@
    }

    /// The channel configured for `kind`, if any.
    pub closed spec fn channel(&self, kind: ProviderKind) -> Option<C> {
        match kind {
            ProviderKind::WhatsApp => self.whatsapp,
            ProviderKind::Telegram => self.telegram,
            ProviderKind::Discord => self.discord,
            ProviderKind::Slack => self.slack,
            ProviderKind::Email => self.email,
        }
    }

    /// Whether a channel is configured for `kind`.
    pub open spec fn is_configured(&self, kind: ProviderKind) -> bool {
        self.channel(kind) is Some
    }

    /// The providers with a configured channel, in the order in which a
    /// fan-out records their outcomes.
    pub open spec fn configured(&self) -> Seq<ProviderKind> {
        slot(self.is_configured(ProviderKind::WhatsApp), ProviderKind::WhatsApp) + slot(
            self.is_configured(ProviderKind::Telegram),
            ProviderKind::Telegram,
        ) + slot(self.is_configured(ProviderKind::Discord), ProviderKind::Discord) + slot(
            self.is_configured(ProviderKind::Slack),
            ProviderKind::Slack,
        ) + slot(self.is_configured(ProviderKind::Email), ProviderKind::Email)
    }

    /// Builds a manager from the secret and the channels that are
    /// configured. A missing secret is held as the empty string, which
    /// authenticates nothing.
    pub fn new(
        webhook_secret: Option<String>,
        whatsapp: Option<C>,
        telegram: Option<C>,
        discord: Option<C>,
        slack: Option<C>,
        email: Option<C>,
    ) -> (manager: Self)
        ensures
            manager.secret() == match webhook_secret {
                Some(secret) => secret@,
                None => Seq::<char>::empty(),
            },
            manager.channel(ProviderKind::WhatsApp) == whatsapp,
            manager.channel(ProviderKind::Telegram) == telegram,
            manager.channel(ProviderKind::Discord) == discord,
            manager.channel(ProviderKind::Slack) == slack,
            manager.channel(ProviderKind::Email) == email,
    {
        let webhook_secret = match webhook_secret {
            Some(secret) => secret,
            None => String::new(),
        };
        NotificationManager { webhook_secret, whatsapp, telegram, discord, slack, email }
    }

    /// The secret that inbound deliveries are checked against.
    pub fn webhook_secret(&self) -> (secret: &str)
        ensures
            secret@ == self.secret(),
    {
        self.webhook_secret.as_str()
    }

    /// The channel configured for `kind`, if any.
    pub fn get(&self, kind: ProviderKind) -> (channel: Option<&C>)
        ensures
            channel is Some <==> self.is_configured(kind),
            channel is Some ==> *channel->Some_0 == self.channel(kind)->Some_0,
    {
        match kind {
            ProviderKind::WhatsApp => self.whatsapp.as_ref(),
            ProviderKind::Telegram => self.telegram.as_ref(),
            ProviderKind::Discord => self.discord.as_ref(),
            ProviderKind::Slack => self.slack.as_ref(),
            ProviderKind::Email => self.email.as_ref(),
        }
    }

    /// The providers that a fan-out will attempt, in order.
    pub fn configured_kinds(&self) -> (kinds: Vec<ProviderKind>)
        ensures
            kinds@ == self.configured(),
    {
        let mut kinds: Vec<ProviderKind> = Vec::new();
        if self.whatsapp.is_some() {
            kinds.push(ProviderKind::WhatsApp);
        }
        if self.telegram.is_some() {
            kinds.push(ProviderKind::Telegram);
        }
        if self.discord.is_some() {
            kinds.push(ProviderKind::Discord);
        }
        if self.slack.is_some() {
            kinds.push(ProviderKind::Slack);
        }
        if self.email.is_some() {
            kinds.push(ProviderKind::Email);
        }
        assert(kinds@ =~= self.configured());
        kinds
    }
}

/// Extending a run of attempts by one more channel and its outcome.
proof fn lemma_attempted_push(
    kinds: Seq<ProviderKind>,
    outcomes: Seq<Option<Seq<char>>>,
    kind: ProviderKind,
    outcome: Option<Seq<char>>,
)
    requires
        attempted(kinds, outcomes),
        labelled(kind, outcome),
    ensures
        attempted(kinds + slot(true, kind), outcomes.push(outcome)),
        attempted(kinds + slot(false, kind), outcomes),
{
    let grown = kinds + slot(true, kind);
    assert forall|i: int| 0 <= i < grown.len() implies labelled(
        grown[i],
        #[trigger] outcomes.push(outcome)[i],
    ) by {
        if i < kinds.len() {
            assert(labelled(kinds[i], outcomes[i]));
        }
    }
    assert(kinds + slot(false, kind) =~= kinds);
}

/// Every answer that `channel` admits is a failure.
pub open spec fn bound_to_fail<C: NotificationService>(channel: &C) -> bool {
    forall|title: Seq<char>, message: Seq<char>, sent: Result<(), SendError>| #[trigger]
        channel.answers(title, message, sent) ==> sent is Err
}

/// Every answer that `channel` admits is a delivery.
pub open spec fn bound_to_deliver<C: NotificationService>(channel: &C) -> bool {
    forall|title: Seq<char>, message: Seq<char>, sent: Result<(), SendError>| #[trigger]
        channel.answers(title, message, sent) ==> sent is Ok
}

impl<C: NotificationService> NotificationManager<C> {
    /// The outcome at position `i` records an answer that the channel
    /// configured for the provider at position `i` of `kinds` gave to a
    /// notification with this title and message.
    pub open spec fn answer_recorded(
        &self,
        kinds: Seq<ProviderKind>,
        title: Seq<char>,
        message: Seq<char>,
        outcomes: Seq<Option<Seq<char>>>,
        i: int,
    ) -> bool {
        &&& self.channel(kinds[i]) is Some
        &&& recorded(kinds[i], &(self.channel(kinds[i])->Some_0), title, message, outcomes[i])
    }

    /// `outcomes` holds, for each of `kinds` in order, the record of an
    /// answer that its channel gave to this title and message.
    pub open spec fn answers_recorded(
        &self,
        kinds: Seq<ProviderKind>,
        title: Seq<char>,
        message: Seq<char>,
        outcomes: Seq<Option<Seq<char>>>,
    ) -> bool {
        &&& outcomes.len() == kinds.len()
        &&& forall|i: int|
            0 <= i < kinds.len() ==> #[trigger] self.answer_recorded(
                kinds,
                title,
                message,
                outcomes,
                i,
            )
    }

    /// What one fan-out amounts to. Every configured channel was handed the
    /// title and the message, `outcomes` holds what each of them answered,
    /// in the order of [`Self::configured`], and `result` is the verdict
    /// of the failure policy on those outcomes.
    pub open spec fn notified(
        &self,
        title: Seq<char>,
        message: Seq<char>,
        outcomes: Seq<Option<Seq<char>>>,
        result: Result<(), AggregateError>,
    ) -> bool {
        &&& fan_out(self.configured(), outcomes, result)
        &&& self.answers_recorded(self.configured(), title, message, outcomes)
    }

    /// Every configured channel is bound to fail.
    pub open spec fn all_bound_to_fail(&self) -> bool {
        forall|kind: ProviderKind|
            (#[trigger] self.channel(kind)) is Some ==> bound_to_fail(
                &(self.channel(kind)->Some_0),
            )
    }

    /// Every configured channel is bound one way: to fail or to deliver.
    pub open spec fn all_bound(&self) -> bool {
        forall|kind: ProviderKind|
            (#[trigger] self.channel(kind)) is Some ==> bound_to_fail(&(self.channel(kind)->Some_0))
                || bound_to_deliver(&(self.channel(kind)->Some_0))
    }

    /// How many of the channels of `kinds` are bound to fail.
    pub open spec fn failing_count(&self, kinds: Seq<ProviderKind>) -> nat
        decreases kinds.len(),
    {
        if kinds.len() == 0 {
            0
        } else if self.channel(kinds.last()) is Some && bound_to_fail(
            &(self.channel(kinds.last())->Some_0),
        ) {
            self.failing_count(kinds.drop_last()) + 1
        } else {
            self.failing_count(kinds.drop_last())
        }
    }

    /// Extending a run of recorded answers by one more channel's.
    proof fn lemma_recorded_push(
        &self,
        kinds: Seq<ProviderKind>,
        title: Seq<char>,
        message: Seq<char>,
        outcomes: Seq<Option<Seq<char>>>,
        kind: ProviderKind,
        outcome: Option<Seq<char>>,
    )
        requires
            self.answers_recorded(kinds, title, message, outcomes),
            self.channel(kind) is Some,
            recorded(kind, &(self.channel(kind)->Some_0), title, message, outcome),
        ensures
            self.answers_recorded(kinds + slot(true, kind), title, message, outcomes.push(outcome)),
    {
        let grown = kinds + slot(true, kind);
        let more = outcomes.push(outcome);
        assert forall|i: int| 0 <= i < grown.len() implies #[trigger] self.answer_recorded(
            grown,
            title,
            message,
            more,
            i,
        ) by {
            if i < kinds.len() {
                assert(self.answer_recorded(kinds, title, message, outcomes, i));
                assert(grown[i] == kinds[i]);
                assert(more[i] == outcomes[i]);
            } else {
                assert(grown[i] == kind);
                assert(more[i] == outcome);
            }
        }
    }

    /// Attempts the channel configured for `kind`, if there is one, and
    /// appends what it answered to `outcomes`. Without a channel for
    /// `kind` the list is left as it is.
    fn attempt(
        &self,
        kind: ProviderKind,
        title: &str,
        message: &str,
        outcomes: &mut Vec<DispatchOutcome>,
        Ghost(kinds): Ghost<Seq<ProviderKind>>,
    )
        requires
            attempted(kinds, outcome_views(old(outcomes)@)),
            self.answers_recorded(kinds, title@, message@, outcome_views(old(outcomes)@)),
        ensures
            attempted(
                kinds + slot(self.is_configured(kind), kind),
                outcome_views(final(outcomes)@),
            ),
            self.answers_recorded(
                kinds + slot(self.is_configured(kind), kind),
                title@,
                message@,
                outcome_views(final(outcomes)@),
            ),
    {
        let ghost before = outcome_views(outcomes@);
        match self.get(kind) {
            Some(channel) => {
                let outcome = dispatch(kind, channel, title, message);
                let ghost view = outcome@;
                outcomes.push(outcome);
                proof {
                    assert(outcome_views(outcomes@) =~= before.push(view));
                    lemma_attempted_push(kinds, before, kind, view);
                    self.lemma_recorded_push(kinds, title@, message@, before, kind, view);
                }
            },
            None => {
                proof {
                    lemma_attempted_push(kinds, before, kind, None);
                    assert(kinds + slot(false, kind) =~= kinds);
                }
            },
        }
    }

    /// Sends one notification through every configured channel and
    /// reports a single result.
    ///
    /// Every configured channel is handed the title and the message as
    /// they are, whatever the others answer, and its answer is recorded.
    /// The result is a failure only when at least one channel is
    /// configured and every one of them failed; it then carries one error
    /// per channel, each the channel's own cause behind its provider's
    /// name. A fan-out in which some channel delivered is a success, and so
    /// is one over no channels at all.
    ///
    /// The channels are attempted one after another. A caller that needs
    /// them attempted in parallel performs the sends itself and folds the
    /// outcomes with [`aggregate`].
    pub fn notify_all(&self, title: &str, message: &str) -> (result: Result<(), AggregateError>)
        ensures
            exists|outcomes: Seq<Option<Seq<char>>>| #[trigger]
                self.notified(title@, message@, outcomes, result),
            self.configured().len() == 0 ==> result is Ok,
            result is Err ==> result->Err_0.errors@.len() == self.configured().len(),
    {
        let mut outcomes: Vec<DispatchOutcome> = Vec::new();
        let ghost none = Seq::<ProviderKind>::empty();
        let ghost one = none + slot(self.is_configured(ProviderKind::WhatsApp), ProviderKind::WhatsApp);
        let ghost two = one + slot(self.is_configured(ProviderKind::Telegram), ProviderKind::Telegram);
        let ghost three = two + slot(self.is_configured(ProviderKind::Discord), ProviderKind::Discord);
        let ghost four = three + slot(self.is_configured(ProviderKind::Slack), ProviderKind::Slack);
        self.attempt(ProviderKind::WhatsApp, title, message, &mut outcomes, Ghost(none));
        self.attempt(ProviderKind::Telegram, title, message, &mut outcomes, Ghost(one));
        self.attempt(ProviderKind::Discord, title, message, &mut outcomes, Ghost(two));
        self.attempt(ProviderKind::Slack, title, message, &mut outcomes, Ghost(three));
        self.attempt(ProviderKind::Email, title, message, &mut outcomes, Ghost(four));
        let ghost views = outcome_views(outcomes@);
        let result = aggregate(&outcomes).into_result();
        proof {
            assert(four + slot(self.is_configured(ProviderKind::Email), ProviderKind::Email)
                =~= self.configured());
            lemma_failures_bounded(views);
            assert(fan_out(self.configured(), views, result));
            assert(self.notified(title@, message@, views, result));
            if result is Err {
                assert(texts(result->Err_0.errors@).len() == result->Err_0.errors@.len());
            }
        }
        result
    }
}

impl<C: NotificationService> NotificationManager<C> {
    /// The channel of the provider at position `i` of `kinds` is bound to
    /// fail.
    pub open spec fn fails_at(&self, kinds: Seq<ProviderKind>, i: int) -> bool {
        self.channel(kinds[i]) is Some && bound_to_fail(&(self.channel(kinds[i])->Some_0))
    }

    /// The error at position `i` is a cause that the channel of the
    /// provider at position `i` gave to this title and message, with the
    /// provider's name in front.
    pub open spec fn cause_reported(
        &self,
        title: Seq<char>,
        message: Seq<char>,
        errors: Seq<Seq<char>>,
        i: int,
    ) -> bool {
        let kind = self.configured()[i];
        exists|sent: Result<(), SendError>| #[trigger]
            self.channel(kind)->Some_0.answers(title, message, sent) && sent is Err && errors[i]
                == tagged(kind, sent->Err_0.cause@)
    }

    /// A configured provider stands somewhere among the configured ones.
    proof fn lemma_configured_index(&self, kind: ProviderKind) -> (i: int)
        requires
            self.is_configured(kind),
        ensures
            0 <= i < self.configured().len(),
            self.configured()[i] == kind,
    {
        let a = slot(self.is_configured(ProviderKind::WhatsApp), ProviderKind::WhatsApp);
        let b = slot(self.is_configured(ProviderKind::Telegram), ProviderKind::Telegram);
        let c = slot(self.is_configured(ProviderKind::Discord), ProviderKind::Discord);
        let d = slot(self.is_configured(ProviderKind::Slack), ProviderKind::Slack);
        let e = slot(self.is_configured(ProviderKind::Email), ProviderKind::Email);
        assert(self.configured() == a + b + c + d + e);
        let i: int = match kind {
            ProviderKind::WhatsApp => 0,
            ProviderKind::Telegram => a.len() as int,
            ProviderKind::Discord => (a.len() + b.len()) as int,
            ProviderKind::Slack => (a.len() + b.len() + c.len()) as int,
            ProviderKind::Email => (a.len() + b.len() + c.len() + d.len()) as int,
        };
        assert((a + b).len() == a.len() + b.len());
        assert((a + b + c).len() == a.len() + b.len() + c.len());
        assert((a + b + c + d).len() == a.len() + b.len() + c.len() + d.len());
        i
    }

    /// What the outcome of a bound channel is: a failure for one bound to
    /// fail, a delivery for one bound to deliver.
    proof fn lemma_bound_outcome(
        &self,
        title: Seq<char>,
        message: Seq<char>,
        outcomes: Seq<Option<Seq<char>>>,
        i: int,
    )
        requires
            self.answers_recorded(self.configured(), title, message, outcomes),
            0 <= i < self.configured().len(),
        ensures
            self.channel(self.configured()[i]) is Some,
            bound_to_fail(&(self.channel(self.configured()[i])->Some_0)) ==> outcomes[i] is Some,
            bound_to_deliver(&(self.channel(self.configured()[i])->Some_0))
                ==> outcomes[i] is None,
    {
        assert(self.answer_recorded(self.configured(), title, message, outcomes, i));
    }

    /// There are never more channels bound to fail than channels, and as
    /// many only when every one is.
    proof fn lemma_failing_count(&self, kinds: Seq<ProviderKind>)
        ensures
            self.failing_count(kinds) <= kinds.len(),
            self.failing_count(kinds) == kinds.len() <==> forall|i: int|
                0 <= i < kinds.len() ==> #[trigger] self.fails_at(kinds, i),
        decreases kinds.len(),
    {
        if kinds.len() > 0 {
            let init = kinds.drop_last();
            self.lemma_failing_count(init);
            let last = kinds.len() - 1;
            if forall|i: int| 0 <= i < kinds.len() ==> #[trigger] self.fails_at(kinds, i) {
                assert(self.fails_at(kinds, last));
                assert forall|i: int| 0 <= i < init.len() implies #[trigger] self.fails_at(
                    init,
                    i,
                ) by {
                    assert(self.fails_at(kinds, i));
                }
            }
            if self.failing_count(kinds) == kinds.len() {
                assert forall|i: int| 0 <= i < kinds.len() implies #[trigger] self.fails_at(
                    kinds,
                    i,
                ) by {
                    if i < init.len() {
                        assert(self.fails_at(init, i));
                    }
                }
            }
        }
    }
}

/// Where some configured channel is bound to deliver, the outcomes are not
/// a total failure.
pub proof fn lemma_delivery_outcome<C: NotificationService>(
    manager: &NotificationManager<C>,
    title: Seq<char>,
    message: Seq<char>,
    outcomes: Seq<Option<Seq<char>>>,
    delivering: ProviderKind,
)
    requires
        manager.answers_recorded(manager.configured(), title, message, outcomes),
        manager.is_configured(delivering),
        bound_to_deliver(&(manager.channel(delivering)->Some_0)),
    ensures
        !total_failure(outcomes),
{
    let i = manager.lemma_configured_index(delivering);
    manager.lemma_bound_outcome(title, message, outcomes, i);
    lemma_failures_bounded(outcomes);
}

/// Where every configured channel is bound to fail, every outcome is a
/// failure, and the failures are the causes that the channels gave, each
/// with its provider's name in front, in the order of the channels.
pub proof fn lemma_failure_outcomes<C: NotificationService>(
    manager: &NotificationManager<C>,
    title: Seq<char>,
    message: Seq<char>,
    outcomes: Seq<Option<Seq<char>>>,
)
    requires
        manager.answers_recorded(manager.configured(), title, message, outcomes),
        manager.all_bound_to_fail(),
    ensures
        failures(outcomes).len() == manager.configured().len(),
        manager.configured().len() > 0 ==> total_failure(outcomes),
        forall|i: int|
            0 <= i < manager.configured().len() ==> #[trigger] manager.cause_reported(
                title,
                message,
                failures(outcomes),
                i,
            ),
{
    let kinds = manager.configured();
    assert forall|i: int| 0 <= i < outcomes.len() implies (#[trigger] outcomes[i]) is Some by {
        manager.lemma_bound_outcome(title, message, outcomes, i);
        assert(manager.channel(kinds[i]) is Some);
    }
    lemma_failures_of_all_failed(outcomes);
    let errors = failures(outcomes);
    assert forall|i: int| 0 <= i < kinds.len() implies #[trigger] manager.cause_reported(
        title,
        message,
        errors,
        i,
    ) by {
        assert(manager.answer_recorded(kinds, title, message, outcomes, i));
        let channel = manager.channel(kinds[i])->Some_0;
        let sent = choose|sent: Result<(), SendError>| #[trigger]
            channel.answers(title, message, sent) && outcomes[i] == outcome_for(kinds[i], sent);
        assert(manager.channel(kinds[i]) is Some);
        assert(sent is Err);
        assert(errors[i] == outcomes[i]->Some_0);
    }
}

/// Where every configured channel is bound one way, the outcomes are a
/// total failure exactly when there is a channel and every channel is
/// bound to fail.
pub proof fn lemma_total_failure_by_count<C: NotificationService>(
    manager: &NotificationManager<C>,
    title: Seq<char>,
    message: Seq<char>,
    outcomes: Seq<Option<Seq<char>>>,
)
    requires
        manager.answers_recorded(manager.configured(), title, message, outcomes),
        manager.all_bound(),
    ensures
        total_failure(outcomes) <==> manager.configured().len() > 0 && manager.failing_count(
            manager.configured(),
        ) == manager.configured().len(),
{
    let kinds = manager.configured();
    manager.lemma_failing_count(kinds);
    lemma_failures_bounded(outcomes);
    if manager.failing_count(kinds) == kinds.len() {
        assert forall|i: int| 0 <= i < outcomes.len() implies (#[trigger] outcomes[i]) is Some by {
            assert(manager.fails_at(kinds, i));
            manager.lemma_bound_outcome(title, message, outcomes, i);
        }
    }
    if total_failure(outcomes) {
        assert forall|i: int| 0 <= i < kinds.len() implies #[trigger] manager.fails_at(
            kinds,
            i,
        ) by {
            assert(outcomes[i] is Some);
            manager.lemma_bound_outcome(title, message, outcomes, i);
            assert(manager.channel(kinds[i]) is Some);
        }
    }
}

/// A fan-out in which some configured channel delivers is reported as a
/// success, however many of the other channels fail.
pub proof fn law_partial_failure_succeeds<C: NotificationService>(
    manager: &NotificationManager<C>,
    title: Seq<char>,
    message: Seq<char>,
    outcomes: Seq<Option<Seq<char>>>,
    result: Result<(), AggregateError>,
    delivering: ProviderKind,
)
    requires
        manager.notified(title, message, outcomes, result),
        manager.is_configured(delivering),
        bound_to_deliver(&(manager.channel(delivering)->Some_0)),
    ensures
        result is Ok,
{
    lemma_delivery_outcome(manager, title, message, outcomes, delivering);
}

/// A fan-out over at least one channel in which every channel fails is
/// reported as a failure. The failure carries one error per configured
/// channel, in their order, and each error is the cause that its channel
/// gave, with the provider's name in front.
pub proof fn law_total_failure_reports_each<C: NotificationService>(
    manager: &NotificationManager<C>,
    title: Seq<char>,
    message: Seq<char>,
    outcomes: Seq<Option<Seq<char>>>,
    result: Result<(), AggregateError>,
)
    requires
        manager.notified(title, message, outcomes, result),
        manager.configured().len() >= 1,
        manager.all_bound_to_fail(),
    ensures
        result is Err,
        result->Err_0.errors@.len() == manager.configured().len(),
        forall|i: int|
            0 <= i < manager.configured().len() ==> #[trigger] manager.cause_reported(
                title,
                message,
                texts(result->Err_0.errors@),
                i,
            ),
{
    lemma_failure_outcomes(manager, title, message, outcomes);
    assert(texts(result->Err_0.errors@).len() == result->Err_0.errors@.len());
}

/// A fan-out over no channels is reported as a success, with no outcome
/// recorded.
pub proof fn law_no_channels_succeeds<C: NotificationService>(
    manager: &NotificationManager<C>,
    title: Seq<char>,
    message: Seq<char>,
    outcomes: Seq<Option<Seq<char>>>,
    result: Result<(), AggregateError>,
)
    requires
        manager.notified(title, message, outcomes, result),
        manager.configured().len() == 0,
    ensures
        outcomes.len() == 0,
        result is Ok,
{
}

/// Where every configured channel is bound one way, a fan-out is reported
/// as a failure exactly when there is a channel and every channel is bound
/// to fail.
pub proof fn law_failure_exactly_when_all_fail<C: NotificationService>(
    manager: &NotificationManager<C>,
    title: Seq<char>,
    message: Seq<char>,
    outcomes: Seq<Option<Seq<char>>>,
    result: Result<(), AggregateError>,
)
    requires
        manager.notified(title, message, outcomes, result),
        manager.all_bound(),
    ensures
        result is Err <==> manager.configured().len() > 0 && manager.failing_count(
            manager.configured(),
        ) == manager.configured().len(),
{
    lemma_total_failure_by_count(manager, title, message, outcomes);
}

/// The verdict depends only on how many channels there are and how many of
/// them fail, not on which providers those are: two fan-outs with the same
/// two numbers are both reported as a success or both as a failure.
pub proof fn law_verdict_depends_on_counts<C: NotificationService, D: NotificationService>(
    first: &NotificationManager<C>,
    first_title: Seq<char>,
    first_message: Seq<char>,
    first_outcomes: Seq<Option<Seq<char>>>,
    first_result: Result<(), AggregateError>,
    second: &NotificationManager<D>,
    second_title: Seq<char>,
    second_message: Seq<char>,
    second_outcomes: Seq<Option<Seq<char>>>,
    second_result: Result<(), AggregateError>,
)
    requires
        first.notified(first_title, first_message, first_outcomes, first_result),
        second.notified(second_title, second_message, second_outcomes, second_result),
        first.all_bound(),
        second.all_bound(),
        first.configured().len() == second.configured().len(),
        first.failing_count(first.configured()) == second.failing_count(second.configured()),
    ensures
        first_result is Err <==> second_result is Err,
{
    lemma_total_failure_by_count(first, first_title, first_message, first_outcomes);
    lemma_total_failure_by_count(second, second_title, second_message, second_outcomes);
}

/// Whether an HTTP status code reports success: the codes 200 to 299.
pub open spec fn is_success_status(status: u16) -> bool {
    200 <= status < 300
}

/// The cause reported when a provider could not be reached at all.
pub open spec fn transport_failure(kind: ProviderKind) -> Seq<char> {
    "Failed to send "@ + kind.label() + " message"@
}

/// The cause reported when a provider answered with a status other than
/// success.
pub open spec fn api_failure(kind: ProviderKind) -> Seq<char> {
    kind.label() + " API error"@
}

/// What one HTTP submission amounts to. `status` is the status code of the
/// provider's answer, or `None` when no answer came. A success status is a
/// delivery; every other answer, and no answer, is a failure with its
/// cause.
pub fn http_delivery(kind: ProviderKind, status: Option<u16>) -> (sent: Result<(), SendError>)
    ensures
        sent is Ok <==> status is Some && is_success_status(status->Some_0),
        sent is Err && status is Some ==> sent->Err_0.cause@ == api_failure(kind),
        sent is Err && status is None ==> sent->Err_0.cause@ == transport_failure(kind),
{
    match status {
        Some(code) => {
            if 200 <= code && code < 300 {
                Ok(())
            } else {
                let mut cause = String::from_str(kind.name());
                cause.append(" API error");
                Err(SendError { cause })
            }
        },
        None => {
            let mut cause = String::from_str("Failed to send ");
            cause.append(kind.name());
            cause.append(" message");
            Err(SendError { cause })
        },
    }
}

} // verus!
