//! Per-channel outcomes and the policy that folds them into one verdict.

use vstd::prelude::*;
use vstd::string::*;
use crate::services::{ProviderKind, SendError};

verus! {

/// What one channel made of a notification.
#[derive(Clone, Debug, PartialEq, Eq)]
pub enum DispatchOutcome {
    /// The channel delivered.
    Delivered,
    /// The channel failed; the text names the provider and the cause.
    Failed(String),
}

impl View for DispatchOutcome {
    type V = Option<Seq<char>>;

    /// `None` for a delivery, the error text for a failure.
    open spec fn view(&self) -> Option<Seq<char>> {
        match self {
            DispatchOutcome::Delivered => None,
            DispatchOutcome::Failed(text) => Some(text@),
        }
    }
}

/// An error description tagged with the provider it came from.
pub open spec fn tagged(kind: ProviderKind, cause: Seq<char>) -> Seq<char> {
    kind.label() + ": "@ + cause
}

/// The outcome that a channel's answer amounts to.
pub open spec fn outcome_for(kind: ProviderKind, sent: Result<(), SendError>) -> Option<Seq<char>> {
    match sent {
        Ok(_) => None,
        Err(error) => Some(tagged(kind, error.cause@)),
    }
}

/// Records a channel's answer: a delivery as it is, a failure with the
/// provider's name in front of its cause.
pub fn outcome_of(kind: ProviderKind, sent: Result<(), SendError>) -> (outcome: DispatchOutcome)
    ensures
        outcome@ == outcome_for(kind, sent),
{
    match sent {
        Ok(_) => DispatchOutcome::Delivered,
        Err(error) => {
            let mut text = String::from_str(kind.name());
            text.append(": ");
            text.append(error.cause.as_str());
            DispatchOutcome::Failed(text)
        },
    }
}

/// The views of a run of outcomes.
pub open spec fn outcome_views(outcomes: Seq<DispatchOutcome>) -> Seq<Option<Seq<char>>> {
    Seq::new(outcomes.len(), |i: int| outcomes[i]@)
}

/// The contents of a list of strings.
pub open spec fn texts(strings: Seq<String>) -> Seq<Seq<char>> {
    Seq::new(strings.len(), |i: int| strings[i]@)
}

/// The error texts among `outcomes`, in their order.
pub open spec fn failures(outcomes: Seq<Option<Seq<char>>>) -> Seq<Seq<char>>
    decreases outcomes.len(),
{
    if outcomes.len() == 0 {
        Seq::empty()
    } else {
        match outcomes.last() {
            Some(text) => failures(outcomes.drop_last()).push(text),
            None => failures(outcomes.drop_last()),
        }
    }
}

/// There are never more failures than outcomes, and as many only when
/// every outcome is a failure.
pub proof fn lemma_failures_bounded(outcomes: Seq<Option<Seq<char>>>)
    ensures
        failures(outcomes).len() <= outcomes.len(),
        failures(outcomes).len() == outcomes.len() <==> forall|i: int|
            0 <= i < outcomes.len() ==> (#[trigger] outcomes[i]) is Some,
        failures(outcomes).len() == 0 <==> forall|i: int|
            0 <= i < outcomes.len() ==> (#[trigger] outcomes[i]) is None,
    decreases outcomes.len(),
{
    if outcomes.len() > 0 {
        let init = outcomes.drop_last();
        lemma_failures_bounded(init);
        assert forall|i: int| 0 <= i < init.len() implies init[i] == outcomes[i] by {}
        if forall|i: int| 0 <= i < outcomes.len() ==> (#[trigger] outcomes[i]) is Some {
            assert forall|i: int| 0 <= i < init.len() implies (#[trigger] init[i]) is Some by {
                assert(outcomes[i] is Some);
            }
        }
        if forall|i: int| 0 <= i < outcomes.len() ==> (#[trigger] outcomes[i]) is None {
            assert forall|i: int| 0 <= i < init.len() implies (#[trigger] init[i]) is None by {
                assert(outcomes[i] is None);
            }
        }
        if failures(outcomes).len() == outcomes.len() {
            assert(outcomes.last() is Some);
            assert forall|i: int| 0 <= i < outcomes.len() implies (#[trigger] outcomes[i]) is Some by {
                if i < init.len() {
                    assert(init[i] is Some);
                }
            }
        }
        if failures(outcomes).len() == 0 {
            assert(outcomes.last() is None);
            assert forall|i: int| 0 <= i < outcomes.len() implies (#[trigger] outcomes[i]) is None by {
                if i < init.len() {
                    assert(init[i] is None);
                }
            }
        }
    }
}

/// When every outcome is a failure, the failures are the outcomes' own
/// texts, position for position.
pub proof fn lemma_failures_of_all_failed(outcomes: Seq<Option<Seq<char>>>)
    requires
        forall|i: int| 0 <= i < outcomes.len() ==> (#[trigger] outcomes[i]) is Some,
    ensures
        failures(outcomes).len() == outcomes.len(),
        forall|i: int| 0 <= i < outcomes.len() ==> failures(outcomes)[i] == (#[trigger] outcomes[i])->Some_0,
    decreases outcomes.len(),
{
    if outcomes.len() > 0 {
        let init = outcomes.drop_last();
        assert forall|i: int| 0 <= i < init.len() implies (#[trigger] init[i]) is Some by {
            assert(outcomes[i] is Some);
        }
        lemma_failures_of_all_failed(init);
        assert(outcomes.last() is Some);
        assert forall|i: int| 0 <= i < outcomes.len() implies failures(outcomes)[i] == (
        #[trigger] outcomes[i])->Some_0 by {
            if i < init.len() {
                assert(init[i] == outcomes[i]);
            }
        }
    }
}

/// The single verdict on one fan-out.
#[derive(Clone, Debug, PartialEq, Eq)]
pub enum AggregateOutcome {
    /// No channel failed; also the verdict when no channel is configured.
    AllSucceeded,
    /// Some channels failed and at least one delivered.
    PartialFailure(Vec<String>),
    /// Every configured channel failed.
    AllFailed(Vec<String>),
}

impl AggregateOutcome {
    /// The error texts the verdict carries.
    pub open spec fn errors(self) -> Seq<Seq<char>> {
        match self {
            AggregateOutcome::AllSucceeded => Seq::empty(),
            AggregateOutcome::PartialFailure(errors) => texts(errors@),
            AggregateOutcome::AllFailed(errors) => texts(errors@),
        }
    }
}

/// Total failure of a fan-out: the error of every configured channel.
#[derive(Clone, Debug, PartialEq, Eq)]
pub struct AggregateError {
    pub errors: Vec<String>,
}

/// The failure policy. With `C` outcomes of which `F` are failures:
/// `F == 0` is `AllSucceeded` (so is `C == 0`), `F == C > 0` is
/// `AllFailed`, anything between is `PartialFailure`. The verdict carries
/// every error text, in the order of the outcomes.
pub open spec fn policy(outcomes: Seq<Option<Seq<char>>>, total: AggregateOutcome) -> bool {
    &&& total.errors() == failures(outcomes)
    &&& total is AllSucceeded <==> failures(outcomes).len() == 0
    &&& total is AllFailed <==> outcomes.len() > 0 && failures(outcomes).len() == outcomes.len()
}

/// Whether a fan-out with these outcomes is reported to the caller as a
/// failure: only when there is at least one outcome and all are failures.
pub open spec fn total_failure(outcomes: Seq<Option<Seq<char>>>) -> bool {
    outcomes.len() > 0 && failures(outcomes).len() == outcomes.len()
}

/// `parts` written one after another with `separator` between them.
pub open spec fn joined(parts: Seq<Seq<char>>, separator: Seq<char>) -> Seq<char>
    decreases parts.len(),
{
    if parts.len() == 0 {
        Seq::empty()
    } else if parts.len() == 1 {
        parts[0]
    } else {
        joined(parts.drop_last(), separator) + separator + parts.last()
    }
}

/// The one-line account of a fan-out's failures.
pub open spec fn summary_text(errors: Seq<Seq<char>>) -> Seq<char> {
    "Some notifications failed: "@ + joined(errors, ", "@)
}

/// Writes the one-line account of `errors`: a fixed opening, then the
/// error texts separated by a comma and a space.
pub fn failure_summary(errors: &Vec<String>) -> (summary: String)
    ensures
        summary@ == summary_text(texts(errors@)),
{
    let mut list = String::new();
    let mut i: usize = 0;
    while i < errors.len()
        invariant
            i <= errors.len(),
            list@ == joined(texts(errors@).take(i as int), ", "@),
        decreases errors.len() - i,
    {
        let ghost before = texts(errors@).take(i as int);
        let ghost after = texts(errors@).take(i + 1);
        proof {
            assert(after.drop_last() =~= before);
            assert(after.last() == errors@[i as int]@);
        }
        if i > 0 {
            list.append(", ");
        } else {
            assert(list@ + errors@[i as int]@ =~= errors@[i as int]@);
        }
        list.append(errors[i].as_str());
        i = i + 1;
    }
    assert(texts(errors@).take(errors.len() as int) =~= texts(errors@));
    let mut summary = String::from_str("Some notifications failed: ");
    summary.append(list.as_str());
    summary
}

/// Folds the outcomes of one fan-out into a single verdict under the
/// failure policy. Every outcome counts as one attempted channel.
pub fn aggregate(outcomes: &Vec<DispatchOutcome>) -> (total: AggregateOutcome)
    ensures
        policy(outcome_views(outcomes@), total),
{
    let ghost views = outcome_views(outcomes@);
    let mut errors: Vec<String> = Vec::new();
    let mut i: usize = 0;
    while i < outcomes.len()
        invariant
            i <= outcomes.len(),
            views == outcome_views(outcomes@),
            texts(errors@) == failures(views.take(i as int)),
        decreases outcomes.len() - i,
    {
        let ghost grown = views.take(i + 1);
        proof {
            assert(grown.drop_last() =~= views.take(i as int));
            assert(grown.last() == outcomes@[i as int]@);
        }
        match &outcomes[i] {
            DispatchOutcome::Failed(text) => {
                let ghost old_errors = errors@;
                errors.push(text.clone());
                assert(texts(errors@) =~= texts(old_errors).push(text@));
            },
            DispatchOutcome::Delivered => {},
        }
        i = i + 1;
    }
    proof {
        assert(views.take(outcomes.len() as int) =~= views);
        lemma_failures_bounded(views);
        assert(texts(errors@).len() == errors@.len());
        assert(views.len() == outcomes@.len());
        if errors@.len() == 0 {
            assert(failures(views) =~= Seq::<Seq<char>>::empty());
        }
    }
    if errors.len() == 0 {
        AggregateOutcome::AllSucceeded
    } else if errors.len() == outcomes.len() {
        AggregateOutcome::AllFailed(errors)
    } else {
        AggregateOutcome::PartialFailure(errors)
    }
}

impl AggregateOutcome {
    /// What the caller of a fan-out is told: a failure only when every
    /// configured channel failed, success otherwise. A partial failure is
    /// still a success.
    pub fn into_result(self) -> (result: Result<(), AggregateError>)
        ensures
            result is Err <==> self is AllFailed,
            result is Err ==> result->Err_0.errors == self->AllFailed_0,
    {
        match self {
            AggregateOutcome::AllFailed(errors) => Err(AggregateError { errors }),
            _ => Ok(()),
        }
    }

    /// The warning to surface for a fan-out in which something failed;
    /// `None` when every channel delivered.
    pub fn warning(&self) -> (warning: Option<String>)
        ensures
            *self is AllSucceeded <==> warning is None,
            warning is Some ==> warning->Some_0@ == summary_text(self.errors()),
    {
        match self {
            AggregateOutcome::AllSucceeded => None,
            AggregateOutcome::PartialFailure(errors) => Some(failure_summary(errors)),
            AggregateOutcome::AllFailed(errors) => Some(failure_summary(errors)),
        }
    }
}

impl AggregateError {
    /// The error message of a total failure: the account of every
    /// channel's error.
    pub fn message(&self) -> (message: String)
        ensures
            message@ == summary_text(texts(self.errors@)),
    {
        failure_summary(&self.errors)
    }
}

} // verus!
