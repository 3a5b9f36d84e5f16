//! The approval state machine: the pending-question queue a client mirrors
//! from the daemon's projection, the selection cursor over it, the log of
//! closed verdicts, and the local subscription fan-out that thin surfaces
//! (status bar, popup, approval pane) listen on.
//!
//! Every operation is specified as a pure transition of [`ApprovalState`]; the
//! executable methods are proved to perform exactly that transition and to
//! return exactly the deliveries the fan-out prescribes.

use vstd::prelude::*;

use crate::contract::{
    AnswerProposal, ApprovalDecision, ApprovalQuestion, ApprovalVerdict, QuestionIdentifier,
    SubscriberName,
};

verus! {

// ── Local identifiers ───────────────────────────────────────────────────────

/// Local identifier for a client subscribed to approval-state changes the
/// model fans out (a status bar, a popup, an approval pane).
#[derive(Debug, Clone, Copy, PartialEq, Eq, Hash, Structural)]
pub struct ApprovalClientIdentifier(u64);

impl ApprovalClientIdentifier {
    pub closed spec fn raw(self) -> u64 {
        self.0
    }

    pub fn new(value: u64) -> (identifier: Self)
        ensures
            identifier.raw() == value,
    {
        ApprovalClientIdentifier(value)
    }

    pub fn value(&self) -> (value: u64)
        ensures
            value == self.raw(),
    {
        self.0
    }
}

/// Local identifier for one approval-state subscription the model holds.
#[derive(Debug, Clone, Copy, PartialEq, Eq, Hash, Structural)]
pub struct ApprovalSubscriptionIdentifier(u64);

impl ApprovalSubscriptionIdentifier {
    pub closed spec fn raw(self) -> u64 {
        self.0
    }

    pub fn new(value: u64) -> (identifier: Self)
        ensures
            identifier.raw() == value,
    {
        ApprovalSubscriptionIdentifier(value)
    }

    pub fn value(&self) -> (value: u64)
        ensures
            value == self.raw(),
    {
        self.0
    }
}

/// An identifier is determined by its value.
pub proof fn lemma_identifiers_are_their_values(
    a: ApprovalClientIdentifier,
    b: ApprovalClientIdentifier,
    c: ApprovalSubscriptionIdentifier,
    d: ApprovalSubscriptionIdentifier,
)
    ensures
        (a.raw() == b.raw()) == (a == b),
        (c.raw() == d.raw()) == (c == d),
{
}

// ── Interest and updates ────────────────────────────────────────────────────

/// Which approval-state updates a local client wants.
#[derive(Debug, Clone, Copy, PartialEq, Eq, Structural)]
pub enum ApprovalInterest {
    All,
    PendingQuestions,
    AnsweredVerdicts,
}

impl ApprovalInterest {
    /// `All` takes every update; `PendingQuestions` takes snapshots, arrivals
    /// and selections; `AnsweredVerdicts` takes snapshots and answers.
    pub open spec fn admits(self, update: ApprovalUpdate) -> bool {
        match self {
            ApprovalInterest::All => true,
            ApprovalInterest::PendingQuestions => {
                ||| update is Snapshot
                ||| update is QuestionReceived
                ||| update is QuestionSelected
            },
            ApprovalInterest::AnsweredVerdicts => {
                ||| update is Snapshot
                ||| update is QuestionAnswered
            },
        }
    }

    fn accepts(&self, update: &ApprovalUpdate) -> (accepted: bool)
        ensures
            accepted == self.admits(*update),
    {
        match self {
            ApprovalInterest::All => true,
            ApprovalInterest::PendingQuestions => match update {
                ApprovalUpdate::Snapshot(_) => true,
                ApprovalUpdate::QuestionReceived(_) => true,
                ApprovalUpdate::QuestionSelected(_) => true,
                ApprovalUpdate::QuestionAnswered(_) => false,
            },
            ApprovalInterest::AnsweredVerdicts => match update {
                ApprovalUpdate::Snapshot(_) => true,
                ApprovalUpdate::QuestionAnswered(_) => true,
                _ => false,
            },
        }
    }
}

/// Pure-data approval snapshot a shell paints.
#[derive(Debug, PartialEq, Eq)]
pub struct ApprovalView {
    pub current: Option<ApprovalQuestion>,
    pub pending_count: usize,
    pub answered_count: usize,
    pub subscription_count: usize,
}

impl Clone for ApprovalView {
    fn clone(&self) -> (copy: Self)
        ensures
            copy == *self,
    {
        ApprovalView {
            current: match &self.current {
                Some(question) => Some(question.clone()),
                None => None,
            },
            pending_count: self.pending_count,
            answered_count: self.answered_count,
            subscription_count: self.subscription_count,
        }
    }
}

/// One approval-state update the model fans out to local subscribers.
#[derive(Debug, PartialEq, Eq)]
pub enum ApprovalUpdate {
    Snapshot(ApprovalView),
    QuestionReceived(ApprovalQuestion),
    QuestionSelected(QuestionIdentifier),
    QuestionAnswered(ApprovalVerdict),
}

impl Clone for ApprovalUpdate {
    fn clone(&self) -> (copy: Self)
        ensures
            copy == *self,
    {
        match self {
            ApprovalUpdate::Snapshot(view) => ApprovalUpdate::Snapshot(view.clone()),
            ApprovalUpdate::QuestionReceived(question) => ApprovalUpdate::QuestionReceived(
                question.clone(),
            ),
            ApprovalUpdate::QuestionSelected(identifier) => ApprovalUpdate::QuestionSelected(
                identifier.clone(),
            ),
            ApprovalUpdate::QuestionAnswered(verdict) => ApprovalUpdate::QuestionAnswered(
                verdict.clone(),
            ),
        }
    }
}

// ── Subscriptions and deliveries ────────────────────────────────────────────

/// One local client subscription over the approval state.
#[derive(Debug, Clone, Copy, PartialEq, Eq)]
pub struct ApprovalSubscription {
    identifier: ApprovalSubscriptionIdentifier,
    client: ApprovalClientIdentifier,
    interest: ApprovalInterest,
}

impl ApprovalSubscription {
    pub closed spec fn subscription_identifier(self) -> ApprovalSubscriptionIdentifier {
        self.identifier
    }

    pub closed spec fn subscribed_client(self) -> ApprovalClientIdentifier {
        self.client
    }

    pub closed spec fn subscribed_interest(self) -> ApprovalInterest {
        self.interest
    }

    /// The delivery this subscription receives for an update: one carrying
    /// the update to this subscription's client when its interest admits the
    /// update, none otherwise.
    pub closed spec fn delivery_of(self, update: ApprovalUpdate) -> Option<ApprovalDelivery> {
        if self.interest.admits(update) {
            Some(ApprovalDelivery { subscription: self.identifier, client: self.client, update })
        } else {
            None
        }
    }

    pub fn new(
        identifier: ApprovalSubscriptionIdentifier,
        client: ApprovalClientIdentifier,
        interest: ApprovalInterest,
    ) -> (subscription: Self)
        ensures
            subscription.subscription_identifier() == identifier,
            subscription.subscribed_client() == client,
            subscription.subscribed_interest() == interest,
    {
        ApprovalSubscription { identifier, client, interest }
    }

    pub fn identifier(&self) -> (identifier: ApprovalSubscriptionIdentifier)
        ensures
            identifier == self.subscription_identifier(),
    {
        self.identifier
    }

    pub fn client(&self) -> (client: ApprovalClientIdentifier)
        ensures
            client == self.subscribed_client(),
    {
        self.client
    }

    fn delivery_for(&self, update: &ApprovalUpdate) -> (delivery: Option<ApprovalDelivery>)
        ensures
            delivery == self.delivery_of(*update),
    {
        if self.interest.accepts(update) {
            Some(ApprovalDelivery::new(self.identifier, self.client, update.clone()))
        } else {
            None
        }
    }
}

/// One update routed to one local subscriber.
#[derive(Debug, Clone, PartialEq, Eq)]
pub struct ApprovalDelivery {
    subscription: ApprovalSubscriptionIdentifier,
    client: ApprovalClientIdentifier,
    update: ApprovalUpdate,
}

impl ApprovalDelivery {
    pub closed spec fn delivered_subscription(self) -> ApprovalSubscriptionIdentifier {
        self.subscription
    }

    pub closed spec fn delivered_client(self) -> ApprovalClientIdentifier {
        self.client
    }

    pub closed spec fn delivered_update(self) -> ApprovalUpdate {
        self.update
    }

    pub fn new(
        subscription: ApprovalSubscriptionIdentifier,
        client: ApprovalClientIdentifier,
        update: ApprovalUpdate,
    ) -> (delivery: Self)
        ensures
            delivery.delivered_subscription() == subscription,
            delivery.delivered_client() == client,
            delivery.delivered_update() == update,
    {
        ApprovalDelivery { subscription, client, update }
    }

    pub fn subscription(&self) -> (subscription: ApprovalSubscriptionIdentifier)
        ensures
            subscription == self.delivered_subscription(),
    {
        self.subscription
    }

    pub fn client(&self) -> (client: ApprovalClientIdentifier)
        ensures
            client == self.delivered_client(),
    {
        self.client
    }

    pub fn update(&self) -> (update: &ApprovalUpdate)
        ensures
            *update == self.delivered_update(),
    {
        &self.update
    }
}

/// The deliveries an update produces over a list of subscriptions, in
/// subscription order.
pub closed spec fn deliveries_over(
    subscriptions: Seq<ApprovalSubscription>,
    update: ApprovalUpdate,
) -> Seq<ApprovalDelivery>
    decreases subscriptions.len(),
{
    if subscriptions.len() == 0 {
        Seq::empty()
    } else {
        let earlier = deliveries_over(subscriptions.drop_last(), update);
        match subscriptions.last().delivery_of(update) {
            Some(delivery) => earlier.push(delivery),
            None => earlier,
        }
    }
}

/// Receipt returned when a local client subscribes: the subscription plus the
/// snapshot it opens with.
#[derive(Debug, Clone, PartialEq, Eq)]
pub struct ApprovalSubscriptionReceipt {
    subscription: ApprovalSubscription,
    snapshot: ApprovalView,
}

impl ApprovalSubscriptionReceipt {
    pub closed spec fn receipt_subscription(self) -> ApprovalSubscription {
        self.subscription
    }

    pub closed spec fn receipt_snapshot(self) -> ApprovalView {
        self.snapshot
    }

    pub fn subscription(&self) -> (subscription: &ApprovalSubscription)
        ensures
            *subscription == self.receipt_subscription(),
    {
        &self.subscription
    }

    pub fn snapshot(&self) -> (snapshot: &ApprovalView)
        ensures
            *snapshot == self.receipt_snapshot(),
    {
        &self.snapshot
    }
}

/// The result of answering: the question removed from the queue (if any), the
/// verdict taken (if any), and the deliveries the answer generated.
#[derive(Debug, Clone, PartialEq, Eq)]
pub struct ApprovalAnswerOutcome {
    answered: Option<ApprovalQuestion>,
    verdict: Option<ApprovalVerdict>,
    deliveries: Vec<ApprovalDelivery>,
}

impl ApprovalAnswerOutcome {
    pub closed spec fn removed_question(self) -> Option<ApprovalQuestion> {
        self.answered
    }

    pub closed spec fn taken_verdict(self) -> Option<ApprovalVerdict> {
        self.verdict
    }

    pub closed spec fn outcome_deliveries(self) -> Seq<ApprovalDelivery> {
        self.deliveries@
    }

    pub fn answered(&self) -> (answered: Option<&ApprovalQuestion>)
        ensures
            match answered {
                Some(question) => self.removed_question() == Some(*question),
                None => self.removed_question() is None,
            },
    {
        match &self.answered {
            Some(question) => Some(question),
            None => None,
        }
    }

    pub fn verdict(&self) -> (verdict: Option<&ApprovalVerdict>)
        ensures
            match verdict {
                Some(taken) => self.taken_verdict() == Some(*taken),
                None => self.taken_verdict() is None,
            },
    {
        match &self.verdict {
            Some(taken) => Some(taken),
            None => None,
        }
    }

    pub fn deliveries(&self) -> (deliveries: &[ApprovalDelivery])
        ensures
            deliveries@ == self.outcome_deliveries(),
    {
        self.deliveries.as_slice()
    }
}

// ── Queue lookups ───────────────────────────────────────────────────────────

/// Whether a question carries the given identifier.
pub open spec fn names_question(question: ApprovalQuestion, identifier: QuestionIdentifier) -> bool {
    question.question_identifier@ == identifier@
}

/// Whether some question in the queue carries the identifier.
pub open spec fn holds_question(
    pending: Seq<ApprovalQuestion>,
    identifier: QuestionIdentifier,
) -> bool {
    exists|i: int| 0 <= i < pending.len() && names_question(#[trigger] pending[i], identifier)
}

/// `index` is the first position of the queue carrying the identifier.
pub open spec fn is_first_match(
    pending: Seq<ApprovalQuestion>,
    identifier: QuestionIdentifier,
    index: int,
) -> bool {
    &&& 0 <= index < pending.len()
    &&& names_question(pending[index], identifier)
    &&& forall|j: int| 0 <= j < index ==> !names_question(#[trigger] pending[j], identifier)
}

/// The first position of the queue carrying the identifier (meaningful when
/// [`holds_question`] holds).
pub open spec fn first_match(pending: Seq<ApprovalQuestion>, identifier: QuestionIdentifier) -> int {
    choose|index: int| is_first_match(pending, identifier, index)
}

proof fn lemma_first_match_below(
    pending: Seq<ApprovalQuestion>,
    identifier: QuestionIdentifier,
    index: int,
)
    requires
        0 <= index < pending.len(),
        names_question(pending[index], identifier),
    ensures
        exists|k: int| is_first_match(pending, identifier, k),
    decreases index,
{
    if exists|j: int| 0 <= j < index && names_question(#[trigger] pending[j], identifier) {
        let j = choose|j: int| 0 <= j < index && names_question(#[trigger] pending[j], identifier);
        lemma_first_match_below(pending, identifier, j);
    } else {
        assert(is_first_match(pending, identifier, index));
    }
}

/// When the queue holds the identifier, [`first_match`] is its first
/// position, and it is the only first position.
pub proof fn lemma_first_match(
    pending: Seq<ApprovalQuestion>,
    identifier: QuestionIdentifier,
    index: int,
)
    ensures
        holds_question(pending, identifier) ==> is_first_match(
            pending,
            identifier,
            first_match(pending, identifier),
        ),
        is_first_match(pending, identifier, index) ==> first_match(pending, identifier) == index,
{
    if holds_question(pending, identifier) {
        let i = choose|i: int|
            0 <= i < pending.len() && names_question(#[trigger] pending[i], identifier);
        lemma_first_match_below(pending, identifier, i);
    }
    if is_first_match(pending, identifier, index) {
        let other = first_match(pending, identifier);
        assert(is_first_match(pending, identifier, other));
        if other < index {
            assert(!names_question(pending[other], identifier));
        } else if index < other {
            assert(!names_question(pending[index], identifier));
        }
    }
}

/// `index` is the first position of the subscription list with the identifier.
pub closed spec fn is_first_subscription(
    subscriptions: Seq<ApprovalSubscription>,
    identifier: ApprovalSubscriptionIdentifier,
    index: int,
) -> bool {
    &&& 0 <= index < subscriptions.len()
    &&& subscriptions[index].identifier == identifier
    &&& forall|j: int|
        0 <= j < index ==> (#[trigger] subscriptions[j]).identifier != identifier
}

// ── The approval state ──────────────────────────────────────────────────────

/// The abstract state of an [`ApprovalModel`].
pub struct ApprovalState {
    pub pending: Seq<ApprovalQuestion>,
    pub selected: Option<QuestionIdentifier>,
    pub answered: Seq<ApprovalVerdict>,
    pub subscriptions: Seq<ApprovalSubscription>,
    pub next_subscription: nat,
}

impl ApprovalState {
    /// The state a fresh model starts in.
    pub open spec fn initial() -> ApprovalState {
        ApprovalState {
            pending: Seq::empty(),
            selected: None,
            answered: Seq::empty(),
            subscriptions: Seq::empty(),
            next_subscription: 0,
        }
    }

    /// The cursor names a pending question, and a non-empty queue always has
    /// a cursor.
    pub open spec fn cursor_on_pending(self) -> bool {
        &&& (self.selected is None) == (self.pending.len() == 0)
        &&& (self.selected matches Some(identifier) ==> holds_question(self.pending, identifier))
    }

    /// Subscription identifiers are distinct and all below the next one to be
    /// minted.
    pub closed spec fn subscriptions_fresh(self) -> bool {
        &&& self.next_subscription <= u64::MAX
        &&& forall|i: int|
            0 <= i < self.subscriptions.len() ==> ((#[trigger] self.subscriptions[i]).identifier.0
                as nat) < self.next_subscription
        &&& forall|i: int, j: int|
            0 <= i < j < self.subscriptions.len() ==> (#[trigger] self.subscriptions[i]).identifier
                != (#[trigger] self.subscriptions[j]).identifier
    }

    /// The model's invariant.
    pub open spec fn well_formed(self) -> bool {
        &&& self.cursor_on_pending()
        &&& self.subscriptions_fresh()
    }

    /// The question under the cursor.
    pub open spec fn current(self) -> Option<ApprovalQuestion> {
        match self.selected {
            Some(identifier) => if holds_question(self.pending, identifier) {
                Some(self.pending[first_match(self.pending, identifier)])
            } else {
                None
            },
            None => None,
        }
    }

    /// The snapshot a shell paints.
    pub open spec fn snapshot(self) -> ApprovalView {
        ApprovalView {
            current: self.current(),
            pending_count: self.pending.len() as usize,
            answered_count: self.answered.len() as usize,
            subscription_count: self.subscriptions.len() as usize,
        }
    }

    /// The deliveries an update produces over this state's subscriptions.
    pub open spec fn fan_out(self, update: ApprovalUpdate) -> Seq<ApprovalDelivery> {
        deliveries_over(self.subscriptions, update)
    }

    /// Replace the queue with a projected one; the cursor stays where it is
    /// when the new queue still holds it, and otherwise moves to the first
    /// question (or to none on an empty queue).
    pub open spec fn absorbed(self, pending: Seq<ApprovalQuestion>) -> ApprovalState {
        let survives = match self.selected {
            Some(identifier) => holds_question(pending, identifier),
            None => false,
        };
        ApprovalState {
            pending,
            selected: if survives {
                self.selected
            } else if pending.len() > 0 {
                Some(pending[0].question_identifier)
            } else {
                None
            },
            ..self
        }
    }

    /// Append one arrived question; it takes the cursor when none is set.
    pub open spec fn received(self, question: ApprovalQuestion) -> ApprovalState {
        ApprovalState {
            pending: self.pending.push(question),
            selected: if self.selected is None {
                Some(question.question_identifier)
            } else {
                self.selected
            },
            ..self
        }
    }

    /// Move the cursor to a pending question; an identifier that is not
    /// pending changes nothing.
    pub open spec fn selecting(self, identifier: QuestionIdentifier) -> ApprovalState {
        if holds_question(self.pending, identifier) {
            ApprovalState { selected: Some(identifier), ..self }
        } else {
            self
        }
    }

    /// Whether a verdict closes a pending question: it is binding (not
    /// `Defer`) and its question is pending.
    pub open spec fn closes_question(self, verdict: ApprovalVerdict) -> bool {
        &&& verdict.approval_decision != ApprovalDecision::Defer
        &&& holds_question(self.pending, verdict.question_identifier)
    }

    /// Whether a verdict is taken at all: a `Defer`, or a binding verdict on a
    /// pending question.
    pub open spec fn takes_verdict(self, verdict: ApprovalVerdict) -> bool {
        verdict.approval_decision == ApprovalDecision::Defer || self.closes_question(verdict)
    }

    /// Record a verdict. `Defer` only moves the cursor onto its question; a
    /// binding verdict on a pending question removes the first question with
    /// that identifier, logs the verdict, and moves the cursor to the question
    /// now at the removed position (or the last one, or none); a binding
    /// verdict on a question that is not pending changes nothing.
    pub open spec fn answering(self, verdict: ApprovalVerdict) -> ApprovalState {
        if verdict.approval_decision == ApprovalDecision::Defer {
            self.selecting(verdict.question_identifier)
        } else if self.closes_question(verdict) {
            let index = first_match(self.pending, verdict.question_identifier);
            let rest = self.pending.remove(index);
            ApprovalState {
                pending: rest,
                answered: self.answered.push(verdict),
                selected: if index < rest.len() {
                    Some(rest[index].question_identifier)
                } else if rest.len() > 0 {
                    Some(rest.last().question_identifier)
                } else {
                    None
                },
                ..self
            }
        } else {
            self
        }
    }

    /// The question a verdict removes from the queue.
    pub open spec fn removed_by(self, verdict: ApprovalVerdict) -> Option<ApprovalQuestion> {
        if self.closes_question(verdict) {
            Some(self.pending[first_match(self.pending, verdict.question_identifier)])
        } else {
            None
        }
    }

    /// The deliveries answering produces: a selection update for a `Defer` on a
    /// pending question, an answer update for a verdict that closes a
    /// question, and none otherwise.
    pub open spec fn answer_deliveries(self, verdict: ApprovalVerdict) -> Seq<ApprovalDelivery> {
        if verdict.approval_decision == ApprovalDecision::Defer {
            if holds_question(self.pending, verdict.question_identifier) {
                self.fan_out(ApprovalUpdate::QuestionSelected(verdict.question_identifier))
            } else {
                Seq::empty()
            }
        } else if self.closes_question(verdict) {
            self.answering(verdict).fan_out(ApprovalUpdate::QuestionAnswered(verdict))
        } else {
            Seq::empty()
        }
    }

    /// Add a subscription under the next identifier.
    pub closed spec fn subscribed(
        self,
        client: ApprovalClientIdentifier,
        interest: ApprovalInterest,
    ) -> ApprovalState {
        ApprovalState {
            subscriptions: self.subscriptions.push(
                ApprovalSubscription {
                    identifier: ApprovalSubscriptionIdentifier(self.next_subscription as u64),
                    client,
                    interest,
                },
            ),
            next_subscription: self.next_subscription + 1,
            ..self
        }
    }

    /// Whether a subscription with the identifier is held.
    pub closed spec fn holds_subscription(self, identifier: ApprovalSubscriptionIdentifier) -> bool {
        exists|i: int|
            0 <= i < self.subscriptions.len() && (#[trigger] self.subscriptions[i]).identifier
                == identifier
    }

    /// Remove the first subscription with the identifier; an identifier that
    /// is not held changes nothing.
    pub closed spec fn unsubscribed(self, identifier: ApprovalSubscriptionIdentifier) -> ApprovalState {
        if self.holds_subscription(identifier) {
            let index = choose|index: int|
                is_first_subscription(self.subscriptions, identifier, index);
            ApprovalState { subscriptions: self.subscriptions.remove(index), ..self }
        } else {
            self
        }
    }
}

proof fn lemma_first_subscription_below(
    subscriptions: Seq<ApprovalSubscription>,
    identifier: ApprovalSubscriptionIdentifier,
    index: int,
)
    requires
        0 <= index < subscriptions.len(),
        subscriptions[index].identifier == identifier,
    ensures
        exists|k: int| is_first_subscription(subscriptions, identifier, k),
    decreases index,
{
    if exists|j: int| 0 <= j < index && (#[trigger] subscriptions[j]).identifier == identifier {
        let j = choose|j: int| 0 <= j < index && (#[trigger] subscriptions[j]).identifier == identifier;
        lemma_first_subscription_below(subscriptions, identifier, j);
    } else {
        assert(is_first_subscription(subscriptions, identifier, index));
    }
}

proof fn lemma_first_subscription_unique(
    subscriptions: Seq<ApprovalSubscription>,
    identifier: ApprovalSubscriptionIdentifier,
    a: int,
    b: int,
)
    requires
        is_first_subscription(subscriptions, identifier, a),
        is_first_subscription(subscriptions, identifier, b),
    ensures
        a == b,
{
    if a < b {
        assert(subscriptions[a].identifier != identifier);
    } else if b < a {
        assert(subscriptions[b].identifier != identifier);
    }
}

/// The fan-out is exact: every delivery carries the update to a subscription
/// whose interest admits it, and every subscription whose interest admits the
/// update receives a delivery, each to its own client.
pub proof fn lemma_fan_out_exact(subscriptions: Seq<ApprovalSubscription>, update: ApprovalUpdate)
    ensures
        ({
            let fan = deliveries_over(subscriptions, update);
            &&& forall|k: int|
                0 <= k < fan.len() ==> exists|i: int|
                    0 <= i < subscriptions.len() && subscriptions[i].delivery_of(update) == Some(
                        #[trigger] fan[k],
                    )
            &&& forall|i: int|
                0 <= i < subscriptions.len() && (
                #[trigger] subscriptions[i]).subscribed_interest().admits(update) ==> exists|k: int|
                    0 <= k < fan.len() && subscriptions[i].delivery_of(update) == Some(fan[k])
        }),
        forall|i: int|
            0 <= i < subscriptions.len() ==> match (#[trigger] subscriptions[i]).delivery_of(
                update,
            ) {
                Some(delivery) => {
                    &&& subscriptions[i].subscribed_interest().admits(update)
                    &&& delivery.delivered_subscription() == subscriptions[i].subscription_identifier()
                    &&& delivery.delivered_client() == subscriptions[i].subscribed_client()
                    &&& delivery.delivered_update() == update
                },
                None => !subscriptions[i].subscribed_interest().admits(update),
            },
    decreases subscriptions.len(),
{
    if subscriptions.len() > 0 {
        let earlier = subscriptions.drop_last();
        lemma_fan_out_exact(earlier, update);
        let fan = deliveries_over(subscriptions, update);
        let fan_earlier = deliveries_over(earlier, update);
        let last = subscriptions.len() - 1;
        assert forall|k: int| 0 <= k < fan.len() implies exists|i: int|
            0 <= i < subscriptions.len() && subscriptions[i].delivery_of(update) == Some(
                #[trigger] fan[k],
            ) by {
            if k < fan_earlier.len() {
                let i = choose|i: int|
                    0 <= i < earlier.len() && earlier[i].delivery_of(update) == Some(
                        #[trigger] fan_earlier[k],
                    );
                assert(subscriptions[i] == earlier[i]);
            } else {
                assert(subscriptions[last].delivery_of(update) == Some(fan[k]));
            }
        }
        assert forall|i: int|
            0 <= i < subscriptions.len() && (#[trigger] subscriptions[i]).subscribed_interest().admits(
                update,
            ) implies exists|k: int|
            0 <= k < fan.len() && subscriptions[i].delivery_of(update) == Some(fan[k]) by {
            if i < last {
                assert(earlier[i] == subscriptions[i]);
                let k = choose|k: int|
                    0 <= k < fan_earlier.len() && earlier[i].delivery_of(update) == Some(
                        fan_earlier[k],
                    );
                assert(fan[k] == fan_earlier[k]);
            } else {
                assert(fan[fan_earlier.len() as int] == subscriptions[i].delivery_of(
                    update,
                ).unwrap());
            }
        }
    }
}

/// A subscription added by `subscribe` is removed again by `unsubscribe` on
/// the identifier it was given, and the subscription list is then exactly what
/// it was before; nothing else of the state changes either way except the
/// identifier counter.
pub proof fn lemma_subscribe_then_unsubscribe(
    state: ApprovalState,
    client: ApprovalClientIdentifier,
    interest: ApprovalInterest,
)
    requires
        state.well_formed(),
        state.next_subscription < u64::MAX,
    ensures
        ({
            let added = state.subscribed(client, interest);
            let identifier = added.subscriptions.last().subscription_identifier();
            &&& identifier.raw() == state.next_subscription
            &&& !state.holds_subscription(identifier)
            &&& added.holds_subscription(identifier)
            &&& added.unsubscribed(identifier).subscriptions == state.subscriptions
            &&& added.unsubscribed(identifier).pending == state.pending
            &&& added.unsubscribed(identifier).selected == state.selected
            &&& added.unsubscribed(identifier).answered == state.answered
        }),
{
    let added = state.subscribed(client, interest);
    let identifier = added.subscriptions.last().identifier;
    let last = state.subscriptions.len() as int;
    assert(added.subscriptions[last].identifier == identifier);
    if state.holds_subscription(identifier) {
        let i = choose|i: int|
            0 <= i < state.subscriptions.len() && (#[trigger] state.subscriptions[i]).identifier
                == identifier;
        assert((state.subscriptions[i].identifier.0 as nat) < state.next_subscription);
    }
    assert(forall|j: int|
        0 <= j < last ==> (#[trigger] added.subscriptions[j]) == state.subscriptions[j]);
    assert(is_first_subscription(added.subscriptions, identifier, last)) by {
        assert forall|j: int| 0 <= j < last implies (#[trigger] added.subscriptions[j]).identifier
            != identifier by {
            assert(added.subscriptions[j] == state.subscriptions[j]);
            assert((state.subscriptions[j].identifier.0 as nat) < state.next_subscription);
        }
    }
    let index = choose|index: int| is_first_subscription(added.subscriptions, identifier, index);
    lemma_first_subscription_unique(added.subscriptions, identifier, index, last);
    assert(added.subscriptions.remove(last) =~= state.subscriptions);
}

/// A `Defer` never changes the queue or the verdict log; it only moves the
/// cursor, and only onto a pending question.
pub proof fn lemma_defer_keeps_question_pending(state: ApprovalState, verdict: ApprovalVerdict)
    requires
        verdict.approval_decision == ApprovalDecision::Defer,
    ensures
        state.answering(verdict).pending == state.pending,
        state.answering(verdict).answered == state.answered,
        state.answering(verdict).subscriptions == state.subscriptions,
        holds_question(state.pending, verdict.question_identifier) ==> state.answering(
            verdict,
        ).selected == Some(verdict.question_identifier),
        !holds_question(state.pending, verdict.question_identifier) ==> state.answering(verdict)
            == state,
        state.removed_by(verdict) is None,
{
}

/// A binding verdict on a pending question removes exactly that question from
/// the queue (the first one carrying its identifier), keeps the others in
/// order, and appends the verdict to the log; a binding verdict on a question
/// that is not pending changes nothing.
pub proof fn lemma_binding_verdict_closes_question(state: ApprovalState, verdict: ApprovalVerdict)
    requires
        verdict.approval_decision != ApprovalDecision::Defer,
    ensures
        holds_question(state.pending, verdict.question_identifier) ==> {
            let index = first_match(state.pending, verdict.question_identifier);
            &&& 0 <= index < state.pending.len()
            &&& names_question(state.pending[index], verdict.question_identifier)
            &&& state.answering(verdict).pending == state.pending.remove(index)
            &&& state.answering(verdict).pending.len() + 1 == state.pending.len()
            &&& state.answering(verdict).answered == state.answered.push(verdict)
            &&& state.removed_by(verdict) == Some(state.pending[index])
        },
        !holds_question(state.pending, verdict.question_identifier) ==> state.answering(verdict)
            == state,
{
    lemma_first_match(state.pending, verdict.question_identifier, 0);
}

/// Absorbing a projected queue keeps the invariant: the cursor survives only
/// onto a question the new queue holds, or moves to its first question.
pub proof fn lemma_absorbed_keeps_well_formed(state: ApprovalState, pending: Seq<ApprovalQuestion>)
    requires
        state.well_formed(),
    ensures
        state.absorbed(pending).well_formed(),
{
    if pending.len() > 0 {
        assert(names_question(pending[0], pending[0].question_identifier));
    }
}

/// Receiving a question keeps the invariant.
pub proof fn lemma_received_keeps_well_formed(state: ApprovalState, question: ApprovalQuestion)
    requires
        state.well_formed(),
    ensures
        state.received(question).well_formed(),
{
    let received = state.received(question);
    let last = state.pending.len() as int;
    assert(names_question(received.pending[last], question.question_identifier));
    if let Some(held) = state.selected {
        let i = choose|i: int|
            0 <= i < state.pending.len() && names_question(#[trigger] state.pending[i], held);
        assert(received.pending[i] == state.pending[i]);
    }
}

/// Selecting keeps the invariant: the cursor only moves onto a pending
/// question.
pub proof fn lemma_selecting_keeps_well_formed(state: ApprovalState, identifier: QuestionIdentifier)
    requires
        state.well_formed(),
    ensures
        state.selecting(identifier).well_formed(),
{
}

/// Answering keeps the invariant: a closed question's cursor moves to a
/// question that is still pending, or to none when the queue empties.
pub proof fn lemma_answering_keeps_well_formed(state: ApprovalState, verdict: ApprovalVerdict)
    requires
        state.well_formed(),
    ensures
        state.answering(verdict).well_formed(),
{
    if verdict.approval_decision != ApprovalDecision::Defer && state.closes_question(verdict) {
        lemma_first_match(state.pending, verdict.question_identifier, 0);
        let index = first_match(state.pending, verdict.question_identifier);
        let rest = state.pending.remove(index);
        if index < rest.len() {
            assert(names_question(rest[index], rest[index].question_identifier));
        } else if rest.len() > 0 {
            assert(names_question(rest[rest.len() - 1], rest.last().question_identifier));
        }
    }
}

/// Unsubscribing keeps the invariant.
pub proof fn lemma_unsubscribed_keeps_well_formed(
    state: ApprovalState,
    subscription: ApprovalSubscriptionIdentifier,
)
    requires
        state.well_formed(),
    ensures
        state.unsubscribed(subscription).well_formed(),
{
    if state.holds_subscription(subscription) {
        let i = choose|i: int|
            0 <= i < state.subscriptions.len() && (#[trigger] state.subscriptions[i]).identifier
                == subscription;
        lemma_first_subscription_below(state.subscriptions, subscription, i);
        let index = choose|index: int|
            is_first_subscription(state.subscriptions, subscription, index);
        let rest = state.subscriptions.remove(index);
        assert forall|a: int, b: int| 0 <= a < b < rest.len() implies (#[trigger] rest[a]).identifier
            != (#[trigger] rest[b]).identifier by {
            let oa = if a < index { a } else { a + 1 };
            let ob = if b < index { b } else { b + 1 };
            assert(rest[a] == state.subscriptions[oa]);
            assert(rest[b] == state.subscriptions[ob]);
        }
        assert forall|a: int| 0 <= a < rest.len() implies ((#[trigger] rest[a]).identifier.0 as nat)
            < state.next_subscription by {
            let oa = if a < index { a } else { a + 1 };
            assert(rest[a] == state.subscriptions[oa]);
        }
    }
}

/// Subscribing keeps the invariant while identifiers remain to be minted.
pub proof fn lemma_subscribe_keeps_well_formed(
    state: ApprovalState,
    client: ApprovalClientIdentifier,
    interest: ApprovalInterest,
)
    requires
        state.well_formed(),
        state.next_subscription < u64::MAX,
    ensures
        state.subscribed(client, interest).well_formed(),
{
    let added = state.subscribed(client, interest);
    let last = state.subscriptions.len() as int;
    assert forall|a: int, b: int|
        0 <= a < b < added.subscriptions.len() implies (#[trigger] added.subscriptions[a]).identifier
        != (#[trigger] added.subscriptions[b]).identifier by {
        assert(added.subscriptions[a] == state.subscriptions[a]);
        if b < last {
            assert(added.subscriptions[b] == state.subscriptions[b]);
        } else {
            assert((state.subscriptions[a].identifier.0 as nat) < state.next_subscription);
        }
    }
    assert forall|a: int| 0 <= a < added.subscriptions.len() implies ((
    #[trigger] added.subscriptions[a]).identifier.0 as nat) < added.next_subscription by {
        if a < last {
            assert(added.subscriptions[a] == state.subscriptions[a]);
        }
    }
}

/// What each interest admits: `All` every update; `PendingQuestions`
/// snapshots, arrivals and selections but not answers; `AnsweredVerdicts`
/// snapshots and answers but neither arrivals nor selections.
pub proof fn lemma_interest_admission(
    view: ApprovalView,
    question: ApprovalQuestion,
    identifier: QuestionIdentifier,
    verdict: ApprovalVerdict,
)
    ensures
        ApprovalInterest::All.admits(ApprovalUpdate::Snapshot(view)),
        ApprovalInterest::All.admits(ApprovalUpdate::QuestionReceived(question)),
        ApprovalInterest::All.admits(ApprovalUpdate::QuestionSelected(identifier)),
        ApprovalInterest::All.admits(ApprovalUpdate::QuestionAnswered(verdict)),
        ApprovalInterest::PendingQuestions.admits(ApprovalUpdate::Snapshot(view)),
        ApprovalInterest::PendingQuestions.admits(ApprovalUpdate::QuestionReceived(question)),
        ApprovalInterest::PendingQuestions.admits(ApprovalUpdate::QuestionSelected(identifier)),
        !ApprovalInterest::PendingQuestions.admits(ApprovalUpdate::QuestionAnswered(verdict)),
        ApprovalInterest::AnsweredVerdicts.admits(ApprovalUpdate::Snapshot(view)),
        !ApprovalInterest::AnsweredVerdicts.admits(ApprovalUpdate::QuestionReceived(question)),
        !ApprovalInterest::AnsweredVerdicts.admits(ApprovalUpdate::QuestionSelected(identifier)),
        ApprovalInterest::AnsweredVerdicts.admits(ApprovalUpdate::QuestionAnswered(verdict)),
{
}

/// Cursor moves and arrivals are never delivered to a subscriber that asked
/// only for answered verdicts, and answers are never delivered to one that
/// asked only for pending questions.
pub proof fn lemma_fan_out_respects_interest(
    subscriptions: Seq<ApprovalSubscription>,
    question: ApprovalQuestion,
    identifier: QuestionIdentifier,
    verdict: ApprovalVerdict,
)
    ensures
        forall|i: int|
            0 <= i < subscriptions.len() && (#[trigger] subscriptions[i]).subscribed_interest()
                == ApprovalInterest::AnsweredVerdicts ==> {
                &&& subscriptions[i].delivery_of(ApprovalUpdate::QuestionSelected(identifier)) is None
                &&& subscriptions[i].delivery_of(ApprovalUpdate::QuestionReceived(question)) is None
            },
        forall|i: int|
            0 <= i < subscriptions.len() && (#[trigger] subscriptions[i]).subscribed_interest()
                == ApprovalInterest::PendingQuestions ==> subscriptions[i].delivery_of(
                ApprovalUpdate::QuestionAnswered(verdict),
            ) is None,
        forall|k: int|
            0 <= k < deliveries_over(subscriptions, ApprovalUpdate::QuestionSelected(identifier)).len()
                ==> exists|i: int|
                0 <= i < subscriptions.len() && subscriptions[i].subscribed_interest()
                    != ApprovalInterest::AnsweredVerdicts && subscriptions[i].delivery_of(
                    ApprovalUpdate::QuestionSelected(identifier),
                ) == Some(
                    #[trigger] deliveries_over(
                        subscriptions,
                        ApprovalUpdate::QuestionSelected(identifier),
                    )[k],
                ),
{
    let update = ApprovalUpdate::QuestionSelected(identifier);
    lemma_fan_out_exact(subscriptions, update);
    let fan = deliveries_over(subscriptions, update);
    assert forall|k: int| 0 <= k < fan.len() implies exists|i: int|
        0 <= i < subscriptions.len() && subscriptions[i].subscribed_interest()
            != ApprovalInterest::AnsweredVerdicts && subscriptions[i].delivery_of(update) == Some(
            #[trigger] fan[k],
        ) by {
        let i = choose|i: int|
            0 <= i < subscriptions.len() && subscriptions[i].delivery_of(update) == Some(
                #[trigger] fan[k],
            );
        assert(subscriptions[i].subscribed_interest().admits(update));
    }
}

/// Unsubscribing a held identifier removes that subscription wherever it
/// stands in the list: afterwards no subscription carries the identifier, the
/// count drops by exactly one, and every other subscription is still held. An
/// identifier that is not held leaves the subscriptions as they are.
pub proof fn lemma_unsubscribe_removes_subscription(
    state: ApprovalState,
    identifier: ApprovalSubscriptionIdentifier,
)
    requires
        state.well_formed(),
    ensures
        state.holds_subscription(identifier) ==> {
            let after = state.unsubscribed(identifier);
            &&& after.subscriptions.len() + 1 == state.subscriptions.len()
            &&& !after.holds_subscription(identifier)
            &&& forall|i: int|
                0 <= i < state.subscriptions.len() && (#[trigger] state.subscriptions[i]).subscription_identifier()
                    != identifier ==> after.subscriptions.contains(state.subscriptions[i])
        },
        !state.holds_subscription(identifier) ==> state.unsubscribed(identifier).subscriptions
            == state.subscriptions,
{
    if state.holds_subscription(identifier) {
        let i = choose|i: int|
            0 <= i < state.subscriptions.len() && (#[trigger] state.subscriptions[i]).identifier
                == identifier;
        lemma_first_subscription_below(state.subscriptions, identifier, i);
        let index = choose|index: int| is_first_subscription(state.subscriptions, identifier, index);
        let rest = state.subscriptions.remove(index);
        let after = state.unsubscribed(identifier);
        assert(after.subscriptions == rest);
        assert forall|a: int| 0 <= a < rest.len() implies (#[trigger] rest[a]).identifier
            != identifier by {
            let oa = if a < index { a } else { a + 1 };
            assert(rest[a] == state.subscriptions[oa]);
            assert(state.subscriptions[oa].identifier != state.subscriptions[index].identifier);
        }
        assert forall|j: int|
            0 <= j < state.subscriptions.len() && (#[trigger] state.subscriptions[j]).subscription_identifier()
                != identifier implies after.subscriptions.contains(state.subscriptions[j]) by {
            if j < index {
                assert(rest[j] == state.subscriptions[j]);
            } else {
                assert(j != index);
                assert(rest[j - 1] == state.subscriptions[j]);
            }
        }
    }
}

/// After a binding verdict closes the question at position `i` of the queue,
/// the cursor names the question that followed it in the queue; when it was
/// the last question, the one that preceded it; and nothing when it was the
/// only one.
pub proof fn lemma_answer_advances_cursor_to_neighbour(
    state: ApprovalState,
    verdict: ApprovalVerdict,
)
    requires
        state.closes_question(verdict),
    ensures
        ({
            let i = first_match(state.pending, verdict.question_identifier);
            &&& 0 <= i < state.pending.len()
            &&& state.answering(verdict).selected == if i + 1 < state.pending.len() {
                Some(state.pending[i + 1].question_identifier)
            } else if i > 0 {
                Some(state.pending[i - 1].question_identifier)
            } else {
                None::<QuestionIdentifier>
            }
        }),
{
    lemma_first_match(state.pending, verdict.question_identifier, 0);
}

// ── The model ───────────────────────────────────────────────────────────────

/// The client-side approval state: the pending-question queue (mirrored from
/// the daemon's projected state), the selection cursor, the answered-verdict
/// log, and local subscriptions.
#[derive(Debug, Clone)]
pub struct ApprovalModel {
    pending: Vec<ApprovalQuestion>,
    selected: Option<QuestionIdentifier>,
    answered: Vec<ApprovalVerdict>,
    subscriptions: Vec<ApprovalSubscription>,
    next_subscription: u64,
}

impl Default for ApprovalModel {
    fn default() -> (model: Self)
        ensures
            model.state() == ApprovalState::initial(),
            model.state().well_formed(),
    {
        ApprovalModel {
            pending: Vec::new(),
            selected: None,
            answered: Vec::new(),
            subscriptions: Vec::new(),
            next_subscription: 0,
        }
    }
}

impl ApprovalModel {
    /// The abstract state of this model.
    pub closed spec fn state(&self) -> ApprovalState {
        ApprovalState {
            pending: self.pending@,
            selected: self.selected,
            answered: self.answered@,
            subscriptions: self.subscriptions@,
            next_subscription: self.next_subscription as nat,
        }
    }

    /// Replace the pending queue with the daemon's projected list, preserving
    /// the selection if it survives, and fan out a snapshot.
    pub fn absorb_pending(&mut self, pending: Vec<ApprovalQuestion>) -> (deliveries: Vec<
        ApprovalDelivery,
    >)
        requires
            old(self).state().well_formed(),
        ensures
            final(self).state() == old(self).state().absorbed(pending@),
            final(self).state().well_formed(),
            deliveries@ == final(self).state().fan_out(
                ApprovalUpdate::Snapshot(final(self).state().snapshot()),
            ),
    {
        proof {
            lemma_absorbed_keeps_well_formed(self.state(), pending@);
        }
        self.pending = pending;
        let survives = match &self.selected {
            Some(identifier) => self.is_pending(identifier),
            None => false,
        };
        if !survives {
            self.selected = if self.pending.len() > 0 {
                Some(self.pending[0].question_identifier.clone())
            } else {
                None
            };
        }
        let snapshot = self.view();
        self.deliveries_for(ApprovalUpdate::Snapshot(snapshot))
    }

    /// Register a newly-arrived question locally (used when a single question
    /// push arrives rather than a whole projection).
    pub fn receive(&mut self, question: ApprovalQuestion) -> (deliveries: Vec<ApprovalDelivery>)
        requires
            old(self).state().well_formed(),
        ensures
            final(self).state() == old(self).state().received(question),
            final(self).state().well_formed(),
            deliveries@ == final(self).state().fan_out(ApprovalUpdate::QuestionReceived(question)),
    {
        proof {
            lemma_received_keeps_well_formed(self.state(), question);
        }
        let identifier = question.question_identifier.clone();
        let received = question.clone();
        self.pending.push(question);
        if self.selected.is_none() {
            self.selected = Some(identifier);
        }
        self.deliveries_for(ApprovalUpdate::QuestionReceived(received))
    }

    /// Move the selection cursor to a pending question.
    pub fn select(&mut self, identifier: QuestionIdentifier) -> (deliveries: Vec<ApprovalDelivery>)
        requires
            old(self).state().well_formed(),
        ensures
            final(self).state() == old(self).state().selecting(identifier),
            final(self).state().well_formed(),
            deliveries@ == if holds_question(old(self).state().pending, identifier) {
                final(self).state().fan_out(ApprovalUpdate::QuestionSelected(identifier))
            } else {
                Seq::empty()
            },
    {
        proof {
            lemma_selecting_keeps_well_formed(self.state(), identifier);
        }
        if self.is_pending(&identifier) {
            self.selected = Some(identifier.clone());
            self.deliveries_for(ApprovalUpdate::QuestionSelected(identifier))
        } else {
            Vec::new()
        }
    }

    /// Record a closed verdict against a pending question. `Defer` leaves the
    /// question pending and only moves the cursor; a binding verdict removes
    /// the question and logs the verdict, advancing the cursor.
    pub fn answer(&mut self, verdict: ApprovalVerdict) -> (outcome: ApprovalAnswerOutcome)
        requires
            old(self).state().well_formed(),
        ensures
            final(self).state() == old(self).state().answering(verdict),
            final(self).state().well_formed(),
            outcome.removed_question() == old(self).state().removed_by(verdict),
            outcome.taken_verdict() == if old(self).state().takes_verdict(verdict) {
                Some(verdict)
            } else {
                None
            },
            outcome.outcome_deliveries() == old(self).state().answer_deliveries(verdict),
    {
        proof {
            lemma_answering_keeps_well_formed(self.state(), verdict);
        }
        match verdict.approval_decision {
            ApprovalDecision::Defer => {
                let deliveries = self.select(verdict.question_identifier.clone());
                return ApprovalAnswerOutcome { answered: None, verdict: Some(verdict), deliveries };
            },
            _ => {},
        }
        match self.position_of(&verdict.question_identifier) {
            None => ApprovalAnswerOutcome { answered: None, verdict: None, deliveries: Vec::new() },
            Some(index) => {
                proof {
                    lemma_first_match(self.pending@, verdict.question_identifier, index as int);
                }
                let answered = self.pending.remove(index);
                self.answered.push(verdict.clone());
                let remaining = self.pending.len();
                self.selected = if index < remaining {
                    Some(self.pending[index].question_identifier.clone())
                } else if remaining > 0 {
                    Some(self.pending[remaining - 1].question_identifier.clone())
                } else {
                    None
                };
                let deliveries = self.deliveries_for(
                    ApprovalUpdate::QuestionAnswered(verdict.clone()),
                );
                ApprovalAnswerOutcome { answered: Some(answered), verdict: Some(verdict), deliveries }
            },
        }
    }

    /// Build a closed verdict for the currently-selected question. Returns
    /// `None` when nothing is selected.
    pub fn verdict_for_selected(
        &self,
        decision: ApprovalDecision,
        answered_by: SubscriberName,
    ) -> (verdict: Option<ApprovalVerdict>)
        ensures
            verdict == match self.state().selected {
                Some(identifier) => Some(
                    ApprovalVerdict {
                        question_identifier: identifier,
                        approval_decision: decision,
                        subscriber_name: answered_by,
                    },
                ),
                None => None,
            },
    {
        match &self.selected {
            Some(identifier) => Some(
                ApprovalVerdict {
                    question_identifier: identifier.clone(),
                    approval_decision: decision,
                    subscriber_name: answered_by,
                },
            ),
            None => None,
        }
    }

    /// Build an edited-answer proposal against the selected question: the body
    /// re-enters the normal authorization path as a new object, not as a
    /// verdict.
    pub fn proposal_for_selected(
        &self,
        body: String,
        authored_by: SubscriberName,
    ) -> (proposal: Option<AnswerProposal>)
        ensures
            proposal == match self.state().selected {
                Some(identifier) => Some(
                    AnswerProposal {
                        question_identifier: identifier,
                        answer_text: body,
                        subscriber_name: authored_by,
                    },
                ),
                None => None,
            },
    {
        match &self.selected {
            Some(identifier) => Some(
                AnswerProposal {
                    question_identifier: identifier.clone(),
                    answer_text: body,
                    subscriber_name: authored_by,
                },
            ),
            None => None,
        }
    }

    /// Subscribe a local client; returns the receipt carrying the opening
    /// snapshot.
    pub fn subscribe(
        &mut self,
        client: ApprovalClientIdentifier,
        interest: ApprovalInterest,
    ) -> (receipt: ApprovalSubscriptionReceipt)
        requires
            old(self).state().well_formed(),
            old(self).state().next_subscription < u64::MAX,
        ensures
            final(self).state() == old(self).state().subscribed(client, interest),
            final(self).state().well_formed(),
            receipt.receipt_subscription() == final(self).state().subscriptions.last(),
            receipt.receipt_subscription().subscription_identifier().raw() == old(
                self,
            ).state().next_subscription,
            receipt.receipt_subscription().subscribed_client() == client,
            receipt.receipt_subscription().subscribed_interest() == interest,
            receipt.receipt_snapshot() == final(self).state().snapshot(),
    {
        proof {
            lemma_subscribe_keeps_well_formed(self.state(), client, interest);
        }
        let identifier = ApprovalSubscriptionIdentifier::new(self.next_subscription);
        self.next_subscription = self.next_subscription + 1;
        let subscription = ApprovalSubscription::new(identifier, client, interest);
        self.subscriptions.push(subscription);
        proof {
            assert(self.state() =~= old(self).state().subscribed(client, interest));
        }
        ApprovalSubscriptionReceipt { subscription, snapshot: self.view() }
    }

    /// Remove a local subscription. Returns whether it existed.
    pub fn unsubscribe(&mut self, identifier: ApprovalSubscriptionIdentifier) -> (removed: bool)
        requires
            old(self).state().well_formed(),
        ensures
            removed == old(self).state().holds_subscription(identifier),
            final(self).state() == old(self).state().unsubscribed(identifier),
            final(self).state().well_formed(),
    {
        proof {
            lemma_unsubscribed_keeps_well_formed(self.state(), identifier);
        }
        let mut index: usize = 0;
        while index < self.subscriptions.len()
            invariant
                index <= self.subscriptions@.len(),
                self.state() == old(self).state(),
                old(self).state().unsubscribed(identifier).well_formed(),
                forall|j: int|
                    0 <= j < index ==> (#[trigger] self.subscriptions@[j]).identifier
                        != identifier,
            decreases self.subscriptions@.len() - index,
        {
            if self.subscriptions[index].identifier == identifier {
                proof {
                    assert(is_first_subscription(self.subscriptions@, identifier, index as int));
                    assert(self.state().holds_subscription(identifier));
                    let chosen = choose|k: int|
                        is_first_subscription(self.subscriptions@, identifier, k);
                    lemma_first_subscription_unique(
                        self.subscriptions@,
                        identifier,
                        chosen,
                        index as int,
                    );
                }
                self.subscriptions.remove(index);
                proof {
                    assert(self.state() =~= old(self).state().unsubscribed(identifier));
                }
                return true;
            }
            index = index + 1;
        }
        false
    }

    /// The question under the cursor.
    pub fn current(&self) -> (current: Option<&ApprovalQuestion>)
        ensures
            match current {
                Some(question) => self.state().current() == Some(*question),
                None => self.state().current() is None,
            },
    {
        match &self.selected {
            Some(identifier) => match self.position_of(identifier) {
                Some(index) => {
                    proof {
                        lemma_first_match(self.pending@, *identifier, index as int);
                    }
                    Some(&self.pending[index])
                },
                None => None,
            },
            None => None,
        }
    }

    pub fn pending(&self) -> (pending: &[ApprovalQuestion])
        ensures
            pending@ == self.state().pending,
    {
        self.pending.as_slice()
    }

    pub fn answered(&self) -> (answered: &[ApprovalVerdict])
        ensures
            answered@ == self.state().answered,
    {
        self.answered.as_slice()
    }

    pub fn subscription_count(&self) -> (count: usize)
        ensures
            count == self.state().subscriptions.len(),
    {
        self.subscriptions.len()
    }

    /// The snapshot a shell paints.
    pub fn view(&self) -> (view: ApprovalView)
        ensures
            view == self.state().snapshot(),
    {
        ApprovalView {
            current: match self.current() {
                Some(question) => Some(question.clone()),
                None => None,
            },
            pending_count: self.pending.len(),
            answered_count: self.answered.len(),
            subscription_count: self.subscriptions.len(),
        }
    }

    fn is_pending(&self, identifier: &QuestionIdentifier) -> (pending: bool)
        ensures
            pending == holds_question(self.state().pending, *identifier),
    {
        match self.position_of(identifier) {
            Some(_) => true,
            None => false,
        }
    }

    /// The first position of the queue carrying the identifier.
    fn position_of(&self, identifier: &QuestionIdentifier) -> (position: Option<usize>)
        ensures
            match position {
                Some(index) => is_first_match(self.pending@, *identifier, index as int),
                None => !holds_question(self.pending@, *identifier),
            },
    {
        let mut index: usize = 0;
        while index < self.pending.len()
            invariant
                index <= self.pending@.len(),
                forall|j: int|
                    0 <= j < index ==> !names_question(#[trigger] self.pending@[j], *identifier),
            decreases self.pending@.len() - index,
        {
            if self.pending[index].question_identifier.same_as(identifier) {
                return Some(index);
            }
            index = index + 1;
        }
        None
    }

    fn deliveries_for(&self, update: ApprovalUpdate) -> (deliveries: Vec<ApprovalDelivery>)
        ensures
            deliveries@ == deliveries_over(self.subscriptions@, update),
    {
        let mut deliveries: Vec<ApprovalDelivery> = Vec::new();
        let mut index: usize = 0;
        while index < self.subscriptions.len()
            invariant
                index <= self.subscriptions@.len(),
                deliveries@ == deliveries_over(self.subscriptions@.take(index as int), update),
            decreases self.subscriptions@.len() - index,
        {
            proof {
                assert(self.subscriptions@.take(index as int + 1).drop_last() =~= self.subscriptions@.take(
                    index as int,
                ));
            }
            match self.subscriptions[index].delivery_for(&update) {
                Some(delivery) => deliveries.push(delivery),
                None => {},
            }
            index = index + 1;
        }
        proof {
            assert(self.subscriptions@.take(self.subscriptions@.len() as int) =~= self.subscriptions@);
        }
        deliveries
    }
}

} // verus!
