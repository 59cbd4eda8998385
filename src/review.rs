//! The review of a submission: a moderator's button press on a review card
//! resolves it once, and a member's departure is matched to their card.
use vstd::prelude::*;
use crate::record::{DecisionRecord, RecordStore, StoreError, find_card, find_submitter};

verus! {

/// The three buttons of a review card.
#[derive(Clone, Copy, Debug, PartialEq, Eq, Structural)]
pub enum ReviewAction {
    Approve,
    Ban,
    Kick,
}

/// The terminal state a review card reaches.
#[derive(Clone, Copy, Debug, PartialEq, Eq, Structural)]
pub enum CardOutcome {
    Approved,
    Banned,
    Kicked,
}

/// What to do about a button press.
#[derive(Clone, Copy, Debug, PartialEq, Eq, Structural)]
pub enum ReviewDecision {
    /// No record backs the card: report it and change nothing.
    RecordNotFound,
    /// The card was already resolved this way: change nothing.
    AlreadyResolved(CardOutcome),
    /// Grant the record's roles to its submitter.
    Approve(DecisionRecord),
    /// Ban the record's submitter.
    Ban(DecisionRecord),
    /// Kick the record's submitter.
    Kick(DecisionRecord),
}

pub open spec fn action_of_id(id: Seq<char>) -> Option<ReviewAction> {
    if id == "approve_user"@ {
        Some(ReviewAction::Approve)
    } else if id == "reject_user_and_ban"@ {
        Some(ReviewAction::Ban)
    } else if id == "reject_user_and_kick"@ {
        Some(ReviewAction::Kick)
    } else {
        None
    }
}

pub open spec fn custom_id_of(a: ReviewAction) -> Seq<char> {
    match a {
        ReviewAction::Approve => "approve_user"@,
        ReviewAction::Ban => "reject_user_and_ban"@,
        ReviewAction::Kick => "reject_user_and_kick"@,
    }
}

pub open spec fn outcome_of(a: ReviewAction) -> CardOutcome {
    match a {
        ReviewAction::Approve => CardOutcome::Approved,
        ReviewAction::Ban => CardOutcome::Banned,
        ReviewAction::Kick => CardOutcome::Kicked,
    }
}

impl ReviewAction {
    /// Decodes a button's custom id.
    pub fn from_custom_id(id: &String) -> (r: Option<ReviewAction>)
        ensures
            r == action_of_id(id@),
    {
        if crate::answers::text_is(id, "approve_user") {
            Some(ReviewAction::Approve)
        } else if crate::answers::text_is(id, "reject_user_and_ban") {
            Some(ReviewAction::Ban)
        } else if crate::answers::text_is(id, "reject_user_and_kick") {
            Some(ReviewAction::Kick)
        } else {
            None
        }
    }

    /// The custom id of the button for this action.
    pub fn custom_id(self) -> (r: &'static str)
        ensures
            r@ == custom_id_of(self),
    {
        match self {
            ReviewAction::Approve => "approve_user",
            ReviewAction::Ban => "reject_user_and_ban",
            ReviewAction::Kick => "reject_user_and_kick",
        }
    }

    /// The state a card reaches by this action.
    pub fn outcome(self) -> (r: CardOutcome)
        ensures
            r == outcome_of(self),
    {
        match self {
            ReviewAction::Approve => CardOutcome::Approved,
            ReviewAction::Ban => CardOutcome::Banned,
            ReviewAction::Kick => CardOutcome::Kicked,
        }
    }
}

/// Each button's custom id decodes to its action.
pub proof fn lemma_custom_id_round_trip(a: ReviewAction)
    ensures
        action_of_id(custom_id_of(a)) == Some(a),
{
    reveal_strlit("approve_user");
    reveal_strlit("reject_user_and_ban");
    reveal_strlit("reject_user_and_kick");
    assert("approve_user"@.len() == 12);
    assert("reject_user_and_ban"@.len() == 19);
    assert("reject_user_and_kick"@.len() == 20);
}

/// The most recent outcome recorded for a card.
pub open spec fn find_outcome(s: Seq<(u64, CardOutcome)>, card: u64) -> Option<CardOutcome>
    decreases s.len(),
{
    if s.len() == 0 {
        None
    } else if s.last().0 == card {
        Some(s.last().1)
    } else {
        find_outcome(s.drop_last(), card)
    }
}

/// What a press of `action` on `card` decides, given the records and the
/// outcomes so far.
pub open spec fn press_decision(
    records: Seq<DecisionRecord>,
    outcomes: Seq<(u64, CardOutcome)>,
    card: u64,
    action: ReviewAction,
) -> ReviewDecision {
    match find_outcome(outcomes, card) {
        Some(o) => ReviewDecision::AlreadyResolved(o),
        None => match find_card(records, card) {
            None => ReviewDecision::RecordNotFound,
            Some(rec) => match action {
                ReviewAction::Approve => ReviewDecision::Approve(rec),
                ReviewAction::Ban => ReviewDecision::Ban(rec),
                ReviewAction::Kick => ReviewDecision::Kick(rec),
            },
        },
    }
}

/// Whether a decision resolves a card and acts on its submitter.
pub open spec fn is_transition(d: ReviewDecision) -> bool {
    d is Approve || d is Ban || d is Kick
}

/// The outcomes after a press of `action` on `card`.
pub open spec fn press_outcomes(
    records: Seq<DecisionRecord>,
    outcomes: Seq<(u64, CardOutcome)>,
    card: u64,
    action: ReviewAction,
) -> Seq<(u64, CardOutcome)> {
    if is_transition(press_decision(records, outcomes, card, action)) {
        outcomes.push((card, outcome_of(action)))
    } else {
        outcomes
    }
}

/// The decision records and the outcome of each resolved review card.
pub struct ReviewDesk {
    store: RecordStore,
    outcomes: Vec<(u64, CardOutcome)>,
}

impl ReviewDesk {
    pub closed spec fn records(&self) -> Seq<DecisionRecord> {
        self.store@
    }

    pub closed spec fn outcomes(&self) -> Seq<(u64, CardOutcome)> {
        self.outcomes@
    }

    pub closed spec fn wf(&self) -> bool {
        self.store.wf()
    }

    pub fn new() -> (r: ReviewDesk)
        ensures
            r.wf(),
            r.records() == Seq::<DecisionRecord>::empty(),
            r.outcomes() == Seq::<(u64, CardOutcome)>::empty(),
    {
        ReviewDesk { store: RecordStore::new(), outcomes: Vec::new() }
    }

    /// Files the record of a newly published review card.
    pub fn submit(&mut self, rec: DecisionRecord) -> (r: Result<(), StoreError>)
        requires
            old(self).wf(),
        ensures
            final(self).wf(),
            final(self).outcomes() == old(self).outcomes(),
            r is Err <==> find_card(old(self).records(), rec.message_id) is Some,
            r is Err ==> r == Err::<(), StoreError>(StoreError::DuplicateKey)
                && final(self).records() == old(self).records(),
            r is Ok ==> final(self).records() == old(self).records().push(rec),
    {
        self.store.put(rec)
    }

    /// The record of a review card.
    pub fn record_of_card(&self, card: u64) -> (r: Result<DecisionRecord, StoreError>)
        ensures
            r is Ok <==> find_card(self.records(), card) is Some,
            r matches Ok(rec) ==> find_card(self.records(), card) == Some(rec),
            r is Err ==> r == Err::<DecisionRecord, StoreError>(StoreError::NotFound),
    {
        self.store.get_by_card_id(card)
    }

    /// The recorded outcome of a card, if it was resolved.
    pub fn outcome_of_card(&self, card: u64) -> (r: Option<CardOutcome>)
        ensures
            r == find_outcome(self.outcomes(), card),
    {
        let mut i: usize = self.outcomes.len();
        proof {
            assert(self.outcomes@.take(i as int) =~= self.outcomes@);
        }
        while i > 0
            invariant
                i <= self.outcomes@.len(),
                find_outcome(self.outcomes@.take(i as int), card) == find_outcome(self.outcomes@, card),
            decreases i,
        {
            proof {
                assert(self.outcomes@.take(i as int).drop_last() =~= self.outcomes@.take(i - 1));
            }
            let (c, o) = self.outcomes[i - 1];
            if c == card {
                return Some(o);
            }
            i = i - 1;
        }
        None
    }

    /// Decides a press of `action` on review card `card`. A card is resolved
    /// once: a press on a resolved card is refused, whatever its button, and
    /// a press on a card with no record is reported and changes nothing.
    pub fn press(&mut self, card: u64, action: ReviewAction) -> (r: ReviewDecision)
        requires
            old(self).wf(),
        ensures
            final(self).wf(),
            r == press_decision(old(self).records(), old(self).outcomes(), card, action),
            final(self).records() == old(self).records(),
            final(self).outcomes() == press_outcomes(old(self).records(), old(self).outcomes(), card, action),
    {
        if let Some(o) = self.outcome_of_card(card) {
            return ReviewDecision::AlreadyResolved(o);
        }
        let rec = match self.store.get_by_card_id(card) {
            Ok(rec) => rec,
            Err(_) => return ReviewDecision::RecordNotFound,
        };
        self.outcomes.push((card, action.outcome()));
        match action {
            ReviewAction::Approve => ReviewDecision::Approve(rec),
            ReviewAction::Ban => ReviewDecision::Ban(rec),
            ReviewAction::Kick => ReviewDecision::Kick(rec),
        }
    }

    /// The review card to mark as left when a member departs: that of their
    /// most recent record, if any. Records and outcomes stay as they are.
    pub fn card_of_departed(&self, user_id: u64) -> (r: Option<u64>)
        ensures
            r is None <==> find_submitter(self.records(), user_id) is None,
            r matches Some(c) ==> find_submitter(self.records(), user_id) matches Some(rec)
                && rec.message_id == c,
    {
        match self.store.get_by_submitter_id(user_id) {
            Ok(rec) => Some(rec.message_id),
            Err(_) => None,
        }
    }
}

/// A card is resolved at most once: after any press on a card, a second press
/// on it, of any button, acts on no one and leaves the outcomes unchanged.
pub proof fn lemma_second_press_rejected(
    records: Seq<DecisionRecord>,
    outcomes: Seq<(u64, CardOutcome)>,
    card: u64,
    first: ReviewAction,
    second: ReviewAction,
)
    ensures
        ({
            let after = press_outcomes(records, outcomes, card, first);
            &&& !is_transition(press_decision(records, after, card, second))
            &&& press_outcomes(records, after, card, second) == after
        }),
        is_transition(press_decision(records, outcomes, card, first)) ==> press_decision(
            records,
            press_outcomes(records, outcomes, card, first),
            card,
            second,
        ) == ReviewDecision::AlreadyResolved(outcome_of(first)),
{
    let after = press_outcomes(records, outcomes, card, first);
    if is_transition(press_decision(records, outcomes, card, first)) {
        assert(after.last() == (card, outcome_of(first)));
    }
}

} // verus!
