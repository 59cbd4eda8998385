//! The decisions of the bot's event handlers: what a new message, a button
//! press or a departure leads to. The handlers themselves do the talking to
//! the chat platform and the database.
use vstd::prelude::*;
use crate::answers::{FormAnswers, FormField, field_values, well_formed_values, answers_match};
use crate::intake::{DirectoryMember, IntakeError, is_claimant, accept_submission, match_submitter};
use crate::record::{DecisionRecord, RecordRow, StoreError, find_card, find_submitter};
use crate::review::{ReviewAction, ReviewDecision, ReviewDesk, action_of_id, press_decision, press_outcomes};
use crate::roles::{GuildRoleSettings, role_plan};

verus! {

/// Key of the shard manager in the client's shared data.
pub struct ShardManagerContainer;

/// Key of the database pool in the client's shared data.
pub struct DBPool;

/// The state of the bot: the guild's roles, the upstream form automation's
/// user id, and the review desk.
pub struct Bot {
    pub roles: GuildRoleSettings,
    pub upstream_id: u64,
    pub desk: ReviewDesk,
}

impl Bot {
    pub open spec fn wf(&self) -> bool {
        self.desk.wf()
    }

    pub fn new(roles: GuildRoleSettings, upstream_id: u64) -> (r: Bot)
        ensures
            r.wf(),
            r.roles == roles,
            r.upstream_id == upstream_id,
            r.desk.records() == Seq::<DecisionRecord>::empty(),
            r.desk.outcomes().len() == 0,
    {
        Bot { roles, upstream_id, desk: ReviewDesk::new() }
    }

    /// Reads a new message's fields as a submission, if it is one.
    pub fn take_submission(&self, author_id: u64, fields: &Vec<FormField>) -> (r: Result<FormAnswers, IntakeError>)
        ensures
            author_id != self.upstream_id ==> r == Err::<FormAnswers, IntakeError>(IntakeError::NotFromUpstream),
            author_id == self.upstream_id && !well_formed_values(field_values(fields@)) ==> r == Err::<FormAnswers, IntakeError>(IntakeError::Malformed),
            r is Ok <==> author_id == self.upstream_id && well_formed_values(field_values(fields@)),
            r matches Ok(a) ==> answers_match(a, field_values(fields@)),
    {
        accept_submission(author_id, self.upstream_id, fields)
    }

    /// The submitter among the search results: the first whose tag is the
    /// claimed one and who does not yet hold the base member role.
    pub fn resolve_submitter(&self, answers: &FormAnswers, members: &Vec<DirectoryMember>) -> (r: Option<u64>)
        ensures
            r is None <==> forall|i: int| 0 <= i < members@.len() ==> !is_claimant(#[trigger] members@[i], answers.discord_tag@, self.roles.default_member_role),
            r matches Some(id) ==> exists|i: int|
                0 <= i < members@.len() && is_claimant(#[trigger] members@[i], answers.discord_tag@, self.roles.default_member_role)
                    && members@[i].user_id == id
                    && forall|j: int| 0 <= j < i ==> !is_claimant(#[trigger] members@[j], answers.discord_tag@, self.roles.default_member_role),
    {
        match_submitter(&answers.discord_tag, members, self.roles.default_member_role)
    }

    /// Files the record of a submission whose review card `card` was
    /// published for submitter `user_id`.
    pub fn file_record(&mut self, card: u64, user_id: u64, answers: &FormAnswers) -> (r: Result<DecisionRecord, StoreError>)
        requires
            old(self).wf(),
        ensures
            final(self).wf(),
            final(self).roles == old(self).roles,
            final(self).upstream_id == old(self).upstream_id,
            final(self).desk.outcomes() == old(self).desk.outcomes(),
            r is Err <==> find_card(old(self).desk.records(), card) is Some,
            r is Err ==> r == Err::<DecisionRecord, StoreError>(StoreError::DuplicateKey)
                && final(self).desk.records() == old(self).desk.records(),
            r matches Ok(rec) ==> rec == (DecisionRecord {
                message_id: card,
                user_id,
                status: answers.status,
                gender: answers.gender,
                is_female: answers.is_female,
                is_18_plus: answers.is_18_plus,
                is_30_plus: answers.is_30_plus,
            }) && final(self).desk.records() == old(self).desk.records().push(rec),
    {
        let rec = DecisionRecord::from_answers(card, user_id, answers);
        match self.desk.submit(rec) {
            Ok(()) => Ok(rec),
            Err(e) => Err(e),
        }
    }

    /// Takes a stored row back in, as on a restart.
    pub fn restore(&mut self, row: &RecordRow) -> (r: Result<(), StoreError>)
        requires
            old(self).wf(),
        ensures
            final(self).wf(),
            final(self).roles == old(self).roles,
            final(self).upstream_id == old(self).upstream_id,
            final(self).desk.outcomes() == old(self).desk.outcomes(),
            row.stored() is None ==> r == Err::<(), StoreError>(StoreError::CorruptRow)
                && final(self).desk.records() == old(self).desk.records(),
            row.stored() matches Some(rec) ==> {
                &&& r is Err <==> find_card(old(self).desk.records(), rec.message_id) is Some
                &&& r is Err ==> r == Err::<(), StoreError>(StoreError::DuplicateKey)
                    && final(self).desk.records() == old(self).desk.records()
                &&& r is Ok ==> final(self).desk.records() == old(self).desk.records().push(rec)
            },
    {
        match row.to_record() {
            Ok(rec) => self.desk.submit(rec),
            Err(e) => Err(e),
        }
    }

    /// Decides a press of the button with `custom_id` on review card `card`;
    /// `None` for a button that is not one of the three review buttons.
    pub fn press(&mut self, card: u64, custom_id: &String) -> (r: Option<ReviewDecision>)
        requires
            old(self).wf(),
        ensures
            final(self).wf(),
            final(self).roles == old(self).roles,
            final(self).upstream_id == old(self).upstream_id,
            final(self).desk.records() == old(self).desk.records(),
            action_of_id(custom_id@) is None ==> r is None && final(self).desk.outcomes()
                == old(self).desk.outcomes(),
            action_of_id(custom_id@) matches Some(a) ==> r == Some(
                press_decision(old(self).desk.records(), old(self).desk.outcomes(), card, a),
            ) && final(self).desk.outcomes() == press_outcomes(
                old(self).desk.records(),
                old(self).desk.outcomes(),
                card,
                a,
            ),
    {
        match ReviewAction::from_custom_id(custom_id) {
            Some(a) => Some(self.desk.press(card, a)),
            None => None,
        }
    }

    /// The roles that approving a record grants.
    pub fn grants(&self, rec: &DecisionRecord) -> (r: Vec<u64>)
        ensures
            r@ == role_plan(self.roles, *rec),
    {
        self.roles.derive_roles(rec)
    }

    /// The review card to mark as left when member `user_id` departs.
    pub fn departed(&self, user_id: u64) -> (r: Option<u64>)
        ensures
            r is None <==> find_submitter(self.desk.records(), user_id) is None,
            r matches Some(c) ==> find_submitter(self.desk.records(), user_id) matches Some(rec)
                && rec.message_id == c,
    {
        self.desk.card_of_departed(user_id)
    }
}

} // verus!
