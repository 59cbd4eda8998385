//! Decision records: what is kept of a submission once its review card is
//! published, the row layout they are stored in, and a write-once store
//! keyed by the review card.
use vstd::prelude::*;
use crate::answers::{DiagnosisStatus, FormAnswers, Gender};

verus! {

/// The durable record of one submission under review, keyed by the review
/// card's message id.
#[derive(Clone, Copy, Debug, PartialEq, Eq, Structural)]
pub struct DecisionRecord {
    pub message_id: u64,
    pub user_id: u64,
    pub status: DiagnosisStatus,
    pub gender: Gender,
    pub is_female: bool,
    pub is_18_plus: bool,
    pub is_30_plus: bool,
}

/// A decision record as stored in the `formanswers` table.
#[derive(Clone, Debug)]
pub struct RecordRow {
    pub message_id: u64,
    pub user_id: u64,
    pub gender: String,
    pub is_female: bool,
    pub is_18_plus: bool,
    pub is_30_plus: bool,
    pub diagnosis_status: Option<String>,
}

/// Failures of the record store.
#[derive(Clone, Copy, Debug, PartialEq, Eq, Structural)]
pub enum StoreError {
    DuplicateKey,
    NotFound,
    CorruptRow,
}

pub open spec fn gender_label_of(g: Gender) -> Seq<char> {
    match g {
        Gender::Male => "Male"@,
        Gender::Female => "Female"@,
        Gender::Other => "Other"@,
    }
}

pub open spec fn status_label_of(s: DiagnosisStatus) -> Seq<char> {
    match s {
        DiagnosisStatus::Formal => "Formal"@,
        DiagnosisStatus::Questioning => "Questioning"@,
        DiagnosisStatus::SelfDiagnosed => "Self Diagnosed"@,
        DiagnosisStatus::FamilyOrFriend => "Family Member or Friend of an Autistic Individual."@,
    }
}

pub open spec fn gender_of_label(s: Seq<char>) -> Option<Gender> {
    if s == "Male"@ {
        Some(Gender::Male)
    } else if s == "Female"@ {
        Some(Gender::Female)
    } else if s == "Other"@ {
        Some(Gender::Other)
    } else {
        None
    }
}

pub open spec fn status_of_label(s: Seq<char>) -> Option<DiagnosisStatus> {
    if s == "Formal"@ {
        Some(DiagnosisStatus::Formal)
    } else if s == "Questioning"@ {
        Some(DiagnosisStatus::Questioning)
    } else if s == "Self Diagnosed"@ {
        Some(DiagnosisStatus::SelfDiagnosed)
    } else if s == "Family Member or Friend of an Autistic Individual."@ {
        Some(DiagnosisStatus::FamilyOrFriend)
    } else {
        None
    }
}

/// The stored label of a gender.
pub fn gender_label(g: Gender) -> (r: &'static str)
    ensures
        r@ == gender_label_of(g),
{
    match g {
        Gender::Male => "Male",
        Gender::Female => "Female",
        Gender::Other => "Other",
    }
}

/// The stored label of a diagnosis status.
pub fn status_label(s: DiagnosisStatus) -> (r: &'static str)
    ensures
        r@ == status_label_of(s),
{
    match s {
        DiagnosisStatus::Formal => "Formal",
        DiagnosisStatus::Questioning => "Questioning",
        DiagnosisStatus::SelfDiagnosed => "Self Diagnosed",
        DiagnosisStatus::FamilyOrFriend => "Family Member or Friend of an Autistic Individual.",
    }
}

/// Reads a stored gender label.
pub fn gender_from_label(s: &String) -> (r: Option<Gender>)
    ensures
        r == gender_of_label(s@),
{
    if crate::answers::text_is(s, "Male") {
        Some(Gender::Male)
    } else if crate::answers::text_is(s, "Female") {
        Some(Gender::Female)
    } else if crate::answers::text_is(s, "Other") {
        Some(Gender::Other)
    } else {
        None
    }
}

/// Reads a stored diagnosis status label.
pub fn status_from_label(s: &String) -> (r: Option<DiagnosisStatus>)
    ensures
        r == status_of_label(s@),
{
    if crate::answers::text_is(s, "Formal") {
        Some(DiagnosisStatus::Formal)
    } else if crate::answers::text_is(s, "Questioning") {
        Some(DiagnosisStatus::Questioning)
    } else if crate::answers::text_is(s, "Self Diagnosed") {
        Some(DiagnosisStatus::SelfDiagnosed)
    } else if crate::answers::text_is(s, "Family Member or Friend of an Autistic Individual.") {
        Some(DiagnosisStatus::FamilyOrFriend)
    } else {
        None
    }
}

/// The record that a row stores, if its labels are readable.
pub open spec fn record_of_row(
    message_id: u64,
    user_id: u64,
    gender: Seq<char>,
    is_female: bool,
    is_18_plus: bool,
    is_30_plus: bool,
    status: Option<Seq<char>>,
) -> Option<DecisionRecord> {
    match (gender_of_label(gender), status) {
        (Some(g), Some(st)) => match status_of_label(st) {
            Some(d) => Some(
                DecisionRecord {
                    message_id,
                    user_id,
                    status: d,
                    gender: g,
                    is_female,
                    is_18_plus,
                    is_30_plus,
                },
            ),
            None => None,
        },
        _ => None,
    }
}

impl RecordRow {
    pub open spec fn stored(&self) -> Option<DecisionRecord> {
        record_of_row(
            self.message_id,
            self.user_id,
            self.gender@,
            self.is_female,
            self.is_18_plus,
            self.is_30_plus,
            match self.diagnosis_status {
                Some(s) => Some(s@),
                None => None,
            },
        )
    }

    /// Reads the record a row stores; a row with an unknown label is corrupt.
    pub fn to_record(&self) -> (r: Result<DecisionRecord, StoreError>)
        ensures
            r is Ok <==> self.stored() is Some,
            r matches Ok(rec) ==> self.stored() == Some(rec),
            r is Err ==> r == Err::<DecisionRecord, StoreError>(StoreError::CorruptRow),
    {
        let gender = match gender_from_label(&self.gender) {
            Some(g) => g,
            None => return Err(StoreError::CorruptRow),
        };
        let status = match &self.diagnosis_status {
            Some(s) => match status_from_label(s) {
                Some(d) => d,
                None => return Err(StoreError::CorruptRow),
            },
            None => return Err(StoreError::CorruptRow),
        };
        Ok(
            DecisionRecord {
                message_id: self.message_id,
                user_id: self.user_id,
                status,
                gender,
                is_female: self.is_female,
                is_18_plus: self.is_18_plus,
                is_30_plus: self.is_30_plus,
            },
        )
    }
}

impl DecisionRecord {
    /// The record of a submission whose review card is `message_id` and whose
    /// submitter resolved to `user_id`.
    pub fn from_answers(message_id: u64, user_id: u64, a: &FormAnswers) -> (r: DecisionRecord)
        ensures
            r == (DecisionRecord {
                message_id,
                user_id,
                status: a.status,
                gender: a.gender,
                is_female: a.is_female,
                is_18_plus: a.is_18_plus,
                is_30_plus: a.is_30_plus,
            }),
    {
        DecisionRecord {
            message_id,
            user_id,
            status: a.status,
            gender: a.gender,
            is_female: a.is_female,
            is_18_plus: a.is_18_plus,
            is_30_plus: a.is_30_plus,
        }
    }

    /// The row that stores this record.
    pub fn to_row(&self) -> (r: RecordRow)
        ensures
            r.message_id == self.message_id,
            r.user_id == self.user_id,
            r.gender@ == gender_label_of(self.gender),
            r.is_female == self.is_female,
            r.is_18_plus == self.is_18_plus,
            r.is_30_plus == self.is_30_plus,
            r.diagnosis_status matches Some(s) && s@ == status_label_of(self.status),
    {
        RecordRow {
            message_id: self.message_id,
            user_id: self.user_id,
            gender: gender_label(self.gender).to_owned(),
            is_female: self.is_female,
            is_18_plus: self.is_18_plus,
            is_30_plus: self.is_30_plus,
            diagnosis_status: Some(status_label(self.status).to_owned()),
        }
    }
}

/// Each stored label reads back as the value it was written for.
pub proof fn lemma_labels_read_back(g: Gender, d: DiagnosisStatus)
    ensures
        gender_of_label(gender_label_of(g)) == Some(g),
        status_of_label(status_label_of(d)) == Some(d),
{
    reveal_strlit("Male");
    reveal_strlit("Female");
    reveal_strlit("Other");
    reveal_strlit("Formal");
    reveal_strlit("Questioning");
    reveal_strlit("Self Diagnosed");
    reveal_strlit("Family Member or Friend of an Autistic Individual.");
    assert("Male"@.len() == 4);
    assert("Female"@.len() == 6);
    assert("Other"@.len() == 5);
    assert("Formal"@.len() == 6);
    assert("Questioning"@.len() == 11);
    assert("Self Diagnosed"@.len() == 14);
    assert("Family Member or Friend of an Autistic Individual."@.len() == 50);
}

/// Writing a record as a row and reading the row back gives the record.
pub proof fn lemma_row_round_trip(rec: DecisionRecord, row: RecordRow)
    requires
        row.message_id == rec.message_id,
        row.user_id == rec.user_id,
        row.gender@ == gender_label_of(rec.gender),
        row.is_female == rec.is_female,
        row.is_18_plus == rec.is_18_plus,
        row.is_30_plus == rec.is_30_plus,
        row.diagnosis_status matches Some(s) && s@ == status_label_of(rec.status),
    ensures
        row.stored() == Some(rec),
{
    lemma_labels_read_back(rec.gender, rec.status);
}

/// The most recently added record of `s` with review card `id`.
pub open spec fn find_card(s: Seq<DecisionRecord>, id: u64) -> Option<DecisionRecord>
    decreases s.len(),
{
    if s.len() == 0 {
        None
    } else if s.last().message_id == id {
        Some(s.last())
    } else {
        find_card(s.drop_last(), id)
    }
}

/// The most recently added record of `s` whose submitter is `user_id`.
pub open spec fn find_submitter(s: Seq<DecisionRecord>, user_id: u64) -> Option<DecisionRecord>
    decreases s.len(),
{
    if s.len() == 0 {
        None
    } else if s.last().user_id == user_id {
        Some(s.last())
    } else {
        find_submitter(s.drop_last(), user_id)
    }
}

/// Whether no two records of `s` share a review card.
pub open spec fn unique_cards(s: Seq<DecisionRecord>) -> bool {
    forall|i: int, j: int|
        0 <= i < s.len() && 0 <= j < s.len() && i != j ==> s[i].message_id != s[j].message_id
}

/// A write-once store of decision records, in order of creation.
pub struct RecordStore {
    records: Vec<DecisionRecord>,
}

impl View for RecordStore {
    type V = Seq<DecisionRecord>;

    closed spec fn view(&self) -> Seq<DecisionRecord> {
        self.records@
    }
}

impl RecordStore {
    pub open spec fn wf(&self) -> bool {
        unique_cards(self@)
    }

    pub fn new() -> (r: RecordStore)
        ensures
            r@ == Seq::<DecisionRecord>::empty(),
            r.wf(),
    {
        RecordStore { records: Vec::new() }
    }

    pub fn len(&self) -> (r: usize)
        ensures
            r == self@.len(),
    {
        self.records.len()
    }

    /// Looks a record up by its review card.
    pub fn get_by_card_id(&self, id: u64) -> (r: Result<DecisionRecord, StoreError>)
        ensures
            r is Ok <==> find_card(self@, id) is Some,
            r matches Ok(rec) ==> find_card(self@, id) == Some(rec),
            r is Err ==> r == Err::<DecisionRecord, StoreError>(StoreError::NotFound),
    {
        let mut i: usize = self.records.len();
        proof {
            assert(self@.take(i as int) =~= self@);
        }
        while i > 0
            invariant
                i <= self@.len(),
                find_card(self@.take(i as int), id) == find_card(self@, id),
            decreases i,
        {
            proof {
                assert(self@.take(i as int).drop_last() =~= self@.take(i - 1));
            }
            if self.records[i - 1].message_id == id {
                return Ok(self.records[i - 1]);
            }
            i = i - 1;
        }
        Err(StoreError::NotFound)
    }

    /// Looks up the most recent record of a submitter.
    pub fn get_by_submitter_id(&self, user_id: u64) -> (r: Result<DecisionRecord, StoreError>)
        ensures
            r is Ok <==> find_submitter(self@, user_id) is Some,
            r matches Ok(rec) ==> find_submitter(self@, user_id) == Some(rec),
            r is Err ==> r == Err::<DecisionRecord, StoreError>(StoreError::NotFound),
    {
        let mut i: usize = self.records.len();
        proof {
            assert(self@.take(i as int) =~= self@);
        }
        while i > 0
            invariant
                i <= self@.len(),
                find_submitter(self@.take(i as int), user_id) == find_submitter(self@, user_id),
            decreases i,
        {
            proof {
                assert(self@.take(i as int).drop_last() =~= self@.take(i - 1));
            }
            if self.records[i - 1].user_id == user_id {
                return Ok(self.records[i - 1]);
            }
            i = i - 1;
        }
        Err(StoreError::NotFound)
    }

    /// Adds a record; a record whose review card is already stored is refused.
    pub fn put(&mut self, rec: DecisionRecord) -> (r: Result<(), StoreError>)
        requires
            old(self).wf(),
        ensures
            final(self).wf(),
            r is Err <==> find_card(old(self)@, rec.message_id) is Some,
            r is Err ==> r == Err::<(), StoreError>(StoreError::DuplicateKey) && final(self)@ == old(self)@,
            r is Ok ==> final(self)@ == old(self)@.push(rec),
    {
        match self.get_by_card_id(rec.message_id) {
            Ok(_) => Err(StoreError::DuplicateKey),
            Err(_) => {
                proof {
                    lemma_find_card_absent(self@, rec.message_id);
                }
                self.records.push(rec);
                Ok(())
            },
        }
    }
}

/// A card that `find_card` does not find is on no record.
pub proof fn lemma_find_card_absent(s: Seq<DecisionRecord>, id: u64)
    requires
        find_card(s, id) is None,
    ensures
        forall|i: int| 0 <= i < s.len() ==> s[i].message_id != id,
    decreases s.len(),
{
    if s.len() > 0 {
        lemma_find_card_absent(s.drop_last(), id);
        assert forall|i: int| 0 <= i < s.len() implies s[i].message_id != id by {
            if i < s.len() - 1 {
                assert(s[i] == s.drop_last()[i]);
            }
        }
    }
}

/// A record put into a store is what a lookup of its review card then returns.
pub proof fn lemma_put_then_get(before: Seq<DecisionRecord>, rec: DecisionRecord)
    ensures
        find_card(before.push(rec), rec.message_id) == Some(rec),
{
    assert(before.push(rec).last() == rec);
}

} // verus!
