//! The intake form: its fields, the closed sets of answers it accepts, and
//! the parser that turns the fields into typed answers.
use vstd::prelude::*;

verus! {

/// How a member describes their relation to autism.
#[derive(Clone, Copy, Debug, PartialEq, Eq, Structural)]
pub enum DiagnosisStatus {
    Formal,
    Questioning,
    SelfDiagnosed,
    FamilyOrFriend,
}

/// The gender given on the form.
#[derive(Clone, Copy, Debug, PartialEq, Eq, Structural)]
pub enum Gender {
    Male,
    Female,
    Other,
}

/// One name/value pair of the form, as the upstream form emits it.
#[derive(Clone, Debug)]
pub struct FormField {
    pub name: String,
    pub value: String,
}

/// The validated answers of one submission.
#[derive(Clone, Debug)]
pub struct FormAnswers {
    pub discord_tag: String,
    pub status: DiagnosisStatus,
    pub gender: Gender,
    pub is_18_plus: bool,
    pub is_30_plus: bool,
    pub is_female: bool,
}

/// Why a submission could not be read.
#[derive(Clone, Copy, Debug, PartialEq, Eq, Structural)]
pub enum FormError {
    MalformedSubmission,
}

/// Number of positional fields a submission carries.
pub const FORM_FIELD_COUNT: usize = 5;

pub open spec fn status_answer(s: Seq<char>) -> Option<DiagnosisStatus> {
    if s == "Formally diagnosed with ASD (Autism spectrum Disorder)"@ {
        Some(DiagnosisStatus::Formal)
    } else if s == "Questioning ASD"@ {
        Some(DiagnosisStatus::Questioning)
    } else if s == "Self Diagnosed"@ {
        Some(DiagnosisStatus::SelfDiagnosed)
    } else if s == "Family Member or Friend of an Autistic Individual."@ {
        Some(DiagnosisStatus::FamilyOrFriend)
    } else {
        None
    }
}

pub open spec fn gender_answer(s: Seq<char>) -> Option<Gender> {
    if s == "Male"@ {
        Some(Gender::Male)
    } else if s == "Female"@ {
        Some(Gender::Female)
    } else if s == "Other (Non-Binary, Transgender, ETC...)"@ {
        Some(Gender::Other)
    } else {
        None
    }
}

pub open spec fn yes_no_answer(s: Seq<char>) -> Option<bool> {
    if s == "Yes"@ {
        Some(true)
    } else if s == "No"@ {
        Some(false)
    } else {
        None
    }
}

/// The values of the fields, in order.
pub open spec fn field_values(fields: Seq<FormField>) -> Seq<Seq<char>> {
    fields.map_values(|f: FormField| f.value@)
}

/// Whether the values form a readable submission: at least five of them,
/// and each of positions one to four within its closed set of answers.
pub open spec fn well_formed_values(v: Seq<Seq<char>>) -> bool {
    &&& v.len() >= 5
    &&& status_answer(v[1]) is Some
    &&& gender_answer(v[2]) is Some
    &&& yes_no_answer(v[3]) is Some
    &&& yes_no_answer(v[4]) is Some
}

/// The answers read from well-formed values.
pub open spec fn answers_match(a: FormAnswers, v: Seq<Seq<char>>) -> bool {
    &&& a.discord_tag@ == v[0]
    &&& status_answer(v[1]) == Some(a.status)
    &&& gender_answer(v[2]) == Some(a.gender)
    &&& yes_no_answer(v[3]) == Some(a.is_18_plus)
    &&& yes_no_answer(v[4]) == Some(a.is_30_plus)
    &&& a.is_female == (a.gender == Gender::Female)
}

/// Whether the text `s` is exactly `lit`.
pub fn text_is(s: &String, lit: &str) -> (r: bool)
    ensures
        r == (s@ == lit@),
{
    let t = lit.to_owned();
    *s == t
}

pub fn parse_status(s: &String) -> (r: Option<DiagnosisStatus>)
    ensures
        r == status_answer(s@),
{
    if text_is(s, "Formally diagnosed with ASD (Autism spectrum Disorder)") {
        Some(DiagnosisStatus::Formal)
    } else if text_is(s, "Questioning ASD") {
        Some(DiagnosisStatus::Questioning)
    } else if text_is(s, "Self Diagnosed") {
        Some(DiagnosisStatus::SelfDiagnosed)
    } else if text_is(s, "Family Member or Friend of an Autistic Individual.") {
        Some(DiagnosisStatus::FamilyOrFriend)
    } else {
        None
    }
}

pub fn parse_gender(s: &String) -> (r: Option<Gender>)
    ensures
        r == gender_answer(s@),
{
    if text_is(s, "Male") {
        Some(Gender::Male)
    } else if text_is(s, "Female") {
        Some(Gender::Female)
    } else if text_is(s, "Other (Non-Binary, Transgender, ETC...)") {
        Some(Gender::Other)
    } else {
        None
    }
}

pub fn parse_yes_no(s: &String) -> (r: Option<bool>)
    ensures
        r == yes_no_answer(s@),
{
    if text_is(s, "Yes") {
        Some(true)
    } else if text_is(s, "No") {
        Some(false)
    } else {
        None
    }
}

/// Reads the positional fields of a submission: the claimed tag, the
/// diagnosis status, the gender, and the two yes/no age answers. Any value
/// outside its closed set, or fewer than five fields, is malformed.
pub fn parse_form_answers(fields: &Vec<FormField>) -> (r: Result<FormAnswers, FormError>)
    ensures
        r is Ok <==> well_formed_values(field_values(fields@)),
        r is Err ==> r == Err::<FormAnswers, FormError>(FormError::MalformedSubmission),
        r matches Ok(a) ==> answers_match(a, field_values(fields@)),
{
    proof {
        assert(field_values(fields@).len() == fields@.len());
    }
    if fields.len() < FORM_FIELD_COUNT {
        return Err(FormError::MalformedSubmission);
    }
    proof {
        assert forall|i: int| 0 <= i < fields@.len() implies field_values(fields@)[i]
            == fields@[i].value@ by {}
    }
    let status = match parse_status(&fields[1].value) {
        Some(s) => s,
        None => return Err(FormError::MalformedSubmission),
    };
    let gender = match parse_gender(&fields[2].value) {
        Some(g) => g,
        None => return Err(FormError::MalformedSubmission),
    };
    let is_18_plus = match parse_yes_no(&fields[3].value) {
        Some(b) => b,
        None => return Err(FormError::MalformedSubmission),
    };
    let is_30_plus = match parse_yes_no(&fields[4].value) {
        Some(b) => b,
        None => return Err(FormError::MalformedSubmission),
    };
    let is_female = match gender {
        Gender::Female => true,
        _ => false,
    };
    Ok(FormAnswers {
        discord_tag: fields[0].value.clone(),
        status,
        gender,
        is_18_plus,
        is_30_plus,
        is_female,
    })
}

/// Parsing is deterministic: two answers read from the same values agree in
/// every field, and each is female exactly when its gender is `Female`.
pub proof fn lemma_parse_deterministic(a: FormAnswers, b: FormAnswers, v: Seq<Seq<char>>)
    requires
        answers_match(a, v),
        answers_match(b, v),
    ensures
        a.discord_tag@ == b.discord_tag@,
        a.status == b.status,
        a.gender == b.gender,
        a.is_18_plus == b.is_18_plus,
        a.is_30_plus == b.is_30_plus,
        a.is_female == b.is_female,
        a.is_female == (a.gender == Gender::Female),
{
}

/// A value outside its closed set, at any of the four answer positions,
/// makes the submission malformed.
pub proof fn lemma_out_of_set_malformed(v: Seq<Seq<char>>)
    requires
        v.len() >= 5,
        status_answer(v[1]) is None || gender_answer(v[2]) is None || yes_no_answer(v[3]) is None
            || yes_no_answer(v[4]) is None,
    ensures
        !well_formed_values(v),
{
}

} // verus!
