use formgate::answers::{parse_form_answers, DiagnosisStatus, FormError, FormField, Gender};
use formgate::bot::Bot;
use formgate::intake::{member_tag, DirectoryMember, IntakeError};
use formgate::record::{DecisionRecord, RecordRow, RecordStore, StoreError};
use formgate::review::{CardOutcome, ReviewAction, ReviewDecision};
use formgate::roles::GuildRoleSettings;

const UPSTREAM: u64 = 968148571570446396;

fn settings() -> GuildRoleSettings {
    GuildRoleSettings {
        boomer: 877611738198069338,
        fussvolk: 877610678704308256,
        fussvoelkchen: 877611692027183144,
        male_role: 101,
        female_role: 102,
        others_role: 103,
        asd_role: 877610407198617670,
        non_asd_role: 877610569241358406,
        default_member_role: 877609070381629441,
        f_adult: 944282189334470737,
        f_child: 917568220213440523,
    }
}

fn fields(values: &[&str]) -> Vec<FormField> {
    let names = ["Discord tag", "Diagnosis", "Gender", "Over 18", "Over 30", "Extra"];
    values
        .iter()
        .enumerate()
        .map(|(i, v)| FormField { name: names[i].to_string(), value: v.to_string() })
        .collect()
}

fn alice_fields() -> Vec<FormField> {
    fields(&[
        "alice#0001",
        "Formally diagnosed with ASD (Autism spectrum Disorder)",
        "Female",
        "Yes",
        "No",
    ])
}

fn member(id: u64, name: &str, discriminator: u16, roles: Vec<u64>) -> DirectoryMember {
    DirectoryMember { user_id: id, name: name.to_string(), discriminator, role_ids: roles }
}

fn record(card: u64, user: u64, adult: bool, senior: bool, gender: Gender, status: DiagnosisStatus) -> DecisionRecord {
    DecisionRecord {
        message_id: card,
        user_id: user,
        status,
        gender,
        is_female: gender == Gender::Female,
        is_18_plus: adult,
        is_30_plus: senior,
    }
}

fn sorted(mut v: Vec<u64>) -> Vec<u64> {
    v.sort();
    v
}

#[test]
fn parse_reads_each_position() {
    let a = parse_form_answers(&alice_fields()).unwrap();
    assert_eq!(a.discord_tag, "alice#0001");
    assert_eq!(a.status, DiagnosisStatus::Formal);
    assert_eq!(a.gender, Gender::Female);
    assert!(a.is_18_plus);
    assert!(!a.is_30_plus);
    assert!(a.is_female);
}

#[test]
fn parse_reads_other_answers() {
    let a = parse_form_answers(&fields(&[
        "bob#0420",
        "Family Member or Friend of an Autistic Individual.",
        "Other (Non-Binary, Transgender, ETC...)",
        "No",
        "Yes",
        "ignored",
    ]))
    .unwrap();
    assert_eq!(a.status, DiagnosisStatus::FamilyOrFriend);
    assert_eq!(a.gender, Gender::Other);
    assert!(!a.is_female);
    assert!(!a.is_18_plus);
    assert!(a.is_30_plus);
    let b = parse_form_answers(&fields(&["c#1", "Questioning ASD", "Male", "No", "No"])).unwrap();
    assert_eq!(b.status, DiagnosisStatus::Questioning);
    assert_eq!(b.gender, Gender::Male);
    let c = parse_form_answers(&fields(&["c#1", "Self Diagnosed", "Male", "No", "No"])).unwrap();
    assert_eq!(c.status, DiagnosisStatus::SelfDiagnosed);
}

#[test]
fn parse_is_deterministic() {
    let a = parse_form_answers(&alice_fields()).unwrap();
    let b = parse_form_answers(&alice_fields()).unwrap();
    assert_eq!(a.discord_tag, b.discord_tag);
    assert_eq!(a.status, b.status);
    assert_eq!(a.gender, b.gender);
    assert_eq!((a.is_18_plus, a.is_30_plus, a.is_female), (b.is_18_plus, b.is_30_plus, b.is_female));
}

#[test]
fn parse_refuses_out_of_set_values() {
    let good = ["alice#0001", "Questioning ASD", "Male", "Yes", "No"];
    for pos in 1..5 {
        let mut v = good;
        v[pos] = "maybe";
        assert_eq!(parse_form_answers(&fields(&v)).unwrap_err(), FormError::MalformedSubmission);
    }
    let short = fields(&good[..4]);
    assert_eq!(parse_form_answers(&short).unwrap_err(), FormError::MalformedSubmission);
    assert_eq!(parse_form_answers(&Vec::new()).unwrap_err(), FormError::MalformedSubmission);
}

#[test]
fn tags_pad_the_discriminator() {
    assert_eq!(member_tag(&"alice".to_string(), 1), "alice#0001");
    assert_eq!(member_tag(&"bob".to_string(), 420), "bob#0420");
    assert_eq!(member_tag(&"carol".to_string(), 9999), "carol#9999");
    assert_eq!(member_tag(&"dan".to_string(), 65535), "dan#65535");
    assert_eq!(member_tag(&"".to_string(), 0), "#0000");
}

#[test]
fn intake_ignores_other_authors() {
    let bot = Bot::new(settings(), UPSTREAM);
    assert_eq!(bot.take_submission(42, &alice_fields()).unwrap_err(), IntakeError::NotFromUpstream);
    let bad = fields(&["x#0001", "nope", "Male", "Yes", "No"]);
    assert_eq!(bot.take_submission(UPSTREAM, &bad).unwrap_err(), IntakeError::Malformed);
}

#[test]
fn matching_skips_verified_and_other_tags() {
    let s = settings();
    let bot = Bot::new(s, UPSTREAM);
    let answers = bot.take_submission(UPSTREAM, &alice_fields()).unwrap();
    let members = vec![
        member(1, "alice2", 1, vec![]),
        member(2, "alice", 1, vec![s.default_member_role]),
        member(3, "alice", 1, vec![55]),
        member(4, "alice", 1, vec![]),
    ];
    assert_eq!(bot.resolve_submitter(&answers, &members), Some(3));
    assert_eq!(bot.resolve_submitter(&answers, &members[..2].to_vec()), None);
}

#[test]
fn scenario_a_submission_creates_record() {
    let s = settings();
    let mut bot = Bot::new(s, UPSTREAM);
    let answers = bot.take_submission(UPSTREAM, &alice_fields()).unwrap();
    let uid = bot.resolve_submitter(&answers, &vec![member(77, "alice", 1, vec![])]).unwrap();
    assert_eq!(uid, 77);
    let rec = bot.file_record(500, uid, &answers).unwrap();
    let row = rec.to_row();
    assert_eq!(row.gender, "Female");
    assert!(row.is_female);
    assert!(row.is_18_plus);
    assert!(!row.is_30_plus);
    assert_eq!(row.diagnosis_status.as_deref(), Some("Formal"));
    assert_eq!(bot.desk.record_of_card(500).unwrap(), rec);
    let expected = vec![s.default_member_role, s.fussvolk, s.f_adult, s.asd_role, s.female_role];
    assert_eq!(sorted(bot.grants(&rec)), sorted(expected));
}

#[test]
fn scenario_b_unknown_submitter_creates_nothing() {
    let bot = Bot::new(settings(), UPSTREAM);
    let answers = bot.take_submission(UPSTREAM, &alice_fields()).unwrap();
    let members = vec![member(8, "mallory", 1, vec![])];
    assert_eq!(bot.resolve_submitter(&answers, &members), None);
    assert_eq!(bot.resolve_submitter(&answers, &Vec::new()), None);
    assert!(bot.desk.record_of_card(500).is_err());
}

#[test]
fn scenario_c_approve_once() {
    let s = settings();
    let mut bot = Bot::new(s, UPSTREAM);
    let answers = bot.take_submission(UPSTREAM, &alice_fields()).unwrap();
    let rec = bot.file_record(500, 77, &answers).unwrap();
    let d = bot.press(500, &"approve_user".to_string()).unwrap();
    assert_eq!(d, ReviewDecision::Approve(rec));
    let granted = bot.grants(&rec);
    let expected = vec![s.default_member_role, s.fussvolk, s.f_adult, s.asd_role, s.female_role];
    assert_eq!(sorted(granted), sorted(expected));
    assert_eq!(bot.desk.outcome_of_card(500), Some(CardOutcome::Approved));
    let again = bot.press(500, &"approve_user".to_string()).unwrap();
    assert_eq!(again, ReviewDecision::AlreadyResolved(CardOutcome::Approved));
    let ban = bot.press(500, &"reject_user_and_ban".to_string()).unwrap();
    assert_eq!(ban, ReviewDecision::AlreadyResolved(CardOutcome::Approved));
}

#[test]
fn scenario_d_ban_keeps_record() {
    let mut bot = Bot::new(settings(), UPSTREAM);
    let answers = bot.take_submission(UPSTREAM, &alice_fields()).unwrap();
    let rec = bot.file_record(500, 77, &answers).unwrap();
    assert_eq!(bot.press(500, &"reject_user_and_ban".to_string()), Some(ReviewDecision::Ban(rec)));
    assert_eq!(bot.desk.outcome_of_card(500), Some(CardOutcome::Banned));
    assert_eq!(bot.desk.record_of_card(500).unwrap(), rec);
}

#[test]
fn kick_resolves_card() {
    let mut bot = Bot::new(settings(), UPSTREAM);
    let answers = bot.take_submission(UPSTREAM, &alice_fields()).unwrap();
    let rec = bot.file_record(500, 77, &answers).unwrap();
    assert_eq!(bot.press(500, &"reject_user_and_kick".to_string()), Some(ReviewDecision::Kick(rec)));
    assert_eq!(
        bot.press(500, &"approve_user".to_string()),
        Some(ReviewDecision::AlreadyResolved(CardOutcome::Kicked))
    );
}

#[test]
fn scenario_e_departure_then_late_press() {
    let mut bot = Bot::new(settings(), UPSTREAM);
    let answers = bot.take_submission(UPSTREAM, &alice_fields()).unwrap();
    let rec = bot.file_record(500, 77, &answers).unwrap();
    assert_eq!(bot.departed(77), Some(500));
    assert_eq!(bot.departed(78), None);
    assert_eq!(bot.desk.record_of_card(500).unwrap(), rec);
    assert_eq!(bot.press(500, &"approve_user".to_string()), Some(ReviewDecision::Approve(rec)));
}

#[test]
fn press_without_record_is_not_found() {
    let mut bot = Bot::new(settings(), UPSTREAM);
    assert_eq!(bot.press(9, &"approve_user".to_string()), Some(ReviewDecision::RecordNotFound));
    assert_eq!(bot.desk.outcome_of_card(9), None);
    assert_eq!(bot.press(9, &"approved".to_string()), None);
}

#[test]
fn custom_ids_round_trip() {
    for a in [ReviewAction::Approve, ReviewAction::Ban, ReviewAction::Kick] {
        assert_eq!(ReviewAction::from_custom_id(&a.custom_id().to_string()), Some(a));
    }
    assert_eq!(ReviewAction::from_custom_id(&"approved".to_string()), None);
}

#[test]
fn roles_for_each_age_tier() {
    let s = settings();
    let minor_girl = record(1, 2, false, false, Gender::Female, DiagnosisStatus::SelfDiagnosed);
    assert_eq!(
        s.derive_roles(&minor_girl),
        vec![s.default_member_role, s.fussvoelkchen, s.f_child, s.asd_role, s.female_role]
    );
    let senior_woman = record(1, 2, true, true, Gender::Female, DiagnosisStatus::FamilyOrFriend);
    assert_eq!(
        s.derive_roles(&senior_woman),
        vec![s.default_member_role, s.fussvolk, s.boomer, s.f_adult, s.non_asd_role, s.female_role]
    );
    let senior_man = record(1, 2, false, true, Gender::Male, DiagnosisStatus::Questioning);
    assert_eq!(s.derive_roles(&senior_man), vec![s.default_member_role, s.boomer, s.asd_role, s.male_role]);
    let other = record(1, 2, true, false, Gender::Other, DiagnosisStatus::Formal);
    assert_eq!(s.derive_roles(&other), vec![s.default_member_role, s.fussvolk, s.asd_role, s.others_role]);
}

#[test]
fn role_set_shape_holds() {
    let s = settings();
    for adult in [false, true] {
        for senior in [false, true] {
            for g in [Gender::Male, Gender::Female, Gender::Other] {
                let r = s.derive_roles(&record(1, 2, adult, senior, g, DiagnosisStatus::Formal));
                assert!(r.contains(&s.default_member_role));
                let tiers = r.contains(&s.fussvolk) || r.contains(&s.boomer);
                assert_eq!(r.contains(&s.fussvoelkchen), !tiers);
                let genders = [s.male_role, s.female_role, s.others_role];
                assert_eq!(genders.iter().filter(|x| r.contains(x)).count(), 1);
            }
        }
    }
}

#[test]
fn store_round_trip_and_errors() {
    let mut store = RecordStore::new();
    let a = record(10, 1, true, false, Gender::Male, DiagnosisStatus::Formal);
    let b = record(11, 1, false, false, Gender::Other, DiagnosisStatus::Questioning);
    assert_eq!(store.get_by_card_id(10), Err(StoreError::NotFound));
    assert_eq!(store.get_by_submitter_id(1), Err(StoreError::NotFound));
    assert_eq!(store.put(a), Ok(()));
    assert_eq!(store.get_by_card_id(10), Ok(a));
    assert_eq!(store.put(b), Ok(()));
    assert_eq!(store.get_by_submitter_id(1), Ok(b));
    let dup = record(10, 9, false, true, Gender::Female, DiagnosisStatus::SelfDiagnosed);
    assert_eq!(store.put(dup), Err(StoreError::DuplicateKey));
    assert_eq!(store.get_by_card_id(10), Ok(a));
    assert_eq!(store.len(), 2);
}

#[test]
fn rows_round_trip() {
    for g in [Gender::Male, Gender::Female, Gender::Other] {
        for d in [
            DiagnosisStatus::Formal,
            DiagnosisStatus::Questioning,
            DiagnosisStatus::SelfDiagnosed,
            DiagnosisStatus::FamilyOrFriend,
        ] {
            let rec = record(3, 4, true, false, g, d);
            assert_eq!(rec.to_row().to_record(), Ok(rec));
        }
    }
    let row = RecordRow {
        message_id: 1,
        user_id: 2,
        gender: "Female".to_string(),
        is_female: true,
        is_18_plus: false,
        is_30_plus: false,
        diagnosis_status: Some("Family Member or Friend of an Autistic Individual.".to_string()),
    };
    assert_eq!(row.to_record().unwrap().status, DiagnosisStatus::FamilyOrFriend);
    let mut bad = row.clone();
    bad.gender = "female".to_string();
    assert_eq!(bad.to_record(), Err(StoreError::CorruptRow));
    let mut missing = row.clone();
    missing.diagnosis_status = None;
    assert_eq!(missing.to_record(), Err(StoreError::CorruptRow));
}

#[test]
fn restore_and_duplicate_filing() {
    let mut bot = Bot::new(settings(), UPSTREAM);
    let rec = record(20, 5, true, true, Gender::Female, DiagnosisStatus::Formal);
    assert_eq!(bot.restore(&rec.to_row()), Ok(()));
    assert_eq!(bot.restore(&rec.to_row()), Err(StoreError::DuplicateKey));
    let answers = bot.take_submission(UPSTREAM, &alice_fields()).unwrap();
    assert_eq!(bot.file_record(20, 6, &answers), Err(StoreError::DuplicateKey));
    assert_eq!(bot.desk.record_of_card(20), Ok(rec));
}
