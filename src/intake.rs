//! Intake of a new submission: which messages are submissions, and which
//! directory member a submission is from.
use vstd::prelude::*;
use crate::answers::{FormAnswers, FormError, FormField, field_values, well_formed_values, answers_match, parse_form_answers};

verus! {

/// Why a message is not taken in as a submission.
#[derive(Clone, Copy, Debug, PartialEq, Eq, Structural)]
pub enum IntakeError {
    /// The message is not from the upstream form automation: ignore it.
    NotFromUpstream,
    /// The submission's fields cannot be read.
    Malformed,
}

/// Takes a message in as a submission: only messages of the upstream
/// automation count, and their fields must be well formed.
pub fn accept_submission(author_id: u64, upstream_id: u64, fields: &Vec<FormField>) -> (r: Result<FormAnswers, IntakeError>)
    ensures
        author_id != upstream_id ==> r == Err::<FormAnswers, IntakeError>(IntakeError::NotFromUpstream),
        author_id == upstream_id && !well_formed_values(field_values(fields@)) ==> r == Err::<FormAnswers, IntakeError>(IntakeError::Malformed),
        r is Ok <==> author_id == upstream_id && well_formed_values(field_values(fields@)),
        r matches Ok(a) ==> answers_match(a, field_values(fields@)),
{
    if author_id != upstream_id {
        return Err(IntakeError::NotFromUpstream);
    }
    match parse_form_answers(fields) {
        Ok(a) => Ok(a),
        Err(FormError::MalformedSubmission) => Err(IntakeError::Malformed),
    }
}

pub open spec fn digit_char(n: int) -> char {
    if n == 0 {
        '0'
    } else if n == 1 {
        '1'
    } else if n == 2 {
        '2'
    } else if n == 3 {
        '3'
    } else if n == 4 {
        '4'
    } else if n == 5 {
        '5'
    } else if n == 6 {
        '6'
    } else if n == 7 {
        '7'
    } else if n == 8 {
        '8'
    } else {
        '9'
    }
}

/// A discriminator in decimal, padded with zeros to at least four digits.
pub open spec fn discriminator_text(d: u16) -> Seq<char> {
    let four = seq![
        digit_char((d as int % 10000) / 1000),
        digit_char((d as int % 1000) / 100),
        digit_char((d as int % 100) / 10),
        digit_char(d as int % 10),
    ];
    if d >= 10000 {
        seq![digit_char(d as int / 10000)] + four
    } else {
        four
    }
}

/// A user's tag: the name, `#`, and the padded discriminator.
pub open spec fn tag_of(name: Seq<char>, discriminator: u16) -> Seq<char> {
    name + seq!['#'] + discriminator_text(discriminator)
}

fn digit_text(n: u16) -> (r: &'static str)
    requires
        n < 10,
    ensures
        r@ == seq![digit_char(n as int)],
{
    proof {
        reveal_strlit("0");
        reveal_strlit("1");
        reveal_strlit("2");
        reveal_strlit("3");
        reveal_strlit("4");
        reveal_strlit("5");
        reveal_strlit("6");
        reveal_strlit("7");
        reveal_strlit("8");
        reveal_strlit("9");
    }
    let r = if n == 0 {
        "0"
    } else if n == 1 {
        "1"
    } else if n == 2 {
        "2"
    } else if n == 3 {
        "3"
    } else if n == 4 {
        "4"
    } else if n == 5 {
        "5"
    } else if n == 6 {
        "6"
    } else if n == 7 {
        "7"
    } else if n == 8 {
        "8"
    } else {
        "9"
    };
    proof {
        assert(r@ =~= seq![digit_char(n as int)]);
    }
    r
}

/// The tag of a user with this name and discriminator, as the directory
/// writes it.
pub fn member_tag(name: &String, discriminator: u16) -> (r: String)
    ensures
        r@ == tag_of(name@, discriminator),
{
    let mut t = name.clone();
    proof {
        reveal_strlit("#");
    }
    t.append("#");
    if discriminator >= 10000 {
        t.append(digit_text(discriminator / 10000));
    }
    t.append(digit_text((discriminator % 10000) / 1000));
    t.append(digit_text((discriminator % 1000) / 100));
    t.append(digit_text((discriminator % 100) / 10));
    t.append(digit_text(discriminator % 10));
    proof {
        assert(t@ =~= tag_of(name@, discriminator));
    }
    t
}

/// A member of the directory, as a name search returns it.
#[derive(Clone, Debug)]
pub struct DirectoryMember {
    pub user_id: u64,
    pub name: String,
    pub discriminator: u16,
    pub role_ids: Vec<u64>,
}

/// Whether a member is the claimant of a submission: their tag is exactly
/// the claimed one and they do not yet hold the verified role.
pub open spec fn is_claimant(m: DirectoryMember, claimed: Seq<char>, verified_role: u64) -> bool {
    tag_of(m.name@, m.discriminator) == claimed && !m.role_ids@.contains(verified_role)
}

/// Whether `roles` holds `role`.
pub fn has_role(roles: &Vec<u64>, role: u64) -> (r: bool)
    ensures
        r == roles@.contains(role),
{
    let mut i: usize = 0;
    while i < roles.len()
        invariant
            i <= roles@.len(),
            forall|j: int| 0 <= j < i ==> roles@[j] != role,
        decreases roles@.len() - i,
    {
        if roles[i] == role {
            return true;
        }
        i = i + 1;
    }
    false
}

/// Resolves the claimed tag of a submission to a member of the search
/// results: the first, in the order of the results, whose tag is exactly the
/// claimed one and who is not yet verified.
pub fn match_submitter(claimed: &String, members: &Vec<DirectoryMember>, verified_role: u64) -> (r: Option<u64>)
    ensures
        r is None <==> forall|i: int| 0 <= i < members@.len() ==> !is_claimant(#[trigger] members@[i], claimed@, verified_role),
        r matches Some(id) ==> exists|i: int|
            0 <= i < members@.len() && is_claimant(#[trigger] members@[i], claimed@, verified_role)
                && members@[i].user_id == id
                && forall|j: int| 0 <= j < i ==> !is_claimant(#[trigger] members@[j], claimed@, verified_role),
{
    let mut i: usize = 0;
    while i < members.len()
        invariant
            i <= members@.len(),
            forall|j: int| 0 <= j < i ==> !is_claimant(#[trigger] members@[j], claimed@, verified_role),
        decreases members@.len() - i,
    {
        let m = &members[i];
        let tag = member_tag(&m.name, m.discriminator);
        if tag == *claimed && !has_role(&m.role_ids, verified_role) {
            assert(is_claimant(members@[i as int], claimed@, verified_role));
            return Some(m.user_id);
        }
        i = i + 1;
    }
    None
}

} // verus!
