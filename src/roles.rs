//! The role policy: which roles an approved submission grants.
use vstd::prelude::*;
use crate::answers::{DiagnosisStatus, Gender};
use crate::record::DecisionRecord;

verus! {

/// The role ids of a guild that the policy hands out.
#[derive(Clone, Copy, Debug, PartialEq, Eq, Structural)]
pub struct GuildRoleSettings {
    /// Members of 30 and over.
    pub boomer: u64,
    /// Members of 18 and over.
    pub fussvolk: u64,
    /// Members under 18.
    pub fussvoelkchen: u64,
    pub male_role: u64,
    pub female_role: u64,
    pub others_role: u64,
    /// Members who are autistic or questioning.
    pub asd_role: u64,
    /// Family members and friends of autistic people.
    pub non_asd_role: u64,
    /// The base role of every verified member.
    pub default_member_role: u64,
    /// Adult women.
    pub f_adult: u64,
    /// Girls under 18.
    pub f_child: u64,
}

/// Whether a record is of an adult: 18 and over, or 30 and over.
pub open spec fn is_grown(rec: DecisionRecord) -> bool {
    rec.is_18_plus || rec.is_30_plus
}

/// The role that matches a gender.
pub open spec fn gender_role(s: GuildRoleSettings, g: Gender) -> u64 {
    match g {
        Gender::Male => s.male_role,
        Gender::Female => s.female_role,
        Gender::Other => s.others_role,
    }
}

pub open spec fn opt_role(b: bool, role: u64) -> Seq<u64> {
    if b {
        seq![role]
    } else {
        Seq::<u64>::empty()
    }
}

/// The roles granted for a record, in the order they are granted.
pub open spec fn role_plan(s: GuildRoleSettings, rec: DecisionRecord) -> Seq<u64> {
    seq![s.default_member_role]
        + opt_role(rec.is_18_plus, s.fussvolk)
        + opt_role(rec.is_30_plus, s.boomer)
        + opt_role(!is_grown(rec), s.fussvoelkchen)
        + opt_role(rec.is_female && !is_grown(rec), s.f_child)
        + opt_role(rec.is_female && is_grown(rec), s.f_adult)
        + seq![
            if rec.status == DiagnosisStatus::FamilyOrFriend {
                s.non_asd_role
            } else {
                s.asd_role
            },
        ]
        + seq![gender_role(s, rec.gender)]
}

impl GuildRoleSettings {
    /// All role ids of the settings.
    pub open spec fn all_roles(&self) -> Seq<u64> {
        seq![
            self.boomer,
            self.fussvolk,
            self.fussvoelkchen,
            self.male_role,
            self.female_role,
            self.others_role,
            self.asd_role,
            self.non_asd_role,
            self.default_member_role,
            self.f_adult,
            self.f_child,
        ]
    }

    /// Whether the settings name eleven different roles.
    pub open spec fn distinct(&self) -> bool {
        self.all_roles().no_duplicates()
    }

    /// The roles to grant for an approved record: the base role; the adult
    /// and senior roles as answered, or the minor role when neither; the
    /// adult or minor women's role for a woman; the peer-support role for
    /// family and friends, else the primary-identity role; the gender role.
    pub fn derive_roles(&self, rec: &DecisionRecord) -> (r: Vec<u64>)
        ensures
            r@ == role_plan(*self, *rec),
    {
        let grown = rec.is_18_plus || rec.is_30_plus;
        let mut roles: Vec<u64> = Vec::new();
        roles.push(self.default_member_role);
        if rec.is_18_plus {
            roles.push(self.fussvolk);
        }
        if rec.is_30_plus {
            roles.push(self.boomer);
        }
        if !grown {
            roles.push(self.fussvoelkchen);
        }
        if rec.is_female && !grown {
            roles.push(self.f_child);
        }
        if rec.is_female && grown {
            roles.push(self.f_adult);
        }
        match rec.status {
            DiagnosisStatus::FamilyOrFriend => roles.push(self.non_asd_role),
            _ => roles.push(self.asd_role),
        }
        match rec.gender {
            Gender::Male => roles.push(self.male_role),
            Gender::Female => roles.push(self.female_role),
            Gender::Other => roles.push(self.others_role),
        }
        proof {
            assert(roles@ =~= role_plan(*self, *rec));
        }
        roles
    }
}

/// An element of a concatenation is an element of one of its parts.
pub proof fn lemma_concat_contains(a: Seq<u64>, b: Seq<u64>, x: u64)
    ensures
        (a + b).contains(x) <==> a.contains(x) || b.contains(x),
{
    if (a + b).contains(x) {
        let i = choose|i: int| 0 <= i < (a + b).len() && (a + b)[i] == x;
        if i >= a.len() {
            assert(b[i - a.len()] == x);
        }
    }
    if a.contains(x) {
        let i = choose|i: int| 0 <= i < a.len() && a[i] == x;
        assert((a + b)[i] == x);
    }
    if b.contains(x) {
        let i = choose|i: int| 0 <= i < b.len() && b[i] == x;
        assert((a + b)[a.len() + i] == x);
    }
}

/// Whether `x` is granted for `rec`, part by part.
pub open spec fn plan_has(s: GuildRoleSettings, rec: DecisionRecord, x: u64) -> bool {
    ||| x == s.default_member_role
    ||| (rec.is_18_plus && x == s.fussvolk)
    ||| (rec.is_30_plus && x == s.boomer)
    ||| (!is_grown(rec) && x == s.fussvoelkchen)
    ||| (rec.is_female && !is_grown(rec) && x == s.f_child)
    ||| (rec.is_female && is_grown(rec) && x == s.f_adult)
    ||| (x == if rec.status == DiagnosisStatus::FamilyOrFriend {
        s.non_asd_role
    } else {
        s.asd_role
    })
    ||| x == gender_role(s, rec.gender)
}

proof fn lemma_plan_contains(s: GuildRoleSettings, rec: DecisionRecord, x: u64)
    ensures
        role_plan(s, rec).contains(x) <==> plan_has(s, rec, x),
{
    let st = if rec.status == DiagnosisStatus::FamilyOrFriend {
        s.non_asd_role
    } else {
        s.asd_role
    };
    let p0 = seq![s.default_member_role];
    let p1 = p0 + opt_role(rec.is_18_plus, s.fussvolk);
    let p2 = p1 + opt_role(rec.is_30_plus, s.boomer);
    let p3 = p2 + opt_role(!is_grown(rec), s.fussvoelkchen);
    let p4 = p3 + opt_role(rec.is_female && !is_grown(rec), s.f_child);
    let p5 = p4 + opt_role(rec.is_female && is_grown(rec), s.f_adult);
    let p6 = p5 + seq![st];
    lemma_concat_contains(p0, opt_role(rec.is_18_plus, s.fussvolk), x);
    lemma_concat_contains(p1, opt_role(rec.is_30_plus, s.boomer), x);
    lemma_concat_contains(p2, opt_role(!is_grown(rec), s.fussvoelkchen), x);
    lemma_concat_contains(p3, opt_role(rec.is_female && !is_grown(rec), s.f_child), x);
    lemma_concat_contains(p4, opt_role(rec.is_female && is_grown(rec), s.f_adult), x);
    lemma_concat_contains(p5, seq![st], x);
    lemma_concat_contains(p6, seq![gender_role(s, rec.gender)], x);
    assert(seq![s.default_member_role][0] == s.default_member_role);
    assert(seq![st][0] == st);
    assert(seq![gender_role(s, rec.gender)][0] == gender_role(s, rec.gender));
    assert(seq![s.fussvolk][0] == s.fussvolk);
    assert(seq![s.boomer][0] == s.boomer);
    assert(seq![s.fussvoelkchen][0] == s.fussvoelkchen);
    assert(seq![s.f_child][0] == s.f_child);
    assert(seq![s.f_adult][0] == s.f_adult);
}

proof fn lemma_distinct_roles(s: GuildRoleSettings)
    requires
        s.distinct(),
    ensures
        s.boomer != s.fussvolk && s.boomer != s.fussvoelkchen && s.boomer != s.male_role
            && s.boomer != s.female_role && s.boomer != s.others_role && s.boomer != s.asd_role
            && s.boomer != s.non_asd_role && s.boomer != s.default_member_role
            && s.boomer != s.f_adult && s.boomer != s.f_child,
        s.fussvolk != s.fussvoelkchen && s.fussvolk != s.male_role && s.fussvolk != s.female_role
            && s.fussvolk != s.others_role && s.fussvolk != s.asd_role && s.fussvolk
            != s.non_asd_role && s.fussvolk != s.default_member_role && s.fussvolk != s.f_adult
            && s.fussvolk != s.f_child,
        s.fussvoelkchen != s.male_role && s.fussvoelkchen != s.female_role && s.fussvoelkchen
            != s.others_role && s.fussvoelkchen != s.asd_role && s.fussvoelkchen
            != s.non_asd_role && s.fussvoelkchen != s.default_member_role && s.fussvoelkchen
            != s.f_adult && s.fussvoelkchen != s.f_child,
        s.male_role != s.female_role && s.male_role != s.others_role && s.male_role
            != s.asd_role && s.male_role != s.non_asd_role && s.male_role
            != s.default_member_role && s.male_role != s.f_adult && s.male_role != s.f_child,
        s.female_role != s.others_role && s.female_role != s.asd_role && s.female_role
            != s.non_asd_role && s.female_role != s.default_member_role && s.female_role
            != s.f_adult && s.female_role != s.f_child,
        s.others_role != s.asd_role && s.others_role != s.non_asd_role && s.others_role
            != s.default_member_role && s.others_role != s.f_adult && s.others_role != s.f_child,
{
    let r = s.all_roles();
    assert(r[0] == s.boomer);
    assert(r[1] == s.fussvolk);
    assert(r[2] == s.fussvoelkchen);
    assert(r[3] == s.male_role);
    assert(r[4] == s.female_role);
    assert(r[5] == s.others_role);
    assert(r[6] == s.asd_role);
    assert(r[7] == s.non_asd_role);
    assert(r[8] == s.default_member_role);
    assert(r[9] == s.f_adult);
    assert(r[10] == s.f_child);
}

/// The shape of every granted role set: the base role is always in it; the
/// minor role is in it exactly when neither the adult nor the senior role
/// is, and those two are in it as answered; and of the three gender roles
/// exactly the one that matches the record's gender is in it.
pub proof fn lemma_role_plan_shape(s: GuildRoleSettings, rec: DecisionRecord)
    requires
        s.distinct(),
    ensures
        role_plan(s, rec).contains(s.default_member_role),
        role_plan(s, rec).contains(s.fussvolk) == rec.is_18_plus,
        role_plan(s, rec).contains(s.boomer) == rec.is_30_plus,
        role_plan(s, rec).contains(s.fussvoelkchen) <==> !(role_plan(s, rec).contains(s.fussvolk)
            || role_plan(s, rec).contains(s.boomer)),
        role_plan(s, rec).contains(gender_role(s, rec.gender)),
        forall|g: Gender| g != rec.gender ==> !role_plan(s, rec).contains(#[trigger] gender_role(s, g)),
{
    lemma_distinct_roles(s);
    lemma_plan_contains(s, rec, s.default_member_role);
    lemma_plan_contains(s, rec, s.fussvolk);
    lemma_plan_contains(s, rec, s.boomer);
    lemma_plan_contains(s, rec, s.fussvoelkchen);
    lemma_plan_contains(s, rec, s.male_role);
    lemma_plan_contains(s, rec, s.female_role);
    lemma_plan_contains(s, rec, s.others_role);
    assert forall|g: Gender| g != rec.gender implies !role_plan(s, rec).contains(
        #[trigger] gender_role(s, g),
    ) by {
        lemma_plan_contains(s, rec, gender_role(s, g));
    }
}

} // verus!
