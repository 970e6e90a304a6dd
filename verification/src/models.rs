use vstd::prelude::*;

verus! {

/// Role tag of a user account. The record's text form is lowercase; the
/// mapping between the tag and its text lives here alone, so the store
/// adapter and the filter layer cannot drift apart.
#[derive(Clone, Copy, Debug, PartialEq, Eq, Structural)]
pub enum UserRole {
    Admin,
    Moderator,
    User,
}

impl UserRole {
    /// The lowercase text tag of this role.
    pub open spec fn spec_str(self) -> Seq<char> {
        match self {
            UserRole::Admin => "admin"@,
            UserRole::Moderator => "moderator"@,
            UserRole::User => "user"@,
        }
    }

    pub fn to_str(&self) -> (r: &'static str)
        ensures
            r@ == self.spec_str(),
    {
        match self {
            UserRole::Admin => "admin",
            UserRole::Moderator => "moderator",
            UserRole::User => "user",
        }
    }
}

impl Default for UserRole {
    /// A freshly registered account carries the ordinary role.
    fn default() -> (r: Self)
        ensures
            r == UserRole::User,
    {
        UserRole::User
    }
}

/// A user record as the repository persists it.
///
/// `password` always holds a hash record, never a plaintext; the repository
/// states that as part of its invariant. Timestamps are plain counters set
/// by the store on insert and are absent on a record that was never
/// persisted.
#[derive(Debug)]
pub struct User {
    pub id: String,
    pub name: String,
    pub email: String,
    pub password: String,
    pub role: UserRole,
    pub photo: String,
    pub verified: bool,
    pub created_at: Option<u64>,
    pub updated_at: Option<u64>,
}

/// Field-wise agreement of two user records, text fields compared by
/// their character sequences.
pub open spec fn user_eq(a: User, b: User) -> bool {
    &&& a.id@ == b.id@
    &&& a.name@ == b.name@
    &&& a.email@ == b.email@
    &&& a.password@ == b.password@
    &&& a.role == b.role
    &&& a.photo@ == b.photo@
    &&& a.verified == b.verified
    &&& a.created_at == b.created_at
    &&& a.updated_at == b.updated_at
}

/// Character-wise equality of two strings.
pub fn str_eq(a: &str, b: &str) -> (r: bool)
    ensures
        r == (a@ == b@),
{
    let alen = a.unicode_len();
    let blen = b.unicode_len();
    if alen != blen {
        return false;
    }
    let mut i: usize = 0;
    while i < alen
        invariant
            a@.len() == alen,
            b@.len() == blen,
            alen == blen,
            i <= alen,
            forall|j: int| 0 <= j < i ==> a@[j] == b@[j],
        decreases alen - i,
    {
        if a.get_char(i) != b.get_char(i) {
            return false;
        }
        i = i + 1;
    }
    proof {
        assert(a@ =~= b@);
    }
    true
}

impl Clone for User {
    fn clone(&self) -> (r: Self)
        ensures
            user_eq(*self, r),
    {
        User {
            id: self.id.clone(),
            name: self.name.clone(),
            email: self.email.clone(),
            password: self.password.clone(),
            role: self.role,
            photo: self.photo.clone(),
            verified: self.verified,
            created_at: self.created_at,
            updated_at: self.updated_at,
        }
    }
}

} // verus!
