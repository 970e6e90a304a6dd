use crate::error::{dec_rep, u64_to_dec, ErrorMessage};
use crate::models::{str_eq, user_eq, User, UserRole};
use crate::password::parses_as_hash;
use vstd::prelude::*;

verus! {

/// Largest page size the validated list query admits.
pub const MAX_PAGE_LIMIT: usize = 50;

/// Exactly one lookup selector is given.
pub open spec fn one_selector(
    user_id: Option<&str>,
    name: Option<&str>,
    email: Option<&str>,
) -> bool {
    match (user_id, name, email) {
        (Some(_), None, None) => true,
        (None, Some(_), None) => true,
        (None, None, Some(_)) => true,
        _ => false,
    }
}

/// The column of a row that the given selector reads.
pub open spec fn sel_field(u: User, user_id: Option<&str>, name: Option<&str>) -> Seq<char> {
    if user_id is Some {
        u.id@
    } else if name is Some {
        u.name@
    } else {
        u.email@
    }
}

/// The key the given selector carries.
pub open spec fn sel_value(
    user_id: Option<&str>,
    name: Option<&str>,
    email: Option<&str>,
) -> Seq<char> {
    if user_id is Some {
        user_id.unwrap()@
    } else if name is Some {
        name.unwrap()@
    } else {
        email.unwrap()@
    }
}

/// Law: the store invariant keeps ids unique — two distinct rows never
/// share one, since each id renders its own creation index.
pub proof fn lemma_ids_unique(s: UserStore)
    requires
        s.wf(),
    ensures
        forall|i: int, j: int|
            #![trigger s.rows()[i].id@, s.rows()[j].id@]
            0 <= i < j < s.rows().len() ==> s.rows()[i].id@ != s.rows()[j].id@,
{
    assert forall|i: int, j: int|
        0 <= i < j < s.rows().len() implies (#[trigger] s.rows()[i].id@) != (
    #[trigger] s.rows()[j].id@) by {
        crate::error::lemma_dec_rep_injective(i as nat, j as nat);
    }
}

/// The user table, held in memory in creation order.
///
/// The store owns the record invariants the schema promises: every row's
/// id is the decimal rendering of its creation index (so ids are
/// generated, non-empty and unique), emails are unique, the password
/// column always holds a parseable hash record, and both timestamps are
/// set on insert.
pub struct UserStore {
    users: Vec<User>,
}

impl UserStore {
    /// The rows in creation order.
    pub closed spec fn rows(self) -> Seq<User> {
        self.users@
    }

    /// The store's invariant.
    pub open spec fn wf(self) -> bool {
        &&& forall|i: int|
            0 <= i < self.rows().len() ==> (#[trigger] self.rows()[i]).id@ == dec_rep(i as nat)
        &&& forall|i: int, j: int|
            #![trigger self.rows()[i].email@, self.rows()[j].email@]
            0 <= i < j < self.rows().len() ==> self.rows()[i].email@ != self.rows()[j].email@
        &&& forall|i: int|
            0 <= i < self.rows().len() ==> parses_as_hash(#[trigger] self.rows()[i].password@)
    }

    /// Whether some row carries this email.
    pub open spec fn has_email(self, email: Seq<char>) -> bool {
        exists|i: int| 0 <= i < self.rows().len() && (#[trigger] self.rows()[i].email@) == email
    }

    pub fn new() -> (s: Self)
        ensures
            s.wf(),
            s.rows().len() == 0,
    {
        UserStore { users: Vec::new() }
    }

    /// The number of rows.
    pub fn len(&self) -> (n: usize)
        ensures
            n == self.rows().len(),
    {
        self.users.len()
    }

    fn find_email(&self, email: &str) -> (r: bool)
        ensures
            r == self.has_email(email@),
    {
        let mut i: usize = 0;
        while i < self.users.len()
            invariant
                i <= self.users.len(),
                forall|j: int| 0 <= j < i ==> (#[trigger] self.users@[j].email@) != email@,
        decreases self.users.len() - i,
        {
            if str_eq(self.users[i].email.as_str(), email) {
                return true;
            }
            i = i + 1;
        }
        false
    }

    /// Looks one user up by exactly one selector, returning the first
    /// match in creation order. Id and email match at most one row by the
    /// invariant; a name need not be unique and the tie falls to the
    /// earliest created row. A miss is `Ok(None)`, never an error.
    pub fn get_user(&self, user_id: Option<&str>, name: Option<&str>, email: Option<&str>) -> (r:
        Result<Option<User>, ErrorMessage>)
        requires
            self.wf(),
            one_selector(user_id, name, email),
        ensures
            r is Ok,
            r matches Ok(Some(u)) ==> exists|i: int|
                {
                    &&& 0 <= i < self.rows().len()
                    &&& user_eq(u, #[trigger] self.rows()[i])
                    &&& sel_field(self.rows()[i], user_id, name) == sel_value(
                        user_id,
                        name,
                        email,
                    )
                    &&& forall|j: int|
                        0 <= j < i ==> sel_field(#[trigger] self.rows()[j], user_id, name)
                            != sel_value(user_id, name, email)
                },
            r matches Ok(None) ==> forall|i: int|
                0 <= i < self.rows().len() ==> sel_field(#[trigger] self.rows()[i], user_id, name)
                    != sel_value(user_id, name, email),
    {
        let key: &str = if let Some(k) = user_id {
            k
        } else if let Some(k) = name {
            k
        } else if let Some(k) = email {
            k
        } else {
            return Ok(None);
        };
        let mut i: usize = 0;
        while i < self.users.len()
            invariant
                self.wf(),
                one_selector(user_id, name, email),
                i <= self.users.len(),
                key@ == sel_value(user_id, name, email),
                forall|j: int|
                    0 <= j < i ==> sel_field(#[trigger] self.users@[j], user_id, name) != key@,
            decreases self.users.len() - i,
        {
            let row = &self.users[i];
            let field: &str = if user_id.is_some() {
                row.id.as_str()
            } else if name.is_some() {
                row.name.as_str()
            } else {
                row.email.as_str()
            };
            if str_eq(field, key) {
                return Ok(Some(row.clone()));
            }
            i = i + 1;
        }
        Ok(None)
    }

    /// One page of users in creation order; `page` is 1-based and `limit`
    /// bounds the page size.
    pub fn get_users(&self, page: u32, limit: usize) -> (r: Result<Vec<User>, ErrorMessage>)
        requires
            self.wf(),
            page >= 1,
            1 <= limit <= MAX_PAGE_LIMIT,
        ensures
            r matches Ok(v) && ({
                let start = (page - 1) as int * limit as int;
                let count = if start >= self.rows().len() {
                    0int
                } else if self.rows().len() - start < limit as int {
                    self.rows().len() - start
                } else {
                    limit as int
                };
                &&& v@.len() == count
                &&& forall|k: int|
                    0 <= k < count ==> user_eq(#[trigger] v@[k], self.rows()[start + k])
            }),
    {
        let len = self.users.len();
        proof {
            assert(((page - 1) as u64) * (limit as u64) <= 0xffff_ffffu64 * 50) by (nonlinear_arith)
                requires
                    (page - 1) as u64 <= 0xffff_ffffu64,
                    limit as u64 <= 50,
            ;
        }
        let start64: u64 = ((page - 1) as u64) * (limit as u64);
        if start64 >= len as u64 {
            return Ok(Vec::new());
        }
        let start = start64 as usize;
        let remaining = len - start;
        let take = if remaining < limit {
            remaining
        } else {
            limit
        };
        let mut out: Vec<User> = Vec::new();
        let mut k: usize = 0;
        while k < take
            invariant
                out@.len() == k,
                k <= take,
                start + take <= self.users.len(),
                forall|j: int| 0 <= j < k ==> user_eq(#[trigger] out@[j], self.users@[start + j]),
            decreases take - k,
        {
            out.push(self.users[start + k].clone());
            k = k + 1;
        }
        Ok(out)
    }

    fn save_with_role(&mut self, name: &str, email: &str, password: &str, role: UserRole) -> (r:
        Result<User, ErrorMessage>)
        requires
            old(self).wf(),
            parses_as_hash(password@),
        ensures
            final(self).wf(),
            old(self).has_email(email@) <==> r == Err::<User, ErrorMessage>(
                ErrorMessage::EmailExists,
            ),
            !old(self).has_email(email@) ==> r is Ok,
            r is Err ==> final(self).rows() == old(self).rows(),
            r matches Ok(u) ==> {
                &&& final(self).rows().len() == old(self).rows().len() + 1
                &&& forall|j: int|
                    0 <= j < old(self).rows().len() ==> final(self).rows()[j] == old(
                        self,
                    ).rows()[j]
                &&& user_eq(u, final(self).rows().last())
                &&& u.id@ == dec_rep(old(self).rows().len() as nat)
                &&& u.id@.len() > 0
                &&& u.name@ == name@
                &&& u.email@ == email@
                &&& u.password@ == password@
                &&& u.role == role
                &&& u.photo@.len() == 0
                &&& u.verified == false
                &&& u.created_at == Some(old(self).rows().len() as u64)
                &&& u.updated_at == Some(old(self).rows().len() as u64)
            },
    {
        if self.find_email(email) {
            return Err(ErrorMessage::EmailExists);
        }
        let tick = self.users.len();
        let id = u64_to_dec(tick as u64);
        let row = User {
            id,
            name: name.to_owned(),
            email: email.to_owned(),
            password: password.to_owned(),
            role,
            photo: String::new(),
            verified: false,
            created_at: Some(tick as u64),
            updated_at: Some(tick as u64),
        };
        let out = row.clone();
        self.users.push(row);
        proof {
            crate::error::lemma_dec_rep_nonempty(tick as nat);
        }
        Ok(out)
    }

    /// Inserts a new ordinary user; rejects a duplicate email with
    /// `EmailExists` and leaves the table unchanged in that case.
    pub fn save_user(&mut self, name: &str, email: &str, password: &str) -> (r: Result<
        User,
        ErrorMessage,
    >)
        requires
            old(self).wf(),
            parses_as_hash(password@),
        ensures
            final(self).wf(),
            old(self).has_email(email@) <==> r == Err::<User, ErrorMessage>(
                ErrorMessage::EmailExists,
            ),
            !old(self).has_email(email@) ==> r is Ok,
            r is Err ==> final(self).rows() == old(self).rows(),
            r matches Ok(u) ==> {
                &&& final(self).rows().len() == old(self).rows().len() + 1
                &&& forall|j: int|
                    0 <= j < old(self).rows().len() ==> final(self).rows()[j] == old(
                        self,
                    ).rows()[j]
                &&& user_eq(u, final(self).rows().last())
                &&& u.id@.len() > 0
                &&& u.name@ == name@
                &&& u.email@ == email@
                &&& u.password@ == password@
                &&& u.role == UserRole::User
                &&& u.photo@.len() == 0
                &&& u.verified == false
                &&& u.created_at == Some(old(self).rows().len() as u64)
                &&& u.updated_at == Some(old(self).rows().len() as u64)
            },
    {
        self.save_with_role(name, email, password, UserRole::User)
    }

    /// Inserts a new user exactly as `save_user` does, with the role
    /// forced to `Admin`.
    pub fn save_admin_user(&mut self, name: &str, email: &str, password: &str) -> (r: Result<
        User,
        ErrorMessage,
    >)
        requires
            old(self).wf(),
            parses_as_hash(password@),
        ensures
            final(self).wf(),
            old(self).has_email(email@) <==> r == Err::<User, ErrorMessage>(
                ErrorMessage::EmailExists,
            ),
            !old(self).has_email(email@) ==> r is Ok,
            r is Err ==> final(self).rows() == old(self).rows(),
            r matches Ok(u) ==> {
                &&& final(self).rows().len() == old(self).rows().len() + 1
                &&& forall|j: int|
                    0 <= j < old(self).rows().len() ==> final(self).rows()[j] == old(
                        self,
                    ).rows()[j]
                &&& user_eq(u, final(self).rows().last())
                &&& u.name@ == name@
                &&& u.email@ == email@
                &&& u.password@ == password@
                &&& u.role == UserRole::Admin
                &&& u.verified == false
            },
    {
        self.save_with_role(name, email, password, UserRole::Admin)
    }
}

} // verus!
