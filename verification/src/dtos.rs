use crate::models::{str_eq, User};
use vstd::prelude::*;

verus! {

/// Whether a string has the e-mail shape of the WHATWG/HTML5 rule.
/// Names the result of validator's `validate_email`, a function of the
/// characters alone.
pub uninterp spec fn is_rfc_email(s: Seq<char>) -> bool;

/// Relies on validator's `ValidateEmail::validate_email` for `String`:
/// the check is a pure function of the characters, and the source rejects
/// an empty string outright.
#[verifier::external_body]
pub(crate) fn email_shaped(s: &str) -> (r: bool)
    ensures
        r == is_rfc_email(s@),
        s@.len() == 0 ==> !r,
{
    validator::ValidateEmail::validate_email(&s.to_owned())
}

/// One field-level complaint of the DTO layer, distinct from the domain
/// error taxonomy.
#[derive(Debug)]
pub struct ValidationIssue {
    pub field: &'static str,
    pub message: &'static str,
}

/// The issue names the given field and carries the given message.
pub open spec fn issue_is(iss: ValidationIssue, field: Seq<char>, message: Seq<char>) -> bool {
    iss.field@ == field && iss.message@ == message
}

/// The list contains an issue with the given field and message.
pub open spec fn has_issue(l: Seq<ValidationIssue>, field: Seq<char>, message: Seq<char>) -> bool {
    exists|k: int| 0 <= k < l.len() && issue_is(#[trigger] l[k], field, message)
}

/// Inbound registration payload.
#[derive(Debug, Default, Clone)]
pub struct RegisterUserDto {
    pub name: String,
    pub email: String,
    pub password: String,
    pub password_confirm: String,
}

/// The registration rules: name present; email present and mail-shaped;
/// password at least six characters; confirmation present and equal to
/// the password.
pub open spec fn register_valid(dto: RegisterUserDto) -> bool {
    &&& dto.name@.len() > 0
    &&& dto.email@.len() > 0
    &&& is_rfc_email(dto.email@)
    &&& dto.password@.len() >= 6
    &&& dto.password_confirm@.len() > 0
    &&& dto.password_confirm@ == dto.password@
}

/// An issue a registration payload can earn, with the rule that earns it.
pub open spec fn register_issue_expected(dto: RegisterUserDto, iss: ValidationIssue) -> bool {
    ||| issue_is(iss, "name"@, "Name is Required"@) && dto.name@.len() == 0
    ||| issue_is(iss, "email"@, "Email is Required"@) && dto.email@.len() == 0
    ||| issue_is(iss, "email"@, "Email is invalid"@) && !is_rfc_email(dto.email@)
    ||| issue_is(iss, "password"@, "password is required"@) && dto.password@.len() == 0
    ||| issue_is(iss, "password"@, "password must be at least 6 characters"@)
        && dto.password@.len() < 6
    ||| issue_is(iss, "password_confirm"@, "confirm password is a required field"@)
        && dto.password_confirm@.len() == 0
    ||| issue_is(iss, "password_confirm"@, "passwords don't match"@) && dto.password_confirm@
        != dto.password@
}

impl RegisterUserDto {
    /// Checks the payload and reports every broken rule, field by field.
    pub fn validate(&self) -> (r: Result<(), Vec<ValidationIssue>>)
        ensures
            r is Ok <==> register_valid(*self),
            r matches Err(l) ==> {
                &&& forall|k: int|
                    0 <= k < l@.len() ==> register_issue_expected(*self, #[trigger] l@[k])
                &&& self.name@.len() == 0 ==> has_issue(l@, "name"@, "Name is Required"@)
                &&& self.email@.len() == 0 ==> has_issue(l@, "email"@, "Email is Required"@)
                &&& !is_rfc_email(self.email@) ==> has_issue(l@, "email"@, "Email is invalid"@)
                &&& self.password@.len() == 0 ==> has_issue(
                    l@,
                    "password"@,
                    "password is required"@,
                )
                &&& self.password@.len() < 6 ==> has_issue(
                    l@,
                    "password"@,
                    "password must be at least 6 characters"@,
                )
                &&& self.password_confirm@.len() == 0 ==> has_issue(
                    l@,
                    "password_confirm"@,
                    "confirm password is a required field"@,
                )
                &&& self.password_confirm@ != self.password@ ==> has_issue(
                    l@,
                    "password_confirm"@,
                    "passwords don't match"@,
                )
            },
    {
        let ghost mut at_name: int = 0;
        let ghost mut at_email_req: int = 0;
        let ghost mut at_email_shape: int = 0;
        let ghost mut at_pw_req: int = 0;
        let ghost mut at_pw_len: int = 0;
        let ghost mut at_confirm_req: int = 0;
        let ghost mut at_confirm_match: int = 0;
        let mut issues: Vec<ValidationIssue> = Vec::new();
        if self.name.as_str().is_empty() {
            proof {
                at_name = issues@.len() as int;
            }
            issues.push(ValidationIssue { field: "name", message: "Name is Required" });
        }
        if self.email.as_str().is_empty() {
            proof {
                at_email_req = issues@.len() as int;
            }
            issues.push(ValidationIssue { field: "email", message: "Email is Required" });
        }
        if !email_shaped(self.email.as_str()) {
            proof {
                at_email_shape = issues@.len() as int;
            }
            issues.push(ValidationIssue { field: "email", message: "Email is invalid" });
        }
        if self.password.as_str().is_empty() {
            proof {
                at_pw_req = issues@.len() as int;
            }
            issues.push(ValidationIssue { field: "password", message: "password is required" });
        }
        if self.password.as_str().unicode_len() < 6 {
            proof {
                at_pw_len = issues@.len() as int;
            }
            issues.push(
                ValidationIssue {
                    field: "password",
                    message: "password must be at least 6 characters",
                },
            );
        }
        if self.password_confirm.as_str().is_empty() {
            proof {
                at_confirm_req = issues@.len() as int;
            }
            issues.push(
                ValidationIssue {
                    field: "password_confirm",
                    message: "confirm password is a required field",
                },
            );
        }
        if !str_eq(self.password_confirm.as_str(), self.password.as_str()) {
            proof {
                at_confirm_match = issues@.len() as int;
            }
            issues.push(
                ValidationIssue { field: "password_confirm", message: "passwords don't match" },
            );
        }
        proof {
            if self.name@.len() == 0 {
                assert(issue_is(issues@[at_name], "name"@, "Name is Required"@));
            }
            if self.email@.len() == 0 {
                assert(issue_is(issues@[at_email_req], "email"@, "Email is Required"@));
            }
            if !is_rfc_email(self.email@) {
                assert(issue_is(issues@[at_email_shape], "email"@, "Email is invalid"@));
            }
            if self.password@.len() == 0 {
                assert(issue_is(issues@[at_pw_req], "password"@, "password is required"@));
            }
            if self.password@.len() < 6 {
                assert(issue_is(
                    issues@[at_pw_len],
                    "password"@,
                    "password must be at least 6 characters"@,
                ));
            }
            if self.password_confirm@.len() == 0 {
                assert(issue_is(
                    issues@[at_confirm_req],
                    "password_confirm"@,
                    "confirm password is a required field"@,
                ));
            }
            if self.password_confirm@ != self.password@ {
                assert(issue_is(
                    issues@[at_confirm_match],
                    "password_confirm"@,
                    "passwords don't match"@,
                ));
            }
        }
        if issues.len() == 0 {
            Ok(())
        } else {
            Err(issues)
        }
    }
}

/// Inbound login payload.
#[derive(Debug, Default, Clone)]
pub struct LoginUserDto {
    pub email: String,
    pub password: String,
}

/// The login rules: email present and mail-shaped; password at least six
/// characters.
pub open spec fn login_valid(dto: LoginUserDto) -> bool {
    &&& dto.email@.len() > 0
    &&& is_rfc_email(dto.email@)
    &&& dto.password@.len() >= 6
}

/// An issue a login payload can earn, with the rule that earns it.
pub open spec fn login_issue_expected(dto: LoginUserDto, iss: ValidationIssue) -> bool {
    ||| issue_is(iss, "email"@, "Email is Required"@) && dto.email@.len() == 0
    ||| issue_is(iss, "email"@, "Email is invalid"@) && !is_rfc_email(dto.email@)
    ||| issue_is(iss, "password"@, "password is required"@) && dto.password@.len() == 0
    ||| issue_is(iss, "password"@, "password must be at least 6 characters"@)
        && dto.password@.len() < 6
}

impl LoginUserDto {
    /// Checks the payload and reports every broken rule, field by field.
    pub fn validate(&self) -> (r: Result<(), Vec<ValidationIssue>>)
        ensures
            r is Ok <==> login_valid(*self),
            r matches Err(l) ==> {
                &&& forall|k: int|
                    0 <= k < l@.len() ==> login_issue_expected(*self, #[trigger] l@[k])
                &&& self.email@.len() == 0 ==> has_issue(l@, "email"@, "Email is Required"@)
                &&& !is_rfc_email(self.email@) ==> has_issue(l@, "email"@, "Email is invalid"@)
                &&& self.password@.len() == 0 ==> has_issue(
                    l@,
                    "password"@,
                    "password is required"@,
                )
                &&& self.password@.len() < 6 ==> has_issue(
                    l@,
                    "password"@,
                    "password must be at least 6 characters"@,
                )
            },
    {
        let ghost mut at_email_req: int = 0;
        let ghost mut at_email_shape: int = 0;
        let ghost mut at_pw_req: int = 0;
        let ghost mut at_pw_len: int = 0;
        let mut issues: Vec<ValidationIssue> = Vec::new();
        if self.email.as_str().is_empty() {
            proof {
                at_email_req = issues@.len() as int;
            }
            issues.push(ValidationIssue { field: "email", message: "Email is Required" });
        }
        if !email_shaped(self.email.as_str()) {
            proof {
                at_email_shape = issues@.len() as int;
            }
            issues.push(ValidationIssue { field: "email", message: "Email is invalid" });
        }
        if self.password.as_str().is_empty() {
            proof {
                at_pw_req = issues@.len() as int;
            }
            issues.push(ValidationIssue { field: "password", message: "password is required" });
        }
        if self.password.as_str().unicode_len() < 6 {
            proof {
                at_pw_len = issues@.len() as int;
            }
            issues.push(
                ValidationIssue {
                    field: "password",
                    message: "password must be at least 6 characters",
                },
            );
        }
        proof {
            if self.email@.len() == 0 {
                assert(issue_is(issues@[at_email_req], "email"@, "Email is Required"@));
            }
            if !is_rfc_email(self.email@) {
                assert(issue_is(issues@[at_email_shape], "email"@, "Email is invalid"@));
            }
            if self.password@.len() == 0 {
                assert(issue_is(issues@[at_pw_req], "password"@, "password is required"@));
            }
            if self.password@.len() < 6 {
                assert(issue_is(
                    issues@[at_pw_len],
                    "password"@,
                    "password must be at least 6 characters"@,
                ));
            }
        }
        if issues.len() == 0 {
            Ok(())
        } else {
            Err(issues)
        }
    }
}

/// Inbound list-query parameters.
#[derive(Debug, Default, Clone)]
pub struct RequestQueryDto {
    pub page: Option<usize>,
    pub limit: Option<usize>,
}

/// The list-query rules: a given page is 1-based; a given limit lies
/// between 1 and 50.
pub open spec fn query_valid(dto: RequestQueryDto) -> bool {
    &&& (dto.page matches Some(p) ==> p >= 1)
    &&& (dto.limit matches Some(l) ==> 1 <= l <= 50)
}

impl RequestQueryDto {
    /// Checks the query parameters and reports every broken rule.
    pub fn validate(&self) -> (r: Result<(), Vec<ValidationIssue>>)
        ensures
            r is Ok <==> query_valid(*self),
            r matches Err(l) ==> {
                &&& (self.page matches Some(p) && p < 1) ==> has_issue(
                    l@,
                    "page"@,
                    "page must be 1 or greater"@,
                )
                &&& (self.limit matches Some(v) && !(1 <= v <= 50)) ==> has_issue(
                    l@,
                    "limit"@,
                    "limit must be between 1 and 50"@,
                )
            },
    {
        let ghost mut at_page: int = 0;
        let ghost mut at_limit: int = 0;
        let mut issues: Vec<ValidationIssue> = Vec::new();
        if let Some(p) = self.page {
            if p < 1 {
                proof {
                    at_page = issues@.len() as int;
                }
                issues.push(ValidationIssue { field: "page", message: "page must be 1 or greater" });
            }
        }
        if let Some(v) = self.limit {
            if v < 1 || v > 50 {
                proof {
                    at_limit = issues@.len() as int;
                }
                issues.push(
                    ValidationIssue { field: "limit", message: "limit must be between 1 and 50" },
                );
            }
        }
        proof {
            if self.page matches Some(p) && p < 1 {
                assert(issue_is(issues@[at_page], "page"@, "page must be 1 or greater"@));
            }
            if self.limit matches Some(v) && !(1 <= v <= 50) {
                assert(issue_is(issues@[at_limit], "limit"@, "limit must be between 1 and 50"@));
            }
        }
        if issues.len() == 0 {
            Ok(())
        } else {
            Err(issues)
        }
    }
}

/// Outbound projection of a user record: every column but the password,
/// with the role rendered as its lowercase tag.
#[derive(Debug)]
pub struct FilterUserDto {
    pub id: String,
    pub name: String,
    pub email: String,
    pub role: String,
    pub photo: String,
    pub verified: bool,
    pub created_at: Option<u64>,
    pub updated_at: Option<u64>,
}

/// The projection relation: each output field carries the matching record
/// column; the password column has no counterpart.
pub open spec fn filter_spec(u: User, f: FilterUserDto) -> bool {
    &&& f.id@ == u.id@
    &&& f.name@ == u.name@
    &&& f.email@ == u.email@
    &&& f.role@ == u.role.spec_str()
    &&& f.photo@ == u.photo@
    &&& f.verified == u.verified
    &&& f.created_at == u.created_at
    &&& f.updated_at == u.updated_at
}

/// Two records agree on every column but possibly the password.
pub open spec fn same_but_password(a: User, b: User) -> bool {
    &&& a.id@ == b.id@
    &&& a.name@ == b.name@
    &&& a.email@ == b.email@
    &&& a.role == b.role
    &&& a.photo@ == b.photo@
    &&& a.verified == b.verified
    &&& a.created_at == b.created_at
    &&& a.updated_at == b.updated_at
}

/// Two projections agree on every field.
pub open spec fn filtered_eq(a: FilterUserDto, b: FilterUserDto) -> bool {
    &&& a.id@ == b.id@
    &&& a.name@ == b.name@
    &&& a.email@ == b.email@
    &&& a.role@ == b.role@
    &&& a.photo@ == b.photo@
    &&& a.verified == b.verified
    &&& a.created_at == b.created_at
    &&& a.updated_at == b.updated_at
}

/// Law: the projection reads nothing of the password column — two records
/// that differ at most there project to outputs that agree on every field.
pub proof fn lemma_filter_independent_of_password(
    a: User,
    b: User,
    fa: FilterUserDto,
    fb: FilterUserDto,
)
    requires
        same_but_password(a, b),
        filter_spec(a, fa),
        filter_spec(b, fb),
    ensures
        filtered_eq(fa, fb),
{
}

impl FilterUserDto {
    /// Projects one record for disclosure.
    pub fn filter_user(user: &User) -> (r: Self)
        ensures
            filter_spec(*user, r),
    {
        FilterUserDto {
            id: user.id.clone(),
            name: user.name.clone(),
            email: user.email.clone(),
            role: String::from_str(user.role.to_str()),
            photo: user.photo.clone(),
            verified: user.verified,
            created_at: user.created_at,
            updated_at: user.updated_at,
        }
    }

    /// Projects each record of a slice, preserving order.
    pub fn filter_users(users: &[User]) -> (r: Vec<FilterUserDto>)
        ensures
            r@.len() == users@.len(),
            forall|i: int| 0 <= i < users@.len() ==> filter_spec(users@[i], #[trigger] r@[i]),
    {
        let mut out: Vec<FilterUserDto> = Vec::new();
        let mut i: usize = 0;
        while i < users.len()
            invariant
                i <= users@.len(),
                out@.len() == i,
                forall|j: int| 0 <= j < i ==> filter_spec(users@[j], #[trigger] out@[j]),
            decreases users@.len() - i,
        {
            out.push(FilterUserDto::filter_user(&users[i]));
            i = i + 1;
        }
        out
    }
}

/// Envelope around one disclosed user.
#[derive(Debug)]
pub struct UserData {
    pub user: FilterUserDto,
}

/// Success envelope for a single-user response.
#[derive(Debug)]
pub struct UserResponseDto {
    pub status: String,
    pub data: UserData,
}

/// Success envelope for a user-list response.
#[derive(Debug)]
pub struct UserListResponseDto {
    pub status: String,
    pub users: Vec<FilterUserDto>,
    pub results: usize,
}

/// Success envelope for a login response.
#[derive(Debug)]
pub struct UserLoginResponseDto {
    pub status: String,
    pub token: String,
}

/// Body of a rendered failure envelope.
#[derive(Debug)]
pub struct Response {
    pub status: &'static str,
    pub message: String,
}

} // verus!
