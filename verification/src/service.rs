use crate::dtos::{
    filter_spec, login_valid, register_valid, FilterUserDto, LoginUserDto, RegisterUserDto,
    UserData, UserListResponseDto, UserResponseDto,
};
use crate::error::{ErrorMessage, HttpError};
use crate::models::{user_eq, User, UserRole};
use crate::password::{
    compare, hash, lemma_encode_utf8_nonempty, parses_as_hash, phc_matches, MAX_PASSWORD_LENGTH,
};
use crate::store::UserStore;
use vstd::prelude::*;
use vstd::utf8::encode_utf8;

verus! {

/// What a successful registration leaves behind: the table grew by the
/// new record, earlier rows untouched, and the response envelope carries
/// the new record's projection.
pub open spec fn registered(
    pre: UserStore,
    post: UserStore,
    dto: RegisterUserDto,
    role: UserRole,
    resp: UserResponseDto,
) -> bool {
    &&& resp.status@ == "success"@
    &&& post.rows().len() == pre.rows().len() + 1
    &&& (forall|j: int| 0 <= j < pre.rows().len() ==> post.rows()[j] == pre.rows()[j])
    &&& ({
        let u = post.rows().last();
        &&& u.name@ == dto.name@
        &&& u.email@ == dto.email@
        &&& u.role == role
        &&& u.verified == false
        &&& parses_as_hash(u.password@)
        &&& phc_matches(dto.password@, u.password@)
        &&& filter_spec(u, resp.data.user)
    })
}

fn register_with_role(store: &mut UserStore, dto: &RegisterUserDto, admin: bool) -> (r: Result<
    UserResponseDto,
    HttpError,
>)
    requires
        old(store).wf(),
        register_valid(*dto),
    ensures
        final(store).wf(),
        r is Err ==> final(store).rows() == old(store).rows(),
        encode_utf8(dto.password@).len() > MAX_PASSWORD_LENGTH ==> (r matches Err(e) && e.status
            == 400 && e.message@ == ErrorMessage::ExceededMaxPasswordLength(
            MAX_PASSWORD_LENGTH,
        ).spec_msg()),
        encode_utf8(dto.password@).len() <= MAX_PASSWORD_LENGTH && old(store).has_email(
            dto.email@,
        ) ==> (r matches Err(e) && (e.status == 409 && e.message@
            == ErrorMessage::EmailExists.spec_msg() || e.status == 500 && e.message@
            == ErrorMessage::HashingError.spec_msg())),
        encode_utf8(dto.password@).len() <= MAX_PASSWORD_LENGTH && !old(store).has_email(
            dto.email@,
        ) ==> r is Ok || (r matches Err(e) && e.status == 500 && e.message@
            == ErrorMessage::HashingError.spec_msg()),
        r matches Ok(resp) ==> registered(
            *old(store),
            *final(store),
            *dto,
            if admin {
                UserRole::Admin
            } else {
                UserRole::User
            },
            resp,
        ),
{
    proof {
        lemma_encode_utf8_nonempty(dto.password@);
    }
    let hashed = match hash(dto.password.as_str()) {
        Ok(h) => h,
        Err(e) => {
            return Err(e.to_http_error());
        },
    };
    let saved_result = if admin {
        store.save_admin_user(dto.name.as_str(), dto.email.as_str(), hashed.as_str())
    } else {
        store.save_user(dto.name.as_str(), dto.email.as_str(), hashed.as_str())
    };
    let saved = match saved_result {
        Ok(u) => u,
        Err(e) => {
            return Err(e.to_http_error());
        },
    };
    let filtered = FilterUserDto::filter_user(&saved);
    Ok(
        UserResponseDto {
            status: String::from_str("success"),
            data: UserData { user: filtered },
        },
    )
}

/// Registers a validated payload as an ordinary user: hashes the
/// password, inserts the record, and discloses its projection.
pub fn register_user(store: &mut UserStore, dto: &RegisterUserDto) -> (r: Result<
    UserResponseDto,
    HttpError,
>)
    requires
        old(store).wf(),
        register_valid(*dto),
    ensures
        final(store).wf(),
        r is Err ==> final(store).rows() == old(store).rows(),
        encode_utf8(dto.password@).len() > MAX_PASSWORD_LENGTH ==> (r matches Err(e) && e.status
            == 400 && e.message@ == ErrorMessage::ExceededMaxPasswordLength(
            MAX_PASSWORD_LENGTH,
        ).spec_msg()),
        encode_utf8(dto.password@).len() <= MAX_PASSWORD_LENGTH && old(store).has_email(
            dto.email@,
        ) ==> (r matches Err(e) && (e.status == 409 && e.message@
            == ErrorMessage::EmailExists.spec_msg() || e.status == 500 && e.message@
            == ErrorMessage::HashingError.spec_msg())),
        encode_utf8(dto.password@).len() <= MAX_PASSWORD_LENGTH && !old(store).has_email(
            dto.email@,
        ) ==> r is Ok || (r matches Err(e) && e.status == 500 && e.message@
            == ErrorMessage::HashingError.spec_msg()),
        r matches Ok(resp) ==> registered(
            *old(store),
            *final(store),
            *dto,
            UserRole::User,
            resp,
        ),
{
    register_with_role(store, dto, false)
}

/// Registers a validated payload exactly as `register_user` does, with
/// the role forced to `Admin`.
pub fn register_admin_user(store: &mut UserStore, dto: &RegisterUserDto) -> (r: Result<
    UserResponseDto,
    HttpError,
>)
    requires
        old(store).wf(),
        register_valid(*dto),
    ensures
        final(store).wf(),
        r is Err ==> final(store).rows() == old(store).rows(),
        encode_utf8(dto.password@).len() <= MAX_PASSWORD_LENGTH && old(store).has_email(
            dto.email@,
        ) ==> (r matches Err(e) && (e.status == 409 && e.message@
            == ErrorMessage::EmailExists.spec_msg() || e.status == 500 && e.message@
            == ErrorMessage::HashingError.spec_msg())),
        r matches Ok(resp) ==> registered(
            *old(store),
            *final(store),
            *dto,
            UserRole::Admin,
            resp,
        ),
{
    register_with_role(store, dto, true)
}

/// The registration flow behind a transport endpoint: checks the payload
/// rules first and earns a 400 before any domain work when one is broken.
pub fn handle_register(store: &mut UserStore, dto: &RegisterUserDto) -> (r: Result<
    UserResponseDto,
    HttpError,
>)
    requires
        old(store).wf(),
    ensures
        final(store).wf(),
        r is Err ==> final(store).rows() == old(store).rows(),
        !register_valid(*dto) ==> (r matches Err(e) && e.status == 400),
        register_valid(*dto) && encode_utf8(dto.password@).len() <= MAX_PASSWORD_LENGTH && old(
            store,
        ).has_email(dto.email@) ==> (r matches Err(e) && (e.status == 409 && e.message@
            == ErrorMessage::EmailExists.spec_msg() || e.status == 500 && e.message@
            == ErrorMessage::HashingError.spec_msg())),
        register_valid(*dto) && encode_utf8(dto.password@).len() <= MAX_PASSWORD_LENGTH && !old(
            store,
        ).has_email(dto.email@) ==> r is Ok || (r matches Err(e) && e.status == 500),
        r matches Ok(resp) ==> register_valid(*dto) && registered(
            *old(store),
            *final(store),
            *dto,
            UserRole::User,
            resp,
        ),
{
    match dto.validate() {
        Ok(()) => register_user(store, dto),
        Err(issues) => {
            // a broken rule put at least one complaint in the list; the
            // first one carries the 400
            Err(HttpError::bad_request(String::from_str(issues[0].message)))
        },
    }
}

/// The administrative registration flow: as `handle_register`, with the
/// new record's role forced to `Admin`.
pub fn handle_register_admin(store: &mut UserStore, dto: &RegisterUserDto) -> (r: Result<
    UserResponseDto,
    HttpError,
>)
    requires
        old(store).wf(),
    ensures
        final(store).wf(),
        r is Err ==> final(store).rows() == old(store).rows(),
        !register_valid(*dto) ==> (r matches Err(e) && e.status == 400),
        register_valid(*dto) && encode_utf8(dto.password@).len() <= MAX_PASSWORD_LENGTH && old(
            store,
        ).has_email(dto.email@) ==> (r matches Err(e) && (e.status == 409 && e.message@
            == ErrorMessage::EmailExists.spec_msg() || e.status == 500 && e.message@
            == ErrorMessage::HashingError.spec_msg())),
        r matches Ok(resp) ==> register_valid(*dto) && registered(
            *old(store),
            *final(store),
            *dto,
            UserRole::Admin,
            resp,
        ),
{
    match dto.validate() {
        Ok(()) => register_admin_user(store, dto),
        Err(issues) => {
            // a broken rule put at least one complaint in the list; the
            // first one carries the 400
            Err(HttpError::bad_request(String::from_str(issues[0].message)))
        },
    }
}

/// One page of disclosed users under the success envelope: the records of
/// the requested slice in creation order, each projected without its
/// password, and the page's own count.
pub fn list_users(store: &UserStore, page: u32, limit: usize) -> (r: Result<
    UserListResponseDto,
    HttpError,
>)
    requires
        store.wf(),
        page >= 1,
        1 <= limit <= crate::store::MAX_PAGE_LIMIT,
    ensures
        r matches Ok(resp) && ({
            let start = (page - 1) as int * limit as int;
            let count = if start >= store.rows().len() {
                0int
            } else if store.rows().len() - start < limit as int {
                store.rows().len() - start
            } else {
                limit as int
            };
            &&& resp.status@ == "success"@
            &&& resp.users@.len() == count
            &&& resp.results == count
            &&& forall|k: int|
                0 <= k < count ==> filter_spec(store.rows()[start + k], #[trigger] resp.users@[k])
        }),
{
    let rows = match store.get_users(page, limit) {
        Ok(v) => v,
        Err(_) => {
            return Err(ErrorMessage::ServerError.to_http_error());
        },
    };
    let users = FilterUserDto::filter_users(rows.as_slice());
    let results = users.len();
    Ok(UserListResponseDto { status: String::from_str("success"), users, results })
}

/// Authenticates a validated login payload against the stored credential,
/// returning the matching record. An unknown email and a wrong password
/// earn the same complaint, so a caller learns nothing about which it
/// was. Token issuance is the transport's affair.
pub fn login_user(store: &UserStore, dto: &LoginUserDto) -> (r: Result<User, HttpError>)
    requires
        store.wf(),
        login_valid(*dto),
    ensures
        !store.has_email(dto.email@) ==> (r matches Err(e) && e.status == 401 && e.message@
            == ErrorMessage::WrongCredentials.spec_msg()),
        store.has_email(dto.email@) && encode_utf8(dto.password@).len() > MAX_PASSWORD_LENGTH
            ==> (r matches Err(e) && e.status == 400 && e.message@
            == ErrorMessage::ExceededMaxPasswordLength(MAX_PASSWORD_LENGTH).spec_msg()),
        store.has_email(dto.email@) && encode_utf8(dto.password@).len() <= MAX_PASSWORD_LENGTH
            && (forall|i: int|
            0 <= i < store.rows().len() && (#[trigger] store.rows()[i].email@) == dto.email@
                ==> !phc_matches(dto.password@, store.rows()[i].password@)) ==> (r matches Err(e)
            && e.status == 401 && e.message@ == ErrorMessage::WrongCredentials.spec_msg()),
        store.has_email(dto.email@) && encode_utf8(dto.password@).len() <= MAX_PASSWORD_LENGTH
            && (exists|i: int|
            0 <= i < store.rows().len() && (#[trigger] store.rows()[i].email@) == dto.email@
                && phc_matches(dto.password@, store.rows()[i].password@)) ==> r is Ok,
        r matches Ok(u) ==> exists|i: int|
            0 <= i < store.rows().len() && user_eq(u, #[trigger] store.rows()[i])
                && store.rows()[i].email@ == dto.email@ && phc_matches(dto.password@, u.password@),
{
    proof {
        lemma_encode_utf8_nonempty(dto.password@);
    }
    let found = match store.get_user(None, None, Some(dto.email.as_str())) {
        Ok(f) => f,
        Err(_) => {
            return Err(ErrorMessage::ServerError.to_http_error());
        },
    };
    let user = match found {
        Some(u) => u,
        None => {
            return Err(ErrorMessage::WrongCredentials.to_http_error());
        },
    };
    proof {
        let i = choose|i: int|
            0 <= i < store.rows().len() && user_eq(user, store.rows()[i]) && store.rows()[i].email@
                == dto.email@;
        assert(parses_as_hash(store.rows()[i].password@));
        assert(parses_as_hash(user.password@));
        assert forall|j: int|
            0 <= j < store.rows().len() && (#[trigger] store.rows()[j].email@)
                == dto.email@ implies store.rows()[j].password@ == user.password@ by {
            if j != i {
                assert(store.rows()[i].email@ != store.rows()[j].email@);
            }
        };
    }
    let password_matches = match compare(dto.password.as_str(), user.password.as_str()) {
        Ok(m) => m,
        Err(e) => {
            return Err(e.to_http_error());
        },
    };
    if password_matches {
        Ok(user)
    } else {
        Err(ErrorMessage::WrongCredentials.to_http_error())
    }
}

/// The login flow behind a transport endpoint: checks the payload rules
/// first and earns a 400 before any domain work when one is broken.
pub fn handle_login(store: &UserStore, dto: &LoginUserDto) -> (r: Result<User, HttpError>)
    requires
        store.wf(),
    ensures
        !login_valid(*dto) ==> (r matches Err(e) && e.status == 400),
        login_valid(*dto) && !store.has_email(dto.email@) ==> (r matches Err(e) && e.status == 401
            && e.message@ == ErrorMessage::WrongCredentials.spec_msg()),
        login_valid(*dto) && store.has_email(dto.email@) && encode_utf8(dto.password@).len()
            <= MAX_PASSWORD_LENGTH && (forall|i: int|
            0 <= i < store.rows().len() && (#[trigger] store.rows()[i].email@) == dto.email@
                ==> !phc_matches(dto.password@, store.rows()[i].password@)) ==> (r matches Err(e)
            && e.status == 401 && e.message@ == ErrorMessage::WrongCredentials.spec_msg()),
        r matches Ok(u) ==> login_valid(*dto) && exists|i: int|
            0 <= i < store.rows().len() && user_eq(u, #[trigger] store.rows()[i])
                && store.rows()[i].email@ == dto.email@ && phc_matches(dto.password@, u.password@),
{
    match dto.validate() {
        Ok(()) => login_user(store, dto),
        Err(issues) => {
            // a broken rule put at least one complaint in the list; the
            // first one carries the 400
            Err(HttpError::bad_request(String::from_str(issues[0].message)))
        },
    }
}

} // verus!
