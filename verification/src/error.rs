use vstd::prelude::*;

verus! {

/// The character of a single decimal digit.
pub open spec fn digit_char(d: int) -> char {
    if d == 0 {
        '0'
    } else if d == 1 {
        '1'
    } else if d == 2 {
        '2'
    } else if d == 3 {
        '3'
    } else if d == 4 {
        '4'
    } else if d == 5 {
        '5'
    } else if d == 6 {
        '6'
    } else if d == 7 {
        '7'
    } else if d == 8 {
        '8'
    } else {
        '9'
    }
}

/// The decimal rendering of a natural number, most significant digit first.
pub open spec fn dec_rep(n: nat) -> Seq<char>
    decreases n,
{
    if n < 10 {
        seq![digit_char(n as int)]
    } else {
        dec_rep(n / 10) + seq![digit_char((n % 10) as int)]
    }
}

/// The decimal rendering is never empty.
pub proof fn lemma_dec_rep_nonempty(n: nat)
    ensures
        dec_rep(n).len() >= 1,
{
}

proof fn lemma_digit_char_injective(a: int, b: int)
    requires
        0 <= a < 10,
        0 <= b < 10,
        a != b,
    ensures
        digit_char(a) != digit_char(b),
{
}

/// The decimal rendering is injective: distinct numbers render as
/// distinct character sequences.
pub proof fn lemma_dec_rep_injective(a: nat, b: nat)
    requires
        a != b,
    ensures
        dec_rep(a) != dec_rep(b),
    decreases a + b,
{
    if a < 10 && b < 10 {
        lemma_digit_char_injective(a as int, b as int);
        assert(dec_rep(a)[0] != dec_rep(b)[0]);
    } else if a < 10 && b >= 10 {
        lemma_dec_rep_nonempty(b / 10);
        assert(dec_rep(b).len() >= 2);
    } else if a >= 10 && b < 10 {
        lemma_dec_rep_nonempty(a / 10);
        assert(dec_rep(a).len() >= 2);
    } else if a % 10 != b % 10 {
        lemma_digit_char_injective((a % 10) as int, (b % 10) as int);
        if dec_rep(a) == dec_rep(b) {
            assert(dec_rep(a).last() == digit_char((a % 10) as int));
            assert(dec_rep(b).last() == digit_char((b % 10) as int));
            assert(false);
        }
    } else {
        vstd::arithmetic::div_mod::lemma_fundamental_div_mod(a as int, 10);
        vstd::arithmetic::div_mod::lemma_fundamental_div_mod(b as int, 10);
        lemma_dec_rep_injective(a / 10, b / 10);
        if dec_rep(a) == dec_rep(b) {
            assert(dec_rep(a).drop_last() =~= dec_rep(a / 10));
            assert(dec_rep(b).drop_last() =~= dec_rep(b / 10));
            assert(false);
        }
    }
}

fn digit_str(d: u64) -> (r: &'static str)
    requires
        d < 10,
    ensures
        r@ == seq![digit_char(d as int)],
{
    proof {
        reveal_strlit("0");
        reveal_strlit("1");
        reveal_strlit("2");
        reveal_strlit("3");
        reveal_strlit("4");
        reveal_strlit("5");
        reveal_strlit("6");
        reveal_strlit("7");
        reveal_strlit("8");
        reveal_strlit("9");
    }
    if d == 0 {
        "0"
    } else if d == 1 {
        "1"
    } else if d == 2 {
        "2"
    } else if d == 3 {
        "3"
    } else if d == 4 {
        "4"
    } else if d == 5 {
        "5"
    } else if d == 6 {
        "6"
    } else if d == 7 {
        "7"
    } else if d == 8 {
        "8"
    } else {
        "9"
    }
}

/// Renders a number in decimal, for interpolation into fixed messages.
pub fn u64_to_dec(n: u64) -> (r: String)
    ensures
        r@ == dec_rep(n as nat),
    decreases n,
{
    if n < 10 {
        String::from_str(digit_str(n))
    } else {
        let prefix = u64_to_dec(n / 10);
        prefix.concat(digit_str(n % 10))
    }
}

/// The closed set of domain failures. Every failure the hasher or the
/// repository can report is one of these kinds; each kind carries a fixed,
/// user-safe message.
#[derive(Clone, Copy, Debug, PartialEq, Eq, Structural)]
pub enum ErrorMessage {
    EmptyPassword,
    ExceededMaxPasswordLength(usize),
    HashingError,
    InvalidHashingFormat,
    InvalidToken,
    ServerError,
    WrongCredentials,
    EmailExists,
    UserNoLongerExists,
    TokenNotProvided,
    PermissionDenied,
}

impl ErrorMessage {
    /// The fixed message of each error kind; the length-bound kind
    /// interpolates its bound in decimal.
    pub open spec fn spec_msg(self) -> Seq<char> {
        match self {
            ErrorMessage::ServerError => "Server Error. Please try again!"@,
            ErrorMessage::EmailExists => "Email Already Exists, Please use another email!"@,
            ErrorMessage::WrongCredentials => "Email or Password is wrong"@,
            ErrorMessage::InvalidToken => "Email is Invalid!, Please login again"@,
            ErrorMessage::UserNoLongerExists => "User belonging to this token does no longer exists"@,
            ErrorMessage::EmptyPassword => "Password cannot be empty"@,
            ErrorMessage::HashingError => "Error While Hashing password"@,
            ErrorMessage::InvalidHashingFormat => "Invalid Password Hashing format"@,
            ErrorMessage::ExceededMaxPasswordLength(n) => "Password must not be more than "@
                + dec_rep(n as nat) + " characters"@,
            ErrorMessage::TokenNotProvided => "You are not logged in, please provide a token"@,
            ErrorMessage::PermissionDenied => "You are not authorized to perform this action"@,
        }
    }

    /// The one HTTP status owed by each error kind. Authorization
    /// failures are reported as 401, alongside authentication failures.
    pub open spec fn spec_status(self) -> u16 {
        match self {
            ErrorMessage::EmptyPassword => 400,
            ErrorMessage::ExceededMaxPasswordLength(_) => 400,
            ErrorMessage::WrongCredentials => 401,
            ErrorMessage::InvalidToken => 401,
            ErrorMessage::TokenNotProvided => 401,
            ErrorMessage::PermissionDenied => 401,
            ErrorMessage::EmailExists => 409,
            ErrorMessage::HashingError => 500,
            ErrorMessage::InvalidHashingFormat => 500,
            ErrorMessage::ServerError => 500,
            ErrorMessage::UserNoLongerExists => 500,
        }
    }

    /// Maps this failure to its transport form: the fixed message under
    /// the one status of its category.
    pub fn to_http_error(&self) -> (r: HttpError)
        ensures
            r.status == self.spec_status(),
            r.message@ == self.spec_msg(),
    {
        let message = self.to_str();
        match self {
            ErrorMessage::EmptyPassword => HttpError::bad_request(message),
            ErrorMessage::ExceededMaxPasswordLength(_) => HttpError::bad_request(message),
            ErrorMessage::WrongCredentials => HttpError::unauthorized(message),
            ErrorMessage::InvalidToken => HttpError::unauthorized(message),
            ErrorMessage::TokenNotProvided => HttpError::unauthorized(message),
            ErrorMessage::PermissionDenied => HttpError::unauthorized(message),
            ErrorMessage::EmailExists => HttpError::unique_constraint_violation(message),
            ErrorMessage::HashingError => HttpError::server_error(message),
            ErrorMessage::InvalidHashingFormat => HttpError::server_error(message),
            ErrorMessage::ServerError => HttpError::server_error(message),
            ErrorMessage::UserNoLongerExists => HttpError::server_error(message),
        }
    }

    pub fn to_str(&self) -> (r: String)
        ensures
            r@ == self.spec_msg(),
    {
        match self {
            ErrorMessage::ServerError => String::from_str("Server Error. Please try again!"),
            ErrorMessage::EmailExists => String::from_str(
                "Email Already Exists, Please use another email!",
            ),
            ErrorMessage::WrongCredentials => String::from_str("Email or Password is wrong"),
            ErrorMessage::InvalidToken => String::from_str("Email is Invalid!, Please login again"),
            ErrorMessage::UserNoLongerExists => String::from_str(
                "User belonging to this token does no longer exists",
            ),
            ErrorMessage::EmptyPassword => String::from_str("Password cannot be empty"),
            ErrorMessage::HashingError => String::from_str("Error While Hashing password"),
            ErrorMessage::InvalidHashingFormat => String::from_str(
                "Invalid Password Hashing format",
            ),
            ErrorMessage::ExceededMaxPasswordLength(n) => {
                let bound = u64_to_dec(*n as u64);
                String::from_str("Password must not be more than ").concat(bound.as_str()).concat(
                    " characters",
                )
            },
            ErrorMessage::TokenNotProvided => String::from_str(
                "You are not logged in, please provide a token",
            ),
            ErrorMessage::PermissionDenied => String::from_str(
                "You are not authorized to perform this action",
            ),
        }
    }
}

/// Body of a rendered failure: a coarse tag and the user-safe message.
#[derive(Debug)]
pub struct ErrorResponse {
    pub status: String,
    pub message: String,
}

/// A domain failure ready for transport: a user-safe message and the HTTP
/// status code that the named constructor fixed.
#[derive(Debug)]
pub struct HttpError {
    pub message: String,
    pub status: u16,
}

impl HttpError {
    pub fn new(message: String, status: u16) -> (r: Self)
        ensures
            r.message@ == message@,
            r.status == status,
    {
        HttpError { message, status }
    }

    pub fn server_error(message: String) -> (r: Self)
        ensures
            r.message@ == message@,
            r.status == 500,
    {
        HttpError { message, status: 500 }
    }

    pub fn bad_request(message: String) -> (r: Self)
        ensures
            r.message@ == message@,
            r.status == 400,
    {
        HttpError { message, status: 400 }
    }

    pub fn unique_constraint_violation(message: String) -> (r: Self)
        ensures
            r.message@ == message@,
            r.status == 409,
    {
        HttpError { message, status: 409 }
    }

    pub fn unauthorized(message: String) -> (r: Self)
        ensures
            r.message@ == message@,
            r.status == 401,
    {
        HttpError { message, status: 401 }
    }

    /// Whether the status is one of the four codes a named constructor
    /// sets.
    pub open spec fn known_status(self) -> bool {
        self.status == 400 || self.status == 401 || self.status == 409 || self.status == 500
    }

    /// Renders the failure envelope. A known status keeps its code, with a
    /// "fail" tag and the stored message; any other code is an internal
    /// inconsistency and falls back to 500 with an "error" tag and the
    /// generic server message — a caller that hits the fallback should log
    /// it as a defensive warning.
    pub fn into_response_parts(self) -> (r: (u16, crate::dtos::Response))
        ensures
            self.known_status() ==> r.0 == self.status && r.1.status@ == "fail"@ && r.1.message@
                == self.message@,
            !self.known_status() ==> r.0 == 500 && r.1.status@ == "error"@ && r.1.message@
                == ErrorMessage::ServerError.spec_msg(),
    {
        if self.status == 400 || self.status == 401 || self.status == 409 || self.status == 500 {
            let status = self.status;
            (status, crate::dtos::Response { status: "fail", message: self.message })
        } else {
            (
                500,
                crate::dtos::Response {
                    status: "error",
                    message: ErrorMessage::ServerError.to_str(),
                },
            )
        }
    }
}

} // verus!
