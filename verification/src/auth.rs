//! Sign-up, sign-in and the checks around them.
use vstd::prelude::*;
use vstd::string::*;
use crate::text::{concat, contains_char, str_eq, trim, trim_seq};

verus! {

/// A user profile as the server describes it.
pub struct User {
    pub user_id: String,
    pub email: String,
    pub role: String,
    pub created_at: String,
}

/// Body of a request that creates a user profile.
pub struct CreateUserRequest {
    pub email: String,
    pub role: String,
}

/// Tokens handed out by a successful login.
pub struct AuthResult {
    pub access_token: String,
    pub id_token: String,
    pub refresh_token: String,
    pub expires_in: i32,
}

impl CreateUserRequest {
    /// Profile request for a new user, who starts as an annotator.
    pub fn annotator(email: &str) -> (r: Self)
        ensures
            r.email@ == email@,
            r.role@ == "annotator"@,
    {
        CreateUserRequest { email: String::from_str(email), role: String::from_str("annotator") }
    }
}

/// Role of a new user, from the invitation they signed up with.
#[derive(Clone, Copy, PartialEq, Eq, Debug, Structural)]
pub enum UserRole {
    Builder,
    Admin,
    Annotator,
}

/// Role granted by the invitation: builder or admin when it says so,
/// annotator otherwise.
pub fn role_from_signup(role: Option<&str>) -> (r: UserRole)
    ensures
        role.deep_view() == Some("builder"@) ==> r == UserRole::Builder,
        role.deep_view() == Some("admin"@) ==> r == UserRole::Admin,
        role.deep_view() != Some("builder"@) && role.deep_view() != Some("admin"@) ==> r
            == UserRole::Annotator,
{
    proof {
        reveal_strlit("builder");
        reveal_strlit("admin");
        assert("builder"@.len() == 7 && "admin"@.len() == 5);
    }
    match role {
        Some(s) => {
            if str_eq(s, "builder") {
                UserRole::Builder
            } else if str_eq(s, "admin") {
                UserRole::Admin
            } else {
                UserRole::Annotator
            }
        },
        None => UserRole::Annotator,
    }
}

/// Shortest password accepted at sign-up, in characters.
pub const MIN_PASSWORD_CHARS: usize = 8;

/// Why a sign-up form is refused before anything is sent.
#[derive(Clone, Copy, PartialEq, Eq, Debug, Structural)]
pub enum SignupFormError {
    PasswordsDiffer,
    PasswordTooShort,
}

impl SignupFormError {
    /// Message shown for the error.
    pub fn message(&self) -> (m: &'static str)
        ensures
            *self == SignupFormError::PasswordsDiffer ==> m@ == "Passwords do not match"@,
            *self == SignupFormError::PasswordTooShort ==> m@
                == "Password must be at least 8 characters"@,
    {
        match self {
            SignupFormError::PasswordsDiffer => "Passwords do not match",
            SignupFormError::PasswordTooShort => "Password must be at least 8 characters",
        }
    }
}

/// Checks of the sign-up form: the two passwords must match, and the
/// password must be at least eight characters long.
pub fn validate_signup(password: &str, confirm_password: &str) -> (r: Result<(), SignupFormError>)
    ensures
        password@ != confirm_password@ ==> r == Err::<(), _>(SignupFormError::PasswordsDiffer),
        password@ == confirm_password@ && password@.len() < MIN_PASSWORD_CHARS ==> r == Err::<
            (),
            _,
        >(SignupFormError::PasswordTooShort),
        password@ == confirm_password@ && password@.len() >= MIN_PASSWORD_CHARS ==> r is Ok,
{
    if !str_eq(password, confirm_password) {
        return Err(SignupFormError::PasswordsDiffer);
    }
    if password.unicode_len() < MIN_PASSWORD_CHARS {
        return Err(SignupFormError::PasswordTooShort);
    }
    Ok(())
}

/// Stage of the sign-up sequence that failed.
#[derive(Clone, Copy, PartialEq, Eq, Debug, Structural)]
pub enum SignupStage {
    Signup,
    Authenticate,
    CreateProfile,
}

/// Message shown when a stage of sign-up fails.
pub fn signup_error_message(stage: SignupStage, error: &str) -> (m: String)
    ensures
        stage == SignupStage::Signup ==> m@ == "Signup failed: "@ + error@,
        stage == SignupStage::Authenticate ==> m@ == "Authentication failed: "@ + error@,
        stage == SignupStage::CreateProfile ==> m@ == "Failed to create profile: "@ + error@,
{
    match stage {
        SignupStage::Signup => concat("Signup failed: ", error),
        SignupStage::Authenticate => concat("Authentication failed: ", error),
        SignupStage::CreateProfile => concat("Failed to create profile: ", error),
    }
}

/// Whether a text is blank: nothing but white space.
pub open spec fn is_blank(s: Seq<char>) -> bool {
    trim_seq(s).len() == 0
}

fn is_blank_exec(s: &str) -> (r: bool)
    ensures
        r == is_blank(s@),
{
    let t = trim(s);
    t.as_str().unicode_len() == 0
}

/// Invitation code that prefills the sign-up form: the one in the address
/// (`code`, else `invite_code`) when it is not blank, else the one stashed
/// in the session when that is not blank.
pub open spec fn spec_prefill_invite_code(
    query_code: Option<Seq<char>>,
    query_invite_code: Option<Seq<char>>,
    stored: Option<Seq<char>>,
) -> Option<Seq<char>> {
    let from_query = if query_code is Some {
        query_code
    } else {
        query_invite_code
    };
    if from_query matches Some(c) && !is_blank(c) {
        from_query
    } else if stored matches Some(s) && !is_blank(s) {
        stored
    } else {
        None
    }
}

/// Invitation code that prefills the sign-up form (see `spec_prefill_invite_code`).
pub fn prefill_invite_code(
    query_code: Option<&str>,
    query_invite_code: Option<&str>,
    stored: Option<&str>,
) -> (r: Option<String>)
    ensures
        r.deep_view() == spec_prefill_invite_code(
            query_code.deep_view(),
            query_invite_code.deep_view(),
            stored.deep_view(),
        ),
{
    let from_query = match query_code {
        Some(c) => Some(c),
        None => query_invite_code,
    };
    if let Some(c) = from_query {
        if !is_blank_exec(c) {
            return Some(String::from_str(c));
        }
    }
    if let Some(s) = stored {
        if !is_blank_exec(s) {
            return Some(String::from_str(s));
        }
    }
    None
}

/// Token that the app keeps from the address it was opened with: the first
/// of `access_token`, `code` and `invite_code` that is present, when it is
/// not blank.
pub fn capture_access_token(
    access_token: Option<&str>,
    code: Option<&str>,
    invite_code: Option<&str>,
) -> (r: Option<String>)
    ensures
        ({
            let first = if access_token is Some {
                access_token.deep_view()
            } else if code is Some {
                code.deep_view()
            } else {
                invite_code.deep_view()
            };
            &&& (first matches Some(t) && !is_blank(t)) ==> r.deep_view() == first
            &&& !(first matches Some(t) && !is_blank(t)) ==> r is None
        }),
{
    let first = match access_token {
        Some(t) => Some(t),
        None => match code {
            Some(c) => Some(c),
            None => invite_code,
        },
    };
    match first {
        Some(t) => {
            if is_blank_exec(t) {
                None
            } else {
                Some(String::from_str(t))
            }
        },
        None => None,
    }
}

/// Whether the home page sends the visitor to sign-up: when an invitation
/// code is stashed in the session.
pub fn home_redirects_to_signup(stored_code: Option<&str>) -> (r: bool)
    ensures
        r == (stored_code matches Some(c) && !is_blank(c@)),
{
    match stored_code {
        Some(c) => !is_blank_exec(c),
        None => false,
    }
}

/// Whether `host` is one of the other names of the site, which send the
/// visitor to the canonical one.
pub open spec fn is_secondary_host(host: Seq<char>) -> bool {
    host == "doxle.com"@ || host == "www.doxle.com"@ || host == "www.doxle.ai"@
}

/// The site's other names are exactly doxle.com, www.doxle.com and
/// www.doxle.ai; the canonical name doxle.ai is not one of them, and neither
/// is any name of another length than these.
pub proof fn lemma_other_hosts_redirect()
    ensures
        is_secondary_host("doxle.com"@),
        is_secondary_host("www.doxle.com"@),
        is_secondary_host("www.doxle.ai"@),
        !is_secondary_host("doxle.ai"@),
        forall|h: Seq<char>| #[trigger] is_secondary_host(h) ==> h.len() == 9 || h.len() == 12
            || h.len() == 13,
{
    reveal_strlit("doxle.com");
    reveal_strlit("www.doxle.com");
    reveal_strlit("www.doxle.ai");
    reveal_strlit("doxle.ai");
    assert("doxle.ai"@.len() == 8);
}

/// Address to move to when the site was opened under another name: the
/// same path, query and fragment on `https://doxle.ai`.
pub fn canonical_redirect(hostname: &str, pathname: &str, search: &str, hash: &str) -> (r: Option<
    String,
>)
    ensures
        is_secondary_host(hostname@) ==> (r matches Some(t) && t@ == "https://doxle.ai"@ + pathname@
            + search@ + hash@),
        !is_secondary_host(hostname@) ==> r is None,
        hostname@ == "doxle.com"@ ==> (r matches Some(t) && t@ == "https://doxle.ai"@ + pathname@
            + search@ + hash@),
        hostname@ == "www.doxle.com"@ ==> (r matches Some(t) && t@ == "https://doxle.ai"@
            + pathname@ + search@ + hash@),
        hostname@ == "www.doxle.ai"@ ==> (r matches Some(t) && t@ == "https://doxle.ai"@ + pathname@
            + search@ + hash@),
        hostname@ == "doxle.ai"@ ==> r is None,
{
    proof {
        lemma_other_hosts_redirect();
    }
    if str_eq(hostname, "doxle.com") || str_eq(hostname, "www.doxle.com") || str_eq(
        hostname,
        "www.doxle.ai",
    ) {
        let mut t = String::from_str("https://doxle.ai");
        t.append(pathname);
        t.append(search);
        t.append(hash);
        Some(t)
    } else {
        None
    }
}

/// Name given to a profile created at sign-in: the part of the email before
/// its first `@` (the whole email when it has none).
pub open spec fn spec_email_local_part(email: Seq<char>) -> Seq<char> {
    if email.contains('@') {
        email.subrange(
            0,
            choose|i: int|
                0 <= i < email.len() && email[i] == '@' && forall|k: int|
                    0 <= k < i ==> email[k] != '@',
        )
    } else {
        email
    }
}

/// Name given to a profile created at sign-in (see `spec_email_local_part`).
pub fn profile_name_from_email(email: &str) -> (name: String)
    ensures
        name@ == spec_email_local_part(email@),
{
    let n = email.unicode_len();
    let mut i: usize = 0;
    while i < n
        invariant
            n == email@.len(),
            i <= n,
            forall|k: int| 0 <= k < i ==> email@[k] != '@',
        decreases n - i,
    {
        if email.get_char(i) == '@' {
            proof {
                let j = choose|j: int|
                    0 <= j < email@.len() && email@[j] == '@' && forall|k: int|
                        0 <= k < j ==> email@[k] != '@';
                assert(email@[i as int] == '@');
                if j < i {
                    assert(email@[j] != '@');
                }
                if i < j {
                    assert(email@[i as int] != '@');
                }
            }
            return String::from_str(email.substring_char(0, i));
        }
        i = i + 1;
    }
    assert(!email@.contains('@'));
    String::from_str(email)
}

/// Message shown when sign-in fails.
pub fn login_error_message(error: &str) -> (m: String)
    ensures
        m@ == "Login failed: "@ + error@,
{
    concat("Login failed: ", error)
}

/// Message shown when signing in on the sign-in page fails.
pub fn sign_in_error_message(error: &str) -> (m: String)
    ensures
        m@ == "Sign in failed: "@ + error@,
{
    concat("Sign in failed: ", error)
}

/// Message shown when a user signed in but has no profile yet.
pub fn missing_profile_message() -> (m: &'static str)
    ensures
        m@ == "Please complete your profile setup"@,
{
    "Please complete your profile setup"
}

/// What a protected page does: show itself to a signed-in user, send
/// anybody else to the login page.
#[derive(Clone, Copy, PartialEq, Eq, Debug, Structural)]
pub enum RouteDecision {
    Render,
    RedirectToLogin,
}

/// What a protected page does, given the stored authentication token.
pub fn protected_route(token: Option<&str>) -> (d: RouteDecision)
    ensures
        token is Some ==> d == RouteDecision::Render,
        token is None ==> d == RouteDecision::RedirectToLogin,
{
    if token.is_some() {
        RouteDecision::Render
    } else {
        RouteDecision::RedirectToLogin
    }
}

/// The plans-consent page: "Agree" goes on to the upload only once the box
/// is ticked; otherwise a dialog asks for it.
#[derive(Clone, Copy, PartialEq, Eq, Debug, Structural)]
pub enum ConsentAction {
    GoToUpload,
    ShowDialog,
}

/// What "Agree" does on the plans-consent page.
pub fn legal_consent_agree(is_checked: bool) -> (a: ConsentAction)
    ensures
        is_checked ==> a == ConsentAction::GoToUpload,
        !is_checked ==> a == ConsentAction::ShowDialog,
{
    if is_checked {
        ConsentAction::GoToUpload
    } else {
        ConsentAction::ShowDialog
    }
}

/// Body of a request that creates a named profile.
pub struct NewProfileRequest {
    pub name: String,
    pub email: String,
    pub role: String,
}

/// Profile created on the sign-in page for a user who has none: named after
/// the part of the address before `@`, with the role `user`.
pub fn sign_in_fallback_profile(email: &str) -> (r: NewProfileRequest)
    ensures
        r.name@ == spec_email_local_part(email@),
        r.email@ == email@,
        r.role@ == "user"@,
{
    NewProfileRequest {
        name: profile_name_from_email(email),
        email: String::from_str(email),
        role: String::from_str("user"),
    }
}

/// What the sign-in page does once the password check has answered.
pub enum SignInNext {
    /// Signed in: load the user's profile.
    FetchProfile,
    /// Refused: show this message and stop waiting.
    ShowError(String),
}

/// After the password check: a success loads the profile, a failure is
/// shown as "Sign in failed: ...".
pub fn sign_in_after_authenticate(answer: Result<(), String>) -> (next: SignInNext)
    ensures
        answer is Ok ==> next is FetchProfile,
        answer matches Err(e) ==> (next matches SignInNext::ShowError(m) && m@
            == "Sign in failed: "@ + e@),
{
    match answer {
        Ok(()) => SignInNext::FetchProfile,
        Err(e) => SignInNext::ShowError(sign_in_error_message(e.as_str())),
    }
}

/// After the profile was looked up on the sign-in page: a user without one
/// gets the fallback profile created (and goes on to the dashboard either way).
pub fn sign_in_after_profile_lookup(found: bool, email: &str) -> (create: Option<NewProfileRequest>)
    ensures
        found ==> create is None,
        !found ==> (create matches Some(r) && r.name@ == spec_email_local_part(email@) && r.email@
            == email@ && r.role@ == "user"@),
{
    if found {
        None
    } else {
        Some(sign_in_fallback_profile(email))
    }
}

/// The stored token that profile requests need, or the error without one.
pub fn require_token(token: Option<String>) -> (r: Result<String, &'static str>)
    ensures
        token matches Some(t) ==> (r matches Ok(u) && u == t),
        token is None ==> (r matches Err(m) && m@ == "No auth token found"@),
{
    match token {
        Some(t) => Ok(t),
        None => Err("No auth token found"),
    }
}

/// What to do with the answer to "who am I": use the profile found, or
/// create one for the address as an annotator.
pub enum ProfileStep {
    Use(User),
    Create(CreateUserRequest),
}

/// The profile lookup's answer decides between using and creating a profile.
pub fn profile_after_lookup(lookup: Result<User, String>, email: &str) -> (step: ProfileStep)
    ensures
        lookup matches Ok(u) ==> (step matches ProfileStep::Use(v) && v == u),
        lookup is Err ==> (step matches ProfileStep::Create(r) && r.email@ == email@ && r.role@
            == "annotator"@),
{
    match lookup {
        Ok(u) => ProfileStep::Use(u),
        Err(_) => ProfileStep::Create(CreateUserRequest::annotator(email)),
    }
}

} // verus!
