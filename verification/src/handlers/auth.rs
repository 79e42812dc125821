use crate::auth::jwt::{create_jwt_at, expiry_for, jwt_payload, jwt_signed, JWT_SECRET, TOKEN_LIFETIME_SECS};
use crate::ids::uuid_text;
use crate::auth::password::{argon2_check, argon2_phc, hash_password, verify_password};
use crate::ids::{is_random_uuid, new_uuid_v4};
use crate::models::login_challenge::LoginChallenge;
use crate::models::user::User;
use crate::status::Status;
use crate::text::{decimal_text, lemma_decimal_text_shape, u32_text};
use crate::time::{earlier, utc_now, Timestamp, EARLIEST_SECS, LATEST_SECS};
use rand::Rng;
use vstd::prelude::*;
use vstd::utf8::is_ascii_chars;

verus! {

/// The smallest second-factor code.
pub const CODE_LOW: u32 = 100000;

/// One past the largest second-factor code.
pub const CODE_HIGH: u32 = 999999;

/// How long a second-factor challenge may be answered, in seconds.
pub const CHALLENGE_LIFETIME_SECS: i64 = 300;

/// Draws a number with `rand::rng().random_range(low..high)`: uniformly
/// from the half-open range, which must not be empty.
#[verifier::external_body]
fn random_in_range(low: u32, high: u32) -> (n: u32)
    requires
        low < high,
    ensures
        low <= n < high,
{
    rand::rng().random_range(low..high)
}

/// The body of a login request.
#[derive(Clone, Debug)]
pub struct LoginRequest {
    pub email: String,
    pub password: String,
}

/// The body of a second-factor request.
#[derive(Clone, Debug)]
pub struct Verify2FARequest {
    pub challenge_id: u128,
    pub code: String,
}

/// A challenge to be stored: not yet used, answerable for `lifetime_secs`
/// from when it is stored.
#[derive(Clone, Debug)]
pub struct NewChallenge {
    pub id: u128,
    pub user_id: u128,
    pub code_hash: String,
    pub lifetime_secs: i64,
}

/// A sent code to be logged.
#[derive(Clone, Debug)]
pub struct NewEmailLog {
    pub id: u128,
    pub email: String,
    pub code: String,
}

/// The answer to a login whose code was sent.
#[derive(Clone, Debug)]
pub struct LoginResponse {
    pub message: String,
    pub login_challenge_id: u128,
}

/// The answer to a passed second-factor check.
#[derive(Clone, Debug)]
pub struct AccessTokenResponse {
    pub access_token: String,
}

/// The most recent logged code.
#[derive(Clone, Debug)]
pub struct LatestEmail {
    pub email: String,
    pub code: String,
}

/// Where a login stands.
#[derive(Clone, Debug)]
pub enum LoginStage {
    /// The user with the given e-mail is being looked up.
    AwaitUser,
    /// The drawn code is being announced on the console.
    AwaitAnnounced { user_id: u128, email: String, code: String },
    /// The challenge is being stored; the sent code is logged next.
    AwaitChallengeStored { challenge_id: u128, log: NewEmailLog },
    /// The sent code is being logged.
    AwaitLogStored { challenge_id: u128 },
    /// The answer was given.
    Finished,
}

/// A login in progress.
#[derive(Clone, Debug)]
pub struct LoginFlow {
    pub request: LoginRequest,
    pub stage: LoginStage,
}

/// What the console or the storage reported.
#[derive(Clone, Debug)]
pub enum LoginEvent {
    /// The user with the requested e-mail, if there is one.
    UserFound(Option<User>),
    /// The code was announced.
    Announced,
    /// Whether the last write succeeded.
    Stored(bool),
}

/// What to do next.
#[derive(Debug)]
pub enum LoginAction {
    /// Look up the user with this e-mail.
    FindUser(String),
    /// Announce the code for the e-mail on the console.
    Announce { email: String, code: String },
    /// Store the challenge.
    StoreChallenge(NewChallenge),
    /// Log the sent code.
    StoreEmailLog(NewEmailLog),
    /// Answer the request.
    Respond(Result<LoginResponse, Status>),
}

/// `code` is the text of a second-factor code.
pub open spec fn is_code_text(code: Seq<char>) -> bool {
    exists|n: nat| CODE_LOW <= n < CODE_HIGH && code == #[trigger] decimal_text(n)
}

/// The login answered with an error status.
pub open spec fn login_error(request: LoginRequest, status: Status, r: (LoginFlow, LoginAction)) -> bool {
    &&& r.0.request == request
    &&& r.0.stage is Finished
    &&& r.1 matches LoginAction::Respond(Err(s))
    &&& s == status
}

/// The login stores the challenge for the announced code.
pub open spec fn storing_challenge(
    request: LoginRequest,
    user_id: u128,
    email: String,
    code: String,
    r: (LoginFlow, LoginAction),
) -> bool {
    &&& r.0.request == request
    &&& r.1 matches LoginAction::StoreChallenge(challenge)
    &&& r.0.stage matches LoginStage::AwaitChallengeStored { challenge_id, log }
    &&& challenge.user_id == user_id
    &&& argon2_check(code@, challenge.code_hash@) is Ok
    &&& challenge.lifetime_secs == CHALLENGE_LIFETIME_SECS
    &&& challenge_id == challenge.id
    &&& is_random_uuid(challenge.id)
    &&& is_random_uuid(log.id)
    &&& log.email == email
    &&& log.code == code
}

/// How a login moves on from `stage` by `event`.
pub open spec fn login_transition(
    request: LoginRequest,
    stage: LoginStage,
    event: LoginEvent,
    r: (LoginFlow, LoginAction),
) -> bool {
    match (stage, event) {
        (LoginStage::AwaitUser, LoginEvent::UserFound(None)) => login_error(
            request,
            Status::Unauthorized,
            r,
        ),
        (LoginStage::AwaitUser, LoginEvent::UserFound(Some(u))) => if argon2_check(
            request.password@,
            u.hashed_password@,
        ) is Err {
            login_error(request, Status::Unauthorized, r)
        } else {
            &&& r.0.request == request
            &&& r.1 matches LoginAction::Announce { email, code }
            &&& r.0.stage matches LoginStage::AwaitAnnounced { user_id, email: e, code: c }
            &&& email == u.email
            &&& e == u.email
            &&& c == code
            &&& user_id == u.id
            &&& is_code_text(code@)
        },
        (LoginStage::AwaitAnnounced { user_id, email, code }, LoginEvent::Announced) => if is_ascii_chars(
            code@,
        ) && code@.len() <= 0xFFFF_FFFF {
            storing_challenge(request, user_id, email, code, r)
        } else {
            storing_challenge(request, user_id, email, code, r) || login_error(
                request,
                Status::InternalServerError,
                r,
            )
        },
        (LoginStage::AwaitChallengeStored { challenge_id, log }, LoginEvent::Stored(ok)) => if ok {
            &&& r.0.request == request
            &&& r.0.stage matches LoginStage::AwaitLogStored { challenge_id: id }
            &&& id == challenge_id
            &&& r.1 matches LoginAction::StoreEmailLog(l)
            &&& l == log
        } else {
            login_error(request, Status::InternalServerError, r)
        },
        (LoginStage::AwaitLogStored { challenge_id }, LoginEvent::Stored(ok)) => if ok {
            &&& r.0.request == request
            &&& r.0.stage is Finished
            &&& r.1 matches LoginAction::Respond(Ok(resp))
            &&& resp.message@ == "2FA code sent"@
            &&& resp.login_challenge_id == challenge_id
        } else {
            login_error(request, Status::InternalServerError, r)
        },
        _ => login_error(request, Status::InternalServerError, r),
    }
}

/// Starts a login: the user with the given e-mail is looked up.
pub fn login(request: LoginRequest) -> (r: (LoginFlow, LoginAction))
    ensures
        r.0.request == request,
        r.0.stage is AwaitUser,
        r.1 matches LoginAction::FindUser(email) && email == request.email,
{
    let email = request.email.clone();
    (LoginFlow { request, stage: LoginStage::AwaitUser }, LoginAction::FindUser(email))
}

/// The login answered with `status`.
fn login_fail(request: LoginRequest, status: Status) -> (r: (LoginFlow, LoginAction))
    ensures
        login_error(request, status, r),
{
    (LoginFlow { request, stage: LoginStage::Finished }, LoginAction::Respond(Err(status)))
}

/// Moves a login on by what the console or the storage reported. No such
/// user, or a password that does not check against the user's hash, gives
/// 401. A match draws a fresh six-digit code and announces it; then the code
/// is hashed and the challenge stored (answerable for five minutes), then
/// the sent code is logged, then the answer carries the challenge's
/// identifier. A failed write gives 500, as does an event that does not fit
/// the stage; hashing fails only for a code that no login draws.
pub fn login_step(flow: LoginFlow, event: LoginEvent) -> (r: (LoginFlow, LoginAction))
    ensures
        login_transition(flow.request, flow.stage, event, r),
{
    let LoginFlow { request, stage } = flow;
    match stage {
        LoginStage::AwaitUser => match event {
            LoginEvent::UserFound(None) => login_fail(request, Status::Unauthorized),
            LoginEvent::UserFound(Some(u)) => {
                if verify_password(request.password.as_str(), u.hashed_password.as_str()).is_err() {
                    return login_fail(request, Status::Unauthorized);
                }
                let n = random_in_range(CODE_LOW, CODE_HIGH);
                let code = u32_text(n);
                assert(is_code_text(code@));
                let announced = code.clone();
                let email = u.email.clone();
                (
                    LoginFlow {
                        request,
                        stage: LoginStage::AwaitAnnounced { user_id: u.id, email: u.email, code },
                    },
                    LoginAction::Announce { email, code: announced },
                )
            },
            _ => login_fail(request, Status::InternalServerError),
        },
        LoginStage::AwaitAnnounced { user_id, email, code } => match event {
            LoginEvent::Announced => {
                let challenge_id = new_uuid_v4();
                match hash_password(code.as_str()) {
                    Err(_) => login_fail(request, Status::InternalServerError),
                    Ok(code_hash) => {
                        let log = NewEmailLog { id: new_uuid_v4(), email, code };
                        let challenge = NewChallenge {
                            id: challenge_id,
                            user_id,
                            code_hash,
                            lifetime_secs: CHALLENGE_LIFETIME_SECS,
                        };
                        (
                            LoginFlow { request, stage: LoginStage::AwaitChallengeStored { challenge_id, log } },
                            LoginAction::StoreChallenge(challenge),
                        )
                    },
                }
            },
            _ => login_fail(request, Status::InternalServerError),
        },
        LoginStage::AwaitChallengeStored { challenge_id, log } => match event {
            LoginEvent::Stored(true) => (
                LoginFlow { request, stage: LoginStage::AwaitLogStored { challenge_id } },
                LoginAction::StoreEmailLog(log),
            ),
            _ => login_fail(request, Status::InternalServerError),
        },
        LoginStage::AwaitLogStored { challenge_id } => match event {
            LoginEvent::Stored(true) => (
                LoginFlow { request, stage: LoginStage::Finished },
                LoginAction::Respond(
                    Ok(LoginResponse { message: "2FA code sent".to_owned(), login_challenge_id: challenge_id }),
                ),
            ),
            _ => login_fail(request, Status::InternalServerError),
        },
        LoginStage::Finished => login_fail(request, Status::InternalServerError),
    }
}

/// A drawn code is plain ASCII and short, so hashing it cannot fail: a
/// login whose code was announced goes on to store its challenge.
pub proof fn lemma_code_text_hashes(code: Seq<char>)
    requires
        is_code_text(code),
    ensures
        is_ascii_chars(code),
        code.len() <= 0xFFFF_FFFF,
{
    let n = choose|n: nat| CODE_LOW <= n < CODE_HIGH && code == #[trigger] decimal_text(n);
    lemma_decimal_text_shape(n);
}

/// Answers the request for the most recently logged code: 404 when none
/// could be read.
pub fn latest_email_log(row: Option<LatestEmail>) -> (r: Result<LatestEmail, Status>)
    ensures
        row is None ==> r == Err::<LatestEmail, Status>(Status::NotFound),
        row matches Some(l) ==> r == Ok::<LatestEmail, Status>(l),
{
    match row {
        None => Err(Status::NotFound),
        Some(l) => Ok(l),
    }
}

/// Where a second-factor check stands.
#[derive(Clone, Debug)]
pub enum TwoFactorStage {
    /// The challenge is being looked up.
    AwaitChallenge,
    /// The challenge passed its checks at `checked_at`; its user is being
    /// looked up.
    AwaitUser { challenge: LoginChallenge, checked_at: Timestamp },
    /// The challenge is being marked as used.
    AwaitMarkUsed { challenge: LoginChallenge, checked_at: Timestamp, user: User },
    /// The answer was given.
    Finished,
}

/// A second-factor check in progress.
#[derive(Clone, Debug)]
pub struct TwoFactorFlow {
    pub request: Verify2FARequest,
    pub stage: TwoFactorStage,
}

/// What the storage reported.
#[derive(Clone, Debug)]
pub enum TwoFactorEvent {
    /// The challenge with the requested identifier, if there is one.
    ChallengeFound(Option<LoginChallenge>),
    /// The challenge's user, if there is one.
    UserFound(Option<User>),
    /// Whether marking the challenge as used succeeded.
    MarkedUsed(bool),
}

/// What to do next.
#[derive(Debug)]
pub enum TwoFactorAction {
    /// Look up the challenge with this identifier.
    FindChallenge(u128),
    /// Look up the user with this identifier.
    FindUser(u128),
    /// Mark the challenge with this identifier as used.
    MarkUsed(u128),
    /// Answer the request.
    Respond(Result<AccessTokenResponse, Status>),
}

/// The challenge may be answered at `now` and the offered code checks
/// against its hash.
pub open spec fn challenge_passes(request: Verify2FARequest, c: LoginChallenge, now: Timestamp) -> bool {
    &&& !c.used
    &&& !earlier(c.expires_at, now)
    &&& argon2_check(request.code@, c.code_hash@) is Ok
}

/// The check answered with an error status.
pub open spec fn two_factor_error(
    request: Verify2FARequest,
    status: Status,
    r: (TwoFactorFlow, TwoFactorAction),
) -> bool {
    &&& r.0.request == request
    &&& r.0.stage is Finished
    &&& r.1 matches TwoFactorAction::Respond(Err(s))
    &&& s == status
}

/// How a check begins.
pub open spec fn two_factor_started(request: Verify2FARequest, r: (TwoFactorFlow, TwoFactorAction)) -> bool {
    &&& r.0.request == request
    &&& r.0.stage is AwaitChallenge
    &&& r.1 matches TwoFactorAction::FindChallenge(id)
    &&& id == request.challenge_id
}

/// How a second-factor check moves on from `stage` by `event` at `now`.
pub open spec fn two_factor_transition(
    request: Verify2FARequest,
    stage: TwoFactorStage,
    event: TwoFactorEvent,
    now: Timestamp,
    r: (TwoFactorFlow, TwoFactorAction),
) -> bool {
    match (stage, event) {
        (TwoFactorStage::AwaitChallenge, TwoFactorEvent::ChallengeFound(None)) => two_factor_error(
            request,
            Status::NotFound,
            r,
        ),
        (TwoFactorStage::AwaitChallenge, TwoFactorEvent::ChallengeFound(Some(c))) => if c.used {
            two_factor_error(request, Status::BadRequest, r)
        } else if earlier(c.expires_at, now) {
            two_factor_error(request, Status::BadRequest, r)
        } else if argon2_check(request.code@, c.code_hash@) is Err {
            two_factor_error(request, Status::Unauthorized, r)
        } else {
            &&& r.0.request == request
            &&& r.0.stage matches TwoFactorStage::AwaitUser { challenge, checked_at }
            &&& challenge == c
            &&& checked_at == now
            &&& r.1 matches TwoFactorAction::FindUser(user_id)
            &&& user_id == c.user_id
        },
        (TwoFactorStage::AwaitUser { challenge, checked_at }, TwoFactorEvent::UserFound(found)) => match found {
            None => two_factor_error(request, Status::NotFound, r),
            Some(u) => {
                &&& r.0.request == request
                &&& r.0.stage matches TwoFactorStage::AwaitMarkUsed { challenge: c, checked_at: t, user }
                &&& c == challenge
                &&& t == checked_at
                &&& user == u
                &&& r.1 matches TwoFactorAction::MarkUsed(id)
                &&& id == challenge.id
            },
        },
        (TwoFactorStage::AwaitMarkUsed { user, .. }, TwoFactorEvent::MarkedUsed(ok)) => if !ok {
            two_factor_error(request, Status::InternalServerError, r)
        } else {
            match expiry_for(now.secs) {
                None => two_factor_error(request, Status::InternalServerError, r),
                Some(exp) => {
                    &&& r.0.request == request
                    &&& r.0.stage is Finished
                    &&& r.1 matches TwoFactorAction::Respond(Ok(resp))
                    &&& resp.access_token@ == jwt_signed(uuid_text(user.id), user.email@, user.role@, exp, JWT_SECRET@)
                    &&& jwt_payload(resp.access_token@, JWT_SECRET@) == Some(
                        (uuid_text(user.id), user.email@, user.role@, exp),
                    )
                },
            }
        },
        _ => two_factor_error(request, Status::InternalServerError, r),
    }
}

/// Starts a second-factor check: the challenge is looked up.
pub fn verify_2fa(request: Verify2FARequest) -> (r: (TwoFactorFlow, TwoFactorAction))
    ensures
        two_factor_started(request, r),
{
    let id = request.challenge_id;
    (TwoFactorFlow { request, stage: TwoFactorStage::AwaitChallenge }, TwoFactorAction::FindChallenge(id))
}

/// The check answered with `status`.
fn two_factor_fail(request: Verify2FARequest, status: Status) -> (r: (TwoFactorFlow, TwoFactorAction))
    ensures
        two_factor_error(request, status, r),
{
    (TwoFactorFlow { request, stage: TwoFactorStage::Finished }, TwoFactorAction::Respond(Err(status)))
}

/// Moves a second-factor check on at `now`. No such challenge gives 404; a
/// used one, or one whose expiry lies before `now`, 400; a code that does
/// not check against the challenge's hash, 401. Then the challenge's user is
/// looked up (404 when missing), the challenge is marked as used (500 when
/// that fails), and only then an access token is issued for the user; it
/// carries the user's claims and expires a day after `now`. An event that
/// does not fit the stage gives 500.
pub fn verify_2fa_step_at(flow: TwoFactorFlow, event: TwoFactorEvent, now: Timestamp) -> (r: (
    TwoFactorFlow,
    TwoFactorAction,
))
    ensures
        two_factor_transition(flow.request, flow.stage, event, now, r),
{
    let TwoFactorFlow { request, stage } = flow;
    match stage {
        TwoFactorStage::AwaitChallenge => match event {
            TwoFactorEvent::ChallengeFound(None) => two_factor_fail(request, Status::NotFound),
            TwoFactorEvent::ChallengeFound(Some(c)) => {
                if c.used {
                    two_factor_fail(request, Status::BadRequest)
                } else if c.expires_at.is_before(&now) {
                    two_factor_fail(request, Status::BadRequest)
                } else if verify_password(request.code.as_str(), c.code_hash.as_str()).is_err() {
                    two_factor_fail(request, Status::Unauthorized)
                } else {
                    let user_id = c.user_id;
                    (
                        TwoFactorFlow {
                            request,
                            stage: TwoFactorStage::AwaitUser { challenge: c, checked_at: now },
                        },
                        TwoFactorAction::FindUser(user_id),
                    )
                }
            },
            _ => two_factor_fail(request, Status::InternalServerError),
        },
        TwoFactorStage::AwaitUser { challenge, checked_at } => match event {
            TwoFactorEvent::UserFound(None) => two_factor_fail(request, Status::NotFound),
            TwoFactorEvent::UserFound(Some(u)) => {
                let id = challenge.id;
                (
                    TwoFactorFlow {
                        request,
                        stage: TwoFactorStage::AwaitMarkUsed { challenge, checked_at, user: u },
                    },
                    TwoFactorAction::MarkUsed(id),
                )
            },
            _ => two_factor_fail(request, Status::InternalServerError),
        },
        TwoFactorStage::AwaitMarkUsed { user, .. } => match event {
            TwoFactorEvent::MarkedUsed(true) => {
                let issued = create_jwt_at(user.id, user.email.clone(), user.role.clone(), now.secs);
                match issued {
                    Err(_) => two_factor_fail(request, Status::InternalServerError),
                    Ok(token) => (
                        TwoFactorFlow { request, stage: TwoFactorStage::Finished },
                        TwoFactorAction::Respond(Ok(AccessTokenResponse { access_token: token })),
                    ),
                }
            },
            _ => two_factor_fail(request, Status::InternalServerError),
        },
        TwoFactorStage::Finished => two_factor_fail(request, Status::InternalServerError),
    }
}

/// Moves a second-factor check on now; the instant comes from the clock,
/// and whatever it was the step is the one taken at it.
pub fn verify_2fa_step(flow: TwoFactorFlow, event: TwoFactorEvent) -> (r: (TwoFactorFlow, TwoFactorAction))
    ensures
        exists|now: Timestamp|
            EARLIEST_SECS <= now.secs <= LATEST_SECS && #[trigger] two_factor_transition(
                flow.request,
                flow.stage,
                event,
                now,
                r,
            ),
{
    let now = utc_now();
    verify_2fa_step_at(flow, event, now)
}

/// A code is announced only to a user whose password checked against their
/// stored hash, and a challenge is stored only with a hash that accepts the
/// announced code.
pub proof fn lemma_code_sent_only_after_password(
    request: LoginRequest,
    stage: LoginStage,
    event: LoginEvent,
    r: (LoginFlow, LoginAction),
)
    requires
        login_transition(request, stage, event, r),
    ensures
        r.1 is Announce ==> (event matches LoginEvent::UserFound(Some(u)) && argon2_check(
            request.password@,
            u.hashed_password@,
        ) is Ok && stage is AwaitUser),
        r.1 matches LoginAction::StoreChallenge(challenge) ==> (
        stage matches LoginStage::AwaitAnnounced { code, .. } && argon2_check(
            code@,
            challenge.code_hash@,
        ) is Ok),
{
}

/// A challenge that was used, or whose expiry lies before the current
/// instant, is refused with 400 whatever code is offered.
pub proof fn lemma_spent_challenge_refused(
    request: Verify2FARequest,
    challenge: LoginChallenge,
    now: Timestamp,
    r: (TwoFactorFlow, TwoFactorAction),
)
    requires
        challenge.used || earlier(challenge.expires_at, now),
        two_factor_transition(
            request,
            TwoFactorStage::AwaitChallenge,
            TwoFactorEvent::ChallengeFound(Some(challenge)),
            now,
            r,
        ),
    ensures
        two_factor_error(request, Status::BadRequest, r),
{
}

/// The code that was sent passes the check of its challenge while the
/// challenge is unused and unexpired: the check moves on to the user.
pub proof fn lemma_sent_code_passes(
    request: Verify2FARequest,
    challenge: LoginChallenge,
    now: Timestamp,
    r: (TwoFactorFlow, TwoFactorAction),
)
    requires
        challenge_passes(request, challenge, now),
        two_factor_transition(
            request,
            TwoFactorStage::AwaitChallenge,
            TwoFactorEvent::ChallengeFound(Some(challenge)),
            now,
            r,
        ),
    ensures
        r.1 matches TwoFactorAction::FindUser(user_id) && user_id == challenge.user_id,
{
}

/// A whole second-factor check: it starts from the request, and each step
/// takes the flow on by the event reported at the instant given.
pub open spec fn two_factor_run(
    request: Verify2FARequest,
    steps: Seq<(TwoFactorEvent, Timestamp)>,
    flows: Seq<(TwoFactorFlow, TwoFactorAction)>,
) -> bool {
    &&& flows.len() == steps.len() + 1
    &&& two_factor_started(request, flows[0])
    &&& forall|i: int|
        0 <= i < steps.len() ==> #[trigger] two_factor_transition(
            flows[i].0.request,
            flows[i].0.stage,
            steps[i].0,
            steps[i].1,
            flows[i + 1],
        )
}

/// What every stage of a run records: the request is the run's, a stage
/// past the challenge holds a challenge that was found by an earlier step
/// and passed its checks at that step's instant, the stage awaiting the
/// mark was entered by asking to mark that challenge as used, and once the
/// answer is given it stays given.
pub open spec fn two_factor_record(
    request: Verify2FARequest,
    steps: Seq<(TwoFactorEvent, Timestamp)>,
    flows: Seq<(TwoFactorFlow, TwoFactorAction)>,
    k: int,
) -> bool {
    &&& flows[k].0.request == request
    &&& match flows[k].0.stage {
        TwoFactorStage::AwaitChallenge => k == 0,
        TwoFactorStage::AwaitUser { challenge, checked_at } => {
            &&& challenge_passes(request, challenge, checked_at)
            &&& exists|j: int|
                0 <= j < k && #[trigger] steps[j] == (
                    TwoFactorEvent::ChallengeFound(Some(challenge)),
                    checked_at,
                )
        },
        TwoFactorStage::AwaitMarkUsed { challenge, checked_at, .. } => {
            &&& challenge_passes(request, challenge, checked_at)
            &&& exists|j: int|
                0 <= j < k && #[trigger] steps[j] == (
                    TwoFactorEvent::ChallengeFound(Some(challenge)),
                    checked_at,
                )
            &&& flows[k].1 matches TwoFactorAction::MarkUsed(id)
            &&& id == challenge.id
        },
        TwoFactorStage::Finished => flows[k].1 is Respond,
    }
}

/// Every stage of a run keeps its record.
pub proof fn lemma_two_factor_record(
    request: Verify2FARequest,
    steps: Seq<(TwoFactorEvent, Timestamp)>,
    flows: Seq<(TwoFactorFlow, TwoFactorAction)>,
    k: int,
)
    requires
        two_factor_run(request, steps, flows),
        0 <= k < flows.len(),
    ensures
        two_factor_record(request, steps, flows, k),
    decreases k,
{
    if k > 0 {
        lemma_two_factor_record(request, steps, flows, k - 1);
        let i = k - 1;
        assert(two_factor_transition(
            flows[i].0.request,
            flows[i].0.stage,
            steps[i].0,
            steps[i].1,
            flows[i + 1],
        ));
        match flows[k].0.stage {
            TwoFactorStage::AwaitUser { challenge, checked_at } => {
                assert(steps[i] == (TwoFactorEvent::ChallengeFound(Some(challenge)), checked_at));
            },
            TwoFactorStage::AwaitMarkUsed { challenge, checked_at, .. } => {
                let j = choose|j: int|
                    0 <= j < i && #[trigger] steps[j] == (
                        TwoFactorEvent::ChallengeFound(Some(challenge)),
                        checked_at,
                    );
                assert(0 <= j < k && steps[j] == (
                    TwoFactorEvent::ChallengeFound(Some(challenge)),
                    checked_at,
                ));
            },
            _ => {},
        }
    }
}

/// A run hands out an access token only for a challenge that an earlier
/// step found unused, unexpired at that step's instant and matching the
/// offered code; the step before asked to mark exactly that challenge as
/// used, the storage reported the mark, and the token carries the claims
/// of the user that was found for it.
pub proof fn lemma_token_only_for_passed_challenge(
    request: Verify2FARequest,
    steps: Seq<(TwoFactorEvent, Timestamp)>,
    flows: Seq<(TwoFactorFlow, TwoFactorAction)>,
    k: int,
)
    requires
        two_factor_run(request, steps, flows),
        0 <= k < steps.len(),
        flows[k + 1].1 matches TwoFactorAction::Respond(Ok(_)),
    ensures
        flows[k].0.stage is AwaitMarkUsed,
        flows[k].0.stage matches TwoFactorStage::AwaitMarkUsed { challenge, checked_at, .. } ==> (
        challenge_passes(request, challenge, checked_at) && (exists|j: int|
            0 <= j < k && #[trigger] steps[j] == (
                TwoFactorEvent::ChallengeFound(Some(challenge)),
                checked_at,
            )) && flows[k].1 == TwoFactorAction::MarkUsed(challenge.id) && steps[k].0
            == TwoFactorEvent::MarkedUsed(true)),
        flows[k].0.stage matches TwoFactorStage::AwaitMarkUsed { user, .. } ==> (flows[k
            + 1].1 matches TwoFactorAction::Respond(Ok(resp)) && jwt_payload(
            resp.access_token@,
            JWT_SECRET@,
        ) == Some((uuid_text(user.id), user.email@, user.role@, expiry_for(steps[k].1.secs)->0))),
{
    lemma_two_factor_record(request, steps, flows, k);
    assert(two_factor_transition(
        flows[k].0.request,
        flows[k].0.stage,
        steps[k].0,
        steps[k].1,
        flows[k + 1],
    ));
}

/// A run hands out at most one access token: after the answer every
/// further step is answered with 500.
pub proof fn lemma_one_token_per_run(
    request: Verify2FARequest,
    steps: Seq<(TwoFactorEvent, Timestamp)>,
    flows: Seq<(TwoFactorFlow, TwoFactorAction)>,
    k: int,
    j: int,
)
    requires
        two_factor_run(request, steps, flows),
        0 <= k < j < steps.len(),
        flows[k + 1].1 matches TwoFactorAction::Respond(_),
    ensures
        flows[j + 1].1 matches TwoFactorAction::Respond(Err(s)) && s == Status::InternalServerError,
{
    lemma_finished_stays(request, steps, flows, k + 1, j);
    assert(two_factor_transition(
        flows[j].0.request,
        flows[j].0.stage,
        steps[j].0,
        steps[j].1,
        flows[j + 1],
    ));
}

/// Once a run is answered its stage stays finished.
proof fn lemma_finished_stays(
    request: Verify2FARequest,
    steps: Seq<(TwoFactorEvent, Timestamp)>,
    flows: Seq<(TwoFactorFlow, TwoFactorAction)>,
    k: int,
    j: int,
)
    requires
        two_factor_run(request, steps, flows),
        0 < k <= j < flows.len(),
        flows[k].1 is Respond,
    ensures
        flows[j].0.stage is Finished,
    decreases j - k,
{
    lemma_two_factor_record(request, steps, flows, k);
    let i = k - 1;
    assert(two_factor_transition(
        flows[i].0.request,
        flows[i].0.stage,
        steps[i].0,
        steps[i].1,
        flows[i + 1],
    ));
    if j > k {
        assert(two_factor_transition(
            flows[k].0.request,
            flows[k].0.stage,
            steps[k].0,
            steps[k].1,
            flows[k + 1],
        ));
        lemma_finished_stays(request, steps, flows, k + 1, j);
    }
}

/// A run whose challenge passes its checks, whose user is found and whose
/// mark is stored, all within the clock's range, ends with an access token
/// carrying that user's claims.
pub proof fn lemma_passing_run_issues_token(
    request: Verify2FARequest,
    challenge: LoginChallenge,
    user: User,
    times: Seq<Timestamp>,
    flows: Seq<(TwoFactorFlow, TwoFactorAction)>,
)
    requires
        times.len() == 3,
        challenge_passes(request, challenge, times[0]),
        times[2].secs + TOKEN_LIFETIME_SECS <= LATEST_SECS,
        two_factor_run(
            request,
            seq![
                (TwoFactorEvent::ChallengeFound(Some(challenge)), times[0]),
                (TwoFactorEvent::UserFound(Some(user)), times[1]),
                (TwoFactorEvent::MarkedUsed(true), times[2]),
            ],
            flows,
        ),
    ensures
        flows[1].1 == TwoFactorAction::FindUser(challenge.user_id),
        flows[2].1 == TwoFactorAction::MarkUsed(challenge.id),
        flows[3].1 matches TwoFactorAction::Respond(Ok(resp)) && jwt_payload(
            resp.access_token@,
            JWT_SECRET@,
        ) == Some(
            (
                uuid_text(user.id),
                user.email@,
                user.role@,
                (times[2].secs + TOKEN_LIFETIME_SECS) as usize,
            ),
        ),
{
    let steps = seq![
        (TwoFactorEvent::ChallengeFound(Some(challenge)), times[0]),
        (TwoFactorEvent::UserFound(Some(user)), times[1]),
        (TwoFactorEvent::MarkedUsed(true), times[2]),
    ];
    assert(steps[0] == (TwoFactorEvent::ChallengeFound(Some(challenge)), times[0]));
    assert(steps[1] == (TwoFactorEvent::UserFound(Some(user)), times[1]));
    assert(steps[2] == (TwoFactorEvent::MarkedUsed(true), times[2]));
    let first: int = 0;
    let second: int = 1;
    let third: int = 2;
    assert(two_factor_transition(
        flows[first].0.request,
        flows[first].0.stage,
        steps[first].0,
        steps[first].1,
        flows[first + 1],
    ));
    assert(two_factor_transition(
        flows[second].0.request,
        flows[second].0.stage,
        steps[second].0,
        steps[second].1,
        flows[second + 1],
    ));
    assert(two_factor_transition(
        flows[third].0.request,
        flows[third].0.stage,
        steps[third].0,
        steps[third].1,
        flows[third + 1],
    ));
}

/// The code that a login logs passes the challenge that the same login
/// stored: a second-factor check that offers the logged code, and finds that
/// challenge unused and unexpired, its user present and its mark stored,
/// all within the clock's range, asks to mark exactly that challenge as
/// used and ends with an access token carrying the user's claims.
pub proof fn lemma_logged_code_yields_token(
    login_request: LoginRequest,
    login_stage: LoginStage,
    login_event: LoginEvent,
    stored: (LoginFlow, LoginAction),
    request: Verify2FARequest,
    found: LoginChallenge,
    user: User,
    times: Seq<Timestamp>,
    flows: Seq<(TwoFactorFlow, TwoFactorAction)>,
)
    requires
        login_transition(login_request, login_stage, login_event, stored),
        stored.1 matches LoginAction::StoreChallenge(challenge) && found.id == challenge.id
            && found.user_id == challenge.user_id && found.code_hash == challenge.code_hash,
        stored.0.stage matches LoginStage::AwaitChallengeStored { log, .. } && request.code
            == log.code,
        request.challenge_id == found.id,
        !found.used,
        times.len() == 3,
        !earlier(found.expires_at, times[0]),
        times[2].secs + TOKEN_LIFETIME_SECS <= LATEST_SECS,
        two_factor_run(
            request,
            seq![
                (TwoFactorEvent::ChallengeFound(Some(found)), times[0]),
                (TwoFactorEvent::UserFound(Some(user)), times[1]),
                (TwoFactorEvent::MarkedUsed(true), times[2]),
            ],
            flows,
        ),
    ensures
        flows[0].1 == TwoFactorAction::FindChallenge(found.id),
        flows[1].1 == TwoFactorAction::FindUser(found.user_id),
        flows[2].1 == TwoFactorAction::MarkUsed(found.id),
        flows[3].1 matches TwoFactorAction::Respond(Ok(resp)) && jwt_payload(
            resp.access_token@,
            JWT_SECRET@,
        ) == Some(
            (
                uuid_text(user.id),
                user.email@,
                user.role@,
                (times[2].secs + TOKEN_LIFETIME_SECS) as usize,
            ),
        ),
{
    assert(challenge_passes(request, found, times[0]));
    lemma_passing_run_issues_token(request, found, user, times, flows);
}

/// A whole login: it starts from the request by looking up the user, and
/// each step takes the flow on by the event reported.
pub open spec fn login_run(
    request: LoginRequest,
    steps: Seq<LoginEvent>,
    flows: Seq<(LoginFlow, LoginAction)>,
) -> bool {
    &&& flows.len() == steps.len() + 1
    &&& flows[0].0.request == request
    &&& flows[0].0.stage is AwaitUser
    &&& flows[0].1 matches LoginAction::FindUser(email) && email == request.email
    &&& forall|i: int|
        0 <= i < steps.len() ==> #[trigger] login_transition(
            flows[i].0.request,
            flows[i].0.stage,
            steps[i],
            flows[i + 1],
        )
}

/// Once a login is answered it stays finished and answers nothing but
/// errors.
proof fn lemma_login_after_answer(
    request: LoginRequest,
    steps: Seq<LoginEvent>,
    flows: Seq<(LoginFlow, LoginAction)>,
    m: int,
    j: int,
)
    requires
        login_run(request, steps, flows),
        0 <= m < j < flows.len(),
        flows[m].0.stage is Finished,
    ensures
        flows[j].0.stage is Finished,
        flows[j].1 matches LoginAction::Respond(Err(_)),
    decreases j - m,
{
    assert(login_transition(flows[m].0.request, flows[m].0.stage, steps[m], flows[m + 1]));
    if j > m + 1 {
        lemma_login_after_answer(request, steps, flows, m + 1, j);
    }
}

/// A login that confirms at step `k` was not answered before: no flow up to
/// step `k` is finished.
proof fn lemma_login_unanswered(
    request: LoginRequest,
    steps: Seq<LoginEvent>,
    flows: Seq<(LoginFlow, LoginAction)>,
    k: int,
    m: int,
)
    requires
        login_run(request, steps, flows),
        0 <= m <= k < steps.len(),
        flows[k + 1].1 matches LoginAction::Respond(Ok(_)),
    ensures
        !(flows[m].0.stage is Finished),
{
    if flows[m].0.stage is Finished {
        lemma_login_after_answer(request, steps, flows, m, k + 1);
    }
}

/// Step `i` of a login run is a transition of the login.
proof fn lemma_login_step(
    request: LoginRequest,
    steps: Seq<LoginEvent>,
    flows: Seq<(LoginFlow, LoginAction)>,
    i: int,
)
    requires
        login_run(request, steps, flows),
        0 <= i < steps.len(),
    ensures
        login_transition(flows[i].0.request, flows[i].0.stage, steps[i], flows[i + 1]),
{
}

/// A login confirms only after its four steps, and what it confirms is the
/// challenge it stored: the user with the password was found, a code was
/// announced to that user's e-mail, a challenge was stored for that user
/// under a freshly drawn random identifier with a hash that accepts the
/// announced code and a five-minute lifetime, the sent code was logged under
/// another random identifier, both writes succeeded, and the answer carries
/// the stored challenge's identifier.
pub proof fn lemma_confirmed_login_answers_stored_challenge(
    request: LoginRequest,
    steps: Seq<LoginEvent>,
    flows: Seq<(LoginFlow, LoginAction)>,
    k: int,
)
    requires
        login_run(request, steps, flows),
        0 <= k < steps.len(),
        flows[k + 1].1 matches LoginAction::Respond(Ok(_)),
    ensures
        k == 3,
        ({
            &&& steps[0] matches LoginEvent::UserFound(Some(u))
            &&& argon2_check(request.password@, u.hashed_password@) is Ok
            &&& flows[1].1 matches LoginAction::Announce { email, code }
            &&& email == u.email
            &&& flows[2].1 matches LoginAction::StoreChallenge(c)
            &&& c.user_id == u.id
            &&& is_random_uuid(c.id)
            &&& argon2_check(code@, c.code_hash@) is Ok
            &&& c.lifetime_secs == CHALLENGE_LIFETIME_SECS
            &&& flows[3].1 matches LoginAction::StoreEmailLog(l)
            &&& l.email == u.email
            &&& l.code == code
            &&& is_random_uuid(l.id)
            &&& flows[4].1 matches LoginAction::Respond(Ok(resp))
            &&& resp.message@ == "2FA code sent"@
            &&& resp.login_challenge_id == c.id
        }),
        steps[2] == LoginEvent::Stored(true),
        steps[3] == LoginEvent::Stored(true),
{
    lemma_login_unanswered(request, steps, flows, k, 0);
    lemma_login_step(request, steps, flows, 0);
    lemma_login_step(request, steps, flows, k);
    assert(1 <= k);
    lemma_login_unanswered(request, steps, flows, k, 1);
    lemma_login_step(request, steps, flows, 1);
    assert(2 <= k);
    lemma_login_unanswered(request, steps, flows, k, 2);
    lemma_login_step(request, steps, flows, 2);
    assert(3 <= k);
    lemma_login_unanswered(request, steps, flows, k, 3);
    lemma_login_step(request, steps, flows, 3);
    if k > 3 {
        lemma_login_unanswered(request, steps, flows, k, 4);
    }
}

} // verus!
