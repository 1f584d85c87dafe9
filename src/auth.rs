//! The login state machine. It decides; the caller performs each action it returns
//! (network, persistence, user interaction) and reports what came of it as the next event.

use vstd::prelude::*;

verus! {

/// How many times a decision callback may be consulted in one attempt.
pub const MAX_DECISIONS: u8 = 2;

/// A password, as plain text or as its 16-byte MD5 digest.
#[derive(Debug, Clone, PartialEq, Eq)]
pub enum Password {
    Plain(String),
    Md5([u8; 16]),
}

/// The login strategy selected for one attempt.
#[derive(Debug, Clone, PartialEq, Eq)]
pub enum Authentication {
    /// The server issues a code to scan.
    QRCode,
    /// Account number and plain-text password.
    UinPassword(i64, String),
    /// Account number and MD5 digest of the password.
    UinPasswordMd5(i64, [u8; 16]),
    /// Account number and plain-text password from the caller's supplier.
    CustomUinPassword,
    /// Account number and password digest from the caller's supplier.
    CustomUinPasswordMd5,
    /// The caller's callback inspects the connection and picks the strategy.
    CallBack,
    /// Give up without contacting the server.
    Abandon,
}

/// How a device-lock challenge is answered.
#[derive(PartialEq, Eq, Structural, Clone, Copy, Debug)]
pub enum DeviceLockVerification {
    /// Show the confirmation address and wait for the user.
    Url,
    /// Ask the caller's supplier for the SMS code and submit it.
    Sms,
}

/// Which step of the login a failure belongs to.
#[derive(PartialEq, Eq, Structural, Clone, Copy, Debug)]
pub enum ChallengeKind {
    QrCode,
    Slider,
    DeviceLock,
    Credentials,
    DecisionCallback,
}

/// Why an attempt failed.
#[derive(Debug, Clone, PartialEq, Eq)]
pub enum AuthError {
    /// A resolver, supplier or callback reported an error; holds its cause.
    ResolverFailed(ChallengeKind, String),
    /// The server refused the answer to a challenge; holds its reason.
    ChallengeFailed(ChallengeKind, String),
    /// The server refused the credentials; holds its reason.
    LoginRejected(String),
    /// The connection failed while a reply was awaited.
    NetworkFailed,
    /// A decision callback kept deferring to itself.
    ProtocolViolation,
    /// An event that the current stage does not wait for.
    UnexpectedEvent,
    /// The attempt was cancelled from outside.
    Cancelled,
}

/// What the server answered to a login request or to a submitted answer.
#[derive(Debug, Clone, PartialEq, Eq)]
pub enum LoginReply {
    /// Logged in; carries the new session credential.
    Success(Vec<u8>),
    /// A code image to show for scanning.
    QrImage(Vec<u8>),
    /// The code has not been scanned and confirmed yet.
    QrWaiting,
    /// A slider captcha at the given address.
    Slider(String),
    /// A device-lock check, with its confirmation address.
    DeviceLock(String),
    /// Refused, for the reason given.
    Rejected(String),
}

/// What the caller reports to the engine.
#[derive(Debug, Clone, PartialEq, Eq)]
pub enum AuthEvent {
    Start,
    SessionLoaded(Option<Vec<u8>>),
    SessionLoadFailed,
    Resumed(bool),
    Decided(Authentication),
    CredentialsSupplied(i64, Password),
    QrShown,
    SliderTicket(String),
    DeviceLockConfirmed,
    SmsCode(String),
    /// The pending resolver, supplier or callback failed, for the cause given.
    ResolverFailed(String),
    Reply(LoginReply),
    NetworkFailed,
    SessionSaved(bool),
    Cancelled,
}

/// What the engine asks the caller to do next.
#[derive(Debug, Clone, PartialEq, Eq)]
pub enum AuthAction {
    LoadSession,
    ResumeSession(Vec<u8>),
    InvokeCallback,
    RequestUinPassword,
    RequestUinPasswordMd5,
    LoginQr,
    LoginPassword(i64, Password),
    ShowQr(Vec<u8>),
    PollQr,
    SolveSlider(String),
    SubmitTicket(String),
    ConfirmDeviceLock(String),
    RequestSmsCode,
    SubmitSmsCode(String),
    SubmitDeviceLock,
    SaveSession(Vec<u8>),
    /// The attempt is over; nothing more to do.
    Finish,
}

/// What became of the session credential of a successful attempt.
#[derive(PartialEq, Eq, Structural, Clone, Copy, Debug)]
pub enum Persistence {
    /// The new session has been handed to the store; its answer is awaited.
    Pending,
    /// The saved session was resumed; nothing new to store.
    Resumed,
    /// The new session was stored.
    Saved,
    /// Storing the new session failed; the login itself stands.
    SaveFailed,
}

/// Where an attempt stands.
#[derive(Debug, Clone, PartialEq, Eq)]
pub enum AuthStage {
    Idle(Authentication),
    LoadingSession(Authentication),
    Resuming(Authentication),
    /// The decision callback was asked; holds how many times so far.
    AwaitingDecision(u8),
    /// A resolver or supplier for this kind of step was asked.
    Resolving(ChallengeKind),
    /// A request went to the server; holds the challenge it answers, if any.
    AwaitingReply(Option<ChallengeKind>),
    Authenticated(Persistence),
    Failed(AuthError),
    Abandoned,
}

/// One login attempt.
#[derive(Debug, Clone, PartialEq, Eq)]
pub struct AuthEngine {
    pub device_lock: DeviceLockVerification,
    pub stage: AuthStage,
}

impl AuthStage {
    pub open spec fn spec_is_terminal(&self) -> bool {
        self is Authenticated || self is Failed || self is Abandoned
    }
}

/// Actions that talk to the server.
pub open spec fn is_connection_call(a: AuthAction) -> bool {
    ||| a is ResumeSession
    ||| a is LoginQr
    ||| a is LoginPassword
    ||| a is PollQr
    ||| a is SubmitTicket
    ||| a is SubmitSmsCode
    ||| a is SubmitDeviceLock
}

/// Carrying out a selected strategy, the callback having been consulted `decisions` times.
pub open spec fn execute(selection: Authentication, decisions: u8) -> (AuthStage, AuthAction) {
    match selection {
        Authentication::QRCode => (AuthStage::AwaitingReply(None), AuthAction::LoginQr),
        Authentication::UinPassword(uin, p) => (
            AuthStage::AwaitingReply(None),
            AuthAction::LoginPassword(uin, Password::Plain(p)),
        ),
        Authentication::UinPasswordMd5(uin, h) => (
            AuthStage::AwaitingReply(None),
            AuthAction::LoginPassword(uin, Password::Md5(h)),
        ),
        Authentication::CustomUinPassword => (
            AuthStage::Resolving(ChallengeKind::Credentials),
            AuthAction::RequestUinPassword,
        ),
        Authentication::CustomUinPasswordMd5 => (
            AuthStage::Resolving(ChallengeKind::Credentials),
            AuthAction::RequestUinPasswordMd5,
        ),
        Authentication::CallBack => if decisions < MAX_DECISIONS {
            (AuthStage::AwaitingDecision((decisions + 1) as u8), AuthAction::InvokeCallback)
        } else {
            (AuthStage::Failed(AuthError::ProtocolViolation), AuthAction::Finish)
        },
        Authentication::Abandon => (AuthStage::Abandoned, AuthAction::Finish),
    }
}

/// Answering a server reply; `pending` is the challenge the request answered, if any.
pub open spec fn on_reply(
    device_lock: DeviceLockVerification,
    pending: Option<ChallengeKind>,
    reply: LoginReply,
) -> (AuthStage, AuthAction) {
    match reply {
        LoginReply::Success(session) => (
            AuthStage::Authenticated(Persistence::Pending),
            AuthAction::SaveSession(session),
        ),
        LoginReply::QrImage(image) => (
            AuthStage::Resolving(ChallengeKind::QrCode),
            AuthAction::ShowQr(image),
        ),
        LoginReply::QrWaiting => (
            AuthStage::AwaitingReply(Some(ChallengeKind::QrCode)),
            AuthAction::PollQr,
        ),
        LoginReply::Slider(url) => (
            AuthStage::Resolving(ChallengeKind::Slider),
            AuthAction::SolveSlider(url),
        ),
        LoginReply::DeviceLock(url) => match device_lock {
            DeviceLockVerification::Url => (
                AuthStage::Resolving(ChallengeKind::DeviceLock),
                AuthAction::ConfirmDeviceLock(url),
            ),
            DeviceLockVerification::Sms => (
                AuthStage::Resolving(ChallengeKind::DeviceLock),
                AuthAction::RequestSmsCode,
            ),
        },
        LoginReply::Rejected(reason) => match pending {
            Some(kind) => (
                AuthStage::Failed(AuthError::ChallengeFailed(kind, reason)),
                AuthAction::Finish,
            ),
            None => (AuthStage::Failed(AuthError::LoginRejected(reason)), AuthAction::Finish),
        },
    }
}

/// The answer of the resolver for `kind`, reported as `event`.
pub open spec fn on_resolved(
    device_lock: DeviceLockVerification,
    kind: ChallengeKind,
    event: AuthEvent,
) -> (AuthStage, AuthAction) {
    match (kind, event) {
        (_, AuthEvent::ResolverFailed(cause)) => (
            AuthStage::Failed(AuthError::ResolverFailed(kind, cause)),
            AuthAction::Finish,
        ),
        (ChallengeKind::Credentials, AuthEvent::CredentialsSupplied(uin, p)) => (
            AuthStage::AwaitingReply(None),
            AuthAction::LoginPassword(uin, p),
        ),
        (ChallengeKind::QrCode, AuthEvent::QrShown) => (
            AuthStage::AwaitingReply(Some(ChallengeKind::QrCode)),
            AuthAction::PollQr,
        ),
        (ChallengeKind::Slider, AuthEvent::SliderTicket(ticket)) => (
            AuthStage::AwaitingReply(Some(ChallengeKind::Slider)),
            AuthAction::SubmitTicket(ticket),
        ),
        (ChallengeKind::DeviceLock, AuthEvent::DeviceLockConfirmed) => match device_lock {
            DeviceLockVerification::Url => (
                AuthStage::AwaitingReply(Some(ChallengeKind::DeviceLock)),
                AuthAction::SubmitDeviceLock,
            ),
            DeviceLockVerification::Sms => (
                AuthStage::Failed(AuthError::UnexpectedEvent),
                AuthAction::Finish,
            ),
        },
        (ChallengeKind::DeviceLock, AuthEvent::SmsCode(code)) => match device_lock {
            DeviceLockVerification::Sms => (
                AuthStage::AwaitingReply(Some(ChallengeKind::DeviceLock)),
                AuthAction::SubmitSmsCode(code),
            ),
            DeviceLockVerification::Url => (
                AuthStage::Failed(AuthError::UnexpectedEvent),
                AuthAction::Finish,
            ),
        },
        _ => (AuthStage::Failed(AuthError::UnexpectedEvent), AuthAction::Finish),
    }
}

/// The whole transition table, over the stage and the event.
pub open spec fn transition(
    device_lock: DeviceLockVerification,
    stage: AuthStage,
    event: AuthEvent,
) -> (AuthStage, AuthAction) {
    if stage == AuthStage::Authenticated(Persistence::Pending) && event is SessionSaved {
        (
            AuthStage::Authenticated(
                if event->SessionSaved_0 {
                    Persistence::Saved
                } else {
                    Persistence::SaveFailed
                },
            ),
            AuthAction::Finish,
        )
    } else if stage.spec_is_terminal() {
        (stage, AuthAction::Finish)
    } else if event is Cancelled {
        (AuthStage::Failed(AuthError::Cancelled), AuthAction::Finish)
    } else {
        match (stage, event) {
            (AuthStage::Idle(sel), AuthEvent::Start) => if sel is Abandon {
                (AuthStage::Abandoned, AuthAction::Finish)
            } else {
                (AuthStage::LoadingSession(sel), AuthAction::LoadSession)
            },
            (AuthStage::LoadingSession(sel), AuthEvent::SessionLoaded(Some(session))) => (
                AuthStage::Resuming(sel),
                AuthAction::ResumeSession(session),
            ),
            (AuthStage::LoadingSession(sel), AuthEvent::SessionLoaded(None)) => execute(sel, 0),
            (AuthStage::LoadingSession(sel), AuthEvent::SessionLoadFailed) => execute(sel, 0),
            (AuthStage::Resuming(sel), AuthEvent::Resumed(ok)) => if ok {
                (AuthStage::Authenticated(Persistence::Resumed), AuthAction::Finish)
            } else {
                execute(sel, 0)
            },
            (AuthStage::Resuming(sel), AuthEvent::NetworkFailed) => execute(sel, 0),
            (AuthStage::AwaitingDecision(n), AuthEvent::Decided(sel)) => execute(sel, n),
            (AuthStage::AwaitingDecision(_), AuthEvent::ResolverFailed(cause)) => (
                AuthStage::Failed(AuthError::ResolverFailed(ChallengeKind::DecisionCallback, cause)),
                AuthAction::Finish,
            ),
            (AuthStage::Resolving(kind), ev) => on_resolved(device_lock, kind, ev),
            (AuthStage::AwaitingReply(pending), AuthEvent::Reply(reply)) => on_reply(
                device_lock,
                pending,
                reply,
            ),
            (AuthStage::AwaitingReply(_), AuthEvent::NetworkFailed) => (
                AuthStage::Failed(AuthError::NetworkFailed),
                AuthAction::Finish,
            ),
            _ => (AuthStage::Failed(AuthError::UnexpectedEvent), AuthAction::Finish),
        }
    }
}

fn execute_selection(selection: Authentication, decisions: u8) -> (r: (AuthStage, AuthAction))
    ensures
        r == execute(selection, decisions),
{
    match selection {
        Authentication::QRCode => (AuthStage::AwaitingReply(None), AuthAction::LoginQr),
        Authentication::UinPassword(uin, p) => (
            AuthStage::AwaitingReply(None),
            AuthAction::LoginPassword(uin, Password::Plain(p)),
        ),
        Authentication::UinPasswordMd5(uin, h) => (
            AuthStage::AwaitingReply(None),
            AuthAction::LoginPassword(uin, Password::Md5(h)),
        ),
        Authentication::CustomUinPassword => (
            AuthStage::Resolving(ChallengeKind::Credentials),
            AuthAction::RequestUinPassword,
        ),
        Authentication::CustomUinPasswordMd5 => (
            AuthStage::Resolving(ChallengeKind::Credentials),
            AuthAction::RequestUinPasswordMd5,
        ),
        Authentication::CallBack => if decisions < MAX_DECISIONS {
            (AuthStage::AwaitingDecision(decisions + 1), AuthAction::InvokeCallback)
        } else {
            (AuthStage::Failed(AuthError::ProtocolViolation), AuthAction::Finish)
        },
        Authentication::Abandon => (AuthStage::Abandoned, AuthAction::Finish),
    }
}

fn handle_reply(
    device_lock: DeviceLockVerification,
    pending: Option<ChallengeKind>,
    reply: LoginReply,
) -> (r: (AuthStage, AuthAction))
    ensures
        r == on_reply(device_lock, pending, reply),
{
    match reply {
        LoginReply::Success(session) => (
            AuthStage::Authenticated(Persistence::Pending),
            AuthAction::SaveSession(session),
        ),
        LoginReply::QrImage(image) => (
            AuthStage::Resolving(ChallengeKind::QrCode),
            AuthAction::ShowQr(image),
        ),
        LoginReply::QrWaiting => (
            AuthStage::AwaitingReply(Some(ChallengeKind::QrCode)),
            AuthAction::PollQr,
        ),
        LoginReply::Slider(url) => (
            AuthStage::Resolving(ChallengeKind::Slider),
            AuthAction::SolveSlider(url),
        ),
        LoginReply::DeviceLock(url) => match device_lock {
            DeviceLockVerification::Url => (
                AuthStage::Resolving(ChallengeKind::DeviceLock),
                AuthAction::ConfirmDeviceLock(url),
            ),
            DeviceLockVerification::Sms => (
                AuthStage::Resolving(ChallengeKind::DeviceLock),
                AuthAction::RequestSmsCode,
            ),
        },
        LoginReply::Rejected(reason) => match pending {
            Some(kind) => (
                AuthStage::Failed(AuthError::ChallengeFailed(kind, reason)),
                AuthAction::Finish,
            ),
            None => (AuthStage::Failed(AuthError::LoginRejected(reason)), AuthAction::Finish),
        },
    }
}

fn handle_resolved(
    device_lock: DeviceLockVerification,
    kind: ChallengeKind,
    event: AuthEvent,
) -> (r: (AuthStage, AuthAction))
    ensures
        r == on_resolved(device_lock, kind, event),
{
    match (kind, event) {
        (_, AuthEvent::ResolverFailed(cause)) => (
            AuthStage::Failed(AuthError::ResolverFailed(kind, cause)),
            AuthAction::Finish,
        ),
        (ChallengeKind::Credentials, AuthEvent::CredentialsSupplied(uin, p)) => (
            AuthStage::AwaitingReply(None),
            AuthAction::LoginPassword(uin, p),
        ),
        (ChallengeKind::QrCode, AuthEvent::QrShown) => (
            AuthStage::AwaitingReply(Some(ChallengeKind::QrCode)),
            AuthAction::PollQr,
        ),
        (ChallengeKind::Slider, AuthEvent::SliderTicket(ticket)) => (
            AuthStage::AwaitingReply(Some(ChallengeKind::Slider)),
            AuthAction::SubmitTicket(ticket),
        ),
        (ChallengeKind::DeviceLock, AuthEvent::DeviceLockConfirmed) => match device_lock {
            DeviceLockVerification::Url => (
                AuthStage::AwaitingReply(Some(ChallengeKind::DeviceLock)),
                AuthAction::SubmitDeviceLock,
            ),
            DeviceLockVerification::Sms => (
                AuthStage::Failed(AuthError::UnexpectedEvent),
                AuthAction::Finish,
            ),
        },
        (ChallengeKind::DeviceLock, AuthEvent::SmsCode(code)) => match device_lock {
            DeviceLockVerification::Sms => (
                AuthStage::AwaitingReply(Some(ChallengeKind::DeviceLock)),
                AuthAction::SubmitSmsCode(code),
            ),
            DeviceLockVerification::Url => (
                AuthStage::Failed(AuthError::UnexpectedEvent),
                AuthAction::Finish,
            ),
        },
        _ => (AuthStage::Failed(AuthError::UnexpectedEvent), AuthAction::Finish),
    }
}

impl AuthEngine {
    /// An attempt that has not started, with the strategy and the way device locks are
    /// answered.
    pub fn new(selection: Authentication, device_lock: DeviceLockVerification) -> (r: AuthEngine)
        ensures
            r.stage == AuthStage::Idle(selection),
            r.device_lock == device_lock,
    {
        AuthEngine { device_lock, stage: AuthStage::Idle(selection) }
    }

    /// Whether the attempt is over: authenticated, failed or abandoned.
    pub fn is_terminal(&self) -> (r: bool)
        ensures
            r == self.stage.spec_is_terminal(),
    {
        match self.stage {
            AuthStage::Authenticated(_) | AuthStage::Failed(_) | AuthStage::Abandoned => true,
            _ => false,
        }
    }

    pub open spec fn next(self, event: AuthEvent) -> (AuthEngine, AuthAction) {
        let (stage, action) = transition(self.device_lock, self.stage, event);
        (AuthEngine { device_lock: self.device_lock, stage }, action)
    }

    /// Takes in what came of the last action and returns the engine's next stage and the
    /// action to perform.
    pub fn step(self, event: AuthEvent) -> (r: (AuthEngine, AuthAction))
        ensures
            r == self.next(event),
    {
        let device_lock = self.device_lock;
        let is_terminal = self.is_terminal();
        let save_answered = match (&self.stage, &event) {
            (AuthStage::Authenticated(Persistence::Pending), AuthEvent::SessionSaved(_)) => true,
            _ => false,
        };
        let (stage, action) = if save_answered {
            let saved = match event {
                AuthEvent::SessionSaved(ok) => ok,
                _ => false,
            };
            (
                AuthStage::Authenticated(
                    if saved {
                        Persistence::Saved
                    } else {
                        Persistence::SaveFailed
                    },
                ),
                AuthAction::Finish,
            )
        } else if is_terminal {
            (self.stage, AuthAction::Finish)
        } else if let AuthEvent::Cancelled = event {
            (AuthStage::Failed(AuthError::Cancelled), AuthAction::Finish)
        } else {
            match (self.stage, event) {
                (AuthStage::Idle(sel), AuthEvent::Start) => match sel {
                    Authentication::Abandon => (AuthStage::Abandoned, AuthAction::Finish),
                    _ => (AuthStage::LoadingSession(sel), AuthAction::LoadSession),
                },
                (AuthStage::LoadingSession(sel), AuthEvent::SessionLoaded(Some(session))) => (
                    AuthStage::Resuming(sel),
                    AuthAction::ResumeSession(session),
                ),
                (AuthStage::LoadingSession(sel), AuthEvent::SessionLoaded(None)) => execute_selection(sel, 0),
                (AuthStage::LoadingSession(sel), AuthEvent::SessionLoadFailed) => execute_selection(sel, 0),
                (AuthStage::Resuming(sel), AuthEvent::Resumed(ok)) => if ok {
                    (AuthStage::Authenticated(Persistence::Resumed), AuthAction::Finish)
                } else {
                    execute_selection(sel, 0)
                },
                (AuthStage::Resuming(sel), AuthEvent::NetworkFailed) => execute_selection(sel, 0),
                (AuthStage::AwaitingDecision(n), AuthEvent::Decided(sel)) => execute_selection(sel, n),
                (AuthStage::AwaitingDecision(_), AuthEvent::ResolverFailed(cause)) => (
                    AuthStage::Failed(
                        AuthError::ResolverFailed(ChallengeKind::DecisionCallback, cause),
                    ),
                    AuthAction::Finish,
                ),
                (AuthStage::Resolving(kind), ev) => handle_resolved(device_lock, kind, ev),
                (AuthStage::AwaitingReply(pending), AuthEvent::Reply(reply)) => handle_reply(
                    device_lock,
                    pending,
                    reply,
                ),
                (AuthStage::AwaitingReply(_), AuthEvent::NetworkFailed) => (
                    AuthStage::Failed(AuthError::NetworkFailed),
                    AuthAction::Finish,
                ),
                _ => (AuthStage::Failed(AuthError::UnexpectedEvent), AuthAction::Finish),
            }
        };
        (AuthEngine { device_lock, stage }, action)
    }
}

/// Abandoning makes no call to the server and touches no store: an attempt that starts
/// with `Abandon` ends abandoned at once, and once abandoned, no event leads to another
/// action.
pub proof fn lemma_abandon_without_connection(device_lock: DeviceLockVerification, event: AuthEvent)
    ensures
        ({
            let start = AuthEngine { device_lock, stage: AuthStage::Idle(Authentication::Abandon) };
            let (after, action) = start.next(AuthEvent::Start);
            after.stage is Abandoned && action == AuthAction::Finish
        }),
        ({
            let done = AuthEngine { device_lock, stage: AuthStage::Abandoned };
            let (after, action) = done.next(event);
            after.stage is Abandoned && action == AuthAction::Finish
        }),
{
}

/// A finished attempt stays as it is, whatever is reported afterwards, except that the
/// store's answer to a pending save records whether the session was kept.
pub proof fn lemma_terminal_is_final(engine: AuthEngine, event: AuthEvent)
    requires
        engine.stage.spec_is_terminal(),
    ensures
        engine.next(event).0.stage.spec_is_terminal(),
        engine.next(event).1 == AuthAction::Finish,
        engine.stage is Authenticated ==> engine.next(event).0.stage is Authenticated,
        !(engine.stage == AuthStage::Authenticated(Persistence::Pending) && event is SessionSaved)
            ==> engine.next(event).0 == engine,
{
}

/// The stored session is read only at the start of an attempt.
pub proof fn lemma_load_only_from_idle(engine: AuthEngine, event: AuthEvent)
    ensures
        engine.next(event).1 is LoadSession ==> engine.stage is Idle,
{
}

/// A session is handed to the store only by a step that has already authenticated; no
/// attempt that fails, is abandoned or is cancelled saves one.
pub proof fn lemma_save_only_when_authenticated(engine: AuthEngine, event: AuthEvent)
    ensures
        engine.next(event).1 is SaveSession ==> engine.next(event).0.stage
            == AuthStage::Authenticated(Persistence::Pending),
{
}

/// A password login that meets one slider challenge: the slider is solved once, its
/// ticket is submitted, the attempt is authenticated when the server confirms, and the
/// server's session is then saved once.
pub proof fn lemma_password_login_with_slider(
    device_lock: DeviceLockVerification,
    uin: i64,
    password: String,
    url: String,
    ticket: String,
    session: Vec<u8>,
    saved: bool,
)
    ensures
        ({
            let e0 = AuthEngine {
                device_lock,
                stage: AuthStage::Idle(Authentication::UinPassword(uin, password)),
            };
            let (e1, a1) = e0.next(AuthEvent::Start);
            let (e2, a2) = e1.next(AuthEvent::SessionLoaded(None));
            let (e3, a3) = e2.next(AuthEvent::Reply(LoginReply::Slider(url)));
            let (e4, a4) = e3.next(AuthEvent::SliderTicket(ticket));
            let (e5, a5) = e4.next(AuthEvent::Reply(LoginReply::Success(session)));
            let (e6, a6) = e5.next(AuthEvent::SessionSaved(saved));
            &&& a1 == AuthAction::LoadSession
            &&& a2 == AuthAction::LoginPassword(uin, Password::Plain(password))
            &&& a3 == AuthAction::SolveSlider(url)
            &&& a4 == AuthAction::SubmitTicket(ticket)
            &&& e5.stage == AuthStage::Authenticated(Persistence::Pending)
            &&& a5 == AuthAction::SaveSession(session)
            &&& a6 == AuthAction::Finish
            &&& e6.stage == AuthStage::Authenticated(
                if saved {
                    Persistence::Saved
                } else {
                    Persistence::SaveFailed
                },
            )
        }),
{
}

/// A valid saved session authenticates whatever strategy was selected, short of
/// abandoning, with the resume as the only server call and no supplier, callback or
/// resolver asked.
pub proof fn lemma_saved_session_resumes(
    device_lock: DeviceLockVerification,
    selection: Authentication,
    session: Vec<u8>,
)
    requires
        !(selection is Abandon),
    ensures
        ({
            let e0 = AuthEngine { device_lock, stage: AuthStage::Idle(selection) };
            let (e1, a1) = e0.next(AuthEvent::Start);
            let (e2, a2) = e1.next(AuthEvent::SessionLoaded(Some(session)));
            let (e3, a3) = e2.next(AuthEvent::Resumed(true));
            &&& a1 == AuthAction::LoadSession
            &&& a2 == AuthAction::ResumeSession(session)
            &&& a3 == AuthAction::Finish
            &&& e3.stage == AuthStage::Authenticated(Persistence::Resumed)
        }),
{
}

/// After a failed resume, a scan-code login whose code cannot be shown fails with the
/// display's cause, asks the display once and saves nothing.
pub proof fn lemma_qr_display_failure(
    device_lock: DeviceLockVerification,
    session: Vec<u8>,
    image: Vec<u8>,
    cause: String,
)
    ensures
        ({
            let e0 = AuthEngine { device_lock, stage: AuthStage::Idle(Authentication::QRCode) };
            let (e1, a1) = e0.next(AuthEvent::Start);
            let (e2, a2) = e1.next(AuthEvent::SessionLoaded(Some(session)));
            let (e3, a3) = e2.next(AuthEvent::Resumed(false));
            let (e4, a4) = e3.next(AuthEvent::Reply(LoginReply::QrImage(image)));
            let (e5, a5) = e4.next(AuthEvent::ResolverFailed(cause));
            &&& a1 == AuthAction::LoadSession
            &&& a2 == AuthAction::ResumeSession(session)
            &&& a3 == AuthAction::LoginQr
            &&& a4 == AuthAction::ShowQr(image)
            &&& a5 == AuthAction::Finish
            &&& e5.stage == AuthStage::Failed(AuthError::ResolverFailed(ChallengeKind::QrCode, cause))
        }),
{
}

/// The decision callback is consulted at most `MAX_DECISIONS` times: deferring once
/// more ends the attempt as a protocol violation.
pub proof fn lemma_decisions_bounded(device_lock: DeviceLockVerification)
    ensures
        ({
            let engine = AuthEngine {
                device_lock,
                stage: AuthStage::AwaitingDecision(MAX_DECISIONS),
            };
            engine.next(AuthEvent::Decided(Authentication::CallBack)).0.stage
                == AuthStage::Failed(AuthError::ProtocolViolation)
        }),
{
}

} // verus!
