use crate::error::{DockerError, DockerErrorView, DockerResult, EngineFailure};
use bollard::Docker;
use vstd::prelude::*;

verus! {

/// `bollard::Docker`, the handle on a connection to the engine; nothing is
/// known of what it holds.
#[verifier::external_type_specification]
#[verifier::external_body]
pub struct ExDocker(bollard::Docker);

/// `bollard::errors::Error`, the error of the engine client; nothing is
/// known of what it holds.
#[verifier::external_type_specification]
#[verifier::external_body]
pub struct ExEngineError(bollard::errors::Error);

/// Calls `bollard::Docker::connect_with_local_defaults`. Whether a handle
/// comes back depends on `DOCKER_HOST` and on the socket file being there,
/// so nothing is claimed of the answer.
#[verifier::external_body]
fn connect_local() -> Result<Docker, bollard::errors::Error> {
    Docker::connect_with_local_defaults()
}

/// Calls `Clone::clone` of `bollard::Docker`. The source copies every field
/// and shares what is shared, so the second handle stands for the same
/// value as the first.
#[verifier::external_body]
fn clone_handle(client: &Docker) -> (r: Docker)
    ensures
        r == *client,
{
    client.clone()
}

/// Calls `ToString::to_string` of `bollard::errors::Error`: the text that
/// the error displays as.
#[verifier::external_body]
pub(crate) fn error_text(err: &bollard::errors::Error) -> String {
    err.to_string()
}

/// The status code and the message that an error of the engine client
/// holds where it is a server response; nothing for any other error.
pub uninterp spec fn engine_response(err: bollard::errors::Error) -> Option<(u16, Seq<char>)>;

/// Tells the variant `DockerResponseServerError` of `bollard::errors::Error`
/// from the others and hands out its two fields, which are plain data of
/// the error.
#[verifier::external_body]
fn server_response(err: &bollard::errors::Error) -> (r: Option<(u16, String)>)
    ensures
        match r {
            Some((status_code, message)) => engine_response(*err) == Some((status_code, message@)),
            None => engine_response(*err) is None,
        },
{
    match err {
        bollard::errors::Error::DockerResponseServerError { status_code, message } => Some(
            (*status_code, message.clone()),
        ),
        _ => None,
    }
}

/// Whether the engine connection is usable.
#[derive(Debug)]
pub enum DockerStatus {
    Connected,
    Disconnected,
    Error(String),
}

/// What a `DockerStatus` holds, as mathematical values.
pub enum DockerStatusView {
    Connected,
    Disconnected,
    Error(Seq<char>),
}

impl View for DockerStatus {
    type V = DockerStatusView;

    open spec fn view(&self) -> DockerStatusView {
        match self {
            DockerStatus::Connected => DockerStatusView::Connected,
            DockerStatus::Disconnected => DockerStatusView::Disconnected,
            DockerStatus::Error(m) => DockerStatusView::Error(m@),
        }
    }
}

impl Clone for DockerStatus {
    fn clone(&self) -> (r: DockerStatus)
        ensures
            r@ == self@,
    {
        match self {
            DockerStatus::Connected => DockerStatus::Connected,
            DockerStatus::Disconnected => DockerStatus::Disconnected,
            DockerStatus::Error(m) => DockerStatus::Error(m.clone()),
        }
    }
}

/// The status text after a failed attempt to connect.
pub open spec fn connect_failure(reason: Seq<char>) -> Seq<char> {
    "Failed to connect to Docker: "@ + reason
}

/// The status text after a failed liveness probe.
pub open spec fn not_responding(reason: Seq<char>) -> Seq<char> {
    "Docker is not responding: "@ + reason
}

/// The status that the outcome of a liveness probe gives.
pub open spec fn probe_status(outcome: Result<(), String>) -> DockerStatusView {
    match outcome {
        Ok(_) => DockerStatusView::Connected,
        Err(reason) => DockerStatusView::Error(not_responding(reason@)),
    }
}

/// What the engine client reported about `err`, as plain values, where
/// `response` is the server response that it holds, if it holds one. A
/// server response is handed on as it is, status code and message; any
/// other error is described by the text that it displays as.
fn describe_failure(
    err: &bollard::errors::Error,
    response: Option<(u16, String)>,
) -> (r: EngineFailure)
    ensures
        match response {
            Some((status_code, message)) => r == (EngineFailure::Response { status_code, message }),
            None => r is Other,
        },
{
    match response {
        Some((status_code, message)) => EngineFailure::Response { status_code, message },
        None => EngineFailure::Other { description: error_text(err) },
    }
}

impl DockerError {
    /// Classifies an error of the engine client. A server response is
    /// classified by its status code and message; any other error by the
    /// text that it displays as.
    pub fn from_engine(err: bollard::errors::Error) -> (r: DockerError)
        ensures
            match engine_response(err) {
                Some((status_code, message)) => r@ == crate::error::classified_response(
                    status_code,
                    message,
                ),
                None => exists|description: Seq<char>|
                    r@ == #[trigger] crate::error::classified_other(description),
            },
    {
        let response = server_response(&err);
        let failure = describe_failure(&err, response);
        DockerError::from_failure(failure)
    }
}

/// Judges a liveness probe: an answer means connected, a failure is an
/// error that names the reason.
pub fn status_from_probe(outcome: Result<(), String>) -> (r: DockerStatus)
    ensures
        r@ == probe_status(outcome),
{
    match outcome {
        Ok(_) => DockerStatus::Connected,
        Err(reason) => DockerStatus::Error(
            String::from_str("Docker is not responding: ").concat(reason.as_str()),
        ),
    }
}

/// The connection to the engine: at most one handle, and the status that
/// was last observed.
pub struct DockerState {
    client: Option<Docker>,
    status: DockerStatus,
}

/// What a connection is, as far as its behaviour goes: the handle that it
/// holds, if any, and its status.
pub struct ConnectionModel {
    pub client: Option<Docker>,
    pub status: DockerStatusView,
}

/// The outcome of an attempt to connect: the new handle, or the reason of
/// the failure.
pub type Attempt = Result<Docker, Seq<char>>;

/// The outcome of a liveness probe, if one was made: an answer, or the
/// reason of the failure.
pub type Probe = Option<Result<(), Seq<char>>>;

/// One call on a connection.
pub enum Call {
    Initialize,
    Check(Probe),
    Reset,
}

/// The connection that one attempt to connect leaves: the new handle and
/// the status `Connected`, or no handle and an error that names the reason.
pub open spec fn after_attempt(attempt: Attempt) -> ConnectionModel {
    match attempt {
        Ok(client) => ConnectionModel { client: Some(client), status: DockerStatusView::Connected },
        Err(reason) => ConnectionModel {
            client: None,
            status: DockerStatusView::Error(connect_failure(reason)),
        },
    }
}

/// Whether a call on the connection `m` attempts to connect: a reset always
/// does; any other call does only where there is neither a handle nor an
/// error.
pub open spec fn attempts(m: ConnectionModel, call: Call) -> bool {
    call is Reset || (m.client is None && !(m.status is Error))
}

/// The connection after one call, where `attempt` is what an attempt to
/// connect yields during the call.
///
/// A call that attempts to connect leaves what the attempt leaves, and
/// nothing of what was there before. An error is final: no call but a reset
/// changes a connection whose status is an error. Otherwise there is a
/// handle; initializing changes nothing, and a check sets the status by
/// its probe and keeps the handle.
pub open spec fn after_call(m: ConnectionModel, call: Call, attempt: Attempt) -> ConnectionModel {
    if attempts(m, call) {
        after_attempt(attempt)
    } else if m.status is Error {
        m
    } else {
        match call {
            Call::Check(Some(Ok(_))) => ConnectionModel {
                client: m.client,
                status: DockerStatusView::Connected,
            },
            Call::Check(Some(Err(reason))) => ConnectionModel {
                client: m.client,
                status: DockerStatusView::Error(not_responding(reason)),
            },
            _ => m,
        }
    }
}

/// A probe's outcome as the model sees it.
pub open spec fn probe_view(probe: Option<Result<(), String>>) -> Probe {
    match probe {
        Some(Ok(_)) => Some(Ok(())),
        Some(Err(reason)) => Some(Err(reason@)),
        None => None,
    }
}

/// An attempt's outcome as the model sees it.
pub open spec fn attempt_view(attempt: Result<Docker, String>) -> Attempt {
    match attempt {
        Ok(client) => Ok(client),
        Err(reason) => Err(reason@),
    }
}

impl DockerState {
    #[verifier::type_invariant]
    spec fn connected_has_handle(self) -> bool {
        self.status@ is Connected ==> self.client is Some
    }

    /// The handle that is held, if any.
    pub closed spec fn handle(&self) -> Option<Docker> {
        self.client
    }

    /// Whether a handle is held.
    pub open spec fn has_client(&self) -> bool {
        self.handle() is Some
    }

    /// The status that was last observed.
    pub closed spec fn status_view(&self) -> DockerStatusView {
        self.status@
    }

    /// The connection as the model sees it.
    pub open spec fn model(&self) -> ConnectionModel {
        ConnectionModel { client: self.handle(), status: self.status_view() }
    }

    /// Whether the status is an error.
    fn has_failed(&self) -> (r: bool)
        ensures
            r == (self.status_view() is Error),
    {
        match &self.status {
            DockerStatus::Error(_) => true,
            _ => false,
        }
    }

    /// Records the outcome of one attempt to connect, in place of whatever
    /// was held before. The new handle is kept and the status is
    /// `Connected`; a failure leaves no handle and an error status that
    /// names the reason.
    pub fn complete_connection(&mut self, attempt: Result<Docker, String>) -> (r: DockerStatus)
        ensures
            r@ == final(self).status_view(),
            final(self).model() == after_attempt(attempt_view(attempt)),
    {
        match attempt {
            Ok(client) => {
                self.client = Some(client);
                self.status = DockerStatus::Connected;
            },
            Err(reason) => {
                self.status = DockerStatus::Error(
                    String::from_str("Failed to connect to Docker: ").concat(reason.as_str()),
                );
                self.client = None;
            },
        }
        self.status.clone()
    }

    /// Makes sure a connection has been attempted. With a handle, and after
    /// a failure, nothing changes and the current status is returned;
    /// otherwise exactly one attempt to connect is made and recorded.
    pub fn initialize(&mut self) -> (r: DockerStatus)
        ensures
            r@ == final(self).status_view(),
            exists|attempt: Attempt|
                final(self).model() == #[trigger] after_call(
                    old(self).model(),
                    Call::Initialize,
                    attempt,
                ),
    {
        if self.client.is_some() || self.has_failed() {
            assert(self.model() == after_call(
                self.model(),
                Call::Initialize,
                Err(Seq::<char>::empty()),
            ));
            return self.status.clone();
        }
        let attempt = match connect_local() {
            Ok(client) => Ok(client),
            Err(e) => Err(error_text(&e)),
        };
        let ghost outcome = attempt_view(attempt);
        let status = self.complete_connection(attempt);
        assert(self.model() == after_call(old(self).model(), Call::Initialize, outcome));
        status
    }

    /// A second handle on the connection, or a connection error where none
    /// is held. A connection whose status is `Connected` always has a
    /// handle to give.
    pub fn get_client(&self) -> (r: DockerResult<Docker>)
        ensures
            match r {
                Ok(client) => self.handle() == Some(client),
                Err(e) => self.handle() is None && e@ == DockerErrorView::ConnectionError(
                    "Docker client not initialized"@,
                ),
            },
            self.status_view() is Connected ==> r is Ok,
    {
        proof {
            use_type_invariant(self);
        }
        match &self.client {
            Some(client) => Ok(clone_handle(client)),
            None => Err(
                DockerError::ConnectionError(String::from_str("Docker client not initialized")),
            ),
        }
    }

    /// Whether a liveness probe is due: a handle is probed unless the
    /// status is an error already.
    pub fn needs_probe(&self) -> (r: bool)
        ensures
            r == (self.has_client() && !(self.status_view() is Error)),
    {
        self.client.is_some() && !self.has_failed()
    }

    /// Reports the status. After an error nothing changes until the
    /// connection is reset. Otherwise, with a handle, the outcome of a
    /// liveness probe decides: an answer means connected, a failure is an
    /// error, and the handle stays either way; without an outcome nothing
    /// changes. Without a handle a connection is attempted.
    pub fn check_status(&mut self, probe: Option<Result<(), String>>) -> (r: DockerStatus)
        ensures
            r@ == final(self).status_view(),
            exists|attempt: Attempt|
                final(self).model() == #[trigger] after_call(
                    old(self).model(),
                    Call::Check(probe_view(probe)),
                    attempt,
                ),
    {
        let ghost call = Call::Check(probe_view(probe));
        if self.has_failed() {
            assert(self.model() == after_call(old(self).model(), call, Err(Seq::<char>::empty())));
        } else if self.client.is_some() {
            match probe {
                Some(outcome) => {
                    self.status = status_from_probe(outcome);
                },
                None => {},
            }
            assert(self.model() == after_call(old(self).model(), call, Err(Seq::<char>::empty())));
        } else {
            self.initialize();
            let ghost attempt = choose|attempt: Attempt|
                self.model() == #[trigger] after_call(old(self).model(), Call::Initialize, attempt);
            assert(self.model() == after_call(old(self).model(), call, attempt));
        }
        self.status.clone()
    }

    /// Discards the handle and the status, whatever they are, makes exactly
    /// one attempt to connect and records it.
    pub fn reset(&mut self) -> (r: DockerStatus)
        ensures
            r@ == final(self).status_view(),
            exists|attempt: Attempt|
                final(self).model() == #[trigger] after_call(old(self).model(), Call::Reset, attempt),
    {
        self.status = DockerStatus::Disconnected;
        self.client = None;
        let attempt = match connect_local() {
            Ok(client) => Ok(client),
            Err(e) => Err(error_text(&e)),
        };
        let ghost outcome = attempt_view(attempt);
        let status = self.complete_connection(attempt);
        assert(self.model() == after_call(old(self).model(), Call::Reset, outcome));
        status
    }
}

impl Default for DockerState {
    fn default() -> (r: DockerState)
        ensures
            r.model() == (ConnectionModel { client: None, status: DockerStatusView::Disconnected }),
    {
        DockerState { client: None, status: DockerStatus::Disconnected }
    }
}

/// Makes sure a connection has been attempted; see `DockerState::initialize`.
pub fn initialize_docker(state: &mut DockerState) -> (r: DockerStatus)
    ensures
        r@ == final(state).status_view(),
        exists|attempt: Attempt|
            final(state).model() == #[trigger] after_call(
                old(state).model(),
                Call::Initialize,
                attempt,
            ),
{
    state.initialize()
}

/// A second handle on the connection, after making sure that a connection
/// has been attempted. Every caller gets the one handle that is held, or
/// the one error that the attempt ended with.
pub fn get_docker_client(state: &mut DockerState) -> (r: Result<Docker, String>)
    ensures
        exists|attempt: Attempt|
            final(state).model() == #[trigger] after_call(
                old(state).model(),
                Call::Initialize,
                attempt,
            ),
        match r {
            Ok(client) => final(state).handle() == Some(client),
            Err(reason) => final(state).handle() is None && final(state).status_view()
                == DockerStatusView::Error(reason@),
        },
{
    let status = state.initialize();
    proof {
        use_type_invariant(&*state);
    }
    match state.get_client() {
        Ok(client) => Ok(client),
        Err(_) => match status {
            DockerStatus::Error(e) => Err(e),
            DockerStatus::Connected => Err(
                String::from_str("Failed to get Docker client after initialization"),
            ),
            DockerStatus::Disconnected => Err(String::from_str("Failed to initialize Docker client")),
        },
    }
}

/// Discards the connection, whatever it is, and connects anew; see
/// `DockerState::reset`.
pub fn reset_docker_client(state: &mut DockerState) -> (r: DockerStatus)
    ensures
        r@ == final(state).status_view(),
        exists|attempt: Attempt|
            final(state).model() == #[trigger] after_call(old(state).model(), Call::Reset, attempt),
{
    state.reset()
}

/// The connection after the calls `calls`, one after another, where
/// `outcomes[i]` is what an attempt to connect yields during call `i`.
pub open spec fn after_calls(m: ConnectionModel, calls: Seq<Call>, outcomes: Seq<Attempt>)
    -> ConnectionModel
    recommends
        calls.len() == outcomes.len(),
    decreases calls.len(),
{
    if calls.len() == 0 {
        m
    } else {
        after_call(
            after_calls(m, calls.drop_last(), outcomes.drop_last()),
            calls.last(),
            outcomes.last(),
        )
    }
}

/// How many of the calls `calls` attempt to connect.
pub open spec fn attempts_made(m: ConnectionModel, calls: Seq<Call>, outcomes: Seq<Attempt>) -> nat
    recommends
        calls.len() == outcomes.len(),
    decreases calls.len(),
{
    if calls.len() == 0 {
        0
    } else {
        let before = attempts_made(m, calls.drop_last(), outcomes.drop_last());
        if attempts(after_calls(m, calls.drop_last(), outcomes.drop_last()), calls.last()) {
            before + 1
        } else {
            before
        }
    }
}

/// Initialization happens once: where any number of callers initialize a
/// connection that has neither a handle nor an error, the first attempt is
/// the only one, whether it succeeds or fails, and the connection that all
/// of them leave is the one that this attempt left.
pub proof fn lemma_one_attempt_serves_all(
    m: ConnectionModel,
    calls: Seq<Call>,
    outcomes: Seq<Attempt>,
)
    requires
        calls.len() == outcomes.len(),
        calls.len() >= 1,
        forall|i: int| 0 <= i < calls.len() ==> calls[i] is Initialize,
        m.client is None,
        !(m.status is Error),
    ensures
        attempts_made(m, calls, outcomes) == 1,
        after_calls(m, calls, outcomes) == after_attempt(outcomes[0]),
    decreases calls.len(),
{
    if calls.len() == 1 {
        assert(calls.drop_last().len() == 0);
        assert(attempts_made(m, calls.drop_last(), outcomes.drop_last()) == 0);
        assert(after_calls(m, calls.drop_last(), outcomes.drop_last()) == m);
    } else {
        lemma_one_attempt_serves_all(m, calls.drop_last(), outcomes.drop_last());
        assert(outcomes.drop_last()[0] == outcomes[0]);
    }
}

/// A failed liveness probe on a connection that holds a handle and has not
/// failed turns the status into an error that names the reason, and keeps
/// the handle.
pub proof fn lemma_failed_probe_is_an_error(m: ConnectionModel, reason: Seq<char>, attempt: Attempt)
    requires
        m.client is Some,
        !(m.status is Error),
    ensures
        after_call(m, Call::Check(Some(Err(reason))), attempt) == (ConnectionModel {
            client: m.client,
            status: DockerStatusView::Error(not_responding(reason)),
        }),
{
}

/// An error stays until the connection is reset: through any calls other
/// than a reset, answered probes among them, a connection whose status is
/// an error stays exactly as it is, and none of these calls attempts to
/// connect.
pub proof fn lemma_error_stays_until_reset(
    m: ConnectionModel,
    calls: Seq<Call>,
    outcomes: Seq<Attempt>,
)
    requires
        calls.len() == outcomes.len(),
        m.status is Error,
        forall|i: int| 0 <= i < calls.len() ==> !(calls[i] is Reset),
    ensures
        after_calls(m, calls, outcomes) == m,
        attempts_made(m, calls, outcomes) == 0,
    decreases calls.len(),
{
    if calls.len() > 0 {
        lemma_error_stays_until_reset(m, calls.drop_last(), outcomes.drop_last());
        assert(!(calls[calls.len() - 1] is Reset));
    }
}

/// A reset keeps nothing: the connection after it is what its one attempt
/// left, whatever was held before.
pub proof fn lemma_reset_discards(m: ConnectionModel, attempt: Attempt)
    ensures
        attempts(m, Call::Reset),
        after_call(m, Call::Reset, attempt) == after_attempt(attempt),
{
}

} // verus!
