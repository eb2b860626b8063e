//! The listener's state and its call handler.

use crate::message::{Request, Response};
use crate::status::{Code, Status};
use vstd::prelude::*;

verus! {

/// A listener in waiting: the callback that will answer every call.
///
/// The callback takes the string of a request and returns the string of the
/// response. It may be called from many calls at once, and it must accept
/// every string.
pub struct Server<F: Fn(&str) -> String + 'static + Send + Sync> {
    callback: F,
}

impl<F: Fn(&str) -> String + 'static + Send + Sync> Server<F> {
    #[verifier::type_invariant]
    spec fn accepts_every_string(&self) -> bool {
        forall|input: &str| call_requires(self.callback, (input,))
    }

    /// The callback that this server answers with.
    pub closed spec fn callback(&self) -> F {
        self.callback
    }

    /// Whether `answer` is something the callback may return for `value`.
    pub open spec fn answers(&self, value: Seq<char>, answer: Seq<char>) -> bool {
        exists|input: &str, output: String|
            input@ == value && output@ == answer && call_ensures(
                self.callback(),
                (input,),
                output,
            )
    }

    /// Create a new `Server` with a callback function.
    pub fn new(callback: F) -> (server: Self)
        requires
            forall|input: &str| call_requires(callback, (input,)),
        ensures
            server.callback() == callback,
    {
        Self { callback }
    }

    /// Handles one call: hands the request's string to the callback, once,
    /// and wraps what comes back as the response.
    pub fn call(&self, request: Request) -> (response: Response)
        ensures
            self.answers(request@, response@),
    {
        proof {
            use_type_invariant(self);
        }
        let input = request.value.as_str();
        let value = (self.callback)(input);
        assert(call_ensures(self.callback(), (input,), value));
        Response { value }
    }
}

/// The message of the status that answers a call whose callback broke down.
pub open spec fn fault_text() -> Seq<char> {
    "callback failed"@
}

/// Whether `reply` is the right answer to a call whose handling ended in
/// `attempt`: the response itself where there is one, and an internal-error
/// status with [`fault_text`] where the callback broke down.
pub open spec fn replies(attempt: Option<Response>, reply: Result<Response, Status>) -> bool {
    match attempt {
        Some(response) => reply == Ok::<Response, Status>(response),
        None => reply matches Err(status) && status.code == Code::Internal && status.message@
            == fault_text(),
    }
}

/// Decides what goes back to the caller of one call. `attempt` holds the
/// response, or nothing when the callback broke down before it returned.
/// The breakdown of one call is answered with a status for that call alone.
pub fn reply(attempt: Option<Response>) -> (reply: Result<Response, Status>)
    ensures
        replies(attempt, reply),
{
    match attempt {
        Some(response) => Ok(response),
        None => Err(Status { code: Code::Internal, message: "callback failed".to_string() }),
    }
}

/// A server answers with what its callback computes. Where the callback
/// returns `f` of its input, whatever the input, every answer to `value` is
/// `f(value)`.
pub proof fn lemma_call_applies_callback<F: Fn(&str) -> String + 'static + Send + Sync>(
    server: Server<F>,
    f: spec_fn(Seq<char>) -> Seq<char>,
    value: Seq<char>,
    answer: Seq<char>,
)
    requires
        forall|input: &str, output: String|
            call_ensures(server.callback(), (input,), output) ==> output@ == f(input@),
        server.answers(value, answer),
    ensures
        answer == f(value),
{
}

/// Round trip. A server whose callback hands its input back answers every
/// call with the very string that was sent.
pub proof fn lemma_identity_round_trip<F: Fn(&str) -> String + 'static + Send + Sync>(
    server: Server<F>,
    value: Seq<char>,
    answer: Seq<char>,
)
    requires
        forall|input: &str, output: String|
            call_ensures(server.callback(), (input,), output) ==> output@ == input@,
        server.answers(value, answer),
    ensures
        answer == value,
{
}

/// No cross-talk. However many calls a server answers, and in whatever
/// order, each answer belongs to its own request: where the callback
/// returns `f` of its input, the answer to the `i`-th value is `f` of the
/// `i`-th value and of no other.
pub proof fn lemma_no_cross_talk<F: Fn(&str) -> String + 'static + Send + Sync>(
    server: Server<F>,
    f: spec_fn(Seq<char>) -> Seq<char>,
    values: Seq<Seq<char>>,
    answers: Seq<Seq<char>>,
)
    requires
        forall|input: &str, output: String|
            call_ensures(server.callback(), (input,), output) ==> output@ == f(input@),
        values.len() == answers.len(),
        forall|i: int| 0 <= i < values.len() ==> server.answers(values[i], #[trigger] answers[i]),
    ensures
        forall|i: int| 0 <= i < values.len() ==> #[trigger] answers[i] == f(values[i]),
{
    assert forall|i: int| 0 <= i < values.len() implies #[trigger] answers[i] == f(values[i]) by {
        lemma_call_applies_callback(server, f, values[i], answers[i]);
    }
}

/// A breakdown stays with its call. The call whose callback broke down is
/// answered with an internal-error status, and a call handled before or
/// after it that came to a response is answered with that response.
pub proof fn lemma_fault_is_contained(
    broken: Result<Response, Status>,
    response: Response,
    sound: Result<Response, Status>,
)
    requires
        replies(None, broken),
        replies(Some(response), sound),
    ensures
        broken is Err,
        broken->Err_0.code == Code::Internal,
        sound == Ok::<Response, Status>(response),
{
}

} // verus!
