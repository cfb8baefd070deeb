use vstd::prelude::*;

verus! {

/// The driver's identifier of a machine slot, carried through for attribution.
#[verifier::external_type_specification]
#[verifier::external_body]
pub struct ExToken(mio::Token);

/// The kinds of readiness that an event reports.
#[verifier::external_type_specification]
#[verifier::external_body]
pub struct ExInterest(mio::Interest);

/// A point on the driver's clock, in milliseconds.
#[derive(Clone, Copy, Debug, PartialEq, Eq, Structural, PartialOrd, Ord, Hash)]
pub struct Time(pub u64);

/// The failure a machine stops with; it is carried for diagnostics only.
///
/// The description is boxed so that an outcome stays as small as the
/// machine and payload it carries.
#[derive(Debug)]
pub struct MachineError {
    description: Box<String>,
}

impl View for MachineError {
    type V = Seq<char>;

    closed spec fn view(&self) -> Seq<char> {
        self.description@
    }
}

impl MachineError {
    pub fn new(description: String) -> (r: MachineError)
        ensures
            r@ == description@,
    {
        MachineError { description: Box::new(description) }
    }

    pub fn description(&self) -> (r: &str)
        ensures
            r@ == self@,
    {
        self.description.as_str()
    }
}

/// What a machine asks of the driver when one of its callbacks returns.
#[derive(Debug)]
pub enum ResponseImpl<M, N> {
    /// The machine goes on, with no change of deadline.
    Normal(M),
    /// The machine goes on, and its deadline becomes the given time.
    Deadline(M, Time),
    /// The machine goes on, and the driver turns the payload into a new machine.
    Spawn(M, N),
    /// The machine is finished because of an error.
    Error(MachineError),
    /// The machine is finished.
    Done,
}

impl<M, N> ResponseImpl<M, N> {
    /// The machine is finished, with or without an error.
    pub open spec fn is_terminal(self) -> bool {
        self is Done || self is Error
    }

    /// The machine goes on without a spawn, so a deadline can still fire.
    pub open spec fn accepts_deadline(self) -> bool {
        self is Normal || self is Deadline
    }

    /// The outcome with its deadline set to `time`.
    pub open spec fn with_deadline(self, time: Time) -> ResponseImpl<M, N> {
        match self {
            ResponseImpl::Normal(m) => ResponseImpl::Deadline(m, time),
            ResponseImpl::Deadline(m, _) => ResponseImpl::Deadline(m, time),
            _ => self,
        }
    }
}

/// The single value that a machine's callback returns.
pub struct Response<M, N>(ResponseImpl<M, N>);

impl<M, N> View for Response<M, N> {
    type V = ResponseImpl<M, N>;

    closed spec fn view(&self) -> ResponseImpl<M, N> {
        self.0
    }
}

impl<M, N> Response<M, N> {
    pub fn ok(machine: M) -> (r: Response<M, N>)
        ensures
            r@ == ResponseImpl::<M, N>::Normal(machine),
    {
        Response(ResponseImpl::Normal(machine))
    }

    pub fn spawn(machine: M, result: N) -> (r: Response<M, N>)
        ensures
            r@ == ResponseImpl::Spawn(machine, result),
    {
        Response(ResponseImpl::Spawn(machine, result))
    }

    pub fn done() -> (r: Response<M, N>)
        ensures
            r@ == ResponseImpl::<M, N>::Done,
    {
        Response(ResponseImpl::Done)
    }

    /// Stops the machine with an error.
    pub fn error(e: MachineError) -> (r: Response<M, N>)
        ensures
            r@ == ResponseImpl::<M, N>::Error(e),
    {
        Response(ResponseImpl::Error(e))
    }

    /// Sets the deadline of a machine that goes on, replacing any earlier one.
    ///
    /// A spawn or a finished machine has no future in which the deadline
    /// could fire, so those outcomes are excluded.
    pub fn deadline(self, time: Time) -> (r: Response<M, N>)
        requires
            self@.accepts_deadline(),
        ensures
            r@ == self@.with_deadline(time),
    {
        let imp = match self.0 {
            ResponseImpl::Normal(x) => ResponseImpl::Deadline(x, time),
            ResponseImpl::Deadline(x, _) => ResponseImpl::Deadline(x, time),
            _ => unreached(),
        };
        Response(imp)
    }

    /// Maps the machine and the spawn payload, keeping the variant, the
    /// deadline and the error as they are.
    pub fn map<T, U, S, R>(self, self_mapper: S, result_mapper: R) -> (r: Response<T, U>) where
        S: FnOnce(M) -> T,
        R: FnOnce(N) -> U,

        requires
            match self@ {
                ResponseImpl::Normal(m) => self_mapper.requires((m,)),
                ResponseImpl::Deadline(m, _) => self_mapper.requires((m,)),
                ResponseImpl::Spawn(m, n) => self_mapper.requires((m,)) && result_mapper.requires(
                    (n,),
                ),
                _ => true,
            },
        ensures
            match (self@, r@) {
                (ResponseImpl::Normal(m), ResponseImpl::Normal(t)) => self_mapper.ensures((m,), t),
                (ResponseImpl::Deadline(m, a), ResponseImpl::Deadline(t, b)) => a == b
                    && self_mapper.ensures((m,), t),
                (ResponseImpl::Spawn(m, n), ResponseImpl::Spawn(t, u)) => self_mapper.ensures(
                    (m,),
                    t,
                ) && result_mapper.ensures((n,), u),
                (ResponseImpl::Error(e), ResponseImpl::Error(f)) => e == f,
                (ResponseImpl::Done, ResponseImpl::Done) => true,
                _ => false,
            },
    {
        let imp = match self.0 {
            ResponseImpl::Normal(m) => ResponseImpl::Normal(self_mapper(m)),
            ResponseImpl::Deadline(m, time) => ResponseImpl::Deadline(self_mapper(m), time),
            ResponseImpl::Spawn(m, n) => ResponseImpl::Spawn(self_mapper(m), result_mapper(n)),
            ResponseImpl::Done => ResponseImpl::Done,
            ResponseImpl::Error(e) => ResponseImpl::Error(e),
        };
        Response(imp)
    }

    /// Maps the machine only; the spawn payload keeps its type and value.
    pub fn wrap<T, S>(self, self_mapper: S) -> (r: Response<T, N>) where S: FnOnce(M) -> T
        requires
            match self@ {
                ResponseImpl::Normal(m) => self_mapper.requires((m,)),
                ResponseImpl::Deadline(m, _) => self_mapper.requires((m,)),
                ResponseImpl::Spawn(m, _) => self_mapper.requires((m,)),
                _ => true,
            },
        ensures
            match (self@, r@) {
                (ResponseImpl::Normal(m), ResponseImpl::Normal(t)) => self_mapper.ensures((m,), t),
                (ResponseImpl::Deadline(m, a), ResponseImpl::Deadline(t, b)) => a == b
                    && self_mapper.ensures((m,), t),
                (ResponseImpl::Spawn(m, n), ResponseImpl::Spawn(t, u)) => n == u
                    && self_mapper.ensures((m,), t),
                (ResponseImpl::Error(e), ResponseImpl::Error(f)) => e == f,
                (ResponseImpl::Done, ResponseImpl::Done) => true,
                _ => false,
            },
    {
        let imp = match self.0 {
            ResponseImpl::Normal(m) => ResponseImpl::Normal(self_mapper(m)),
            ResponseImpl::Deadline(m, time) => ResponseImpl::Deadline(self_mapper(m), time),
            ResponseImpl::Spawn(m, n) => ResponseImpl::Spawn(self_mapper(m), n),
            ResponseImpl::Done => ResponseImpl::Done,
            ResponseImpl::Error(e) => ResponseImpl::Error(e),
        };
        Response(imp)
    }

    /// True when the machine is finished, with or without an error.
    pub fn is_stopped(&self) -> (r: bool)
        ensures
            r == self@.is_terminal(),
    {
        match self.0 {
            ResponseImpl::Normal(..) => false,
            ResponseImpl::Deadline(..) => false,
            ResponseImpl::Spawn(..) => false,
            ResponseImpl::Done => true,
            ResponseImpl::Error(..) => true,
        }
    }

    /// The error that the machine stopped with, if it stopped with one.
    pub fn cause(&self) -> (r: Option<&MachineError>)
        ensures
            match self@ {
                ResponseImpl::Error(e) => r == Some(&e),
                _ => r is None,
            },
    {
        match &self.0 {
            ResponseImpl::Error(e) => Some(e),
            _ => None,
        }
    }

    /// The machine of an outcome that goes on without a spawn.
    pub fn expect_machine(self) -> (r: M)
        requires
            self@.accepts_deadline(),
        ensures
            match self@ {
                ResponseImpl::Normal(m) => r == m,
                ResponseImpl::Deadline(m, _) => r == m,
                _ => false,
            },
    {
        match self.0 {
            ResponseImpl::Normal(x) => x,
            ResponseImpl::Deadline(x, _) => x,
            _ => unreached(),
        }
    }

    /// The machine and the payload of a spawn.
    pub fn expect_spawn(self) -> (r: (M, N))
        requires
            self@ is Spawn,
        ensures
            self@ == ResponseImpl::Spawn(r.0, r.1),
    {
        match self.0 {
            ResponseImpl::Spawn(x, y) => (x, y),
            _ => unreached(),
        }
    }

    /// Consumes an outcome that stops the machine without an error.
    pub fn expect_done(self)
        requires
            self@ is Done,
    {
        match self.0 {
            ResponseImpl::Done => {},
            _ => unreached(),
        }
    }

    /// The error of an outcome that stops the machine with one.
    pub fn expect_error(self) -> (r: MachineError)
        requires
            self@ is Error,
        ensures
            self@ == ResponseImpl::<M, N>::Error(r),
    {
        match self.0 {
            ResponseImpl::Error(e) => e,
            _ => unreached(),
        }
    }
}

/// What the driver does with an outcome: the machine that goes on (or the
/// error, if any, that finished it), the payload to spawn, and the deadline.
pub open spec fn actions<M, N>(v: ResponseImpl<M, N>) -> (
    Result<M, Option<MachineError>>,
    Option<N>,
    Option<Time>,
) {
    match v {
        ResponseImpl::Normal(m) => (Ok(m), None, None),
        ResponseImpl::Deadline(m, time) => (Ok(m), None, Some(time)),
        ResponseImpl::Spawn(m, n) => (Ok(m), Some(n), None),
        ResponseImpl::Done => (Err(None), None, None),
        ResponseImpl::Error(e) => (Err(Some(e)), None, None),
    }
}

/// Unpacks an outcome into the driver's actions. The token names the machine
/// only for diagnostics, which `decompose_with_report` produces.
pub fn decompose<M, N>(_token: mio::Token, res: Response<M, N>) -> (r: (
    Result<M, Option<MachineError>>,
    Option<N>,
    Option<Time>,
))
    ensures
        r == actions(res@),
{
    match res.0 {
        ResponseImpl::Normal(m) => (Ok(m), None, None),
        ResponseImpl::Deadline(m, time) => (Ok(m), None, Some(time)),
        ResponseImpl::Spawn(m, n) => (Ok(m), Some(n), None),
        ResponseImpl::Done => (Err(None), None, None),
        ResponseImpl::Error(e) => (Err(Some(e)), None, None),
    }
}

/// A warning to be emitted for a machine that finished with an error.
#[derive(Debug)]
pub struct Report {
    /// The slot of the machine that failed.
    pub token: mio::Token,
    /// The description of its error.
    pub description: String,
}

/// Unpacks an outcome like `decompose`, and when diagnostics are enabled and
/// the machine failed, also hands back the one report to emit for it.
pub fn decompose_with_report<M, N>(token: mio::Token, res: Response<M, N>, diagnostics: bool) -> (r: (
    (Result<M, Option<MachineError>>, Option<N>, Option<Time>),
    Option<Report>,
))
    ensures
        r.0 == actions(res@),
        r.1 is Some <==> diagnostics && res@ is Error,
        match (res@, r.1) {
            (ResponseImpl::Error(e), Some(report)) => report.token == token
                && report.description@ == e@,
            _ => true,
        },
{
    let report = if diagnostics {
        match &res.0 {
            ResponseImpl::Error(e) => Some(
                Report { token, description: (*e.description).clone() },
            ),
            _ => None,
        }
    } else {
        None
    };
    (decompose(token, res), report)
}

/// Each constructor's outcome decomposes into exactly its own actions.
pub proof fn lemma_constructors_decompose<M, N>(m: M, n: N, time: Time, e: MachineError)
    ensures
        actions(ResponseImpl::<M, N>::Normal(m)) == (
            Ok::<M, Option<MachineError>>(m),
            None::<N>,
            None::<Time>,
        ),
        actions(ResponseImpl::<M, N>::Normal(m).with_deadline(time)) == (
            Ok::<M, Option<MachineError>>(m),
            None::<N>,
            Some(time),
        ),
        actions(ResponseImpl::<M, N>::Spawn(m, n)) == (
            Ok::<M, Option<MachineError>>(m),
            Some(n),
            None::<Time>,
        ),
        actions(ResponseImpl::<M, N>::Done) == (
            Err::<M, Option<MachineError>>(None),
            None::<N>,
            None::<Time>,
        ),
        actions(ResponseImpl::<M, N>::Error(e)) == (
            Err::<M, Option<MachineError>>(Some(e)),
            None::<N>,
            None::<Time>,
        ),
{
}

/// No outcome asks the driver both to spawn and to set a deadline.
pub proof fn lemma_spawn_excludes_deadline<M, N>(v: ResponseImpl<M, N>)
    ensures
        !(actions(v).1 is Some && actions(v).2 is Some),
{
}

/// Setting a deadline twice keeps the machine and the later time only, and
/// the outcome still accepts a deadline after each step.
pub proof fn lemma_deadline_replaces<M, N>(m: M, t1: Time, t2: Time)
    ensures
        ResponseImpl::<M, N>::Normal(m).accepts_deadline(),
        ResponseImpl::<M, N>::Normal(m).with_deadline(t1) == ResponseImpl::<M, N>::Deadline(m, t1),
        ResponseImpl::<M, N>::Normal(m).with_deadline(t1).accepts_deadline(),
        ResponseImpl::<M, N>::Normal(m).with_deadline(t1).with_deadline(t2)
            == ResponseImpl::<M, N>::Deadline(m, t2),
{
}

/// No deadline can be set on a spawn, on a stop or on a failure.
pub proof fn lemma_deadline_refused<M, N>(v: ResponseImpl<M, N>)
    requires
        v is Spawn || v is Done || v is Error,
    ensures
        !v.accepts_deadline(),
{
}

} // verus!
