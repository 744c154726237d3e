//! The vocabulary spoken with the graphics driver.
//!
//! Nothing in this crate touches the driver. Every operation is a protocol: it
//! names the next request, is handed the driver's reply, and either names
//! another request or ends with a result. Whoever owns the graphics context
//! performs the requests, on the one thread that the context is bound to.

use vstd::prelude::*;

verus! {

/// One request to the driver. Names, texts and floating-point operands are
/// not carried: whoever performs the request holds them.
#[derive(Clone, Copy, Debug, PartialEq, Eq, Structural)]
pub enum Call {
    /// Read the global error flag, which also clears it.
    GetError,
    /// Allocate a shader object of the given kind.
    CreateShader { kind: u32 },
    /// Upload the source text, `length` bytes long, into a shader.
    ShaderSource { shader: u32, length: i32 },
    /// Compile the uploaded source.
    CompileShader { shader: u32 },
    /// Query an integer parameter of a shader.
    GetShaderiv { shader: u32, pname: u32 },
    /// Read a shader's info log into a buffer of `capacity` bytes.
    GetShaderInfoLog { shader: u32, capacity: i32 },
    /// Delete a shader object.
    DeleteShader { shader: u32 },
    /// Allocate a program object.
    CreateProgram,
    /// Attach a shader to a program.
    AttachShader { program: u32, shader: u32 },
    /// Link the attached shaders.
    LinkProgram { program: u32 },
    /// Detach a shader from a program.
    DetachShader { program: u32, shader: u32 },
    /// Query an integer parameter of a program.
    GetProgramiv { program: u32, pname: u32 },
    /// Read a program's info log into a buffer of `capacity` bytes.
    GetProgramInfoLog { program: u32, capacity: i32 },
    /// Delete a program object.
    DeleteProgram { program: u32 },
    /// Make a program the active pipeline; program 0 unbinds.
    UseProgram { program: u32 },
    /// Resolve the location of the uniform that the caller named.
    GetUniformLocation { program: u32 },
    /// Upload one float.
    Uniform1f { location: i32 },
    /// Upload one integer.
    Uniform1i { location: i32, value: i32 },
    /// Upload two floats.
    Uniform2f { location: i32 },
    /// Upload three floats.
    Uniform3f { location: i32 },
    /// Upload four floats.
    Uniform4f { location: i32 },
    /// Upload `count` 4x4 float matrices.
    UniformMatrix4fv { location: i32, count: i32, transpose: u8 },
}

/// What the driver handed back for one request.
#[derive(Debug, PartialEq, Eq)]
pub enum Reply {
    /// The request returns nothing.
    Nothing,
    /// The identifier of a new object; 0 when the driver allocated none.
    Object(u32),
    /// A queried integer or a uniform location.
    Value(i32),
    /// The error flag as it stood before the read cleared it.
    Flag(u32),
    /// The bytes of an info log.
    Log(Vec<u8>),
}

/// The mathematical content of a [`Reply`].
pub ghost enum ReplyView {
    Nothing,
    Object(u32),
    Value(i32),
    Flag(u32),
    Log(Seq<u8>),
}

impl View for Reply {
    type V = ReplyView;

    open spec fn view(&self) -> ReplyView {
        match *self {
            Reply::Nothing => ReplyView::Nothing,
            Reply::Object(id) => ReplyView::Object(id),
            Reply::Value(value) => ReplyView::Value(value),
            Reply::Flag(flag) => ReplyView::Flag(flag),
            Reply::Log(bytes) => ReplyView::Log(bytes@),
        }
    }
}

/// Whether `reply` is of the kind that the driver gives to `call`.
pub open spec fn answers(call: Call, reply: ReplyView) -> bool {
    match call {
        Call::GetError => reply is Flag,
        Call::CreateShader { .. } | Call::CreateProgram => reply is Object,
        Call::GetShaderiv { .. } | Call::GetProgramiv { .. } | Call::GetUniformLocation { .. } => reply is Value,
        Call::GetShaderInfoLog { .. } | Call::GetProgramInfoLog { .. } => reply is Log,
        _ => reply is Nothing,
    }
}

/// How many floats whoever performs `call` has to supply.
pub open spec fn floats_of(call: Call) -> int {
    match call {
        Call::Uniform1f { .. } => 1,
        Call::Uniform2f { .. } => 2,
        Call::Uniform3f { .. } => 3,
        Call::Uniform4f { .. } => 4,
        Call::UniformMatrix4fv { count, .. } => if count > 0 {
            16 * count
        } else {
            0
        },
        _ => 0,
    }
}

/// Whether whoever performs `call` has to supply a text: the source of a
/// shader or the name of a uniform.
pub open spec fn takes_text(call: Call) -> bool {
    call is ShaderSource || call is GetUniformLocation
}

impl Call {
    /// The number of floats that whoever performs this request has to supply.
    pub fn floats(&self) -> (count: u64)
        ensures
            count == floats_of(*self),
    {
        match self {
            Call::Uniform1f { .. } => 1,
            Call::Uniform2f { .. } => 2,
            Call::Uniform3f { .. } => 3,
            Call::Uniform4f { .. } => 4,
            Call::UniformMatrix4fv { count, .. } => if *count > 0 {
                16 * (*count as u64)
            } else {
                0
            },
            _ => 0,
        }
    }

    /// Tells whether whoever performs this request has to supply a text.
    pub fn needs_text(&self) -> (yes: bool)
        ensures
            yes == takes_text(*self),
    {
        matches!(self, Call::ShaderSource { .. } | Call::GetUniformLocation { .. })
    }

    /// Tells whether `reply` is of the kind that the driver gives to this
    /// request.
    pub fn answered_by(&self, reply: &Reply) -> (yes: bool)
        ensures
            yes == answers(*self, reply@),
    {
        match self {
            Call::GetError => matches!(reply, Reply::Flag(_)),
            Call::CreateShader { .. } | Call::CreateProgram => matches!(reply, Reply::Object(_)),
            Call::GetShaderiv { .. } | Call::GetProgramiv { .. } | Call::GetUniformLocation { .. } => matches!(reply, Reply::Value(_)),
            Call::GetShaderInfoLog { .. } | Call::GetProgramInfoLog { .. } => matches!(reply, Reply::Log(_)),
            _ => matches!(reply, Reply::Nothing),
        }
    }
}

/// How a protocol goes on after a reply.
pub enum Progress<M, T> {
    /// The protocol has another request to make.
    Next(M),
    /// The protocol has ended, with a value or with a diagnostic message.
    Done(Result<T, String>),
}

/// An operation on the driver, taken one request at a time. Whoever owns the
/// graphics context runs it: perform `request`, hand the reply to `resume`,
/// and go on with what comes back until it is `Done`.
pub trait Protocol: Sized {
    /// What the operation ends with when it succeeds.
    type Output;

    /// The request that the protocol is waiting on.
    spec fn pending(&self) -> Call;

    /// The replies that the protocol can go on with.
    spec fn admits(&self, reply: ReplyView) -> bool;

    /// The request that the driver must perform next.
    fn request(&self) -> (call: Call)
        ensures
            call == self.pending(),
    ;

    /// Tells whether the protocol can go on with `reply`.
    fn accepts(&self, reply: &Reply) -> (yes: bool)
        ensures
            yes == self.admits(reply@),
    ;

    /// Whether `next` is where the protocol stands after `reply`.
    spec fn leads(&self, reply: ReplyView, next: Progress<Self, Self::Output>) -> bool;

    /// Takes the driver's reply to the pending request and goes one step on.
    fn resume(self, reply: Reply) -> (next: Progress<Self, Self::Output>)
        requires
            self.admits(reply@),
        ensures
            self.leads(reply@, next),
    ;
}

/// The mathematical content of a [`Progress`]: the protocol's next state, or
/// the value or message that it ended with.
pub ghost enum Outcome<V, T> {
    Next(V),
    Done(Result<T, Seq<char>>),
}

/// What the driver answered while an object was built, that is, while a shader
/// was compiled or a program linked. An answer that the protocol never asked
/// for does not matter.
pub ghost struct BuildAnswers {
    /// The identifier of the new object, 0 if none was allocated.
    pub object: u32,
    /// The compile or link status.
    pub status: i32,
    /// The length of the info log.
    pub log_length: i32,
    /// The bytes of the info log.
    pub log: Seq<u8>,
}

/// Whether `calls` holds exactly one request that deletes an object, and that
/// request is `release`.
pub open spec fn releases_once(calls: Seq<Call>, release: Call) -> bool {
    exists|i: int|
        0 <= i < calls.len() && calls[i] == release && forall|j: int|
            0 <= j < calls.len() && j != i ==> !(#[trigger] calls[j] is DeleteShader)
                && !(calls[j] is DeleteProgram)
}

/// Whether `calls` holds no request that deletes an object.
pub open spec fn releases_nothing(calls: Seq<Call>) -> bool {
    forall|j: int|
        0 <= j < calls.len() ==> !(#[trigger] calls[j] is DeleteShader) && !(calls[j] is DeleteProgram)
}

/// Where a protocol stands after a sequence of replies.
pub ghost enum Run<V, T> {
    /// Every reply was accepted, and the protocol waits for another.
    Waiting(V),
    /// Every reply was accepted, and the last one ended the protocol.
    Ended(Result<T, Seq<char>>),
    /// Some reply was not accepted, or came after the end.
    Refused,
}

/// A protocol as three functions of its state: the request that it waits on,
/// the replies that it accepts, and the step that it takes on a reply.
#[verifier::reject_recursive_types(V)]
pub ghost struct Rules<V, T> {
    pub request: spec_fn(V) -> Call,
    pub accepts: spec_fn(V, ReplyView) -> bool,
    pub step: spec_fn(V, ReplyView) -> Outcome<V, T>,
}

/// Where a run stands after one more reply.
pub open spec fn advance<V, T>(rules: Rules<V, T>, run: Run<V, T>, reply: ReplyView) -> Run<V, T> {
    match run {
        Run::Waiting(v) => if (rules.accepts)(v, reply) {
            match (rules.step)(v, reply) {
                Outcome::Next(w) => Run::Waiting(w),
                Outcome::Done(result) => Run::Ended(result),
            }
        } else {
            Run::Refused
        },
        _ => Run::Refused,
    }
}

/// Where the protocol that began in `start` stands after `replies`, taken in
/// order.
pub open spec fn run<V, T>(rules: Rules<V, T>, start: V, replies: Seq<ReplyView>) -> Run<V, T>
    decreases replies.len(),
{
    if replies.len() == 0 {
        Run::Waiting(start)
    } else {
        advance(rules, run(rules, start, replies.drop_last()), replies.last())
    }
}

/// The requests that `replies` answered: each is the one that the protocol
/// waited on after the replies before it.
pub open spec fn requests<V, T>(
    rules: Rules<V, T>,
    start: V,
    replies: Seq<ReplyView>,
) -> Seq<Call> {
    Seq::new(
        replies.len(),
        |i: int| (rules.request)(run(rules, start, replies.take(i))->Waiting_0),
    )
}

/// A run over the first `k + 1` replies is the run over the first `k`,
/// advanced by the reply that follows them.
proof fn lemma_run_prefix<V, T>(rules: Rules<V, T>, start: V, replies: Seq<ReplyView>, k: int)
    requires
        0 <= k < replies.len(),
    ensures
        run(rules, start, replies.take(k + 1)) == advance(
            rules,
            run(rules, start, replies.take(k)),
            replies[k],
        ),
{
    let prefix = replies.take(k + 1);
    assert(prefix.drop_last() =~= replies.take(k));
    assert(prefix.last() == replies[k]);
}

/// A run that is not refused never left the waiting state before its last
/// reply: nothing is accepted after the end or after a refusal.
proof fn lemma_run_waits<V, T>(rules: Rules<V, T>, start: V, replies: Seq<ReplyView>, k: int)
    requires
        0 <= k < replies.len(),
        !(run(rules, start, replies) is Refused),
    ensures
        run(rules, start, replies.take(k)) is Waiting,
    decreases replies.len(),
{
    let shorter = replies.drop_last();
    if k == replies.len() - 1 {
        assert(replies.take(k) =~= shorter);
    } else {
        lemma_run_waits(rules, start, shorter, k);
        assert(shorter.take(k) =~= replies.take(k));
    }
}

/// Whether `path` and `result` tell how the protocol goes on `replies`: from
/// each state of the path, the reply that comes at its place, if it is
/// accepted, leads to the next state of the path, and from the last state to
/// the end, with `result`.
pub open spec fn guided<V, T>(
    rules: Rules<V, T>,
    path: Seq<V>,
    replies: Seq<ReplyView>,
    result: Result<T, Seq<char>>,
) -> bool {
    forall|k: int|
        0 <= k < path.len() && k < replies.len() && (rules.accepts)(#[trigger] path[k], replies[k])
            ==> (rules.step)(path[k], replies[k]) == if k + 1 < path.len() {
            Outcome::<V, T>::Next(path[k + 1])
        } else {
            Outcome::<V, T>::Done(result)
        }
}

/// On a guided run that is not refused, the first `k` replies lead to the
/// `k`-th state of the path, or to the end where the path has no such state.
proof fn lemma_guided_prefix<V, T>(
    rules: Rules<V, T>,
    path: Seq<V>,
    replies: Seq<ReplyView>,
    result: Result<T, Seq<char>>,
    k: int,
)
    requires
        guided(rules, path, replies, result),
        path.len() > 0,
        !(run(rules, path[0], replies) is Refused),
        0 <= k <= replies.len(),
    ensures
        k <= path.len(),
        run(rules, path[0], replies.take(k)) == if k < path.len() {
            Run::<V, T>::Waiting(path[k])
        } else {
            Run::<V, T>::Ended(result)
        },
    decreases k,
{
    if k == 0 {
        assert(replies.take(0) =~= Seq::<ReplyView>::empty());
    } else {
        lemma_guided_prefix(rules, path, replies, result, k - 1);
        lemma_run_waits(rules, path[0], replies, k - 1);
        lemma_run_prefix(rules, path[0], replies, k - 1);
        if k < replies.len() {
            lemma_run_waits(rules, path[0], replies, k);
        } else {
            assert(replies.take(k) =~= replies);
        }
    }
}

/// A guided run that comes to its end takes as many replies as the path has
/// states, ends with the result that goes with the path, and makes the
/// requests of the states of the path, in that order.
pub proof fn lemma_guided_run<V, T>(
    rules: Rules<V, T>,
    path: Seq<V>,
    replies: Seq<ReplyView>,
    result: Result<T, Seq<char>>,
)
    requires
        guided(rules, path, replies, result),
        path.len() > 0,
        run(rules, path[0], replies) is Ended,
    ensures
        replies.len() == path.len(),
        run(rules, path[0], replies) == Run::<V, T>::Ended(result),
        requests(rules, path[0], replies) == Seq::new(path.len(), |i: int| (rules.request)(path[i])),
{
    let n = replies.len() as int;
    lemma_guided_prefix(rules, path, replies, result, n);
    assert(replies.take(n) =~= replies);
    assert forall|i: int| 0 <= i < n implies requests(rules, path[0], replies)[i] == (rules.request)(
        path[i],
    ) by {
        lemma_guided_prefix(rules, path, replies, result, i);
        lemma_run_waits(rules, path[0], replies, i);
    }
    assert(requests(rules, path[0], replies) =~= Seq::new(
        path.len(),
        |i: int| (rules.request)(path[i]),
    ));
}

/// Where every state of the path accepts the reply that comes at its place,
/// the first `k` replies of a guided run lead to the `k`-th state of the
/// path, and all of them to the end.
proof fn lemma_guided_accepted<V, T>(
    rules: Rules<V, T>,
    path: Seq<V>,
    replies: Seq<ReplyView>,
    result: Result<T, Seq<char>>,
    k: int,
)
    requires
        guided(rules, path, replies, result),
        path.len() > 0,
        replies.len() == path.len(),
        forall|i: int| 0 <= i < path.len() ==> (rules.accepts)(#[trigger] path[i], replies[i]),
        0 <= k <= replies.len(),
    ensures
        run(rules, path[0], replies.take(k)) == if k < path.len() {
            Run::<V, T>::Waiting(path[k])
        } else {
            Run::<V, T>::Ended(result)
        },
    decreases k,
{
    if k == 0 {
        assert(replies.take(0) =~= Seq::<ReplyView>::empty());
    } else {
        lemma_guided_accepted(rules, path, replies, result, k - 1);
        lemma_run_prefix(rules, path[0], replies, k - 1);
    }
}

/// A guided run comes to its end, with the result that goes with the path,
/// where every state of the path accepts the reply that comes at its place.
pub proof fn lemma_guided_end<V, T>(
    rules: Rules<V, T>,
    path: Seq<V>,
    replies: Seq<ReplyView>,
    result: Result<T, Seq<char>>,
)
    requires
        guided(rules, path, replies, result),
        path.len() > 0,
        replies.len() == path.len(),
        forall|i: int| 0 <= i < path.len() ==> (rules.accepts)(#[trigger] path[i], replies[i]),
    ensures
        run(rules, path[0], replies) == Run::<V, T>::Ended(result),
{
    let n = replies.len() as int;
    lemma_guided_accepted(rules, path, replies, result, n);
    assert(replies.take(n) =~= replies);
}

} // verus!
