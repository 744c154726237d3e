//! Shader handles and the protocol that compiles them.

use crate::driver::{
    answers, guided, lemma_guided_end, lemma_guided_run, releases_nothing, releases_once, requests,
    run, BuildAnswers, Call, Outcome, Progress, Protocol, Reply, ReplyView, Rules, Run,
};
use crate::private::Sealed;
use crate::registry;
use crate::text;
use std::marker::PhantomData;
use vstd::prelude::*;
use vstd::string::StringExecFns;

verus! {

/// The pipeline position that a shader is compiled for.
#[derive(Debug, Copy, Clone, PartialEq, Eq, Structural)]
pub enum ShaderType {
    Vertex,
    TessControl,
    TessEvaluation,
    Geometry,
    Fragment,
}

impl ShaderType {
    /// The kind that the driver knows this stage by.
    pub open spec fn code(self) -> u32 {
        match self {
            ShaderType::Vertex => registry::VERTEX_SHADER,
            ShaderType::TessControl => registry::TESS_CONTROL_SHADER,
            ShaderType::TessEvaluation => registry::TESS_EVALUATION_SHADER,
            ShaderType::Geometry => registry::GEOMETRY_SHADER,
            ShaderType::Fragment => registry::FRAGMENT_SHADER,
        }
    }

    /// The name that diagnostics show for this stage.
    pub open spec fn name(self) -> Seq<char> {
        match self {
            ShaderType::Vertex => "VERTEX_SHADER"@,
            ShaderType::TessControl => "TESS_CONTROL_SHADER"@,
            ShaderType::TessEvaluation => "TESS_EVALUATION_SHADER"@,
            ShaderType::Geometry => "GEOMETRY_SHADER"@,
            ShaderType::Fragment => "FRAGMENT_SHADER"@,
        }
    }

    /// What a compile of this stage is called in a failure message.
    pub open spec fn action(self) -> Seq<char> {
        "compile "@ + self.name()
    }

    /// The kind to pass to the driver when a shader of this stage is created.
    pub fn to_opengl(self) -> (code: u32)
        ensures
            code == self.code(),
    {
        match self {
            ShaderType::Vertex => registry::vertex_shader(),
            ShaderType::TessControl => registry::tess_control_shader(),
            ShaderType::TessEvaluation => registry::tess_evaluation_shader(),
            ShaderType::Geometry => registry::geometry_shader(),
            ShaderType::Fragment => registry::fragment_shader(),
        }
    }

    /// The stage's name as diagnostics show it.
    pub fn to_string(&self) -> (name: String)
        ensures
            name@ == self.name(),
    {
        match self {
            ShaderType::Vertex => String::from_str("VERTEX_SHADER"),
            ShaderType::TessControl => String::from_str("TESS_CONTROL_SHADER"),
            ShaderType::TessEvaluation => String::from_str("TESS_EVALUATION_SHADER"),
            ShaderType::Geometry => String::from_str("GEOMETRY_SHADER"),
            ShaderType::Fragment => String::from_str("FRAGMENT_SHADER"),
        }
    }

    fn describe_action(self) -> (action: String)
        ensures
            action@ == self.action(),
    {
        let mut action = String::from_str("compile ");
        action.append(self.to_string().as_str());
        action
    }
}

/// The message of a compile that could not even allocate its shader object.
pub open spec fn shader_creation_failed() -> Seq<char> {
    "OpenGL failed to create shader object"@
}

/// Where a compile stands: the request that it is waiting on.
#[derive(Debug, Copy, Clone, PartialEq, Eq, Structural)]
pub enum CompilePhase {
    /// Clearing whatever error an earlier operation left behind.
    ClearError,
    /// Allocating the shader object.
    Create,
    /// Uploading the source text.
    Upload,
    /// Compiling.
    Compile,
    /// Reading the compile status.
    ReadStatus,
    /// Checking that a successful compile left no error behind.
    CheckSuccess,
    /// Reading the length of the info log of a failed compile.
    ReadLogLength,
    /// Reading the info log.
    ReadLog,
    /// Deleting the shader object of a failed compile.
    Delete,
    /// Checking that the clean-up left no error behind.
    CheckFailure,
}

/// The mathematical content of a compile in progress.
pub ghost struct CompileView {
    /// The stage being compiled for.
    pub stage: ShaderType,
    /// The length of the source text in bytes.
    pub source_len: usize,
    /// The request that the compile is waiting on.
    pub phase: CompilePhase,
    /// The shader object, once the driver has allocated it.
    pub shader: u32,
    /// The size of the buffer that the info log is read into.
    pub capacity: i32,
    /// The message that the compile will fail with, once it is known.
    pub message: Seq<char>,
}

/// A compile that has made no request yet.
pub open spec fn compile_begin(stage: ShaderType, source_len: usize) -> CompileView {
    CompileView {
        stage,
        source_len,
        phase: CompilePhase::ClearError,
        shader: 0,
        capacity: 0,
        message: Seq::empty(),
    }
}

/// The request that a compile is waiting on. The upload gives the length of
/// the source text narrowed to the driver's integer type.
pub open spec fn compile_request(v: CompileView) -> Call {
    match v.phase {
        CompilePhase::ClearError => Call::GetError,
        CompilePhase::Create => Call::CreateShader { kind: v.stage.code() },
        CompilePhase::Upload => Call::ShaderSource { shader: v.shader, length: v.source_len as i32 },
        CompilePhase::Compile => Call::CompileShader { shader: v.shader },
        CompilePhase::ReadStatus => Call::GetShaderiv { shader: v.shader, pname: registry::COMPILE_STATUS },
        CompilePhase::CheckSuccess => Call::GetError,
        CompilePhase::ReadLogLength => Call::GetShaderiv { shader: v.shader, pname: registry::INFO_LOG_LENGTH },
        CompilePhase::ReadLog => Call::GetShaderInfoLog { shader: v.shader, capacity: v.capacity },
        CompilePhase::Delete => Call::DeleteShader { shader: v.shader },
        CompilePhase::CheckFailure => Call::GetError,
    }
}

/// A source text of less than two gibibytes is uploaded with its true length.
pub proof fn lemma_source_length_fits(v: CompileView)
    requires
        v.phase == CompilePhase::Upload,
        v.source_len <= i32::MAX,
    ensures
        compile_request(v) == (Call::ShaderSource { shader: v.shader, length: v.source_len as i32 }),
        compile_request(v)->ShaderSource_length == v.source_len,
{
}

/// The replies that a compile can go on with: those of the kind that its
/// request yields, except that the error flag must be clean wherever the
/// compile checks it, and that the length of a log cannot be negative.
pub open spec fn compile_accepts(v: CompileView, reply: ReplyView) -> bool {
    &&& answers(compile_request(v), reply)
    &&& (v.phase == CompilePhase::CheckSuccess || v.phase == CompilePhase::CheckFailure)
        ==> registry::flag_is_clean(reply->Flag_0)
    &&& v.phase == CompilePhase::ReadLogLength ==> reply->Value_0 >= 0
}

/// One step of a compile: where it stands after `reply`.
pub open spec fn compile_step(v: CompileView, reply: ReplyView) -> Outcome<CompileView, u32> {
    match v.phase {
        CompilePhase::ClearError => Outcome::Next(CompileView { phase: CompilePhase::Create, ..v }),
        CompilePhase::Create => if reply->Object_0 == 0 {
            Outcome::Done(Err(shader_creation_failed()))
        } else {
            Outcome::Next(CompileView { phase: CompilePhase::Upload, shader: reply->Object_0, ..v })
        },
        CompilePhase::Upload => Outcome::Next(CompileView { phase: CompilePhase::Compile, ..v }),
        CompilePhase::Compile => Outcome::Next(CompileView { phase: CompilePhase::ReadStatus, ..v }),
        CompilePhase::ReadStatus => if registry::status_is_true(reply->Value_0) {
            Outcome::Next(CompileView { phase: CompilePhase::CheckSuccess, ..v })
        } else {
            Outcome::Next(CompileView { phase: CompilePhase::ReadLogLength, ..v })
        },
        CompilePhase::CheckSuccess => Outcome::Done(Ok(v.shader)),
        CompilePhase::ReadLogLength => if reply->Value_0 == 0 {
            Outcome::Next(
                CompileView {
                    phase: CompilePhase::Delete,
                    message: text::failure_without_log(v.stage.action()),
                    ..v
                },
            )
        } else {
            Outcome::Next(
                CompileView { phase: CompilePhase::ReadLog, capacity: (reply->Value_0 - 1) as i32, ..v },
            )
        },
        CompilePhase::ReadLog => Outcome::Next(
            CompileView {
                phase: CompilePhase::Delete,
                message: text::failure_with_log(v.stage.action(), reply->Log_0),
                ..v
            },
        ),
        CompilePhase::Delete => Outcome::Next(CompileView { phase: CompilePhase::CheckFailure, ..v }),
        CompilePhase::CheckFailure => Outcome::Done(Err(v.message)),
    }
}

/// The compile protocol as rules over its states.
pub open spec fn compile_rules() -> Rules<CompileView, u32> {
    Rules {
        request: |v: CompileView| compile_request(v),
        accepts: |v: CompileView, reply: ReplyView| compile_accepts(v, reply),
        step: |v: CompileView, reply: ReplyView| compile_step(v, reply),
    }
}

/// The answers among the replies of a compile, by the place at which each
/// comes.
pub open spec fn compile_answers(replies: Seq<ReplyView>) -> BuildAnswers {
    BuildAnswers {
        object: replies[1]->Object_0,
        status: replies[4]->Value_0,
        log_length: replies[5]->Value_0,
        log: replies[6]->Log_0,
    }
}

/// What a compile for `stage` ends with when the driver answers `a`: the new
/// shader where one was allocated and its status is true, else a message.
pub open spec fn compile_result(stage: ShaderType, a: BuildAnswers) -> Result<u32, Seq<char>> {
    if a.object == 0 {
        Err(shader_creation_failed())
    } else if registry::status_is_true(a.status) {
        Ok(a.object)
    } else if a.log_length == 0 {
        Err(text::failure_without_log(stage.action()))
    } else {
        Err(text::failure_with_log(stage.action(), a.log))
    }
}

/// The requests that a compile makes, in order, when the driver answers `a`.
pub open spec fn compile_requests(
    stage: ShaderType,
    source_len: usize,
    a: BuildAnswers,
) -> Seq<Call> {
    let id = a.object;
    let create = seq![Call::GetError, Call::CreateShader { kind: stage.code() }];
    let build = seq![
        Call::ShaderSource { shader: id, length: source_len as i32 },
        Call::CompileShader { shader: id },
        Call::GetShaderiv { shader: id, pname: registry::COMPILE_STATUS },
    ];
    let length = Call::GetShaderiv { shader: id, pname: registry::INFO_LOG_LENGTH };
    let log = Call::GetShaderInfoLog { shader: id, capacity: (a.log_length - 1) as i32 };
    let delete = Call::DeleteShader { shader: id };
    if id == 0 {
        create
    } else if registry::status_is_true(a.status) {
        create + build + seq![Call::GetError]
    } else if a.log_length == 0 {
        create + build + seq![length, delete, Call::GetError]
    } else {
        create + build + seq![length, log, delete, Call::GetError]
    }
}

/// The replies of a driver that answers `a`, and whose error flag held
/// `stale` before the compile and is clean whenever the compile checks it.
pub open spec fn compile_replies(stale: u32, a: BuildAnswers) -> Seq<ReplyView> {
    let create = seq![ReplyView::Flag(stale), ReplyView::Object(a.object)];
    let build = seq![ReplyView::Nothing, ReplyView::Nothing, ReplyView::Value(a.status)];
    let clean = ReplyView::Flag(registry::NO_ERROR);
    if a.object == 0 {
        create
    } else if registry::status_is_true(a.status) {
        create + build + seq![clean]
    } else if a.log_length == 0 {
        create + build + seq![ReplyView::Value(a.log_length), ReplyView::Nothing, clean]
    } else {
        create + build + seq![
            ReplyView::Value(a.log_length),
            ReplyView::Log(a.log),
            ReplyView::Nothing,
            clean,
        ]
    }
}

/// The requests that a compile is waiting on, one after the other, when the
/// driver answers `a`.
spec fn compile_phases(a: BuildAnswers) -> Seq<CompilePhase> {
    let create = seq![CompilePhase::ClearError, CompilePhase::Create];
    let build = seq![CompilePhase::Upload, CompilePhase::Compile, CompilePhase::ReadStatus];
    if a.object == 0 {
        create
    } else if registry::status_is_true(a.status) {
        create + build + seq![CompilePhase::CheckSuccess]
    } else if a.log_length == 0 {
        create + build + seq![
            CompilePhase::ReadLogLength,
            CompilePhase::Delete,
            CompilePhase::CheckFailure,
        ]
    } else {
        create + build + seq![
            CompilePhase::ReadLogLength,
            CompilePhase::ReadLog,
            CompilePhase::Delete,
            CompilePhase::CheckFailure,
        ]
    }
}

/// The state in which a compile waits on the request of `phase` when the
/// driver answers `a`.
spec fn compile_state(
    stage: ShaderType,
    source_len: usize,
    a: BuildAnswers,
    phase: CompilePhase,
) -> CompileView {
    let created = phase != CompilePhase::ClearError && phase != CompilePhase::Create;
    let failed = phase == CompilePhase::Delete || phase == CompilePhase::CheckFailure;
    let logged = a.log_length != 0 && (failed || phase == CompilePhase::ReadLog);
    CompileView {
        stage,
        source_len,
        phase,
        shader: if created {
            a.object
        } else {
            0
        },
        capacity: if logged {
            (a.log_length - 1) as i32
        } else {
            0
        },
        message: if !failed {
            Seq::empty()
        } else if a.log_length == 0 {
            text::failure_without_log(stage.action())
        } else {
            text::failure_with_log(stage.action(), a.log)
        },
    }
}

/// The states that a compile passes through when the driver answers `a`.
spec fn compile_path(stage: ShaderType, source_len: usize, a: BuildAnswers) -> Seq<CompileView> {
    Seq::new(
        compile_phases(a).len(),
        |k: int| compile_state(stage, source_len, a, compile_phases(a)[k]),
    )
}

/// Whether the replies that are of the kind of an answer hold the answers `a`
/// at the places at which a compile reads them.
spec fn compile_agrees(a: BuildAnswers, replies: Seq<ReplyView>) -> bool {
    &&& replies.len() > 1 && replies[1] is Object ==> replies[1]->Object_0 == a.object
    &&& replies.len() > 4 && replies[4] is Value ==> replies[4]->Value_0 == a.status
    &&& replies.len() > 5 && replies[5] is Value ==> replies[5]->Value_0 == a.log_length
    &&& replies.len() > 6 && replies[6] is Log ==> replies[6]->Log_0 == a.log
}

/// On replies that hold the answers `a`, a compile goes along the path of `a`
/// to the result of `a`.
proof fn lemma_compile_guided(
    stage: ShaderType,
    source_len: usize,
    a: BuildAnswers,
    replies: Seq<ReplyView>,
)
    requires
        compile_agrees(a, replies),
    ensures
        guided(
            compile_rules(),
            compile_path(stage, source_len, a),
            replies,
            compile_result(stage, a),
        ),
        compile_path(stage, source_len, a).len() == compile_requests(stage, source_len, a).len(),
        compile_path(stage, source_len, a)[0] == compile_begin(stage, source_len),
        Seq::new(
            compile_path(stage, source_len, a).len(),
            |i: int| (compile_rules().request)(compile_path(stage, source_len, a)[i]),
        ) == compile_requests(stage, source_len, a),
{
    let path = compile_path(stage, source_len, a);
    assert(Seq::new(path.len(), |i: int| (compile_rules().request)(path[i])) =~= compile_requests(
        stage,
        source_len,
        a,
    ));
}

/// Every compile that runs to its end is told by the driver's answers alone:
/// its result is `compile_result` of them, and the requests that it made are
/// `compile_requests` of them, in that order.
pub proof fn lemma_compile_runs(stage: ShaderType, source_len: usize, replies: Seq<ReplyView>)
    requires
        run(compile_rules(), compile_begin(stage, source_len), replies) is Ended,
    ensures
        run(compile_rules(), compile_begin(stage, source_len), replies)->Ended_0 == compile_result(
            stage,
            compile_answers(replies),
        ),
        requests(compile_rules(), compile_begin(stage, source_len), replies) == compile_requests(
            stage,
            source_len,
            compile_answers(replies),
        ),
        replies.len() <= 9,
{
    let a = compile_answers(replies);
    lemma_compile_guided(stage, source_len, a, replies);
    lemma_guided_run(
        compile_rules(),
        compile_path(stage, source_len, a),
        replies,
        compile_result(stage, a),
    );
}

/// Whatever the driver answers, the compile runs to its end on the replies
/// that those answers make, as long as the length that the driver reports for
/// a log is not negative.
pub proof fn lemma_compile_ends(stage: ShaderType, source_len: usize, stale: u32, a: BuildAnswers)
    requires
        a.log_length >= 0,
    ensures
        run(compile_rules(), compile_begin(stage, source_len), compile_replies(stale, a)) == Run::<
            CompileView,
            u32,
        >::Ended(compile_result(stage, a)),
{
    let replies = compile_replies(stale, a);
    lemma_compile_guided(stage, source_len, a, replies);
    lemma_guided_end(
        compile_rules(),
        compile_path(stage, source_len, a),
        replies,
        compile_result(stage, a),
    );
}

/// A compile that runs to its end hands out a shader exactly when the driver
/// allocated an object and reported its compile status as true. The handle
/// then owns the identifier that the driver allocated, which is not zero, and
/// the compile made no request that deletes an object.
pub proof fn lemma_compile_success(stage: ShaderType, source_len: usize, replies: Seq<ReplyView>)
    requires
        run(compile_rules(), compile_begin(stage, source_len), replies) is Ended,
    ensures
        run(compile_rules(), compile_begin(stage, source_len), replies)->Ended_0 is Ok <==> {
            &&& compile_answers(replies).object != 0
            &&& registry::status_is_true(compile_answers(replies).status)
        },
        run(compile_rules(), compile_begin(stage, source_len), replies)->Ended_0 matches Ok(id) ==> {
            &&& id != 0
            &&& id == compile_answers(replies).object
            &&& releases_nothing(requests(compile_rules(), compile_begin(stage, source_len), replies))
        },
{
    lemma_compile_runs(stage, source_len, replies);
    lemma_compile_releases(stage, source_len, compile_answers(replies));
}

/// The shader that a compile hands out is the object that the driver allocated
/// in that compile, so it is as new as the driver's allocation: where the
/// driver allocated an identifier that none of the handles alive owns,
/// the new handle shares its identifier with none of them. `live` holds the
/// identifiers of the handles that are alive.
pub proof fn lemma_compile_yields_new_handle(
    stage: ShaderType,
    source_len: usize,
    replies: Seq<ReplyView>,
    live: Set<u32>,
)
    requires
        run(compile_rules(), compile_begin(stage, source_len), replies) is Ended,
        !live.contains(compile_answers(replies).object),
    ensures
        run(compile_rules(), compile_begin(stage, source_len), replies)->Ended_0 matches Ok(id) ==> {
            &&& id != 0
            &&& !live.contains(id)
        },
{
    lemma_compile_success(stage, source_len, replies);
}

/// The requests of a compile delete what its result does not hand out, and
/// nothing else: nothing where the compile succeeds or where the driver
/// allocated no shader, and else exactly the shader that the driver
/// allocated, once. A failure comes with a message that has text in it.
pub proof fn lemma_compile_releases(stage: ShaderType, source_len: usize, a: BuildAnswers)
    ensures
        match compile_result(stage, a) {
            Ok(_) => releases_nothing(compile_requests(stage, source_len, a)),
            Err(message) => message.len() > 0 && if a.object == 0 {
                releases_nothing(compile_requests(stage, source_len, a))
            } else {
                releases_once(
                    compile_requests(stage, source_len, a),
                    Call::DeleteShader { shader: a.object },
                )
            },
        },
{
    let calls = compile_requests(stage, source_len, a);
    let delete = Call::DeleteShader { shader: a.object };
    reveal_strlit("OpenGL failed to create shader object");
    text::lemma_failure_messages_nonempty(stage.action(), a.log);
    if a.object != 0 && !registry::status_is_true(a.status) {
        if a.log_length == 0 {
            assert(calls[6] == delete);
        } else {
            assert(calls[7] == delete);
        }
    }
}

/// A compile that fails says why, and leaves no object behind: where the
/// driver had allocated a shader, the compile deleted exactly that shader,
/// once; where it had not, the compile deleted nothing.
pub proof fn lemma_compile_failure(stage: ShaderType, source_len: usize, replies: Seq<ReplyView>)
    requires
        run(compile_rules(), compile_begin(stage, source_len), replies) is Ended,
    ensures
        run(compile_rules(), compile_begin(stage, source_len), replies)->Ended_0 matches Err(message)
            ==> {
            &&& message.len() > 0
            &&& if compile_answers(replies).object == 0 {
                releases_nothing(requests(compile_rules(), compile_begin(stage, source_len), replies))
            } else {
                releases_once(
                    requests(compile_rules(), compile_begin(stage, source_len), replies),
                    Call::DeleteShader { shader: compile_answers(replies).object },
                )
            }
        },
{
    lemma_compile_runs(stage, source_len, replies);
    lemma_compile_releases(stage, source_len, compile_answers(replies));
}

/// A shader handle of one fixed stage. The set of stages is closed.
pub trait Shader: Sealed + Sized {
    /// The stage that handles of this type stand for.
    spec fn stage() -> ShaderType;

    /// The driver identifier that the handle owns.
    spec fn id(&self) -> u32;

    /// Begins compiling `source` for this stage. The handle is what the
    /// compile ends with when the driver accepts the source.
    fn from_cstr(source: &[u8]) -> (compile: Compile<Self>)
        ensures
            compile@ == compile_begin(Self::stage(), source@.len() as usize),
    ;

    /// Wraps an identifier without any check. The caller answers for it: it
    /// must name a compiled shader of this stage that no other handle owns.
    fn from_id(id: u32) -> (shader: Self)
        ensures
            shader.id() == id,
    ;

    /// The raw identifier, for attaching the shader to a program. The handle
    /// keeps owning it: the caller must not delete it, and detaches it from
    /// every program it attached it to.
    fn get_id(&self) -> (id: u32)
        ensures
            id == self.id(),
    ;

    /// Gives the handle up. What comes back is the one request that deletes
    /// the shader object; since the handle is gone, it cannot be made twice.
    fn release(self) -> (call: Call)
        ensures
            call == (Call::DeleteShader { shader: self.id() }),
    ;
}

/// A compile in progress, which ends with a shader handle of type `S`.
pub struct Compile<S> {
    stage: ShaderType,
    source_len: usize,
    phase: CompilePhase,
    shader: u32,
    capacity: i32,
    message: String,
    handle: PhantomData<S>,
}

impl<S> View for Compile<S> {
    type V = CompileView;

    closed spec fn view(&self) -> CompileView {
        CompileView {
            stage: self.stage,
            source_len: self.source_len,
            phase: self.phase,
            shader: self.shader,
            capacity: self.capacity,
            message: self.message@,
        }
    }
}

/// Whether `next` is what a compile hands out for the step `outcome`. The
/// shader that a compile hands out has an identifier that is not zero.
pub open spec fn compile_progress<S: Shader>(
    next: Progress<Compile<S>, S>,
    outcome: Outcome<CompileView, u32>,
) -> bool {
    match outcome {
        Outcome::Next(v) => next matches Progress::Next(compile) && compile@ == v,
        Outcome::Done(Ok(id)) => next matches Progress::Done(Ok(shader)) && shader.id() == id && id
            != 0,
        Outcome::Done(Err(message)) => next matches Progress::Done(Err(shown)) && shown@ == message,
    }
}

impl<S> Compile<S> {
    /// Once a compile is past the allocation, it has a shader object.
    #[verifier::type_invariant]
    spec fn in_step(self) -> bool {
        (self.phase != CompilePhase::ClearError && self.phase != CompilePhase::Create)
            ==> self.shader != 0
    }
}

/// Begins compiling a source text of `source_len` bytes for `shader_type`.
fn create_shader<S>(source_len: usize, shader_type: ShaderType) -> (compile: Compile<S>)
    ensures
        compile@ == compile_begin(shader_type, source_len),
{
    Compile {
        stage: shader_type,
        source_len,
        phase: CompilePhase::ClearError,
        shader: 0,
        capacity: 0,
        message: String::new(),
        handle: PhantomData,
    }
}

impl<S: Shader> Protocol for Compile<S> {
    type Output = S;

    open spec fn pending(&self) -> Call {
        compile_request(self@)
    }

    /// A compile cannot go on where the reply is of another kind than the
    /// request yields, where a checked error flag is not clean, or where the
    /// length of a log is negative.
    open spec fn admits(&self, reply: ReplyView) -> bool {
        compile_accepts(self@, reply)
    }

    open spec fn leads(&self, reply: ReplyView, next: Progress<Self, S>) -> bool {
        compile_progress(next, compile_step(self@, reply))
    }

    fn request(&self) -> (call: Call) {
        match self.phase {
            CompilePhase::ClearError => Call::GetError,
            CompilePhase::Create => Call::CreateShader { kind: self.stage.to_opengl() },
            CompilePhase::Upload => Call::ShaderSource {
                shader: self.shader,
                length: #[verifier::truncate]
                (self.source_len as i32),
            },
            CompilePhase::Compile => Call::CompileShader { shader: self.shader },
            CompilePhase::ReadStatus => Call::GetShaderiv {
                shader: self.shader,
                pname: registry::compile_status(),
            },
            CompilePhase::CheckSuccess => Call::GetError,
            CompilePhase::ReadLogLength => Call::GetShaderiv {
                shader: self.shader,
                pname: registry::info_log_length(),
            },
            CompilePhase::ReadLog => Call::GetShaderInfoLog {
                shader: self.shader,
                capacity: self.capacity,
            },
            CompilePhase::Delete => Call::DeleteShader { shader: self.shader },
            CompilePhase::CheckFailure => Call::GetError,
        }
    }

    fn accepts(&self, reply: &Reply) -> (yes: bool) {
        match (self.phase, reply) {
            (CompilePhase::ClearError, Reply::Flag(_)) => true,
            (CompilePhase::Create, Reply::Object(_)) => true,
            (CompilePhase::Upload, Reply::Nothing) => true,
            (CompilePhase::Compile, Reply::Nothing) => true,
            (CompilePhase::ReadStatus, Reply::Value(_)) => true,
            (CompilePhase::CheckSuccess, Reply::Flag(flag)) => registry::is_clean(*flag),
            (CompilePhase::ReadLogLength, Reply::Value(length)) => *length >= 0,
            (CompilePhase::ReadLog, Reply::Log(_)) => true,
            (CompilePhase::Delete, Reply::Nothing) => true,
            (CompilePhase::CheckFailure, Reply::Flag(flag)) => registry::is_clean(*flag),
            _ => false,
        }
    }

    fn resume(self, reply: Reply) -> (next: Progress<Self, S>) {
        let mut compile = self;
        proof {
            use_type_invariant(&compile);
        }
        match (compile.phase, reply) {
            (CompilePhase::ClearError, _) => {
                compile.phase = CompilePhase::Create;
                Progress::Next(compile)
            },
            (CompilePhase::Create, Reply::Object(id)) => {
                if id == 0 {
                    Progress::Done(Err(String::from_str("OpenGL failed to create shader object")))
                } else {
                    compile.shader = id;
                    compile.phase = CompilePhase::Upload;
                    Progress::Next(compile)
                }
            },
            (CompilePhase::Upload, _) => {
                compile.phase = CompilePhase::Compile;
                Progress::Next(compile)
            },
            (CompilePhase::Compile, _) => {
                compile.phase = CompilePhase::ReadStatus;
                Progress::Next(compile)
            },
            (CompilePhase::ReadStatus, Reply::Value(status)) => {
                if registry::is_true(status) {
                    compile.phase = CompilePhase::CheckSuccess;
                } else {
                    compile.phase = CompilePhase::ReadLogLength;
                }
                Progress::Next(compile)
            },
            (CompilePhase::CheckSuccess, _) => Progress::Done(Ok(S::from_id(compile.shader))),
            (CompilePhase::ReadLogLength, Reply::Value(length)) => {
                if length == 0 {
                    compile.phase = CompilePhase::Delete;
                    compile.message = text::describe_failure_without_log(
                        compile.stage.describe_action().as_str(),
                    );
                } else {
                    compile.phase = CompilePhase::ReadLog;
                    compile.capacity = length - 1;
                }
                Progress::Next(compile)
            },
            (CompilePhase::ReadLog, Reply::Log(log)) => {
                compile.phase = CompilePhase::Delete;
                compile.message = text::describe_failure_with_log(
                    compile.stage.describe_action().as_str(),
                    log,
                );
                Progress::Next(compile)
            },
            (CompilePhase::Delete, _) => {
                compile.phase = CompilePhase::CheckFailure;
                Progress::Next(compile)
            },
            (CompilePhase::CheckFailure, _) => Progress::Done(Err(compile.message)),
            // No other pair is accepted.
            (_, _) => Progress::Next(compile),
        }
    }
}

/// A compiled vertex shader.
pub struct VertexShader {
    id: u32,
}

/// A compiled tessellation-control shader.
pub struct TessControlShader {
    id: u32,
}

/// A compiled tessellation-evaluation shader.
pub struct TessEvaluationShader {
    id: u32,
}

/// A compiled geometry shader.
pub struct GeometryShader {
    id: u32,
}

/// A compiled fragment shader.
pub struct FragmentShader {
    id: u32,
}

impl Sealed for VertexShader {
}

impl Sealed for TessControlShader {
}

impl Sealed for TessEvaluationShader {
}

impl Sealed for GeometryShader {
}

impl Sealed for FragmentShader {
}

impl Shader for VertexShader {
    open spec fn stage() -> ShaderType {
        ShaderType::Vertex
    }

    closed spec fn id(&self) -> u32 {
        self.id
    }

    fn from_cstr(source: &[u8]) -> (compile: Compile<Self>) {
        create_shader(source.len(), ShaderType::Vertex)
    }

    fn from_id(id: u32) -> (shader: Self) {
        VertexShader { id }
    }

    fn get_id(&self) -> (id: u32) {
        self.id
    }

    fn release(self) -> (call: Call) {
        Call::DeleteShader { shader: self.id }
    }
}

impl Shader for TessControlShader {
    open spec fn stage() -> ShaderType {
        ShaderType::TessControl
    }

    closed spec fn id(&self) -> u32 {
        self.id
    }

    fn from_cstr(source: &[u8]) -> (compile: Compile<Self>) {
        create_shader(source.len(), ShaderType::TessControl)
    }

    fn from_id(id: u32) -> (shader: Self) {
        TessControlShader { id }
    }

    fn get_id(&self) -> (id: u32) {
        self.id
    }

    fn release(self) -> (call: Call) {
        Call::DeleteShader { shader: self.id }
    }
}

impl Shader for TessEvaluationShader {
    open spec fn stage() -> ShaderType {
        ShaderType::TessEvaluation
    }

    closed spec fn id(&self) -> u32 {
        self.id
    }

    fn from_cstr(source: &[u8]) -> (compile: Compile<Self>) {
        create_shader(source.len(), ShaderType::TessEvaluation)
    }

    fn from_id(id: u32) -> (shader: Self) {
        TessEvaluationShader { id }
    }

    fn get_id(&self) -> (id: u32) {
        self.id
    }

    fn release(self) -> (call: Call) {
        Call::DeleteShader { shader: self.id }
    }
}

impl Shader for GeometryShader {
    open spec fn stage() -> ShaderType {
        ShaderType::Geometry
    }

    closed spec fn id(&self) -> u32 {
        self.id
    }

    fn from_cstr(source: &[u8]) -> (compile: Compile<Self>) {
        create_shader(source.len(), ShaderType::Geometry)
    }

    fn from_id(id: u32) -> (shader: Self) {
        GeometryShader { id }
    }

    fn get_id(&self) -> (id: u32) {
        self.id
    }

    fn release(self) -> (call: Call) {
        Call::DeleteShader { shader: self.id }
    }
}

impl Shader for FragmentShader {
    open spec fn stage() -> ShaderType {
        ShaderType::Fragment
    }

    closed spec fn id(&self) -> u32 {
        self.id
    }

    fn from_cstr(source: &[u8]) -> (compile: Compile<Self>) {
        create_shader(source.len(), ShaderType::Fragment)
    }

    fn from_id(id: u32) -> (shader: Self) {
        FragmentShader { id }
    }

    fn get_id(&self) -> (id: u32) {
        self.id
    }

    fn release(self) -> (call: Call) {
        Call::DeleteShader { shader: self.id }
    }
}

} // verus!
