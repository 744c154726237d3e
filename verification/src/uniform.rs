//! The protocol that sets a uniform of a program.

use crate::driver::{
    answers, guided, lemma_guided_end, lemma_guided_run, requests, run, Call, Outcome, Progress,
    Protocol, Reply, ReplyView, Rules, Run,
};
use crate::program::Program;
use crate::registry;
use crate::text;
use vstd::prelude::*;
use vstd::string::StringExecFns;

verus! {

/// The shape of a uniform's value, which decides the request that uploads it.
/// Floating-point operands stay with whoever performs the request; an
/// integer is carried along.
#[derive(Debug, Copy, Clone, PartialEq, Eq, Structural)]
pub enum UniformShape {
    /// One float.
    Float1,
    /// One integer.
    Int1 { value: i32 },
    /// Two floats.
    Float2,
    /// Three floats.
    Float3,
    /// Four floats.
    Float4,
    /// One 4x4 float matrix, in column-major order.
    Matrix4,
}

impl UniformShape {
    /// The request that uploads a value of this shape to `location`.
    pub open spec fn upload(self, location: i32) -> Call {
        match self {
            UniformShape::Float1 => Call::Uniform1f { location },
            UniformShape::Int1 { value } => Call::Uniform1i { location, value },
            UniformShape::Float2 => Call::Uniform2f { location },
            UniformShape::Float3 => Call::Uniform3f { location },
            UniformShape::Float4 => Call::Uniform4f { location },
            UniformShape::Matrix4 => Call::UniformMatrix4fv { location, count: 1, transpose: registry::FALSE },
        }
    }

    fn upload_to(self, location: i32) -> (call: Call)
        ensures
            call == self.upload(location),
    {
        match self {
            UniformShape::Float1 => Call::Uniform1f { location },
            UniformShape::Int1 { value } => Call::Uniform1i { location, value },
            UniformShape::Float2 => Call::Uniform2f { location },
            UniformShape::Float3 => Call::Uniform3f { location },
            UniformShape::Float4 => Call::Uniform4f { location },
            UniformShape::Matrix4 => Call::UniformMatrix4fv {
                location,
                count: 1,
                transpose: registry::gl_false(),
            },
        }
    }
}

/// Where the setting of a uniform stands: the request that it is waiting on.
#[derive(Debug, Copy, Clone, PartialEq, Eq, Structural)]
pub enum UniformPhase {
    /// Resolving the uniform's location by its name.
    Locate,
    /// Clearing whatever error an earlier operation left behind.
    ClearError,
    /// Uploading the value.
    Upload,
    /// Reading the error flag to learn whether the driver took the value.
    Check,
}

/// The mathematical content of the setting of a uniform.
pub ghost struct UniformView {
    /// The program whose uniform is set.
    pub program: u32,
    /// The shape of the value.
    pub shape: UniformShape,
    /// The uniform's name as diagnostics show it.
    pub name: Seq<char>,
    /// The value as diagnostics show it.
    pub value: Seq<char>,
    /// The request that the setting is waiting on.
    pub phase: UniformPhase,
    /// The uniform's location, once the driver has resolved it.
    pub location: i32,
}

/// The setting of a uniform that has made no request yet.
pub open spec fn uniform_begin(
    program: u32,
    shape: UniformShape,
    name: Seq<char>,
    value: Seq<char>,
) -> UniformView {
    UniformView { program, shape, name, value, phase: UniformPhase::Locate, location: 0 }
}

/// The request that the setting of a uniform is waiting on.
pub open spec fn uniform_request(v: UniformView) -> Call {
    match v.phase {
        UniformPhase::Locate => Call::GetUniformLocation { program: v.program },
        UniformPhase::ClearError => Call::GetError,
        UniformPhase::Upload => v.shape.upload(v.location),
        UniformPhase::Check => Call::GetError,
    }
}

/// The replies that the setting of a uniform can go on with: all those of the
/// kind that its request yields.
pub open spec fn uniform_accepts(v: UniformView, reply: ReplyView) -> bool {
    answers(uniform_request(v), reply)
}

/// What the driver's answer to a location query means: the location, unless
/// it is the one that stands for a name that is no active uniform.
pub open spec fn located(name: Seq<char>, location: i32) -> Result<i32, Seq<char>> {
    if location == registry::NOT_FOUND {
        Err(text::invalid_uniform_name(name))
    } else {
        Ok(location)
    }
}

/// One step of the setting of a uniform: where it stands after `reply`.
pub open spec fn uniform_step(v: UniformView, reply: ReplyView) -> Outcome<UniformView, ()> {
    match v.phase {
        UniformPhase::Locate => match located(v.name, reply->Value_0) {
            Ok(location) => Outcome::Next(UniformView { phase: UniformPhase::ClearError, location, ..v }),
            Err(message) => Outcome::Done(Err(message)),
        },
        UniformPhase::ClearError => Outcome::Next(UniformView { phase: UniformPhase::Upload, ..v }),
        UniformPhase::Upload => Outcome::Next(UniformView { phase: UniformPhase::Check, ..v }),
        UniformPhase::Check => if registry::flag_is_clean(reply->Flag_0) {
            Outcome::Done(Ok(()))
        } else {
            Outcome::Done(Err(text::invalid_uniform_value(v.value)))
        },
    }
}

/// The setting of a uniform in progress.
pub struct Uniform {
    program: u32,
    shape: UniformShape,
    name: String,
    value: String,
    phase: UniformPhase,
    location: i32,
}

impl View for Uniform {
    type V = UniformView;

    closed spec fn view(&self) -> UniformView {
        UniformView {
            program: self.program,
            shape: self.shape,
            name: self.name@,
            value: self.value@,
            phase: self.phase,
            location: self.location,
        }
    }
}

/// Whether `next` is what the setting of a uniform hands out for the step
/// `outcome`.
pub open spec fn uniform_progress(
    next: Progress<Uniform, ()>,
    outcome: Outcome<UniformView, ()>,
) -> bool {
    match outcome {
        Outcome::Next(v) => next matches Progress::Next(uniform) && uniform@ == v,
        Outcome::Done(Ok(_)) => next matches Progress::Done(Ok(_)),
        Outcome::Done(Err(message)) => next matches Progress::Done(Err(shown)) && shown@ == message,
    }
}

impl Uniform {
    /// The setting of a uniform of `program` that has made no request yet.
    pub(crate) fn begin(
        program: u32,
        shape: UniformShape,
        name: &str,
        value: String,
    ) -> (uniform: Uniform)
        ensures
            uniform@ == uniform_begin(program, shape, name@, value@),
    {
        Uniform {
            program,
            shape,
            name: String::from_str(name),
            value,
            phase: UniformPhase::Locate,
            location: 0,
        }
    }
}

impl Protocol for Uniform {
    type Output = ();

    open spec fn pending(&self) -> Call {
        uniform_request(self@)
    }

    /// The setting of a uniform goes on with every reply of the kind that
    /// the request yields.
    open spec fn admits(&self, reply: ReplyView) -> bool {
        uniform_accepts(self@, reply)
    }

    open spec fn leads(&self, reply: ReplyView, next: Progress<Uniform, ()>) -> bool {
        uniform_progress(next, uniform_step(self@, reply))
    }

    fn request(&self) -> (call: Call) {
        match self.phase {
            UniformPhase::Locate => Call::GetUniformLocation { program: self.program },
            UniformPhase::ClearError => Call::GetError,
            UniformPhase::Upload => self.shape.upload_to(self.location),
            UniformPhase::Check => Call::GetError,
        }
    }

    fn accepts(&self, reply: &Reply) -> (yes: bool) {
        self.request().answered_by(reply)
    }

    fn resume(self, reply: Reply) -> (next: Progress<Uniform, ()>) {
        let mut uniform = self;
        match (uniform.phase, reply) {
            (UniformPhase::Locate, Reply::Value(location)) => {
                match Program::get_location(uniform.name.as_str(), location) {
                    Ok(location) => {
                        uniform.phase = UniformPhase::ClearError;
                        uniform.location = location;
                        Progress::Next(uniform)
                    },
                    Err(message) => Progress::Done(Err(message)),
                }
            },
            (UniformPhase::ClearError, _) => {
                uniform.phase = UniformPhase::Upload;
                Progress::Next(uniform)
            },
            (UniformPhase::Upload, _) => {
                uniform.phase = UniformPhase::Check;
                Progress::Next(uniform)
            },
            (UniformPhase::Check, Reply::Flag(flag)) => {
                if registry::is_clean(flag) {
                    Progress::Done(Ok(()))
                } else {
                    Progress::Done(Err(text::describe_invalid_uniform_value(uniform.value.as_str())))
                }
            },
            // No other pair is accepted.
            (_, _) => Progress::Next(uniform),
        }
    }
}

/// The rules of the protocol that sets a uniform.
pub open spec fn uniform_rules() -> Rules<UniformView, ()> {
    Rules {
        request: |v: UniformView| uniform_request(v),
        accepts: |v: UniformView, reply: ReplyView| uniform_accepts(v, reply),
        step: |v: UniformView, reply: ReplyView| uniform_step(v, reply),
    }
}

/// What the driver answered while a uniform was set. An answer that the
/// protocol never asked for does not matter.
pub ghost struct UniformAnswers {
    /// The location that the driver resolved the name to.
    pub location: i32,
    /// The error flag after the upload.
    pub flag: u32,
}

/// The answers among the replies to the setting of a uniform, by the place at
/// which each comes.
pub open spec fn uniform_answers(replies: Seq<ReplyView>) -> UniformAnswers {
    UniformAnswers { location: replies[0]->Value_0, flag: replies[3]->Flag_0 }
}

/// What the setting of a uniform ends with when the driver answers `a`.
pub open spec fn uniform_result(
    name: Seq<char>,
    value: Seq<char>,
    a: UniformAnswers,
) -> Result<(), Seq<char>> {
    if a.location == registry::NOT_FOUND {
        Err(text::invalid_uniform_name(name))
    } else if registry::flag_is_clean(a.flag) {
        Ok(())
    } else {
        Err(text::invalid_uniform_value(value))
    }
}

/// The requests that the setting of a uniform makes, in order, when the
/// driver answers `a`: the upload stands between two reads of the error flag,
/// of which the first only clears it.
pub open spec fn uniform_requests(
    program: u32,
    shape: UniformShape,
    a: UniformAnswers,
) -> Seq<Call> {
    if a.location == registry::NOT_FOUND {
        seq![Call::GetUniformLocation { program }]
    } else {
        seq![
            Call::GetUniformLocation { program },
            Call::GetError,
            shape.upload(a.location),
            Call::GetError,
        ]
    }
}

/// The replies of a driver that answers `a`, and whose error flag held
/// `stale` before the upload.
pub open spec fn uniform_replies(stale: u32, a: UniformAnswers) -> Seq<ReplyView> {
    if a.location == registry::NOT_FOUND {
        seq![ReplyView::Value(a.location)]
    } else {
        seq![
            ReplyView::Value(a.location),
            ReplyView::Flag(stale),
            ReplyView::Nothing,
            ReplyView::Flag(a.flag),
        ]
    }
}

/// The states that the setting of a uniform passes through when the driver
/// answers `a`.
spec fn uniform_path(
    program: u32,
    shape: UniformShape,
    name: Seq<char>,
    value: Seq<char>,
    a: UniformAnswers,
) -> Seq<UniformView> {
    let start = uniform_begin(program, shape, name, value);
    if a.location == registry::NOT_FOUND {
        seq![start]
    } else {
        seq![
            start,
            UniformView { phase: UniformPhase::ClearError, location: a.location, ..start },
            UniformView { phase: UniformPhase::Upload, location: a.location, ..start },
            UniformView { phase: UniformPhase::Check, location: a.location, ..start },
        ]
    }
}

/// Whether the replies that are of the kind of an answer hold the answers `a`
/// at the places at which the setting of a uniform reads them.
spec fn uniform_agrees(a: UniformAnswers, replies: Seq<ReplyView>) -> bool {
    &&& replies.len() > 0 && replies[0] is Value ==> replies[0]->Value_0 == a.location
    &&& replies.len() > 3 && replies[3] is Flag ==> replies[3]->Flag_0 == a.flag
}

/// On replies that hold the answers `a`, the setting of a uniform goes along
/// the path of `a` to the result of `a`.
proof fn lemma_uniform_guided(
    program: u32,
    shape: UniformShape,
    name: Seq<char>,
    value: Seq<char>,
    a: UniformAnswers,
    replies: Seq<ReplyView>,
)
    requires
        uniform_agrees(a, replies),
    ensures
        guided(
            uniform_rules(),
            uniform_path(program, shape, name, value, a),
            replies,
            uniform_result(name, value, a),
        ),
        uniform_path(program, shape, name, value, a).len() == uniform_requests(program, shape, a).len(),
        uniform_path(program, shape, name, value, a)[0] == uniform_begin(program, shape, name, value),
        Seq::new(
            uniform_path(program, shape, name, value, a).len(),
            |i: int| (uniform_rules().request)(uniform_path(program, shape, name, value, a)[i]),
        ) == uniform_requests(program, shape, a),
{
    let path = uniform_path(program, shape, name, value, a);
    assert(Seq::new(path.len(), |i: int| (uniform_rules().request)(path[i])) =~= uniform_requests(
        program,
        shape,
        a,
    ));
}

/// Every setting of a uniform that runs to its end is told by the driver's
/// answers alone: its result is `uniform_result` of them, and the requests
/// that it made are `uniform_requests` of them, in that order.
pub proof fn lemma_uniform_runs(
    program: u32,
    shape: UniformShape,
    name: Seq<char>,
    value: Seq<char>,
    replies: Seq<ReplyView>,
)
    requires
        run(uniform_rules(), uniform_begin(program, shape, name, value), replies) is Ended,
    ensures
        run(uniform_rules(), uniform_begin(program, shape, name, value), replies)->Ended_0
            == uniform_result(name, value, uniform_answers(replies)),
        requests(uniform_rules(), uniform_begin(program, shape, name, value), replies)
            == uniform_requests(program, shape, uniform_answers(replies)),
        replies.len() <= 4,
{
    let a = uniform_answers(replies);
    lemma_uniform_guided(program, shape, name, value, a, replies);
    lemma_guided_run(
        uniform_rules(),
        uniform_path(program, shape, name, value, a),
        replies,
        uniform_result(name, value, a),
    );
}

/// Whatever the driver answers, the setting of a uniform runs to its end on
/// the replies that those answers make.
pub proof fn lemma_uniform_ends(
    program: u32,
    shape: UniformShape,
    name: Seq<char>,
    value: Seq<char>,
    stale: u32,
    a: UniformAnswers,
)
    ensures
        run(uniform_rules(), uniform_begin(program, shape, name, value), uniform_replies(stale, a))
            == Run::<UniformView, ()>::Ended(uniform_result(name, value, a)),
{
    let replies = uniform_replies(stale, a);
    lemma_uniform_guided(program, shape, name, value, a, replies);
    lemma_guided_end(
        uniform_rules(),
        uniform_path(program, shape, name, value, a),
        replies,
        uniform_result(name, value, a),
    );
}

/// The setting of a uniform that runs to its end succeeds exactly when the
/// driver knows the name and leaves the error flag clean after the upload. A
/// name that the driver does not know gives the message for an invalid name,
/// and nothing is uploaded; a flag that is not clean gives the message for an
/// invalid value. The two messages differ, whatever the name and the value,
/// and both have text in them.
pub proof fn lemma_uniform_errors(
    program: u32,
    shape: UniformShape,
    name: Seq<char>,
    value: Seq<char>,
    replies: Seq<ReplyView>,
)
    requires
        run(uniform_rules(), uniform_begin(program, shape, name, value), replies) is Ended,
    ensures
        run(uniform_rules(), uniform_begin(program, shape, name, value), replies)->Ended_0 is Ok <==> {
            &&& uniform_answers(replies).location != registry::NOT_FOUND
            &&& registry::flag_is_clean(uniform_answers(replies).flag)
        },
        run(uniform_rules(), uniform_begin(program, shape, name, value), replies)->Ended_0 == Err::<
            (),
            Seq<char>,
        >(text::invalid_uniform_name(name)) <==> uniform_answers(replies).location
            == registry::NOT_FOUND,
        run(uniform_rules(), uniform_begin(program, shape, name, value), replies)->Ended_0 == Err::<
            (),
            Seq<char>,
        >(text::invalid_uniform_value(value)) <==> {
            &&& uniform_answers(replies).location != registry::NOT_FOUND
            &&& !registry::flag_is_clean(uniform_answers(replies).flag)
        },
        uniform_answers(replies).location == registry::NOT_FOUND ==> requests(
            uniform_rules(),
            uniform_begin(program, shape, name, value),
            replies,
        ) == seq![Call::GetUniformLocation { program }],
        text::invalid_uniform_name(name) != text::invalid_uniform_value(value),
        run(uniform_rules(), uniform_begin(program, shape, name, value), replies)->Ended_0 matches Err(
            message,
        ) ==> message.len() > 0,
{
    lemma_uniform_runs(program, shape, name, value, replies);
    text::lemma_uniform_messages_differ(name, value);
    text::lemma_uniform_messages_nonempty(name);
    text::lemma_uniform_messages_nonempty(value);
}

} // verus!
