//! Programs and the protocol that links them.

use crate::driver::{
    answers, guided, lemma_guided_end, lemma_guided_run, releases_nothing, releases_once, requests,
    run, BuildAnswers, Call, Outcome, Progress, Protocol, Reply, ReplyView, Rules, Run,
};
use crate::registry;
use crate::shader::{FragmentShader, GeometryShader, Shader, VertexShader};
use crate::text;
use crate::uniform::{located, uniform_begin, Uniform, UniformShape};
use vstd::prelude::*;
use vstd::string::StringExecFns;

verus! {

/// A linked program. There is no other kind: the only way to a `Program` is a
/// link that the driver reported as successful.
pub struct Program {
    id: u32,
}

/// What a link is called in a failure message.
pub open spec fn link_action() -> Seq<char> {
    "link program"@
}

/// The message of a link that could not even allocate its program object.
pub open spec fn program_creation_failed() -> Seq<char> {
    "OpenGL failed to create program object."@
}

/// Where a link stands: the request that it is waiting on.
#[derive(Debug, Copy, Clone, PartialEq, Eq, Structural)]
pub enum LinkPhase {
    /// Clearing whatever error an earlier operation left behind.
    ClearError,
    /// Allocating the program object.
    Create,
    /// Attaching the vertex shader.
    AttachVertex,
    /// Attaching the fragment shader.
    AttachFragment,
    /// Attaching the geometry shader.
    AttachGeometry,
    /// Linking.
    Link,
    /// Detaching the vertex shader.
    DetachVertex,
    /// Detaching the fragment shader.
    DetachFragment,
    /// Detaching the geometry shader.
    DetachGeometry,
    /// Reading the link status.
    ReadStatus,
    /// Checking that a successful link left no error behind.
    CheckSuccess,
    /// Reading the length of the info log of a failed link.
    ReadLogLength,
    /// Reading the info log.
    ReadLog,
    /// Deleting the program object of a failed link.
    Delete,
    /// Checking that the clean-up left no error behind.
    CheckFailure,
}

/// The mathematical content of a link in progress.
pub ghost struct LinkView {
    /// The vertex shader to link.
    pub vertex: u32,
    /// The fragment shader to link.
    pub fragment: u32,
    /// The geometry shader to link, if there is one.
    pub geometry: Option<u32>,
    /// The request that the link is waiting on.
    pub phase: LinkPhase,
    /// The program object, once the driver has allocated it.
    pub program: u32,
    /// The size of the buffer that the info log is read into.
    pub capacity: i32,
    /// The message that the link will fail with, once it is known.
    pub message: Seq<char>,
}

/// A link that has made no request yet.
pub open spec fn link_begin(vertex: u32, fragment: u32, geometry: Option<u32>) -> LinkView {
    LinkView {
        vertex,
        fragment,
        geometry,
        phase: LinkPhase::ClearError,
        program: 0,
        capacity: 0,
        message: Seq::empty(),
    }
}

/// The request that a link is waiting on.
pub open spec fn link_request(v: LinkView) -> Call {
    match v.phase {
        LinkPhase::ClearError => Call::GetError,
        LinkPhase::Create => Call::CreateProgram,
        LinkPhase::AttachVertex => Call::AttachShader { program: v.program, shader: v.vertex },
        LinkPhase::AttachFragment => Call::AttachShader { program: v.program, shader: v.fragment },
        LinkPhase::AttachGeometry => Call::AttachShader { program: v.program, shader: v.geometry->Some_0 },
        LinkPhase::Link => Call::LinkProgram { program: v.program },
        LinkPhase::DetachVertex => Call::DetachShader { program: v.program, shader: v.vertex },
        LinkPhase::DetachFragment => Call::DetachShader { program: v.program, shader: v.fragment },
        LinkPhase::DetachGeometry => Call::DetachShader { program: v.program, shader: v.geometry->Some_0 },
        LinkPhase::ReadStatus => Call::GetProgramiv { program: v.program, pname: registry::LINK_STATUS },
        LinkPhase::CheckSuccess => Call::GetError,
        LinkPhase::ReadLogLength => Call::GetProgramiv { program: v.program, pname: registry::INFO_LOG_LENGTH },
        LinkPhase::ReadLog => Call::GetProgramInfoLog { program: v.program, capacity: v.capacity },
        LinkPhase::Delete => Call::DeleteProgram { program: v.program },
        LinkPhase::CheckFailure => Call::GetError,
    }
}

/// The replies that a link can go on with: those of the kind that its request
/// yields, except that the error flag must be clean wherever the link checks
/// it, and that the length of a log cannot be negative.
pub open spec fn link_accepts(v: LinkView, reply: ReplyView) -> bool {
    &&& answers(link_request(v), reply)
    &&& (v.phase == LinkPhase::CheckSuccess || v.phase == LinkPhase::CheckFailure)
        ==> registry::flag_is_clean(reply->Flag_0)
    &&& v.phase == LinkPhase::ReadLogLength ==> reply->Value_0 >= 0
}

/// One step of a link: where it stands after `reply`.
pub open spec fn link_step(v: LinkView, reply: ReplyView) -> Outcome<LinkView, u32> {
    match v.phase {
        LinkPhase::ClearError => Outcome::Next(LinkView { phase: LinkPhase::Create, ..v }),
        LinkPhase::Create => if reply->Object_0 == 0 {
            Outcome::Done(Err(program_creation_failed()))
        } else {
            Outcome::Next(LinkView { phase: LinkPhase::AttachVertex, program: reply->Object_0, ..v })
        },
        LinkPhase::AttachVertex => Outcome::Next(LinkView { phase: LinkPhase::AttachFragment, ..v }),
        LinkPhase::AttachFragment => if v.geometry is Some {
            Outcome::Next(LinkView { phase: LinkPhase::AttachGeometry, ..v })
        } else {
            Outcome::Next(LinkView { phase: LinkPhase::Link, ..v })
        },
        LinkPhase::AttachGeometry => Outcome::Next(LinkView { phase: LinkPhase::Link, ..v }),
        LinkPhase::Link => Outcome::Next(LinkView { phase: LinkPhase::DetachVertex, ..v }),
        LinkPhase::DetachVertex => Outcome::Next(LinkView { phase: LinkPhase::DetachFragment, ..v }),
        LinkPhase::DetachFragment => if v.geometry is Some {
            Outcome::Next(LinkView { phase: LinkPhase::DetachGeometry, ..v })
        } else {
            Outcome::Next(LinkView { phase: LinkPhase::ReadStatus, ..v })
        },
        LinkPhase::DetachGeometry => Outcome::Next(LinkView { phase: LinkPhase::ReadStatus, ..v }),
        LinkPhase::ReadStatus => if registry::status_is_true(reply->Value_0) {
            Outcome::Next(LinkView { phase: LinkPhase::CheckSuccess, ..v })
        } else {
            Outcome::Next(LinkView { phase: LinkPhase::ReadLogLength, ..v })
        },
        LinkPhase::CheckSuccess => Outcome::Done(Ok(v.program)),
        LinkPhase::ReadLogLength => if reply->Value_0 == 0 {
            Outcome::Next(
                LinkView {
                    phase: LinkPhase::Delete,
                    message: text::failure_without_log(link_action()),
                    ..v
                },
            )
        } else {
            Outcome::Next(
                LinkView { phase: LinkPhase::ReadLog, capacity: (reply->Value_0 - 1) as i32, ..v },
            )
        },
        LinkPhase::ReadLog => Outcome::Next(
            LinkView {
                phase: LinkPhase::Delete,
                message: text::failure_with_log(link_action(), reply->Log_0),
                ..v
            },
        ),
        LinkPhase::Delete => Outcome::Next(LinkView { phase: LinkPhase::CheckFailure, ..v }),
        LinkPhase::CheckFailure => Outcome::Done(Err(v.message)),
    }
}

/// The link protocol as rules over its states.
pub open spec fn link_rules() -> Rules<LinkView, u32> {
    Rules {
        request: |v: LinkView| link_request(v),
        accepts: |v: LinkView, reply: ReplyView| link_accepts(v, reply),
        step: |v: LinkView, reply: ReplyView| link_step(v, reply),
    }
}

/// How many shaders a link attaches.
pub open spec fn shader_count(geometry: Option<u32>) -> int {
    if geometry is Some {
        3
    } else {
        2
    }
}

/// The answers among the replies of a link, by the place at which each comes.
/// The places after the attachments depend on how many shaders there are.
pub open spec fn link_answers(geometry: Option<u32>, replies: Seq<ReplyView>) -> BuildAnswers {
    let status_at = 3 + 2 * shader_count(geometry);
    BuildAnswers {
        object: replies[1]->Object_0,
        status: replies[status_at]->Value_0,
        log_length: replies[status_at + 1]->Value_0,
        log: replies[status_at + 2]->Log_0,
    }
}

/// What a link ends with when the driver answers `a`: the new program where
/// one was allocated and its status is true, else a message.
pub open spec fn link_result(a: BuildAnswers) -> Result<u32, Seq<char>> {
    if a.object == 0 {
        Err(program_creation_failed())
    } else if registry::status_is_true(a.status) {
        Ok(a.object)
    } else if a.log_length == 0 {
        Err(text::failure_without_log(link_action()))
    } else {
        Err(text::failure_with_log(link_action(), a.log))
    }
}

/// The requests that attach the shaders of a link to `program`.
pub open spec fn link_attaches(
    program: u32,
    vertex: u32,
    fragment: u32,
    geometry: Option<u32>,
) -> Seq<Call> {
    let both = seq![
        Call::AttachShader { program, shader: vertex },
        Call::AttachShader { program, shader: fragment },
    ];
    match geometry {
        Some(shader) => both.push(Call::AttachShader { program, shader }),
        None => both,
    }
}

/// The requests that detach the shaders of a link from `program`.
pub open spec fn link_detaches(
    program: u32,
    vertex: u32,
    fragment: u32,
    geometry: Option<u32>,
) -> Seq<Call> {
    let both = seq![
        Call::DetachShader { program, shader: vertex },
        Call::DetachShader { program, shader: fragment },
    ];
    match geometry {
        Some(shader) => both.push(Call::DetachShader { program, shader }),
        None => both,
    }
}

/// The requests that a link makes, in order, when the driver answers `a`.
pub open spec fn link_requests(
    vertex: u32,
    fragment: u32,
    geometry: Option<u32>,
    a: BuildAnswers,
) -> Seq<Call> {
    let id = a.object;
    let create = seq![Call::GetError, Call::CreateProgram];
    let build = link_attaches(id, vertex, fragment, geometry) + seq![Call::LinkProgram { program: id }]
        + link_detaches(id, vertex, fragment, geometry) + seq![
        Call::GetProgramiv { program: id, pname: registry::LINK_STATUS },
    ];
    let length = Call::GetProgramiv { program: id, pname: registry::INFO_LOG_LENGTH };
    let log = Call::GetProgramInfoLog { program: id, capacity: (a.log_length - 1) as i32 };
    let delete = Call::DeleteProgram { program: id };
    if id == 0 {
        create
    } else if registry::status_is_true(a.status) {
        create + build + seq![Call::GetError]
    } else if a.log_length == 0 {
        create + build + seq![length, delete, Call::GetError]
    } else {
        create + build + seq![length, log, delete, Call::GetError]
    }
}

/// The replies of a driver that answers `a` to a link of so many shaders, and
/// whose error flag held `stale` before the link and is clean whenever the
/// link checks it.
pub open spec fn link_replies(
    stale: u32,
    geometry: Option<u32>,
    a: BuildAnswers,
) -> Seq<ReplyView> {
    let create = seq![ReplyView::Flag(stale), ReplyView::Object(a.object)];
    let build = Seq::new((1 + 2 * shader_count(geometry)) as nat, |i: int| ReplyView::Nothing) + seq![
        ReplyView::Value(a.status),
    ];
    let clean = ReplyView::Flag(registry::NO_ERROR);
    if a.object == 0 {
        create
    } else if registry::status_is_true(a.status) {
        create + build + seq![clean]
    } else if a.log_length == 0 {
        create + build + seq![ReplyView::Value(a.log_length), ReplyView::Nothing, clean]
    } else {
        create + build + seq![
            ReplyView::Value(a.log_length),
            ReplyView::Log(a.log),
            ReplyView::Nothing,
            clean,
        ]
    }
}

/// The requests that a link is waiting on, one after the other, when the
/// driver answers `a`.
spec fn link_phases(geometry: Option<u32>, a: BuildAnswers) -> Seq<LinkPhase> {
    let create = seq![LinkPhase::ClearError, LinkPhase::Create];
    let build = if geometry is Some {
        seq![
            LinkPhase::AttachVertex,
            LinkPhase::AttachFragment,
            LinkPhase::AttachGeometry,
            LinkPhase::Link,
            LinkPhase::DetachVertex,
            LinkPhase::DetachFragment,
            LinkPhase::DetachGeometry,
            LinkPhase::ReadStatus,
        ]
    } else {
        seq![
            LinkPhase::AttachVertex,
            LinkPhase::AttachFragment,
            LinkPhase::Link,
            LinkPhase::DetachVertex,
            LinkPhase::DetachFragment,
            LinkPhase::ReadStatus,
        ]
    };
    if a.object == 0 {
        create
    } else if registry::status_is_true(a.status) {
        create + build + seq![LinkPhase::CheckSuccess]
    } else if a.log_length == 0 {
        create + build + seq![LinkPhase::ReadLogLength, LinkPhase::Delete, LinkPhase::CheckFailure]
    } else {
        create + build + seq![
            LinkPhase::ReadLogLength,
            LinkPhase::ReadLog,
            LinkPhase::Delete,
            LinkPhase::CheckFailure,
        ]
    }
}

/// The state in which a link waits on the request of `phase` when the driver
/// answers `a`.
spec fn link_state(
    vertex: u32,
    fragment: u32,
    geometry: Option<u32>,
    a: BuildAnswers,
    phase: LinkPhase,
) -> LinkView {
    let created = phase != LinkPhase::ClearError && phase != LinkPhase::Create;
    let failed = phase == LinkPhase::Delete || phase == LinkPhase::CheckFailure;
    let logged = a.log_length != 0 && (failed || phase == LinkPhase::ReadLog);
    LinkView {
        vertex,
        fragment,
        geometry,
        phase,
        program: if created {
            a.object
        } else {
            0
        },
        capacity: if logged {
            (a.log_length - 1) as i32
        } else {
            0
        },
        message: if !failed {
            Seq::empty()
        } else if a.log_length == 0 {
            text::failure_without_log(link_action())
        } else {
            text::failure_with_log(link_action(), a.log)
        },
    }
}

/// The states that a link passes through when the driver answers `a`.
spec fn link_path(
    vertex: u32,
    fragment: u32,
    geometry: Option<u32>,
    a: BuildAnswers,
) -> Seq<LinkView> {
    Seq::new(
        link_phases(geometry, a).len(),
        |k: int| link_state(vertex, fragment, geometry, a, link_phases(geometry, a)[k]),
    )
}

/// Whether the replies that are of the kind of an answer hold the answers `a`
/// at the places at which a link reads them.
spec fn link_agrees(geometry: Option<u32>, a: BuildAnswers, replies: Seq<ReplyView>) -> bool {
    let status_at = 3 + 2 * shader_count(geometry);
    &&& replies.len() > 1 && replies[1] is Object ==> replies[1]->Object_0 == a.object
    &&& replies.len() > status_at && replies[status_at] is Value ==> replies[status_at]->Value_0
        == a.status
    &&& replies.len() > status_at + 1 && replies[status_at + 1] is Value ==> replies[status_at
        + 1]->Value_0 == a.log_length
    &&& replies.len() > status_at + 2 && replies[status_at + 2] is Log ==> replies[status_at
        + 2]->Log_0 == a.log
}

/// On replies that hold the answers `a`, a link goes along the path of `a` to
/// the result of `a`.
proof fn lemma_link_guided(
    vertex: u32,
    fragment: u32,
    geometry: Option<u32>,
    a: BuildAnswers,
    replies: Seq<ReplyView>,
)
    requires
        link_agrees(geometry, a, replies),
    ensures
        guided(link_rules(), link_path(vertex, fragment, geometry, a), replies, link_result(a)),
        link_path(vertex, fragment, geometry, a).len() == link_requests(
            vertex,
            fragment,
            geometry,
            a,
        ).len(),
        link_path(vertex, fragment, geometry, a)[0] == link_begin(vertex, fragment, geometry),
        Seq::new(
            link_path(vertex, fragment, geometry, a).len(),
            |i: int| (link_rules().request)(link_path(vertex, fragment, geometry, a)[i]),
        ) == link_requests(vertex, fragment, geometry, a),
{
    let path = link_path(vertex, fragment, geometry, a);
    assert(Seq::new(path.len(), |i: int| (link_rules().request)(path[i])) =~= link_requests(
        vertex,
        fragment,
        geometry,
        a,
    ));
}

/// Every link that runs to its end is told by the driver's answers alone: its
/// result is `link_result` of them, and the requests that it made are
/// `link_requests` of them, in that order.
pub proof fn lemma_link_runs(
    vertex: u32,
    fragment: u32,
    geometry: Option<u32>,
    replies: Seq<ReplyView>,
)
    requires
        run(link_rules(), link_begin(vertex, fragment, geometry), replies) is Ended,
    ensures
        run(link_rules(), link_begin(vertex, fragment, geometry), replies)->Ended_0 == link_result(
            link_answers(geometry, replies),
        ),
        requests(link_rules(), link_begin(vertex, fragment, geometry), replies) == link_requests(
            vertex,
            fragment,
            geometry,
            link_answers(geometry, replies),
        ),
        replies.len() <= 8 + 2 * shader_count(geometry),
{
    let a = link_answers(geometry, replies);
    lemma_link_guided(vertex, fragment, geometry, a, replies);
    lemma_guided_run(link_rules(), link_path(vertex, fragment, geometry, a), replies, link_result(a));
}

/// Whatever the driver answers, the link runs to its end on the replies that
/// those answers make, as long as the length that the driver reports for a log
/// is not negative.
pub proof fn lemma_link_ends(
    vertex: u32,
    fragment: u32,
    geometry: Option<u32>,
    stale: u32,
    a: BuildAnswers,
)
    requires
        a.log_length >= 0,
    ensures
        run(link_rules(), link_begin(vertex, fragment, geometry), link_replies(stale, geometry, a))
            == Run::<LinkView, u32>::Ended(link_result(a)),
{
    let replies = link_replies(stale, geometry, a);
    lemma_link_guided(vertex, fragment, geometry, a, replies);
    lemma_guided_end(link_rules(), link_path(vertex, fragment, geometry, a), replies, link_result(a));
}

/// A link that runs to its end hands out a program exactly when the driver
/// allocated an object and reported its link status as true. The program then
/// owns the identifier that the driver allocated, which is not zero, and the
/// link made no request that deletes an object.
pub proof fn lemma_link_success(
    vertex: u32,
    fragment: u32,
    geometry: Option<u32>,
    replies: Seq<ReplyView>,
)
    requires
        run(link_rules(), link_begin(vertex, fragment, geometry), replies) is Ended,
    ensures
        run(link_rules(), link_begin(vertex, fragment, geometry), replies)->Ended_0 is Ok <==> {
            &&& link_answers(geometry, replies).object != 0
            &&& registry::status_is_true(link_answers(geometry, replies).status)
        },
        run(link_rules(), link_begin(vertex, fragment, geometry), replies)->Ended_0 matches Ok(id) ==> {
            &&& id != 0
            &&& id == link_answers(geometry, replies).object
            &&& releases_nothing(requests(link_rules(), link_begin(vertex, fragment, geometry), replies))
        },
{
    lemma_link_runs(vertex, fragment, geometry, replies);
    lemma_link_releases(vertex, fragment, geometry, link_answers(geometry, replies));
}

/// The requests of a link delete what its result does not hand out, and
/// nothing else: nothing where the link succeeds or where the driver
/// allocated no program, and else exactly the program that the driver
/// allocated, once, and no shader. A failure comes with a message that has
/// text in it.
pub proof fn lemma_link_releases(vertex: u32, fragment: u32, geometry: Option<u32>, a: BuildAnswers)
    ensures
        match link_result(a) {
            Ok(_) => releases_nothing(link_requests(vertex, fragment, geometry, a)),
            Err(message) => message.len() > 0 && if a.object == 0 {
                releases_nothing(link_requests(vertex, fragment, geometry, a))
            } else {
                releases_once(
                    link_requests(vertex, fragment, geometry, a),
                    Call::DeleteProgram { program: a.object },
                )
            },
        },
{
    let calls = link_requests(vertex, fragment, geometry, a);
    let delete = Call::DeleteProgram { program: a.object };
    let status_at = 3 + 2 * shader_count(geometry);
    reveal_strlit("OpenGL failed to create program object.");
    text::lemma_failure_messages_nonempty(link_action(), a.log);
    if a.object != 0 && !registry::status_is_true(a.status) {
        if a.log_length == 0 {
            assert(calls[status_at + 2] == delete);
        } else {
            assert(calls[status_at + 3] == delete);
        }
    }
}

/// A link that fails says why, hands out no program, and leaves no object
/// behind: where the driver had allocated a program, the link deleted exactly
/// that program, once, and no shader; where it had not, the link deleted
/// nothing.
pub proof fn lemma_link_failure(
    vertex: u32,
    fragment: u32,
    geometry: Option<u32>,
    replies: Seq<ReplyView>,
)
    requires
        run(link_rules(), link_begin(vertex, fragment, geometry), replies) is Ended,
    ensures
        run(link_rules(), link_begin(vertex, fragment, geometry), replies)->Ended_0 matches Err(message)
            ==> {
            &&& message.len() > 0
            &&& if link_answers(geometry, replies).object == 0 {
                releases_nothing(requests(link_rules(), link_begin(vertex, fragment, geometry), replies))
            } else {
                releases_once(
                    requests(link_rules(), link_begin(vertex, fragment, geometry), replies),
                    Call::DeleteProgram { program: link_answers(geometry, replies).object },
                )
            }
        },
{
    lemma_link_runs(vertex, fragment, geometry, replies);
    lemma_link_releases(vertex, fragment, geometry, link_answers(geometry, replies));
}

/// Whether every shader that `calls` attaches to a program is detached from
/// that program by a later request, with a link of the program in between.
pub open spec fn detaches_what_it_attaches(calls: Seq<Call>) -> bool {
    forall|i: int|
        0 <= i < calls.len() && (#[trigger] calls[i]) is AttachShader ==> exists|j: int, k: int|
            i < j < k < calls.len() && #[trigger] calls[j] == (Call::LinkProgram {
                program: calls[i]->AttachShader_program,
            }) && #[trigger] calls[k] == (Call::DetachShader {
                program: calls[i]->AttachShader_program,
                shader: calls[i]->AttachShader_shader,
            })
}

/// Once the driver has allocated the program, the requests of a link attach
/// each of the given shaders to it, and detach every shader that they attach,
/// after the link.
pub proof fn lemma_link_requests_detach(
    vertex: u32,
    fragment: u32,
    geometry: Option<u32>,
    a: BuildAnswers,
)
    requires
        a.object != 0,
    ensures
        link_requests(vertex, fragment, geometry, a).contains(
            Call::AttachShader { program: a.object, shader: vertex },
        ),
        link_requests(vertex, fragment, geometry, a).contains(
            Call::AttachShader { program: a.object, shader: fragment },
        ),
        geometry matches Some(shader) ==> link_requests(vertex, fragment, geometry, a).contains(
            Call::AttachShader { program: a.object, shader },
        ),
        detaches_what_it_attaches(link_requests(vertex, fragment, geometry, a)),
{
    let calls = link_requests(vertex, fragment, geometry, a);
    let count = shader_count(geometry);
    assert(calls[2] == Call::AttachShader { program: a.object, shader: vertex });
    assert(calls[3] == Call::AttachShader { program: a.object, shader: fragment });
    if geometry is Some {
        assert(calls[4] == Call::AttachShader { program: a.object, shader: geometry->Some_0 });
    }
    assert forall|i: int| 0 <= i < calls.len() && (#[trigger] calls[i]) is AttachShader implies exists|
        j: int,
        k: int,
    |
        i < j < k < calls.len() && #[trigger] calls[j] == (Call::LinkProgram {
            program: calls[i]->AttachShader_program,
        }) && #[trigger] calls[k] == (Call::DetachShader {
            program: calls[i]->AttachShader_program,
            shader: calls[i]->AttachShader_shader,
        }) by {
        let j = 2 + count;
        let k = i + count + 1;
        assert(2 <= i < 2 + count);
        assert(calls[j] == Call::LinkProgram { program: a.object });
        assert(calls[k] == Call::DetachShader {
            program: calls[i]->AttachShader_program,
            shader: calls[i]->AttachShader_shader,
        });
    }
}

/// Whatever comes of a link, the shaders that went into it are free again:
/// once the driver has allocated the program, each of the given shaders is
/// attached to it, and every shader that is attached is detached after the
/// link, before the link ends.
pub proof fn lemma_link_frees_shaders(
    vertex: u32,
    fragment: u32,
    geometry: Option<u32>,
    replies: Seq<ReplyView>,
)
    requires
        run(link_rules(), link_begin(vertex, fragment, geometry), replies) is Ended,
        link_answers(geometry, replies).object != 0,
    ensures
        requests(link_rules(), link_begin(vertex, fragment, geometry), replies).contains(
            Call::AttachShader { program: link_answers(geometry, replies).object, shader: vertex },
        ),
        requests(link_rules(), link_begin(vertex, fragment, geometry), replies).contains(
            Call::AttachShader { program: link_answers(geometry, replies).object, shader: fragment },
        ),
        geometry matches Some(shader) ==> requests(
            link_rules(),
            link_begin(vertex, fragment, geometry),
            replies,
        ).contains(Call::AttachShader { program: link_answers(geometry, replies).object, shader }),
        detaches_what_it_attaches(
            requests(link_rules(), link_begin(vertex, fragment, geometry), replies),
        ),
{
    lemma_link_runs(vertex, fragment, geometry, replies);
    lemma_link_requests_detach(vertex, fragment, geometry, link_answers(geometry, replies));
}

/// A link in progress, which ends with a [`Program`].
pub struct Link {
    vertex: u32,
    fragment: u32,
    geometry: Option<u32>,
    phase: LinkPhase,
    program: u32,
    capacity: i32,
    message: String,
}

impl View for Link {
    type V = LinkView;

    closed spec fn view(&self) -> LinkView {
        LinkView {
            vertex: self.vertex,
            fragment: self.fragment,
            geometry: self.geometry,
            phase: self.phase,
            program: self.program,
            capacity: self.capacity,
            message: self.message@,
        }
    }
}

/// Whether `next` is what a link hands out for the step `outcome`. The
/// program that a link hands out has an identifier that is not zero.
pub open spec fn link_progress(
    next: Progress<Link, Program>,
    outcome: Outcome<LinkView, u32>,
) -> bool {
    match outcome {
        Outcome::Next(v) => next matches Progress::Next(link) && link@ == v,
        Outcome::Done(Ok(id)) => next matches Progress::Done(Ok(program)) && program.id() == id && id
            != 0,
        Outcome::Done(Err(message)) => next matches Progress::Done(Err(shown)) && shown@ == message,
    }
}

impl Link {
    /// A link attaches and detaches a geometry shader only where it has one,
    /// and once it is past the allocation it has a program object.
    #[verifier::type_invariant]
    spec fn in_step(self) -> bool {
        &&& (self.phase == LinkPhase::AttachGeometry || self.phase == LinkPhase::DetachGeometry)
            ==> self.geometry is Some
        &&& (self.phase != LinkPhase::ClearError && self.phase != LinkPhase::Create)
            ==> self.program != 0
    }
}

impl Protocol for Link {
    type Output = Program;

    open spec fn pending(&self) -> Call {
        link_request(self@)
    }

    /// A link cannot go on where the reply is of another kind than the
    /// request yields, where a checked error flag is not clean, or where the
    /// length of a log is negative.
    open spec fn admits(&self, reply: ReplyView) -> bool {
        link_accepts(self@, reply)
    }

    open spec fn leads(&self, reply: ReplyView, next: Progress<Link, Program>) -> bool {
        link_progress(next, link_step(self@, reply))
    }

    fn request(&self) -> (call: Call) {
        proof {
            use_type_invariant(self);
        }
        match self.phase {
            LinkPhase::ClearError => Call::GetError,
            LinkPhase::Create => Call::CreateProgram,
            LinkPhase::AttachVertex => Call::AttachShader { program: self.program, shader: self.vertex },
            LinkPhase::AttachFragment => Call::AttachShader {
                program: self.program,
                shader: self.fragment,
            },
            LinkPhase::AttachGeometry => Call::AttachShader {
                program: self.program,
                shader: self.geometry.unwrap(),
            },
            LinkPhase::Link => Call::LinkProgram { program: self.program },
            LinkPhase::DetachVertex => Call::DetachShader { program: self.program, shader: self.vertex },
            LinkPhase::DetachFragment => Call::DetachShader {
                program: self.program,
                shader: self.fragment,
            },
            LinkPhase::DetachGeometry => Call::DetachShader {
                program: self.program,
                shader: self.geometry.unwrap(),
            },
            LinkPhase::ReadStatus => Call::GetProgramiv {
                program: self.program,
                pname: registry::link_status(),
            },
            LinkPhase::CheckSuccess => Call::GetError,
            LinkPhase::ReadLogLength => Call::GetProgramiv {
                program: self.program,
                pname: registry::info_log_length(),
            },
            LinkPhase::ReadLog => Call::GetProgramInfoLog {
                program: self.program,
                capacity: self.capacity,
            },
            LinkPhase::Delete => Call::DeleteProgram { program: self.program },
            LinkPhase::CheckFailure => Call::GetError,
        }
    }

    fn accepts(&self, reply: &Reply) -> (yes: bool) {
        match (self.phase, reply) {
            (LinkPhase::ClearError, Reply::Flag(_)) => true,
            (LinkPhase::Create, Reply::Object(_)) => true,
            (LinkPhase::AttachVertex, Reply::Nothing) => true,
            (LinkPhase::AttachFragment, Reply::Nothing) => true,
            (LinkPhase::AttachGeometry, Reply::Nothing) => true,
            (LinkPhase::Link, Reply::Nothing) => true,
            (LinkPhase::DetachVertex, Reply::Nothing) => true,
            (LinkPhase::DetachFragment, Reply::Nothing) => true,
            (LinkPhase::DetachGeometry, Reply::Nothing) => true,
            (LinkPhase::ReadStatus, Reply::Value(_)) => true,
            (LinkPhase::CheckSuccess, Reply::Flag(flag)) => registry::is_clean(*flag),
            (LinkPhase::ReadLogLength, Reply::Value(length)) => *length >= 0,
            (LinkPhase::ReadLog, Reply::Log(_)) => true,
            (LinkPhase::Delete, Reply::Nothing) => true,
            (LinkPhase::CheckFailure, Reply::Flag(flag)) => registry::is_clean(*flag),
            _ => false,
        }
    }

    fn resume(self, reply: Reply) -> (next: Progress<Link, Program>) {
        let mut link = self;
        proof {
            use_type_invariant(&link);
        }
        match (link.phase, reply) {
            (LinkPhase::ClearError, _) => {
                link.phase = LinkPhase::Create;
                Progress::Next(link)
            },
            (LinkPhase::Create, Reply::Object(id)) => {
                if id == 0 {
                    Progress::Done(Err(String::from_str("OpenGL failed to create program object.")))
                } else {
                    link.program = id;
                    link.phase = LinkPhase::AttachVertex;
                    Progress::Next(link)
                }
            },
            (LinkPhase::AttachVertex, _) => {
                link.phase = LinkPhase::AttachFragment;
                Progress::Next(link)
            },
            (LinkPhase::AttachFragment, _) => {
                if link.geometry.is_some() {
                    link.phase = LinkPhase::AttachGeometry;
                } else {
                    link.phase = LinkPhase::Link;
                }
                Progress::Next(link)
            },
            (LinkPhase::AttachGeometry, _) => {
                link.phase = LinkPhase::Link;
                Progress::Next(link)
            },
            (LinkPhase::Link, _) => {
                link.phase = LinkPhase::DetachVertex;
                Progress::Next(link)
            },
            (LinkPhase::DetachVertex, _) => {
                link.phase = LinkPhase::DetachFragment;
                Progress::Next(link)
            },
            (LinkPhase::DetachFragment, _) => {
                if link.geometry.is_some() {
                    link.phase = LinkPhase::DetachGeometry;
                } else {
                    link.phase = LinkPhase::ReadStatus;
                }
                Progress::Next(link)
            },
            (LinkPhase::DetachGeometry, _) => {
                link.phase = LinkPhase::ReadStatus;
                Progress::Next(link)
            },
            (LinkPhase::ReadStatus, Reply::Value(status)) => {
                if registry::is_true(status) {
                    link.phase = LinkPhase::CheckSuccess;
                } else {
                    link.phase = LinkPhase::ReadLogLength;
                }
                Progress::Next(link)
            },
            (LinkPhase::CheckSuccess, _) => Progress::Done(Ok(Program { id: link.program })),
            (LinkPhase::ReadLogLength, Reply::Value(length)) => {
                if length == 0 {
                    link.phase = LinkPhase::Delete;
                    link.message = text::describe_failure_without_log("link program");
                } else {
                    link.phase = LinkPhase::ReadLog;
                    link.capacity = length - 1;
                }
                Progress::Next(link)
            },
            (LinkPhase::ReadLog, Reply::Log(log)) => {
                link.phase = LinkPhase::Delete;
                link.message = text::describe_failure_with_log("link program", log);
                Progress::Next(link)
            },
            (LinkPhase::Delete, _) => {
                link.phase = LinkPhase::CheckFailure;
                Progress::Next(link)
            },
            (LinkPhase::CheckFailure, _) => Progress::Done(Err(link.message)),
            // No other pair is accepted.
            (_, _) => Progress::Next(link),
        }
    }
}

impl Program {
    /// A program owns an object that the driver allocated.
    #[verifier::type_invariant]
    spec fn allocated(self) -> bool {
        self.id != 0
    }

    /// The driver identifier that the program owns.
    pub closed spec fn id(&self) -> u32 {
        self.id
    }

    /// Begins linking the given shaders into a program. The shaders are only
    /// borrowed: the link detaches them again whatever comes of it, so they
    /// stay with their owner and can be linked into other programs.
    pub fn new(
        vertex_shader: &VertexShader,
        fragment_shader: &FragmentShader,
        geometry_shader: Option<&GeometryShader>,
    ) -> (link: Link)
        ensures
            link@ == link_begin(
                vertex_shader.id(),
                fragment_shader.id(),
                match geometry_shader {
                    Some(shader) => Some(shader.id()),
                    None => None,
                },
            ),
    {
        let geometry = match geometry_shader {
            Some(shader) => Some(shader.get_id()),
            None => None,
        };
        Link {
            vertex: vertex_shader.get_id(),
            fragment: fragment_shader.get_id(),
            geometry,
            phase: LinkPhase::ClearError,
            program: 0,
            capacity: 0,
            message: String::new(),
        }
    }

    /// The request that makes this program the active pipeline. It never
    /// unbinds: the identifier of a program is not zero.
    pub fn use_program(&self) -> (call: Call)
        ensures
            call == (Call::UseProgram { program: self.id() }),
            self.id() != 0,
    {
        proof {
            use_type_invariant(self);
        }
        Call::UseProgram { program: self.id }
    }

    /// The request that leaves no program active.
    pub fn unset_program() -> (call: Call)
        ensures
            call == (Call::UseProgram { program: 0 }),
    {
        Call::UseProgram { program: 0 }
    }

    /// The raw identifier, which is not zero. It is valid while the program
    /// is; whoever attaches a shader through it detaches that shader again.
    pub fn get_id(&self) -> (id: u32)
        ensures
            id == self.id(),
            id != 0,
    {
        proof {
            use_type_invariant(self);
        }
        self.id
    }

    /// Gives the program up. What comes back is the one request that deletes
    /// the program object; since the program is gone, it cannot be made twice.
    pub fn release(self) -> (call: Call)
        ensures
            call == (Call::DeleteProgram { program: self.id() }),
    {
        Call::DeleteProgram { program: self.id }
    }
}

impl Program {
    /// Begins setting a float uniform. `name` and `value` are the uniform's
    /// name and the float as diagnostics should show them.
    pub fn set_1f(&self, name: &str, value: &str) -> (uniform: Uniform)
        ensures
            uniform@ == uniform_begin(self.id(), UniformShape::Float1, name@, value@),
    {
        Uniform::begin(self.id, UniformShape::Float1, name, String::from_str(value))
    }

    /// Begins setting an integer uniform to `value`. `name` is the uniform's
    /// name as diagnostics should show it.
    pub fn set_1i(&self, name: &str, value: i32) -> (uniform: Uniform)
        ensures
            uniform@ == uniform_begin(
                self.id(),
                UniformShape::Int1 { value },
                name@,
                text::decimal(value as int),
            ),
    {
        Uniform::begin(self.id, UniformShape::Int1 { value }, name, text::decimal_text(value))
    }

    /// Begins setting a uniform of two floats. `name` and `value` are the
    /// uniform's name and the floats as diagnostics should show them.
    pub fn set_2f(&self, name: &str, value: &str) -> (uniform: Uniform)
        ensures
            uniform@ == uniform_begin(self.id(), UniformShape::Float2, name@, value@),
    {
        Uniform::begin(self.id, UniformShape::Float2, name, String::from_str(value))
    }

    /// Begins setting a uniform of three floats. `name` and `value` are the
    /// uniform's name and the floats as diagnostics should show them.
    pub fn set_3f(&self, name: &str, value: &str) -> (uniform: Uniform)
        ensures
            uniform@ == uniform_begin(self.id(), UniformShape::Float3, name@, value@),
    {
        Uniform::begin(self.id, UniformShape::Float3, name, String::from_str(value))
    }

    /// Begins setting a uniform of four floats. `name` and `value` are the
    /// uniform's name and the floats as diagnostics should show them.
    pub fn set_4f(&self, name: &str, value: &str) -> (uniform: Uniform)
        ensures
            uniform@ == uniform_begin(self.id(), UniformShape::Float4, name@, value@),
    {
        Uniform::begin(self.id, UniformShape::Float4, name, String::from_str(value))
    }

    /// Begins setting a uniform that is a 4x4 float matrix. `name` and
    /// `value` are the uniform's name and the matrix as diagnostics should
    /// show them.
    pub fn set_matrix4f(&self, name: &str, value: &str) -> (uniform: Uniform)
        ensures
            uniform@ == uniform_begin(self.id(), UniformShape::Matrix4, name@, value@),
    {
        Uniform::begin(self.id, UniformShape::Matrix4, name, String::from_str(value))
    }

    /// Reads the driver's answer to a location query for the uniform shown as
    /// `name`: the location, or the message that says that the program has
    /// no active uniform of that name.
    pub fn get_location(name: &str, location: i32) -> (found: Result<i32, String>)
        ensures
            match located(name@, location) {
                Ok(at) => found == Ok::<i32, String>(at),
                Err(message) => found matches Err(shown) && shown@ == message,
            },
    {
        if location == -1 {
            Err(text::describe_invalid_uniform_name(name))
        } else {
            Ok(location)
        }
    }
}

} // verus!
