//! The upgrade: starting the new process, and waiting for it to declare itself ready.
//!
//! The process that upgrades becomes the parent. Its steps come in one order only, so each step
//! is a value that the next one consumes. What a step asks of the operating system is done by the
//! caller, which hands the outcome to the next step.
use crate::decimal::decimal;
use crate::decimal::decimal_text;
use crate::path::SockPath;
use crate::registry::copy_listeners;
use crate::registry::fds_of;
use crate::registry::listeners_view;
use crate::registry::FdOp;
use crate::registry::ListenerInfo;
use crate::registry::ListenerView;
use vstd::prelude::*;
use vstd::std_specs::convert::FromSpec;
use vstd::string::*;

verus! {

/// What is read of an error of the operating system: its two texts.
#[derive(Debug)]
pub struct IoError {
    /// The text for programmers.
    pub debug: String,
    /// The text for users.
    pub display: String,
}

/// Why an upgrade failed.
#[derive(Debug)]
pub enum UpgradeError {
    ChildExit,
    ChildTimeout,
    NotStarted(String),
    /// Holds the debug text of the serializer's error.
    SerializationError(String),
}

pub type UpgradeFinished = Result<(), UpgradeError>;

#[verifier::ext_equal]
pub enum UpgradeErrorView {
    ChildExit,
    ChildTimeout,
    NotStarted(Seq<char>),
    SerializationError(Seq<char>),
}

impl View for UpgradeError {
    type V = UpgradeErrorView;

    open spec fn view(&self) -> UpgradeErrorView {
        match *self {
            UpgradeError::ChildExit => UpgradeErrorView::ChildExit,
            UpgradeError::ChildTimeout => UpgradeErrorView::ChildTimeout,
            UpgradeError::NotStarted(s) => UpgradeErrorView::NotStarted(s@),
            UpgradeError::SerializationError(s) => UpgradeErrorView::SerializationError(s@),
        }
    }
}

pub type FinishedView = Result<(), UpgradeErrorView>;

pub open spec fn finished_view(r: UpgradeFinished) -> FinishedView {
    match r {
        Ok(_) => Ok(()),
        Err(e) => Err(e@),
    }
}

/// The text for users of an upgrade error.
pub open spec fn upgrade_error_text(e: UpgradeErrorView) -> Seq<char> {
    match e {
        UpgradeErrorView::ChildExit => "child exited unexpectedly"@,
        UpgradeErrorView::ChildTimeout => "timed out waiting for ready signal from child"@,
        UpgradeErrorView::NotStarted(s) => "upgrade not started: "@ + s,
        UpgradeErrorView::SerializationError(s) => "serialization error: "@ + s,
    }
}

impl UpgradeError {
    /// The text for users.
    pub fn message(&self) -> (r: String)
        ensures
            r@ == upgrade_error_text(self@),
            match *self {
                UpgradeError::ChildExit => r@ == "child exited unexpectedly"@,
                UpgradeError::ChildTimeout => r@
                    == "timed out waiting for ready signal from child"@,
                UpgradeError::NotStarted(s) => r@ == "upgrade not started: "@ + s@,
                UpgradeError::SerializationError(s) => r@ == "serialization error: "@ + s@,
            },
    {
        match self {
            UpgradeError::ChildExit => "child exited unexpectedly".to_owned(),
            UpgradeError::ChildTimeout => {
                "timed out waiting for ready signal from child".to_owned()
            },
            UpgradeError::NotStarted(s) => {
                "upgrade not started: ".to_owned().concat(s.as_str())
            },
            UpgradeError::SerializationError(s) => {
                "serialization error: ".to_owned().concat(s.as_str())
            },
        }
    }
}

/// An error of the operating system while the upgrade is set up means that it did not start.
impl From<IoError> for UpgradeError {
    fn from(e: IoError) -> (r: UpgradeError) {
        UpgradeError::NotStarted(e.debug)
    }
}

impl vstd::std_specs::convert::FromSpecImpl<IoError> for UpgradeError {
    open spec fn obeys_from_spec() -> bool {
        true
    }

    open spec fn from_spec(e: IoError) -> UpgradeError {
        UpgradeError::NotStarted(e.debug)
    }
}

/// Whether an upgrade is running. There is one per process. It is raised when an upgrade begins,
/// and lowered again however it ends: at once where it cannot be set up, when the child declares
/// itself ready, which also ends the watch over it, and otherwise when the watch found the child
/// gone or had it killed.
pub struct UpgradeFlag {
    pub upgrading: bool,
}

/// An upgrade that found no other one running. The pipe through which the child learns its
/// descriptors comes next.
pub struct UpgradeStart {
    fds: Vec<ListenerInfo>,
    exec_override: Option<SockPath>,
}

/// Begins an upgrade that starts the running program anew.
pub fn upgrade(flag: &mut UpgradeFlag, fds: Vec<ListenerInfo>) -> (r: Result<
    UpgradeStart,
    UpgradeError,
>)
    ensures
        final(flag).upgrading,
        if old(flag).upgrading {
            r is Err && r->Err_0@ == UpgradeErrorView::NotStarted("Already in upgrade"@)
        } else {
            r is Ok && r->Ok_0.spec_fds() == listeners_view(fds@) && r->Ok_0.spec_exec() is None
        },
{
    begin_upgrade(flag, fds, None)
}

/// Begins an upgrade that starts `exec` instead of the running program.
pub fn upgrade_to(flag: &mut UpgradeFlag, fds: Vec<ListenerInfo>, exec: SockPath) -> (r: Result<
    UpgradeStart,
    UpgradeError,
>)
    ensures
        final(flag).upgrading,
        if old(flag).upgrading {
            r is Err && r->Err_0@ == UpgradeErrorView::NotStarted("Already in upgrade"@)
        } else {
            r is Ok && r->Ok_0.spec_fds() == listeners_view(fds@) && r->Ok_0.spec_exec() == Some(
                exec,
            )
        },
{
    begin_upgrade(flag, fds, Some(exec))
}

fn begin_upgrade(
    flag: &mut UpgradeFlag,
    fds: Vec<ListenerInfo>,
    exec_override: Option<SockPath>,
) -> (r: Result<UpgradeStart, UpgradeError>)
    ensures
        final(flag).upgrading,
        if old(flag).upgrading {
            r is Err && r->Err_0@ == UpgradeErrorView::NotStarted("Already in upgrade"@)
        } else {
            r is Ok && r->Ok_0.spec_fds() == listeners_view(fds@) && r->Ok_0.spec_exec()
                == exec_override
        },
{
    if flag.upgrading {
        return Err(UpgradeError::NotStarted("Already in upgrade".to_owned()));
    }
    flag.upgrading = true;
    Ok(UpgradeStart { fds, exec_override })
}

/// The child's end of a pipe: a duplicate that the child inherits.
#[derive(Clone, Copy, Debug, PartialEq, Eq, Structural)]
pub struct ChildEnd {
    pub fd: i32,
}

/// Whether the child's end of a pipe could be made: `end` is the reply to duplicating that end, or
/// the error that came before.
pub fn child_end(end: Result<i32, IoError>) -> (r: Result<ChildEnd, UpgradeError>)
    ensures
        match end {
            Ok(fd) => r == Ok::<ChildEnd, UpgradeError>(ChildEnd { fd }),
            Err(e) => r == Err::<ChildEnd, UpgradeError>(UpgradeError::NotStarted(e.debug)),
        },
{
    match end {
        Ok(fd) => Ok(ChildEnd { fd }),
        Err(e) => Err(UpgradeError::from(e)),
    }
}

impl ChildEnd {
    /// What is due on a new end: it has to outlive the exec.
    pub fn op(&self) -> (r: FdOp)
        ensures
            r == FdOp::UnsetCloexec(self.fd),
    {
        FdOp::UnsetCloexec(self.fd)
    }
}

/// An upgrade with the pipe for the descriptors. The pipe for readiness comes next.
pub struct HalfPiped {
    fds: Vec<ListenerInfo>,
    exec_override: Option<SockPath>,
    recv_listeners_fd: i32,
}

/// An upgrade that failed on the second pipe: the child's end of the first has to be closed.
pub struct PipeFailure {
    pub error: UpgradeError,
    pub close: i32,
}

impl UpgradeStart {
    pub closed spec fn spec_fds(&self) -> Seq<ListenerView> {
        listeners_view(self.fds@)
    }

    pub closed spec fn spec_exec(&self) -> Option<SockPath> {
        self.exec_override
    }

    /// Goes on with the child's end of the descriptor pipe. An error ends the upgrade.
    pub fn listener_pipe(self, flag: &mut UpgradeFlag, end: Result<ChildEnd, UpgradeError>) -> (r:
        Result<HalfPiped, UpgradeError>)
        ensures
            match end {
                Ok(end) => {
                    &&& r is Ok
                    &&& r->Ok_0.spec_fds() == self.spec_fds()
                    &&& r->Ok_0.spec_exec() == self.spec_exec()
                    &&& r->Ok_0.spec_recv() == end.fd
                    &&& final(flag).upgrading == old(flag).upgrading
                },
                Err(e) => r == Err::<HalfPiped, UpgradeError>(e) && !final(flag).upgrading,
            },
    {
        match end {
            Ok(end) => Ok(
                HalfPiped {
                    fds: self.fds,
                    exec_override: self.exec_override,
                    recv_listeners_fd: end.fd,
                },
            ),
            Err(e) => {
                flag.upgrading = false;
                Err(e)
            },
        }
    }
}

/// The child's ends of the two pipes.
#[derive(Clone, Copy, Debug, PartialEq, Eq, Structural)]
pub struct FdPair {
    pub recv_listeners_fd: i32,
    pub send_ready_fd: i32,
}

/// An upgrade with both pipes, before the child is launched.
pub struct UpgradePipes {
    fds: Vec<ListenerInfo>,
    exec_override: Option<SockPath>,
    pair: FdPair,
}

impl HalfPiped {
    pub closed spec fn spec_fds(&self) -> Seq<ListenerView> {
        listeners_view(self.fds@)
    }

    pub closed spec fn spec_exec(&self) -> Option<SockPath> {
        self.exec_override
    }

    pub closed spec fn spec_recv(&self) -> i32 {
        self.recv_listeners_fd
    }

    /// Goes on with the child's end of the readiness pipe. An error ends the upgrade.
    pub fn ready_pipe(self, flag: &mut UpgradeFlag, end: Result<ChildEnd, UpgradeError>) -> (r:
        Result<UpgradePipes, PipeFailure>)
        ensures
            match end {
                Ok(end) => {
                    &&& r is Ok
                    &&& r->Ok_0.spec_fds() == self.spec_fds()
                    &&& r->Ok_0.spec_exec() == self.spec_exec()
                    &&& r->Ok_0.spec_pair() == (FdPair {
                        recv_listeners_fd: self.spec_recv(),
                        send_ready_fd: end.fd,
                    })
                    &&& final(flag).upgrading == old(flag).upgrading
                },
                Err(e) => r == Err::<UpgradePipes, PipeFailure>(
                    PipeFailure { error: e, close: self.spec_recv() },
                ) && !final(flag).upgrading,
            },
    {
        match end {
            Ok(end) => Ok(
                UpgradePipes {
                    fds: self.fds,
                    exec_override: self.exec_override,
                    pair: FdPair {
                        recv_listeners_fd: self.recv_listeners_fd,
                        send_ready_fd: end.fd,
                    },
                },
            ),
            Err(e) => {
                flag.upgrading = false;
                Err(PipeFailure { error: e, close: self.recv_listeners_fd })
            },
        }
    }
}

/// The program that is launched as the child.
#[derive(Debug)]
pub enum Program {
    /// The running program, by the first argument that it was started with.
    Argv0(String),
    /// Another program.
    Override(SockPath),
}

/// The variables by which parent and child agree that this is an upgrade, and where its pipes
/// are.
pub struct UpgradeEnv {
    pub upgrade: String,
    pub upgrade_true: String,
    pub pipe_fds: String,
    pub pipe_ready: String,
}

/// How the child is launched.
pub struct ExecPlan {
    pub program: Program,
    /// The directory that the child starts in.
    pub cwd: SockPath,
    /// The arguments after the program's name.
    pub args: Vec<String>,
    /// Variables that the child gets besides those of the parent, with their values.
    pub env: Vec<(String, String)>,
    /// Variables of the parent that the child does not get.
    pub env_remove: Vec<String>,
    /// What is done between fork and exec, in this order.
    pub pre_exec: Vec<FdOp>,
}

/// The variables by which socket activation tells a process of its descriptors: which process they
/// are meant for, their names, and their number.
pub open spec fn listen_vars() -> Seq<Seq<char>> {
    seq!["LISTEN_PID"@, "LISTEN_FDNAMES"@, "LISTEN_FDS"@]
}

pub open spec fn strings_view(s: Seq<String>) -> Seq<Seq<char>> {
    s.map_values(|t: String| t@)
}

pub open spec fn pairs_view(s: Seq<(String, String)>) -> Seq<(Seq<char>, Seq<char>)> {
    s.map_values(|t: (String, String)| (t.0@, t.1@))
}

/// The operations that keep every descriptor of a list open across an exec.
pub open spec fn keep_open(s: Seq<ListenerView>) -> Seq<FdOp> {
    s.map_values(|l: ListenerView| FdOp::UnsetCloexec(l.fd))
}

impl UpgradePipes {
    pub closed spec fn spec_fds(&self) -> Seq<ListenerView> {
        listeners_view(self.fds@)
    }

    pub closed spec fn spec_exec(&self) -> Option<SockPath> {
        self.exec_override
    }

    pub closed spec fn spec_pair(&self) -> FdPair {
        self.pair
    }

    /// How the child is launched. `args` are the arguments of this process, its name first, and
    /// `cwd` is its working directory, in which the child starts as well.
    ///
    /// The child is told where its pipes are. The variables of socket activation are not shared
    /// with it. The descriptors that it inherits lose their close-on-exec mark only after the
    /// fork, so that they do not leak where the parent forks for another reason.
    pub fn exec_upgraded(&self, args: Vec<String>, cwd: SockPath, env: &UpgradeEnv) -> (r: ExecPlan)
        requires
            args@.len() > 0,
        ensures
            match self.spec_exec() {
                Some(path) => r.program is Override && r.program->Override_0@ == path@,
                None => r.program == Program::Argv0(args@[0]),
            },
            r.args@ == args@.drop_first(),
            r.cwd == cwd,
            pairs_view(r.env@) == seq![
                (env.upgrade@, env.upgrade_true@),
                (env.pipe_fds@, decimal_text(self.spec_pair().recv_listeners_fd as int)),
                (env.pipe_ready@, decimal_text(self.spec_pair().send_ready_fd as int)),
            ],
            strings_view(r.env_remove@) == listen_vars(),
            r.pre_exec@ == keep_open(self.spec_fds()),
            r.env@.len() == 3,
            r.env@[0].0@ == env.upgrade@ && r.env@[0].1@ == env.upgrade_true@,
            r.env@[1].0@ == env.pipe_fds@ && r.env@[1].1@ == decimal_text(
                self.spec_pair().recv_listeners_fd as int,
            ),
            r.env@[2].0@ == env.pipe_ready@ && r.env@[2].1@ == decimal_text(
                self.spec_pair().send_ready_fd as int,
            ),
            r.env_remove@.len() == 3,
            r.env_remove@[0]@ == "LISTEN_PID"@,
            r.env_remove@[1]@ == "LISTEN_FDNAMES"@,
            r.env_remove@[2]@ == "LISTEN_FDS"@,
            r.pre_exec@.len() == self.spec_fds().len(),
            forall|i: int|
                0 <= i < r.pre_exec@.len() ==> #[trigger] r.pre_exec@[i] == FdOp::UnsetCloexec(
                    self.spec_fds()[i].fd,
                ),
    {
        let mut run_args: Vec<String> = args;
        let argv0: String = run_args.remove(0);
        assert(run_args@ =~= args@.drop_first());
        let program: Program = match &self.exec_override {
            Some(path) => Program::Override(path.clone()),
            None => Program::Argv0(argv0),
        };
        let mut vars: Vec<(String, String)> = Vec::new();
        vars.push((env.upgrade.clone(), env.upgrade_true.clone()));
        vars.push((env.pipe_fds.clone(), decimal(self.pair.recv_listeners_fd)));
        vars.push((env.pipe_ready.clone(), decimal(self.pair.send_ready_fd)));
        let mut env_remove: Vec<String> = Vec::new();
        env_remove.push("LISTEN_PID".to_owned());
        env_remove.push("LISTEN_FDNAMES".to_owned());
        env_remove.push("LISTEN_FDS".to_owned());
        let mut pre_exec: Vec<FdOp> = Vec::new();
        let mut i: usize = 0;
        while i < self.fds.len()
            invariant
                i <= self.fds.len(),
                pre_exec@.len() == i,
                forall|j: int|
                    0 <= j < i ==> #[trigger] pre_exec@[j] == FdOp::UnsetCloexec(self.fds@[j].fd),
            decreases self.fds.len() - i,
        {
            pre_exec.push(FdOp::UnsetCloexec(self.fds[i].fd));
            i = i + 1;
        }
        proof {
            assert(pre_exec@ =~= keep_open(self.spec_fds()));
            assert(strings_view(env_remove@) =~= listen_vars());
            assert(pairs_view(vars@) =~= seq![
                (env.upgrade@, env.upgrade_true@),
                (env.pipe_fds@, decimal_text(self.spec_pair().recv_listeners_fd as int)),
                (env.pipe_ready@, decimal_text(self.spec_pair().send_ready_fd as int)),
            ]);
        }
        ExecPlan { program, cwd, args: run_args, env: vars, env_remove, pre_exec }
    }

    /// Goes on once the child was launched, or could not be. Either way the parent has no more
    /// use for the child's ends of the pipes: the first part of the result has to be closed. An
    /// error ends the upgrade.
    pub fn spawned(self, flag: &mut UpgradeFlag, child: Result<(), IoError>) -> (r: (
        [i32; 2],
        Result<UpgradeWaiting, UpgradeError>,
    ))
        ensures
            r.0@ == seq![self.spec_pair().recv_listeners_fd, self.spec_pair().send_ready_fd],
            match child {
                Ok(_) => {
                    &&& r.1 is Ok
                    &&& r.1->Ok_0.spec_fds() == self.spec_fds()
                    &&& final(flag).upgrading == old(flag).upgrading
                },
                Err(e) => r.1 == Err::<UpgradeWaiting, UpgradeError>(
                    UpgradeError::NotStarted(e.debug),
                ) && !final(flag).upgrading,
            },
    {
        let close: [i32; 2] = [self.pair.recv_listeners_fd, self.pair.send_ready_fd];
        assert(close@ =~= seq![self.pair.recv_listeners_fd, self.pair.send_ready_fd]);
        match child {
            Ok(_) => (close, Ok(UpgradeWaiting { fds: self.fds })),
            Err(e) => {
                flag.upgrading = false;
                (close, Err(UpgradeError::from(e)))
            },
        }
    }
}

/// What the child writes to its parent once it is ready: `OK`.
pub const READY_MESSAGE: [u8; 2] = [79, 75];

/// The verdict on what was read of the child: two bytes, or nothing where fewer came.
pub open spec fn ready_verdict(read: Option<Seq<u8>>) -> FinishedView {
    if read == Some(READY_MESSAGE@) {
        Ok(())
    } else {
        Err(UpgradeErrorView::ChildExit)
    }
}

pub open spec fn opt_bytes_view(read: Option<[u8; 2]>) -> Option<Seq<u8>> {
    match read {
        Some(b) => Some(b@),
        None => None,
    }
}

/// Whether the child declared itself ready. `read` is what came through the readiness pipe, where
/// two bytes did.
pub fn wait_ready(read: Option<[u8; 2]>) -> (r: UpgradeFinished)
    ensures
        finished_view(r) == ready_verdict(opt_bytes_view(read)),
        r is Ok <==> (read matches Some(b) && b@ == READY_MESSAGE@),
        r is Err ==> r->Err_0 == UpgradeError::ChildExit,
{
    match read {
        Some(b) => {
            if b[0] == READY_MESSAGE[0] && b[1] == READY_MESSAGE[1] {
                assert(b@ =~= READY_MESSAGE@);
                Ok(())
            } else {
                assert(b@[0] != READY_MESSAGE@[0] || b@[1] != READY_MESSAGE@[1]);
                Err(UpgradeError::ChildExit)
            }
        },
        None => Err(UpgradeError::ChildExit),
    }
}

/// Whether the descriptors were written to the child; an error is given by its debug text.
pub fn send_fds(written: Result<(), String>) -> (r: UpgradeFinished)
    ensures
        r == match written {
            Ok(_) => Ok::<(), UpgradeError>(()),
            Err(e) => Err(UpgradeError::SerializationError(e)),
        },
{
    match written {
        Ok(_) => Ok(()),
        Err(e) => Err(UpgradeError::SerializationError(e)),
    }
}

/// An upgrade whose child was launched. The descriptors are written to the child, and the child
/// is watched, until it is known whether it declared itself ready.
pub struct UpgradeWaiting {
    fds: Vec<ListenerInfo>,
}

/// An upgrade of which it is known whether the child declared itself ready. What the watch over
/// the child found comes next.
pub struct UpgradeSettled {
    result: UpgradeFinished,
}

/// The outcome of an upgrade: the child's fate, where it did not live on, and its readiness
/// otherwise. `ready` is nothing where the wait for readiness broke down.
pub open spec fn upgrade_result(
    ready: Option<FinishedView>,
    child: FinishedView,
) -> FinishedView {
    match child {
        Err(e) => Err(e),
        Ok(_) => match ready {
            Some(r) => r,
            None => Err(UpgradeErrorView::ChildExit),
        },
    }
}

pub open spec fn opt_finished_view(r: Option<UpgradeFinished>) -> Option<FinishedView> {
    match r {
        Some(f) => Some(finished_view(f)),
        None => None,
    }
}

/// The child declared itself ready.
pub open spec fn is_ready(ready: Option<FinishedView>) -> bool {
    ready is Some && ready->0 is Ok
}

/// The flag that the watch finds once it is known whether the child declared itself ready: only
/// readiness lowers it.
pub open spec fn flag_watched(upgrading: bool, ready: Option<FinishedView>) -> bool {
    upgrading && !is_ready(ready)
}

/// The flag once the watch is over as well. Where readiness lowered it, it is no longer that of
/// this upgrade, and is left as it is.
pub open spec fn flag_settled(upgrading: bool, ready: Option<FinishedView>) -> bool {
    upgrading && is_ready(ready)
}

impl UpgradeWaiting {
    pub closed spec fn spec_fds(&self) -> Seq<ListenerView> {
        listeners_view(self.fds@)
    }

    /// What is written to the child.
    pub fn fds(&self) -> (r: Vec<ListenerInfo>)
        ensures
            listeners_view(r@) == self.spec_fds(),
    {
        copy_listeners(&self.fds)
    }

    /// Goes on once it is known whether the child declared itself ready. A child that did ends
    /// the watch, by the flag. One that did not is watched on, until it is gone or its time is up,
    /// when it is killed.
    pub fn ready_joined(self, flag: &mut UpgradeFlag, ready: Option<UpgradeFinished>) -> (r:
        UpgradeSettled)
        ensures
            final(flag).upgrading == flag_watched(old(flag).upgrading, opt_finished_view(ready)),
            r.spec_ready() == upgrade_result(opt_finished_view(ready), Ok(())),
            match ready {
                Some(Ok(_)) => r.spec_ready() is Ok && !final(flag).upgrading,
                Some(Err(e)) => r.spec_ready() == Err::<(), UpgradeErrorView>(e@) && final(
                    flag
                ).upgrading == old(flag).upgrading,
                None => r.spec_ready() == Err::<(), UpgradeErrorView>(UpgradeErrorView::ChildExit)
                    && final(flag).upgrading == old(flag).upgrading,
            },
    {
        match ready {
            Some(Ok(done)) => {
                flag.upgrading = false;
                UpgradeSettled { result: Ok(done) }
            },
            Some(Err(e)) => UpgradeSettled { result: Err(e) },
            None => UpgradeSettled { result: Err(UpgradeError::ChildExit) },
        }
    }
}

impl UpgradeSettled {
    pub closed spec fn spec_ready(&self) -> FinishedView {
        finished_view(self.result)
    }

    /// The outcome of the upgrade. Where the watch found that the child is gone, that is the
    /// outcome, even if the child declared itself ready. The flag of a child that did not is
    /// lowered.
    pub fn child_joined(self, flag: &mut UpgradeFlag, child: UpgradeFinished) -> (r:
        UpgradeFinished)
        ensures
            finished_view(r) == upgrade_result(Some(self.spec_ready()), finished_view(child)),
            final(flag).upgrading == flag_settled(old(flag).upgrading, Some(self.spec_ready())),
            match (child, self.spec_ready()) {
                (Err(e), _) => r == Err::<(), UpgradeError>(e),
                (Ok(_), Ok(_)) => r is Ok,
                (Ok(_), Err(e)) => r is Err && r->Err_0@ == e,
            },
            final(flag).upgrading <==> old(flag).upgrading && self.spec_ready() is Ok,
    {
        if self.result.is_err() {
            flag.upgrading = false;
        }
        match child {
            Ok(_) => self.result,
            Err(e) => Err(e),
        }
    }
}

/// What came back from the outside in the course of an upgrade. Of an upgrade that ends early only
/// the first few count.
pub struct UpgradeSeen {
    /// The child's end of the descriptor pipe.
    pub listener_pipe: Result<i32, IoError>,
    /// The child's end of the readiness pipe.
    pub ready_pipe: Result<i32, IoError>,
    /// Whether the child could be launched.
    pub launch: Result<(), IoError>,
    /// Whether the child declared itself ready; nothing, where the wait for that broke down.
    pub ready: Option<UpgradeFinished>,
    /// What the watch over the child found.
    pub watch: UpgradeFinished,
}

impl UpgradeSeen {
    /// The outcome of an upgrade that found no other one running.
    pub open spec fn outcome(self) -> FinishedView {
        match (self.listener_pipe, self.ready_pipe, self.launch) {
            (Err(e), _, _) => Err(UpgradeErrorView::NotStarted(e.debug@)),
            (_, Err(e), _) => Err(UpgradeErrorView::NotStarted(e.debug@)),
            (_, _, Err(e)) => Err(UpgradeErrorView::NotStarted(e.debug@)),
            _ => upgrade_result(opt_finished_view(self.ready), finished_view(self.watch)),
        }
    }

    /// The child was launched.
    pub open spec fn launched(self) -> bool {
        self.listener_pipe is Ok && self.ready_pipe is Ok && self.launch is Ok
    }

    /// The child's ends of the pipes that were made.
    pub open spec fn child_ends(self) -> Seq<i32> {
        match (self.listener_pipe, self.ready_pipe) {
            (Err(_), _) => Seq::empty(),
            (Ok(recv), Err(_)) => seq![recv],
            (Ok(recv), Ok(send)) => seq![recv, send],
        }
    }
}

/// The outcome of an upgrade that found the flag as it is.
pub open spec fn attempt_outcome(upgrading: bool, seen: UpgradeSeen) -> FinishedView {
    if upgrading {
        Err(UpgradeErrorView::NotStarted("Already in upgrade"@))
    } else {
        seen.outcome()
    }
}

/// The flag after an upgrade that found it as it is. One that does not find it down leaves it to
/// the other.
pub open spec fn flag_after(upgrading: bool, seen: UpgradeSeen) -> bool {
    if upgrading {
        true
    } else if seen.launched() {
        let ready = opt_finished_view(seen.ready);
        flag_settled(flag_watched(true, ready), ready)
    } else {
        false
    }
}

/// Puts what was seen of the outside through the steps of an upgrade. Returns its outcome, and the
/// descriptors that were closed on the way: the child's ends of the pipes, as many as were made.
/// However it ends, the flag is afterwards what it was before.
pub fn upgrade_inner(
    flag: &mut UpgradeFlag,
    fds: Vec<ListenerInfo>,
    exec_override: Option<SockPath>,
    seen: UpgradeSeen,
) -> (r: (UpgradeFinished, Vec<i32>))
    ensures
        finished_view(r.0) == attempt_outcome(old(flag).upgrading, seen),
        r.1@ == if old(flag).upgrading {
            Seq::<i32>::empty()
        } else {
            seen.child_ends()
        },
        final(flag).upgrading == old(flag).upgrading,
        final(flag).upgrading == flag_after(old(flag).upgrading, seen),
{
    let mut closed: Vec<i32> = Vec::new();
    let start: UpgradeStart = match begin_upgrade(flag, fds, exec_override) {
        Ok(start) => start,
        Err(e) => {
            return (Err(e), closed);
        },
    };
    let half: HalfPiped = match start.listener_pipe(flag, child_end(seen.listener_pipe)) {
        Ok(half) => half,
        Err(e) => {
            return (Err(e), closed);
        },
    };
    let pipes: UpgradePipes = match half.ready_pipe(flag, child_end(seen.ready_pipe)) {
        Ok(pipes) => pipes,
        Err(failure) => {
            closed.push(failure.close);
            assert(closed@ =~= seen.child_ends());
            return (Err(failure.error), closed);
        },
    };
    let (ends, launched): ([i32; 2], Result<UpgradeWaiting, UpgradeError>) = pipes.spawned(
        flag,
        seen.launch,
    );
    closed.push(ends[0]);
    closed.push(ends[1]);
    assert(closed@ =~= seen.child_ends());
    match launched {
        Ok(waiting) => {
            let settled: UpgradeSettled = waiting.ready_joined(flag, seen.ready);
            (settled.child_joined(flag, seen.watch), closed)
        },
        Err(e) => (Err(e), closed),
    }
}

/// What the operating system says of the child.
#[derive(Clone, Copy, Debug, PartialEq, Eq, Structural)]
pub enum TryWait {
    Running,
    Exited,
    Failed,
}

/// A child that runs is fine; one that cannot be asked counts as gone.
pub open spec fn child_verdict(child: TryWait) -> FinishedView {
    if child == TryWait::Running {
        Ok(())
    } else {
        Err(UpgradeErrorView::ChildExit)
    }
}

/// Whether the child is still there.
pub fn proc_wait(child: TryWait) -> (r: UpgradeFinished)
    ensures
        finished_view(r) == child_verdict(child),
        r is Ok <==> child == TryWait::Running,
        r is Err ==> r->Err_0 == UpgradeError::ChildExit,
{
    match child {
        TryWait::Running => Ok(()),
        _ => Err(UpgradeError::ChildExit),
    }
}

/// For how long the child is watched.
pub const CHILD_TIMEOUT_NANOS: u128 = 5_000_000_000;

/// The pause before the child is looked at.
pub const CHILD_POLL_MILLIS: u64 = 500;

/// The same pause, in nanoseconds.
pub const CHILD_POLL_NANOS: u128 = 500_000_000;

/// One round of the watch over the child: what the clock showed when it began, and what the child
/// and the flag were found like after the pause, the child twice.
pub struct WatchRound {
    pub now_nanos: u128,
    pub child: TryWait,
    pub upgrading: bool,
    pub child_again: TryWait,
}

/// The time between two readings of the clock; none, where it was set back.
pub open spec fn elapsed(start_nanos: u128, now_nanos: u128) -> int {
    if now_nanos >= start_nanos {
        now_nanos - start_nanos
    } else {
        0
    }
}

/// What one round decides in a watch that began at `start_nanos`; nothing, where the watch goes on.
pub open spec fn round_verdict(start_nanos: u128, round: WatchRound) -> Option<FinishedView> {
    if elapsed(start_nanos, round.now_nanos) >= CHILD_TIMEOUT_NANOS {
        Some(Err(UpgradeErrorView::ChildTimeout))
    } else if round.child != TryWait::Running {
        Some(Err(UpgradeErrorView::ChildExit))
    } else if !round.upgrading {
        Some(child_verdict(round.child_again))
    } else {
        None
    }
}

/// The watch over the child, at the start of a round.
pub struct WatchChild {
    start_nanos: u128,
}

/// What a round begins with.
pub enum WatchStep {
    /// Pause for [`CHILD_POLL_MILLIS`], then look at the child.
    Pause(WatchPaused),
    /// The time is up: kill the child and reap it. This is the outcome of the watch.
    Kill(UpgradeError),
}

/// A round after its pause.
pub struct WatchPaused {
    start_nanos: u128,
}

/// A round that found the child running. The flag is looked at next.
pub struct WatchRunning {
    start_nanos: u128,
}

/// What a round with a running child ends with.
pub enum WatchNext {
    /// Another round.
    Again(WatchChild),
    /// The upgrade is over: look at the child once more, and hand that to [`proc_wait`], whose
    /// result is the outcome of the watch.
    Last,
}

/// Starts the watch over a child that was just launched, when the clock shows `start_nanos`. The
/// time that the child has is counted from there, through all rounds.
pub fn wait_child(start_nanos: u128) -> (r: WatchChild)
    ensures
        r.spec_start() == start_nanos,
{
    WatchChild { start_nanos }
}

impl WatchChild {
    /// What the clock showed when the watch began.
    pub closed spec fn spec_start(&self) -> u128 {
        self.start_nanos
    }

    /// Begins a round, when the clock shows `now_nanos`.
    pub fn round(self, now_nanos: u128) -> (r: WatchStep)
        ensures
            if elapsed(self.spec_start(), now_nanos) < CHILD_TIMEOUT_NANOS {
                r is Pause && r->Pause_0.spec_start() == self.spec_start()
            } else {
                r == WatchStep::Kill(UpgradeError::ChildTimeout)
            },
            r is Kill <==> now_nanos >= self.spec_start() + CHILD_TIMEOUT_NANOS,
    {
        if now_nanos < self.start_nanos || now_nanos - self.start_nanos < CHILD_TIMEOUT_NANOS {
            WatchStep::Pause(WatchPaused { start_nanos: self.start_nanos })
        } else {
            WatchStep::Kill(UpgradeError::ChildTimeout)
        }
    }
}

impl WatchPaused {
    /// What the clock showed when the watch began.
    pub closed spec fn spec_start(&self) -> u128 {
        self.start_nanos
    }

    /// Goes on with what the child was found like; an error is the outcome of the watch.
    pub fn polled(self, child: TryWait) -> (r: Result<WatchRunning, UpgradeError>)
        ensures
            if child == TryWait::Running {
                r is Ok && r->Ok_0.spec_start() == self.spec_start()
            } else {
                r == Err::<WatchRunning, UpgradeError>(UpgradeError::ChildExit)
            },
    {
        match proc_wait(child) {
            Ok(_) => Ok(WatchRunning { start_nanos: self.start_nanos }),
            Err(e) => Err(e),
        }
    }
}

impl WatchRunning {
    /// What the clock showed when the watch began.
    pub closed spec fn spec_start(&self) -> u128 {
        self.start_nanos
    }

    /// Goes on with what the flag was found like.
    pub fn flag(self, flag: &UpgradeFlag) -> (r: WatchNext)
        ensures
            if flag.upgrading {
                r is Again && r->Again_0.spec_start() == self.spec_start()
            } else {
                r is Last
            },
    {
        if flag.upgrading {
            WatchNext::Again(WatchChild { start_nanos: self.start_nanos })
        } else {
            WatchNext::Last
        }
    }
}

/// What a watch that began at `start_nanos` decides in the rounds that it went through.
pub open spec fn watch_verdict(start_nanos: u128, rounds: Seq<WatchRound>) -> Option<FinishedView>
    decreases rounds.len(),
{
    if rounds.len() == 0 {
        None
    } else {
        match watch_verdict(start_nanos, rounds.drop_last()) {
            Some(v) => Some(v),
            None => round_verdict(start_nanos, rounds.last()),
        }
    }
}

/// Puts what was seen in the rounds of a watch that began at `start_nanos` through its steps, and
/// returns its outcome, where it came to one.
pub fn watch_outcome(start_nanos: u128, rounds: &Vec<WatchRound>) -> (r: Option<UpgradeFinished>)
    ensures
        opt_finished_view(r) == watch_verdict(start_nanos, rounds@),
{
    let mut watch: WatchChild = wait_child(start_nanos);
    let mut i: usize = 0;
    assert(rounds@.take(0) =~= Seq::<WatchRound>::empty());
    while i < rounds.len()
        invariant
            i <= rounds.len(),
            watch.spec_start() == start_nanos,
            watch_verdict(start_nanos, rounds@.take(i as int)) is None,
        decreases rounds.len() - i,
    {
        let seen: &WatchRound = &rounds[i];
        proof {
            assert(rounds@.take(i + 1).drop_last() =~= rounds@.take(i as int));
            lemma_watch_prefix(start_nanos, rounds@, i + 1);
        }
        let paused: WatchPaused = match watch.round(seen.now_nanos) {
            WatchStep::Pause(paused) => paused,
            WatchStep::Kill(e) => {
                return Some(Err(e));
            },
        };
        let running: WatchRunning = match paused.polled(seen.child) {
            Ok(running) => running,
            Err(e) => {
                return Some(Err(e));
            },
        };
        match running.flag(&UpgradeFlag { upgrading: seen.upgrading }) {
            WatchNext::Again(again) => {
                watch = again;
            },
            WatchNext::Last => {
                return Some(proc_wait(seen.child_again));
            },
        }
        i = i + 1;
    }
    assert(rounds@.take(i as int) =~= rounds@);
    None
}

/// A verdict stands, whatever rounds are added.
proof fn lemma_watch_prefix(start_nanos: u128, rounds: Seq<WatchRound>, n: int)
    requires
        0 <= n <= rounds.len(),
    ensures
        watch_verdict(start_nanos, rounds.take(n)) is Some ==> watch_verdict(start_nanos, rounds)
            == watch_verdict(start_nanos, rounds.take(n)),
    decreases rounds.len(),
{
    if n == rounds.len() {
        assert(rounds.take(n) =~= rounds);
    } else {
        lemma_watch_prefix(start_nanos, rounds.drop_last(), n);
        assert(rounds.drop_last().take(n) =~= rounds.take(n));
    }
}

/// The watch goes on for as long as the child runs, the upgrade runs and the time is not up.
pub proof fn law_watch_goes_on(start_nanos: u128, rounds: Seq<WatchRound>)
    ensures
        watch_verdict(start_nanos, rounds) is None <==> forall|i: int|
            0 <= i < rounds.len() ==> {
                &&& (#[trigger] rounds[i]).now_nanos < start_nanos + CHILD_TIMEOUT_NANOS
                &&& rounds[i].child == TryWait::Running
                &&& rounds[i].upgrading
            },
    decreases rounds.len(),
{
    if rounds.len() > 0 {
        law_watch_goes_on(start_nanos, rounds.drop_last());
        assert forall|i: int| 0 <= i < rounds.len() - 1 implies rounds.drop_last()[i]
            == #[trigger] rounds[i] by {}
        assert(rounds.last() == rounds[rounds.len() - 1]);
    }
}

/// The first round that decides is the one that counts.
pub proof fn law_watch_first_round_decides(start_nanos: u128, rounds: Seq<WatchRound>, i: int)
    requires
        0 <= i < rounds.len(),
        round_verdict(start_nanos, rounds[i]) is Some,
        forall|j: int| 0 <= j < i ==> round_verdict(start_nanos, #[trigger] rounds[j]) is None,
    ensures
        watch_verdict(start_nanos, rounds) == round_verdict(start_nanos, rounds[i]),
    decreases rounds.len(),
{
    if i < rounds.len() - 1 {
        law_watch_first_round_decides(start_nanos, rounds.drop_last(), i);
    } else {
        let before = rounds.drop_last();
        law_watch_goes_on(start_nanos, before);
        assert forall|j: int| 0 <= j < before.len() implies {
            &&& (#[trigger] before[j]).now_nanos < start_nanos + CHILD_TIMEOUT_NANOS
            &&& before[j].child == TryWait::Running
            &&& before[j].upgrading
        } by {
            assert(round_verdict(start_nanos, rounds[j]) is None);
        }
    }
}

/// What a round decides: that the time is up, where the clock shows that it is; otherwise that the
/// child is gone, where it was found so; otherwise, where the upgrade is over, whether the child
/// is still there; and nothing as long as none of these holds.
pub proof fn law_round_decides(start_nanos: u128, round: WatchRound)
    ensures
        round.now_nanos >= start_nanos + CHILD_TIMEOUT_NANOS ==> round_verdict(start_nanos, round)
            == Some(Err::<(), UpgradeErrorView>(UpgradeErrorView::ChildTimeout)),
        round.now_nanos < start_nanos + CHILD_TIMEOUT_NANOS && round.child != TryWait::Running
            ==> round_verdict(start_nanos, round) == Some(
            Err::<(), UpgradeErrorView>(UpgradeErrorView::ChildExit),
        ),
        round.now_nanos < start_nanos + CHILD_TIMEOUT_NANOS && round.child == TryWait::Running
            && !round.upgrading ==> round_verdict(start_nanos, round) is Some && (round_verdict(
            start_nanos,
            round,
        )->0 is Ok <==> round.child_again == TryWait::Running) && (round.child_again
            != TryWait::Running ==> round_verdict(start_nanos, round)->0 == Err::<
            (),
            UpgradeErrorView,
        >(UpgradeErrorView::ChildExit)),
        round.now_nanos < start_nanos + CHILD_TIMEOUT_NANOS && round.child == TryWait::Running
            && round.upgrading ==> round_verdict(start_nanos, round) is None,
{
}

/// The watch ends: where the clock has gone on by all the pauses that were asked for, ten pauses
/// are the most, and the eleventh round finds the time up.
pub proof fn law_watch_ends(start_nanos: u128, rounds: Seq<WatchRound>)
    requires
        forall|i: int|
            0 < i < rounds.len() ==> (#[trigger] rounds[i]).now_nanos >= start_nanos + i
                * CHILD_POLL_NANOS,
        rounds.len() > 10,
    ensures
        watch_verdict(start_nanos, rounds) is Some,
{
    law_watch_goes_on(start_nanos, rounds);
    assert(rounds[10].now_nanos >= start_nanos + 10 * CHILD_POLL_NANOS);
}

/// So it does where each round begins at least one pause after the round before.
pub proof fn law_pauses_end_the_watch(start_nanos: u128, rounds: Seq<WatchRound>)
    requires
        rounds.len() > 10,
        rounds[0].now_nanos >= start_nanos,
        forall|i: int, j: int|
            #![trigger rounds[i], rounds[j]]
            0 <= i && j == i + 1 && j < rounds.len() ==> rounds[j].now_nanos >= rounds[i].now_nanos
                + CHILD_POLL_NANOS,
    ensures
        watch_verdict(start_nanos, rounds) is Some,
{
    assert forall|i: int| 0 < i < rounds.len() implies (#[trigger] rounds[i]).now_nanos
        >= start_nanos + i * CHILD_POLL_NANOS by {
        lemma_clock_goes_on(start_nanos, rounds, i);
    }
    law_watch_ends(start_nanos, rounds);
}

proof fn lemma_clock_goes_on(start_nanos: u128, rounds: Seq<WatchRound>, n: int)
    requires
        0 <= n < rounds.len(),
        rounds[0].now_nanos >= start_nanos,
        forall|i: int, j: int|
            #![trigger rounds[i], rounds[j]]
            0 <= i && j == i + 1 && j < rounds.len() ==> rounds[j].now_nanos >= rounds[i].now_nanos
                + CHILD_POLL_NANOS,
    ensures
        rounds[n].now_nanos >= start_nanos + n * CHILD_POLL_NANOS,
    decreases n,
{
    if n > 0 {
        lemma_clock_goes_on(start_nanos, rounds, n - 1);
        assert(rounds[n].now_nanos >= rounds[n - 1].now_nanos + CHILD_POLL_NANOS);
    }
}

/// A watch over a child that never declares itself ready and never exits comes to one end only:
/// its time is up, and it is killed.
pub proof fn law_hung_child_is_killed(start_nanos: u128, rounds: Seq<WatchRound>)
    requires
        watch_verdict(start_nanos, rounds) is Some,
        forall|i: int|
            0 <= i < rounds.len() ==> (#[trigger] rounds[i]).child == TryWait::Running
                && rounds[i].upgrading,
    ensures
        watch_verdict(start_nanos, rounds) == Some(
            Err::<(), UpgradeErrorView>(UpgradeErrorView::ChildTimeout),
        ),
        exists|i: int|
            0 <= i < rounds.len() && (#[trigger] rounds[i]).now_nanos >= start_nanos
                + CHILD_TIMEOUT_NANOS,
    decreases rounds.len(),
{
    let before = rounds.drop_last();
    assert forall|i: int| 0 <= i < before.len() implies (#[trigger] before[i]).child
        == TryWait::Running && before[i].upgrading by {
        assert(rounds[i] == before[i]);
    }
    if watch_verdict(start_nanos, before) is Some {
        law_hung_child_is_killed(start_nanos, before);
        let i = choose|i: int|
            0 <= i < before.len() && (#[trigger] before[i]).now_nanos >= start_nanos
                + CHILD_TIMEOUT_NANOS;
        assert(rounds[i] == before[i]);
    } else {
        assert(rounds.last() == rounds[rounds.len() - 1]);
    }
}

/// The watch finds nothing wrong only where the upgrade ended within the time, with the child
/// running before and after that was seen.
pub proof fn law_watch_success(start_nanos: u128, rounds: Seq<WatchRound>)
    requires
        watch_verdict(start_nanos, rounds) is Some,
        watch_verdict(start_nanos, rounds)->0 is Ok,
    ensures
        exists|i: int|
            0 <= i < rounds.len() && {
                &&& (#[trigger] rounds[i]).now_nanos < start_nanos + CHILD_TIMEOUT_NANOS
                &&& rounds[i].child == TryWait::Running
                &&& !rounds[i].upgrading
                &&& rounds[i].child_again == TryWait::Running
            },
    decreases rounds.len(),
{
    let before = rounds.drop_last();
    if watch_verdict(start_nanos, before) is Some {
        law_watch_success(start_nanos, before);
        let i = choose|i: int|
            0 <= i < before.len() && {
                &&& (#[trigger] before[i]).now_nanos < start_nanos + CHILD_TIMEOUT_NANOS
                &&& before[i].child == TryWait::Running
                &&& !before[i].upgrading
                &&& before[i].child_again == TryWait::Running
            };
        assert(rounds[i] == before[i]);
    } else {
        assert(rounds.last() == rounds[rounds.len() - 1]);
    }
}

/// An upgrade can be followed by another one, whatever became of it: the flag is down after it, and
/// what the next one comes to is up to what that sees.
pub proof fn law_upgrade_can_be_retried(first: UpgradeSeen, next: UpgradeSeen)
    ensures
        !flag_after(false, first),
        attempt_outcome(flag_after(false, first), next) == next.outcome(),
{
}

/// A child that did not declare itself ready is not left running: the watch over it, which goes on
/// finding the flag raised, ends with the child gone or with the time up, which is when the child
/// is killed; and that is the outcome of the upgrade.
pub proof fn law_unready_child_is_not_left_running(
    seen: UpgradeSeen,
    start_nanos: u128,
    rounds: Seq<WatchRound>,
)
    requires
        seen.launched(),
        !is_ready(opt_finished_view(seen.ready)),
        forall|i: int|
            0 <= i < rounds.len() ==> (#[trigger] rounds[i]).upgrading == flag_watched(
                true,
                opt_finished_view(seen.ready),
            ),
        watch_verdict(start_nanos, rounds) == Some(finished_view(seen.watch)),
    ensures
        finished_view(seen.watch) == Err::<(), UpgradeErrorView>(UpgradeErrorView::ChildExit)
            || finished_view(seen.watch) == Err::<(), UpgradeErrorView>(
            UpgradeErrorView::ChildTimeout,
        ),
        seen.outcome() == finished_view(seen.watch),
    decreases rounds.len(),
{
    let before = rounds.drop_last();
    assert forall|i: int| 0 <= i < before.len() implies (#[trigger] before[i]).upgrading
        == flag_watched(true, opt_finished_view(seen.ready)) by {
        assert(rounds[i] == before[i]);
    }
    if watch_verdict(start_nanos, before) is Some {
        law_unready_child_is_not_left_running(seen, start_nanos, before);
    } else {
        assert(rounds.last() == rounds[rounds.len() - 1]);
    }
}

/// Two upgrades never run at once: the second one is refused, and the flag stays raised.
pub proof fn law_one_upgrade_at_a_time(seen: UpgradeSeen)
    ensures
        attempt_outcome(true, seen) == Err::<(), UpgradeErrorView>(
            UpgradeErrorView::NotStarted("Already in upgrade"@),
        ),
        flag_after(true, seen),
{
}

/// An upgrade succeeds exactly where the child wrote the ready message and was found running by
/// the watch; no other bytes count.
pub proof fn law_upgrade_success(read: Option<Seq<u8>>, child: FinishedView)
    ensures
        upgrade_result(Some(ready_verdict(read)), child) is Ok <==> (read == Some(READY_MESSAGE@)
            && child is Ok),
{
}

/// A child that exits or runs out of time fails the upgrade with that error, even where it had
/// declared itself ready.
pub proof fn law_child_fate_wins(ready: Option<FinishedView>, error: UpgradeErrorView)
    ensures
        upgrade_result(ready, Err(error)) == Err::<(), UpgradeErrorView>(error),
{
}

/// The child can use what it is told of: after the operations between fork and exec, the
/// descriptors that stay open are those of the list that is written to it, and in its order.
pub proof fn law_child_gets_open_descriptors(fds: Seq<ListenerView>)
    ensures
        keep_open(fds).len() == fds.len(),
        forall|i: int|
            0 <= i < fds.len() ==> #[trigger] keep_open(fds)[i] == FdOp::UnsetCloexec(
                fds_of(fds)[i],
            ),
{
}

/// An error is what it is, with its text, and its message holds that text to the letter.
pub proof fn law_error_is_what_it_is(e: UpgradeError)
    ensures
        match e {
            UpgradeError::ChildExit => e@ == UpgradeErrorView::ChildExit && upgrade_error_text(e@)
                == "child exited unexpectedly"@,
            UpgradeError::ChildTimeout => e@ == UpgradeErrorView::ChildTimeout
                && upgrade_error_text(e@) == "timed out waiting for ready signal from child"@,
            UpgradeError::NotStarted(s) => e@ == UpgradeErrorView::NotStarted(s@)
                && upgrade_error_text(e@) == "upgrade not started: "@ + s@,
            UpgradeError::SerializationError(s) => e@ == UpgradeErrorView::SerializationError(s@)
                && upgrade_error_text(e@) == "serialization error: "@ + s@,
        },
        finished_view(Err(e)) == Err::<(), UpgradeErrorView>(e@),
        opt_finished_view(Some(Err(e))) == Some(Err::<(), UpgradeErrorView>(e@)),
{
}

/// Success is success.
pub proof fn law_success_is_success(done: ())
    ensures
        finished_view(Ok(done)) is Ok,
        opt_finished_view(Some(Ok(done))) is Some,
        opt_finished_view(Some(Ok(done)))->0 is Ok,
        opt_finished_view(None) is None,
        is_ready(opt_finished_view(Some(Ok(done)))),
        !is_ready(None),
        opt_bytes_view(None) is None,
{
}

/// An error of the operating system keeps an upgrade from starting, and is named by its debug text.
pub proof fn law_io_error_is_not_started(e: IoError)
    ensures
        UpgradeError::from_spec(e) == UpgradeError::NotStarted(e.debug),
{
}

/// Lists of texts are seen text by text.
pub proof fn law_texts_are_what_they_are(texts: Seq<String>, pairs: Seq<(String, String)>)
    ensures
        strings_view(texts).len() == texts.len(),
        forall|i: int| 0 <= i < texts.len() ==> #[trigger] strings_view(texts)[i] == texts[i]@,
        pairs_view(pairs).len() == pairs.len(),
        forall|i: int|
            0 <= i < pairs.len() ==> (#[trigger] pairs_view(pairs)[i]).0 == pairs[i].0@
                && pairs_view(pairs)[i].1 == pairs[i].1@,
{
}

/// Only the two bytes of the ready message, in their order, count as readiness.
pub proof fn law_only_the_message_counts(read: [u8; 2])
    ensures
        ready_verdict(opt_bytes_view(Some(read))) is Ok <==> read@ == READY_MESSAGE@,
        read@ != READY_MESSAGE@ ==> ready_verdict(opt_bytes_view(Some(read))) == Err::<
            (),
            UpgradeErrorView,
        >(UpgradeErrorView::ChildExit),
        ready_verdict(opt_bytes_view(None)) == Err::<(), UpgradeErrorView>(
            UpgradeErrorView::ChildExit,
        ),
{
}

/// The outcome of an upgrade that was launched: the error of the watch, where there is one; else
/// that of the readiness; else success. Where the wait for readiness broke down, the child counts
/// as gone.
pub proof fn law_launched_upgrade(seen: UpgradeSeen)
    requires
        seen.listener_pipe is Ok,
        seen.ready_pipe is Ok,
        seen.launch is Ok,
    ensures
        match (seen.watch, seen.ready) {
            (Err(e), _) => seen.outcome() == Err::<(), UpgradeErrorView>(e@),
            (Ok(_), Some(Ok(_))) => seen.outcome() is Ok,
            (Ok(_), Some(Err(e))) => seen.outcome() == Err::<(), UpgradeErrorView>(e@),
            (Ok(_), None) => seen.outcome() == Err::<(), UpgradeErrorView>(
                UpgradeErrorView::ChildExit,
            ),
        },
        seen.launched(),
        seen.child_ends() == seq![seen.listener_pipe->Ok_0, seen.ready_pipe->Ok_0],
        attempt_outcome(false, seen) == seen.outcome(),
{
}

/// An upgrade that could not be launched fails with the first error on the way, and leaves as many
/// ends of pipes to close as were made.
pub proof fn law_unlaunched_upgrade(seen: UpgradeSeen)
    ensures
        seen.listener_pipe matches Err(e) ==> seen.outcome() == Err::<(), UpgradeErrorView>(
            UpgradeErrorView::NotStarted(e.debug@),
        ) && seen.child_ends().len() == 0 && !seen.launched(),
        seen.listener_pipe is Ok ==> (seen.ready_pipe matches Err(e) ==> seen.outcome() == Err::<
            (),
            UpgradeErrorView,
        >(UpgradeErrorView::NotStarted(e.debug@)) && seen.child_ends() == seq![
            seen.listener_pipe->Ok_0,
        ] && !seen.launched()),
        seen.listener_pipe is Ok && seen.ready_pipe is Ok ==> (seen.launch matches Err(e)
            ==> seen.outcome() == Err::<(), UpgradeErrorView>(
            UpgradeErrorView::NotStarted(e.debug@),
        ) && seen.child_ends() == seq![seen.listener_pipe->Ok_0, seen.ready_pipe->Ok_0]
            && !seen.launched()),
{
}

/// The flag is given back: an upgrade leaves it as it found it, whatever it saw. In between, it is
/// lowered by readiness, and by nothing else that becomes of the wait for it.
pub proof fn law_flag_is_given_back(upgrading: bool, seen: UpgradeSeen)
    ensures
        flag_after(upgrading, seen) == upgrading,
        seen.ready matches Some(Ok(_)) ==> !flag_watched(true, opt_finished_view(seen.ready))
            && flag_settled(upgrading, opt_finished_view(seen.ready)) == upgrading,
        !(seen.ready matches Some(Ok(_))) ==> flag_watched(true, opt_finished_view(seen.ready))
            && !flag_settled(upgrading, opt_finished_view(seen.ready)),
{
}

/// The child keeps each descriptor of its list, and no other, across the exec.
pub proof fn law_each_descriptor_is_kept_open(fds: Seq<ListenerView>)
    ensures
        keep_open(fds).len() == fds.len(),
        forall|i: int|
            0 <= i < fds.len() ==> #[trigger] keep_open(fds)[i] == FdOp::UnsetCloexec(fds[i].fd),
{
}

} // verus!
