//! The command dispatcher.
//!
//! Dispatching one command is split in two verified halves around the one
//! operating-system call it may need. `Command::plan` maps a command and the
//! bridge's mutable state to a `Step`: either the exact OS action the front
//! end must perform, or a finished result needing no OS work. `conclude`
//! maps the action's `Outcome` — plain values the front end hands back — to
//! the one `Result` the response envelope reports. The front end in between
//! is a mechanical interpreter of `Action`; every decision stands here,
//! under contract.

use vstd::prelude::*;
use rand::Rng;
use crate::NONE_EXIT_CODE;
use crate::IsTrue;
use crate::command::Command;
use crate::descriptor::{append_open, write_open, CommandBuilder, OpenSpec};
use crate::error::Error;
use crate::json::{json_chars, to_text, Json};
use crate::registry::{has_handle, Registry};

verus! {

/// A path or OS string as the front end saw it: `text` is the value itself
/// when `valid` is set, and its lossy rendering otherwise.
#[derive(Debug, PartialEq, Eq)]
pub struct PathOut {
    pub valid: bool,
    pub text: String,
}

/// A point in time as seconds and nanoseconds of the unix epoch.
#[derive(Clone, Copy, Debug, PartialEq, Eq, Structural)]
pub struct Timestamp {
    pub secs: i64,
    pub nanos: u32,
}

/// The one operating-system call a command needs, with every parameter the
/// front end must use pinned by `plan`'s contract.
#[derive(Debug, PartialEq, Eq)]
pub enum Action<T> {
    /// Read the whole file as text.
    ReadFile(String),
    /// Open per `opts` and write `text`.
    WriteFile { path: String, text: String, opts: OpenSpec },
    /// Open per `opts` and write `text` at the end.
    AppendFile { path: String, text: String, opts: OpenSpec },
    /// List the directory's entries, in the order the OS yields them.
    ReadDir(String),
    /// Read the link's target path.
    ReadLink(String),
    /// Basic file metadata.
    Metadata(String),
    /// Metadata with access/modify/creation timestamps.
    MetadataExtra(String),
    /// Whether the path exists.
    Exists(String),
    /// Whether the path is a symlink, by the non-dereferencing stat form.
    IsSymlink(String),
    /// Whether the path is a directory.
    IsDir(String),
    /// Whether the path is a regular file.
    IsFile(String),
    /// Write `text` to the bridge's own stdout, plus a newline if asked.
    WriteOut { text: String, newline: bool },
    /// Write `value` to the bridge's own stdout in indented form.
    PrettyOut { value: Json, newline: bool },
    /// Read all remaining input from the bridge's own stdin.
    ReadAllInput,
    /// Read one line from the bridge's own stdin.
    ReadInputLine,
    /// The current working directory.
    CurrentDir,
    /// The temporary-files directory.
    TempDir,
    /// Read one environment variable.
    GetEnv(String),
    /// Set one environment variable.
    SetEnv(String, String),
    /// Remove one environment variable.
    RemoveEnv(String),
    /// Spawn with all three streams inherited; block until exit.
    RunInherit { prog: String, args: Vec<String> },
    /// Spawn with stdout captured and stderr inherited; block until exit.
    RunCaptureOut { prog: String, args: Vec<String> },
    /// Spawn under the full launch descriptor; capture stdout and stderr.
    Launch { prog: String, builder: CommandBuilder },
    /// Block on the registered child, capturing its output if asked.
    WaitChild { child: T, capture: bool },
    /// Send the registered child a termination signal.
    KillChild { child: T },
    /// The bridge's own process id.
    ProcessId,
    /// Draw a floating value in [0,1) and render it as decimal text.
    DrawFloat,
    /// Terminate the whole bridge with this status; never returns.
    Exit(i32),
}

/// What planning one command yields: an OS action to perform, or a finished
/// result that needed no OS work.
#[derive(Debug, PartialEq, Eq)]
pub enum Step<T> {
    Do(Action<T>),
    Done(Result<Json, Error>),
}

/// What the front end's OS call came back with, as plain values.
#[derive(Debug, PartialEq, Eq)]
pub enum Outcome {
    /// The call failed; the OS's description of why.
    Failed(String),
    /// The call succeeded with nothing to report.
    Unit,
    /// The call produced this text.
    Text(String),
    /// The call produced a path.
    PathText(PathOut),
    /// The directory's entries, in order.
    Entries(Vec<PathOut>),
    /// The call produced a boolean fact.
    Flag(bool),
    /// Basic metadata.
    Meta { readonly: bool, is_file: bool, is_dir: bool, len: u64 },
    /// Metadata with timestamps.
    MetaExtra {
        readonly: bool,
        is_file: bool,
        is_dir: bool,
        len: u64,
        accessed: Timestamp,
        modified: Timestamp,
        created: Timestamp,
    },
    /// The environment variable's value, or `None` when it is unset.
    MaybeVar(Option<PathOut>),
    /// The child's exit code, or `None` when a signal terminated it.
    Code(Option<i32>),
    /// Captured stdout bytes and the exit code.
    CapturedOut { stdout: Vec<u8>, code: Option<i32> },
    /// Captured stdout and stderr bytes and the exit code.
    Captured { stdout: Vec<u8>, stderr: Vec<u8>, code: Option<i32> },
    /// The bridge's own process id.
    Pid(u32),
    /// A number already rendered as decimal text.
    NumText(String),
}

#[verifier::external_type_specification]
#[verifier::external_body]
pub struct ExThreadRng(rand::rngs::ThreadRng);

/// Relies on `rand::rng`: a handle to the thread-local random generator.
#[verifier::external_body]
fn fresh_rng() -> rand::rngs::ThreadRng {
    rand::rng()
}

/// Relies on `rand::Rng::random::<u64>`: one draw from the generator.
/// Nothing is promised of the value.
#[verifier::external_body]
fn draw_u64(rng: &mut rand::rngs::ThreadRng) -> u64 {
    rng.random::<u64>()
}

/// What `String::from_utf8_lossy` returns for these bytes.
pub uninterp spec fn lossy_of(b: Seq<u8>) -> Seq<char>;

/// Relies on `String::from_utf8_lossy`: the result is a function of the
/// bytes alone, and valid UTF-8 input — in particular pure ASCII — decodes
/// to exactly its own characters.
#[verifier::external_body]
fn lossy_decode(b: &Vec<u8>) -> (r: String)
    ensures
        r@ == lossy_of(b@),
        (forall|i: int| 0 <= i < b@.len() ==> b@[i] < 128) ==> r@ == b@.map_values(
            |x: u8| x as char,
        ),
{
    String::from_utf8_lossy(b).into_owned()
}

/// What `time::UtcDateTime`'s display text is for this unix timestamp.
pub uninterp spec fn utc_text_of(secs: i64, nanos: u32) -> Seq<char>;

/// Relies on `time::UtcDateTime::from_unix_timestamp_nanos` and its display
/// implementation: the rendered UTC date-time depends on the timestamp
/// alone.
#[verifier::external_body]
fn utc_text(secs: i64, nanos: u32) -> (r: String)
    ensures
        r@ == utc_text_of(secs, nanos),
{
    let total = (secs as i128) * 1_000_000_000 + (nanos as i128);
    match time::UtcDateTime::from_unix_timestamp_nanos(total) {
        Ok(dt) => dt.to_string(),
        Err(_) => String::new(),
    }
}

/// The per-bridge mutable state: the registry of spawned children and the
/// process-wide random source. One value of this is threaded through every
/// dispatch; nothing else survives from one command to the next.
pub struct Context<T> {
    sub_processors: Registry<T>,
    thread_rng: rand::rngs::ThreadRng,
}

impl<T> Context<T> {
    /// The registered children, as (handle, child) entries.
    pub closed spec fn view(&self) -> Seq<(u32, T)> {
        self.sub_processors@
    }

    /// Well-formedness: registry handles are unique.
    pub open spec fn wf(&self) -> bool {
        crate::registry::handles_unique(self@)
    }

    /// A fresh context: empty registry, thread-local random source.
    pub fn new() -> (r: Context<T>)
        ensures
            r@ == Seq::<(u32, T)>::empty(),
            r.wf(),
    {
        Context { sub_processors: Registry::new(), thread_rng: fresh_rng() }
    }

    /// Registers `child` under `id`; refuses a handle already in use.
    pub fn register(&mut self, id: u32, child: T) -> (ok: bool)
        requires
            old(self).wf(),
        ensures
            final(self).wf(),
            ok == !has_handle(old(self)@, id),
            ok ==> final(self)@ == old(self)@.push((id, child)),
            !ok ==> final(self)@ == old(self)@,
    {
        self.sub_processors.register(id, child)
    }

    /// Consumes the child registered under `id`. After this call the handle
    /// is gone: a second `child` with the same handle fails.
    pub fn child(&mut self, id: u32) -> (r: Result<T, Error>)
        requires
            old(self).wf(),
        ensures
            final(self).wf(),
            r is Ok <==> has_handle(old(self)@, id),
            !has_handle(final(self)@, id),
            r matches Ok(c) ==> exists|i: int|
                0 <= i < old(self)@.len() && #[trigger] old(self)@[i] == (id, c)
                    && final(self)@ == old(self)@.remove(i),
            r matches Err(e) ==> e == Error::InvalidProcessorId(id) && final(self)@ == old(self)@,
    {
        match self.sub_processors.take(id) {
            Some(c) => Ok(c),
            None => Err(Error::InvalidProcessorId(id)),
        }
    }
}

impl<T> Default for Context<T> {
    fn default() -> (r: Context<T>)
        ensures
            r@ == Seq::<(u32, T)>::empty(),
            r.wf(),
    {
        Context::new()
    }
}

/// The text `print`/`println` write: a string value stands as its raw text,
/// every other value as its wire text.
pub open spec fn print_text(v: Json) -> Seq<char> {
    match v {
        Json::Str(s) => s@,
        _ => json_chars(v),
    }
}

/// The exit status a subprocess reports: its own code, or the reserved
/// sentinel when a signal terminated it and no code exists.
pub open spec fn code_or_none(c: Option<i32>) -> i64 {
    match c {
        Some(n) => n as i64,
        None => NONE_EXIT_CODE as i64,
    }
}

/// Exactly what `Command::plan` decides, for every command: which step comes
/// out of registry state `reg0`, and what registry state `reg1` is left.
pub open spec fn plan_spec<T>(
    cmd: Command,
    reg0: Seq<(u32, T)>,
    step: Step<T>,
    reg1: Seq<(u32, T)>,
) -> bool {
    match cmd {
        Command::read(path) => step == Step::Do(Action::<T>::ReadFile(path)) && reg1 == reg0,
        Command::write { path, text, must_new } => step == Step::Do(
            Action::<T>::WriteFile { path, text, opts: write_open(must_new.spec_is_true()) },
        ) && reg1 == reg0,
        Command::append { path, text, must_exist } => step == Step::Do(
            Action::<T>::AppendFile { path, text, opts: append_open(!must_exist.spec_is_true()) },
        ) && reg1 == reg0,
        Command::read_dir(path) => step == Step::Do(Action::<T>::ReadDir(path)) && reg1 == reg0,
        Command::read_link(path) => step == Step::Do(Action::<T>::ReadLink(path)) && reg1 == reg0,
        Command::metadata(path) => step == Step::Do(Action::<T>::Metadata(path)) && reg1 == reg0,
        Command::metadata_extra(path) => step == Step::Do(Action::<T>::MetadataExtra(path))
            && reg1 == reg0,
        Command::path_exists(path) => step == Step::Do(Action::<T>::Exists(path)) && reg1 == reg0,
        Command::is_symlink(path) => step == Step::Do(Action::<T>::IsSymlink(path)) && reg1
            == reg0,
        Command::is_dir(path) => step == Step::Do(Action::<T>::IsDir(path)) && reg1 == reg0,
        Command::is_file(path) => step == Step::Do(Action::<T>::IsFile(path)) && reg1 == reg0,
        Command::print(v) => (step matches Step::Do(a) && a matches Action::WriteOut {
            text,
            newline,
        } && text@ == print_text(v) && newline == false) && reg1 == reg0,
        Command::println(v) => (step matches Step::Do(a) && a matches Action::WriteOut {
            text,
            newline,
        } && text@ == print_text(v) && newline == true) && reg1 == reg0,
        Command::pretty(v) => step == Step::Do(Action::<T>::PrettyOut { value: v, newline: true })
            && reg1 == reg0,
        Command::pretty_pipe(v) => (step matches Step::Do(a) && a matches Action::WriteOut {
            text,
            newline,
        } && text@ == json_chars(v) && newline == true) && reg1 == reg0,
        Command::stdin => step == Step::Do(Action::<T>::ReadAllInput) && reg1 == reg0,
        Command::stdin_line => step == Step::Do(Action::<T>::ReadInputLine) && reg1 == reg0,
        Command::current_dir => step == Step::Do(Action::<T>::CurrentDir) && reg1 == reg0,
        Command::temp_dir => step == Step::Do(Action::<T>::TempDir) && reg1 == reg0,
        Command::get_env(name) => step == Step::Do(Action::<T>::GetEnv(name)) && reg1 == reg0,
        Command::set_env(name, value) => step == Step::Do(Action::<T>::SetEnv(name, value))
            && reg1 == reg0,
        Command::remove_env(name) => step == Step::Do(Action::<T>::RemoveEnv(name)) && reg1
            == reg0,
        Command::system(prog, args) => step == Step::Do(Action::<T>::RunInherit { prog, args })
            && reg1 == reg0,
        Command::popen(prog, args) => step == Step::Do(Action::<T>::RunCaptureOut { prog, args })
            && reg1 == reg0,
        Command::command(prog, builder) => step == Step::Do(
            Action::<T>::Launch { prog, builder },
        ) && reg1 == reg0,
        Command::wait_id { id, output } => if has_handle(reg0, id) {
            (step matches Step::Do(a) && a matches Action::WaitChild { child, capture } && capture
                == output.spec_is_true() && exists|i: int|
                0 <= i < reg0.len() && #[trigger] reg0[i] == (id, child) && reg1 == reg0.remove(i))
                && !has_handle(reg1, id)
        } else {
            step == Step::Done::<T>(Err(Error::InvalidProcessorId(id))) && reg1 == reg0
        },
        Command::kill_id { id } => if has_handle(reg0, id) {
            (step matches Step::Do(a) && a matches Action::KillChild { child } && exists|i: int|
                0 <= i < reg0.len() && #[trigger] reg0[i] == (id, child) && reg1 == reg0.remove(i))
                && !has_handle(reg1, id)
        } else {
            step == Step::Done::<T>(Err(Error::InvalidProcessorId(id))) && reg1 == reg0
        },
        Command::process_id => step == Step::Do(Action::<T>::ProcessId) && reg1 == reg0,
        Command::random => (step matches Step::Done(r) && r matches Ok(j) && j matches Json::UInt(
            _,
        )) && reg1 == reg0,
        Command::random_float => step == Step::Do(Action::<T>::DrawFloat) && reg1 == reg0,
        Command::exit(code) => step == Step::Do(Action::<T>::Exit(code)) && reg1 == reg0,
    }
}

/// The response owed for a directory listing: every entry's path as text,
/// in order, or the "invalid string" error of the first entry that is not
/// representable as text.
pub open spec fn entries_ok(es: Seq<PathOut>, r: Result<Json, Error>) -> bool {
    if forall|i: int| 0 <= i < es.len() ==> (#[trigger] es[i]).valid {
        r matches Ok(j) && j matches Json::Arr(a) && a@.len() == es.len() && forall|i: int|
            0 <= i < es.len() ==> #[trigger] a@[i] == Json::Str(es[i].text)
    } else {
        exists|i: int|
            0 <= i < es.len() && !(#[trigger] es[i]).valid && (forall|j: int|
                0 <= j < i ==> (#[trigger] es[j]).valid) && r == Result::<Json, Error>::Err(
                Error::InvalidString(es[i].text),
            )
    }
}

/// The response owed for basic metadata: an object with the `readonly`,
/// `is_file`, `id_dir` and `len` members in that order (the `id_dir`
/// spelling is part of the wire format).
pub open spec fn meta_ok(
    readonly: bool,
    is_file: bool,
    is_dir: bool,
    len: u64,
    r: Result<Json, Error>,
) -> bool {
    r matches Ok(j) && j matches Json::Obj(o) && o@.len() == 4 && o@[0].0@ == "readonly"@
        && o@[0].1 == Json::Bool(readonly) && o@[1].0@ == "is_file"@ && o@[1].1 == Json::Bool(
        is_file,
    ) && o@[2].0@ == "id_dir"@ && o@[2].1 == Json::Bool(is_dir) && o@[3].0@ == "len"@ && o@[3].1
        == Json::UInt(len)
}

/// The response owed for extended metadata: the basic members followed by
/// the three timestamps rendered as UTC date-time text.
pub open spec fn meta_extra_ok(
    readonly: bool,
    is_file: bool,
    is_dir: bool,
    len: u64,
    accessed: Timestamp,
    modified: Timestamp,
    created: Timestamp,
    r: Result<Json, Error>,
) -> bool {
    r matches Ok(j) && j matches Json::Obj(o) && o@.len() == 7 && o@[0].0@ == "readonly"@
        && o@[0].1 == Json::Bool(readonly) && o@[1].0@ == "is_file"@ && o@[1].1 == Json::Bool(
        is_file,
    ) && o@[2].0@ == "id_dir"@ && o@[2].1 == Json::Bool(is_dir) && o@[3].0@ == "len"@ && o@[3].1
        == Json::UInt(len) && o@[4].0@ == "accessed"@ && (o@[4].1 matches Json::Str(t1) && t1@
        == utc_text_of(accessed.secs, accessed.nanos)) && o@[5].0@ == "modified"@ && (o@[5].1
        matches Json::Str(t2) && t2@ == utc_text_of(modified.secs, modified.nanos)) && o@[6].0@
        == "created"@ && (o@[6].1 matches Json::Str(t3) && t3@ == utc_text_of(
        created.secs,
        created.nanos,
    ))
}

/// The response owed for a captured run: the decoded stdout text — stderr
/// never appears — and the exit status, sentinel included.
pub open spec fn popen_ok(stdout: Seq<u8>, code: Option<i32>, r: Result<Json, Error>) -> bool {
    r matches Ok(j) && j matches Json::Obj(o) && o@.len() == 2 && o@[0].0@ == "stdout"@ && (o@[0].1
        matches Json::Str(t) && t@ == lossy_of(stdout)) && o@[1].0@ == "status"@ && o@[1].1
        == Json::Int(code_or_none(code))
}

/// The response owed for a fully captured run: decoded stdout and stderr
/// texts and the exit status, sentinel included.
pub open spec fn captured_ok(
    stdout: Seq<u8>,
    stderr: Seq<u8>,
    code: Option<i32>,
    r: Result<Json, Error>,
) -> bool {
    r matches Ok(j) && j matches Json::Obj(o) && o@.len() == 3 && o@[0].0@ == "stdout"@ && (o@[0].1
        matches Json::Str(t) && t@ == lossy_of(stdout)) && o@[1].0@ == "stderr"@ && (o@[1].1
        matches Json::Str(u) && u@ == lossy_of(stderr)) && o@[2].0@ == "status"@ && o@[2].1
        == Json::Int(code_or_none(code))
}

/// Exactly what `conclude` answers for every outcome.
pub open spec fn conclude_ok(o: Outcome, r: Result<Json, Error>) -> bool {
    match o {
        Outcome::Failed(m) => r == Result::<Json, Error>::Err(Error::IoError(m)),
        Outcome::Unit => r == Result::<Json, Error>::Ok(Json::Null),
        Outcome::Text(s) => r == Result::<Json, Error>::Ok(Json::Str(s)),
        Outcome::PathText(p) => if p.valid {
            r == Result::<Json, Error>::Ok(Json::Str(p.text))
        } else {
            r == Result::<Json, Error>::Err(Error::InvalidString(p.text))
        },
        Outcome::Entries(es) => entries_ok(es@, r),
        Outcome::Flag(b) => r == Result::<Json, Error>::Ok(Json::Bool(b)),
        Outcome::Meta { readonly, is_file, is_dir, len } => meta_ok(
            readonly,
            is_file,
            is_dir,
            len,
            r,
        ),
        Outcome::MetaExtra { readonly, is_file, is_dir, len, accessed, modified, created } => meta_extra_ok(
            readonly,
            is_file,
            is_dir,
            len,
            accessed,
            modified,
            created,
            r,
        ),
        Outcome::MaybeVar(ov) => match ov {
            None => r == Result::<Json, Error>::Ok(Json::Null),
            Some(p) => if p.valid {
                r == Result::<Json, Error>::Ok(Json::Str(p.text))
            } else {
                r == Result::<Json, Error>::Err(Error::InvalidString(p.text))
            },
        },
        Outcome::Code(c) => r == Result::<Json, Error>::Ok(Json::Int(code_or_none(c))),
        Outcome::CapturedOut { stdout, code } => popen_ok(stdout@, code, r),
        Outcome::Captured { stdout, stderr, code } => captured_ok(stdout@, stderr@, code, r),
        Outcome::Pid(p) => r == Result::<Json, Error>::Ok(Json::UInt(p as u64)),
        Outcome::NumText(s) => r == Result::<Json, Error>::Ok(Json::Num(s)),
    }
}

/// The exit status as a JSON number, substituting the reserved sentinel
/// when the OS reports no code.
fn code_value(c: Option<i32>) -> (r: Json)
    ensures
        r == Json::Int(code_or_none(c)),
{
    match c {
        Some(n) => Json::Int(n as i64),
        None => Json::Int(NONE_EXIT_CODE as i64),
    }
}

/// Turns what the operating system came back with into the one result the
/// response envelope reports. Every mapping — including the reserved
/// exit-code sentinel, the lossy decoding of captured output, and the
/// first-failure rule for directory listings — is pinned by `conclude_ok`.
#[verifier::loop_isolation(false)]
pub fn conclude(o: Outcome) -> (r: Result<Json, Error>)
    ensures
        conclude_ok(o, r),
{
    match o {
        Outcome::Failed(m) => Err(Error::IoError(m)),
        Outcome::Unit => Ok(Json::Null),
        Outcome::Text(s) => Ok(Json::Str(s)),
        Outcome::PathText(p) => {
            if p.valid {
                Ok(Json::Str(p.text))
            } else {
                Err(Error::InvalidString(p.text))
            }
        },
        Outcome::Entries(es) => {
            let mut arr: Vec<Json> = Vec::new();
            let n = es.len();
            for i in 0..n
                invariant
                    arr@.len() == i,
                    forall|j: int| 0 <= j < i ==> (#[trigger] es@[j]).valid,
                    forall|j: int| 0 <= j < i ==> #[trigger] arr@[j] == Json::Str(es@[j].text),
            {
                if !es[i].valid {
                    return Err(Error::InvalidString(es[i].text.clone()));
                }
                arr.push(Json::Str(es[i].text.clone()));
            }
            Ok(Json::Arr(arr))
        },
        Outcome::Flag(b) => Ok(Json::Bool(b)),
        Outcome::Meta { readonly, is_file, is_dir, len } => {
            let mut o: Vec<(String, Json)> = Vec::new();
            o.push((String::from_str("readonly"), Json::Bool(readonly)));
            o.push((String::from_str("is_file"), Json::Bool(is_file)));
            o.push((String::from_str("id_dir"), Json::Bool(is_dir)));
            o.push((String::from_str("len"), Json::UInt(len)));
            Ok(Json::Obj(o))
        },
        Outcome::MetaExtra { readonly, is_file, is_dir, len, accessed, modified, created } => {
            let mut o: Vec<(String, Json)> = Vec::new();
            o.push((String::from_str("readonly"), Json::Bool(readonly)));
            o.push((String::from_str("is_file"), Json::Bool(is_file)));
            o.push((String::from_str("id_dir"), Json::Bool(is_dir)));
            o.push((String::from_str("len"), Json::UInt(len)));
            o.push(
                (String::from_str("accessed"), Json::Str(utc_text(accessed.secs, accessed.nanos))),
            );
            o.push(
                (String::from_str("modified"), Json::Str(utc_text(modified.secs, modified.nanos))),
            );
            o.push(
                (String::from_str("created"), Json::Str(utc_text(created.secs, created.nanos))),
            );
            Ok(Json::Obj(o))
        },
        Outcome::MaybeVar(ov) => {
            match ov {
                None => Ok(Json::Null),
                Some(p) => {
                    if p.valid {
                        Ok(Json::Str(p.text))
                    } else {
                        Err(Error::InvalidString(p.text))
                    }
                },
            }
        },
        Outcome::Code(c) => Ok(code_value(c)),
        Outcome::CapturedOut { stdout, code } => {
            let mut o: Vec<(String, Json)> = Vec::new();
            o.push((String::from_str("stdout"), Json::Str(lossy_decode(&stdout))));
            o.push((String::from_str("status"), code_value(code)));
            Ok(Json::Obj(o))
        },
        Outcome::Captured { stdout, stderr, code } => {
            let mut o: Vec<(String, Json)> = Vec::new();
            o.push((String::from_str("stdout"), Json::Str(lossy_decode(&stdout))));
            o.push((String::from_str("stderr"), Json::Str(lossy_decode(&stderr))));
            o.push((String::from_str("status"), code_value(code)));
            Ok(Json::Obj(o))
        },
        Outcome::Pid(p) => Ok(Json::UInt(p as u64)),
        Outcome::NumText(s) => Ok(Json::Num(s)),
    }
}

impl Command {
    /// Decides what one command needs from the operating system.
    ///
    /// Consumes the command and produces either the exact `Action` the front
    /// end must perform — whose outcome then goes to `conclude` — or, for
    /// commands needing no OS work (a failed handle lookup, a random draw),
    /// the finished result itself. The contract `plan_spec` pins the step
    /// and the registry's new state for every variant.
    pub fn plan<T>(self, ctx: &mut Context<T>) -> (step: Step<T>)
        requires
            old(ctx).wf(),
        ensures
            final(ctx).wf(),
            plan_spec(self, old(ctx)@, step, final(ctx)@),
    {
        match self {
            Command::read(path) => Step::Do(Action::ReadFile(path)),
            Command::write { path, text, must_new } => {
                let opts = OpenSpec {
                    read: false,
                    write: true,
                    append: false,
                    truncate: true,
                    create: true,
                    create_new: must_new.is_true(),
                };
                Step::Do(Action::WriteFile { path, text, opts })
            },
            Command::append { path, text, must_exist } => {
                let opts = OpenSpec {
                    read: false,
                    write: false,
                    append: true,
                    truncate: false,
                    create: !must_exist.is_true(),
                    create_new: false,
                };
                Step::Do(Action::AppendFile { path, text, opts })
            },
            Command::read_dir(path) => Step::Do(Action::ReadDir(path)),
            Command::read_link(path) => Step::Do(Action::ReadLink(path)),
            Command::metadata(path) => Step::Do(Action::Metadata(path)),
            Command::metadata_extra(path) => Step::Do(Action::MetadataExtra(path)),
            Command::path_exists(path) => Step::Do(Action::Exists(path)),
            Command::is_symlink(path) => Step::Do(Action::IsSymlink(path)),
            Command::is_dir(path) => Step::Do(Action::IsDir(path)),
            Command::is_file(path) => Step::Do(Action::IsFile(path)),
            Command::print(v) => {
                let text = match &v {
                    Json::Str(s) => s.clone(),
                    _ => to_text(&v),
                };
                Step::Do(Action::WriteOut { text, newline: false })
            },
            Command::println(v) => {
                let text = match &v {
                    Json::Str(s) => s.clone(),
                    _ => to_text(&v),
                };
                Step::Do(Action::WriteOut { text, newline: true })
            },
            Command::pretty(v) => Step::Do(Action::PrettyOut { value: v, newline: true }),
            Command::pretty_pipe(v) => {
                let text = to_text(&v);
                Step::Do(Action::WriteOut { text, newline: true })
            },
            Command::stdin => Step::Do(Action::ReadAllInput),
            Command::stdin_line => Step::Do(Action::ReadInputLine),
            Command::current_dir => Step::Do(Action::CurrentDir),
            Command::temp_dir => Step::Do(Action::TempDir),
            Command::get_env(name) => Step::Do(Action::GetEnv(name)),
            Command::set_env(name, value) => Step::Do(Action::SetEnv(name, value)),
            Command::remove_env(name) => Step::Do(Action::RemoveEnv(name)),
            Command::system(prog, args) => Step::Do(Action::RunInherit { prog, args }),
            Command::popen(prog, args) => Step::Do(Action::RunCaptureOut { prog, args }),
            Command::command(prog, builder) => Step::Do(Action::Launch { prog, builder }),
            Command::wait_id { id, output } => {
                let capture = output.is_true();
                match ctx.child(id) {
                    Ok(c) => Step::Do(Action::WaitChild { child: c, capture }),
                    Err(e) => Step::Done(Err(e)),
                }
            },
            Command::kill_id { id } => {
                match ctx.child(id) {
                    Ok(c) => Step::Do(Action::KillChild { child: c }),
                    Err(e) => Step::Done(Err(e)),
                }
            },
            Command::process_id => Step::Do(Action::ProcessId),
            Command::random => {
                let n = draw_u64(&mut ctx.thread_rng);
                Step::Done(Ok(Json::UInt(n)))
            },
            Command::random_float => Step::Do(Action::DrawFloat),
            Command::exit(code) => Step::Do(Action::Exit(code)),
        }
    }
}

} // verus!
