//! Laws of the dispatcher, stated over the contracts of `plan` and
//! `conclude` and proved once for all inputs. Each law names the half the
//! library owns: what action a command issues and what response an outcome
//! earns. The operating system's half — that a file keeps what was written,
//! that an open with `create_new` fails on an existing path — is the
//! documented meaning of the issued action, which only the OS can honor.

use vstd::prelude::*;
use crate::command::Command;
use crate::descriptor::{append_open, redirect_open, write_open};
use crate::dispatch::{
    code_or_none, conclude_ok, lossy_of, plan_spec, Action, Outcome, Step,
};
use crate::error::Error;
use crate::json::Json;
use crate::registry::has_handle;

verus! {

/// Law: a `write` command issues exactly one truncating create-write of its
/// text to its path, a `read` of the same path issues exactly one
/// whole-file read, and a read outcome of some text is answered with
/// exactly that text. So whenever the file system hands the read what the
/// write put down, the read-after-write response equals the written text.
pub proof fn lemma_write_read_round_trip<T>(
    path: String,
    text: String,
    reg0: Seq<(u32, T)>,
    step_w: Step<T>,
    reg1: Seq<(u32, T)>,
    step_r: Step<T>,
    reg2: Seq<(u32, T)>,
    r: Result<Json, Error>,
)
    requires
        plan_spec(Command::write { path, text, must_new: None }, reg0, step_w, reg1),
        plan_spec(Command::read(path), reg1, step_r, reg2),
        conclude_ok(Outcome::Text(text), r),
    ensures
        step_w == Step::Do(Action::<T>::WriteFile { path, text, opts: write_open(false) }),
        write_open(false).truncate && write_open(false).create && !write_open(false).create_new,
        step_r == Step::Do(Action::<T>::ReadFile(path)),
        r == Result::<Json, Error>::Ok(Json::Str(text)),
        reg2 == reg0,
{
}

/// Law: the "must be new" flag of `write` decides exactly the `create_new`
/// bit of the one open the command issues — set, the open refuses an
/// existing path; unset, the open creates or truncates and cannot fail on
/// existence. Both opens create and truncate alike.
pub proof fn lemma_write_must_new<T>(
    path: String,
    text: String,
    must_new: Option<bool>,
    reg0: Seq<(u32, T)>,
    step: Step<T>,
    reg1: Seq<(u32, T)>,
)
    requires
        plan_spec(Command::write { path, text, must_new }, reg0, step, reg1),
    ensures
        step == Step::Do(
            Action::<T>::WriteFile {
                path,
                text,
                opts: write_open(must_new == Some(true)),
            },
        ),
        write_open(must_new == Some(true)).create_new == (must_new == Some(true)),
        write_open(must_new == Some(true)).create,
        write_open(must_new == Some(true)).truncate,
{
}

/// Law: `append` issues exactly one append-mode open-and-write, and the
/// "may create" side of its flag decides exactly the `create` bit: without
/// it the open fails on a missing path, with it the open creates the file
/// and the appended text becomes its content. Append mode never truncates.
pub proof fn lemma_append_flags<T>(
    path: String,
    text: String,
    must_exist: Option<bool>,
    reg0: Seq<(u32, T)>,
    step: Step<T>,
    reg1: Seq<(u32, T)>,
)
    requires
        plan_spec(Command::append { path, text, must_exist }, reg0, step, reg1),
    ensures
        step == Step::Do(
            Action::<T>::AppendFile {
                path,
                text,
                opts: append_open(must_exist != Some(true)),
            },
        ),
        append_open(must_exist != Some(true)).create == (must_exist != Some(true)),
        append_open(must_exist != Some(true)).append,
        !append_open(must_exist != Some(true)).truncate,
{
}

/// Law: an unset environment variable is answered with JSON null — never
/// with an error.
pub proof fn lemma_get_env_unset(r: Result<Json, Error>)
    requires
        conclude_ok(Outcome::MaybeVar(None), r),
    ensures
        r == Result::<Json, Error>::Ok(Json::Null),
        r is Ok,
{
}

/// Law: a handle consumed by one `wait_id` or `kill_id` is rejected by the
/// next `wait_id` or `kill_id` naming it: once the first dispatch took the
/// child out, the second answers the unknown-handle error and changes
/// nothing.
pub proof fn lemma_handle_consumed<T>(
    id: u32,
    output: Option<bool>,
    cmd2: Command,
    reg0: Seq<(u32, T)>,
    step1: Step<T>,
    reg1: Seq<(u32, T)>,
    step2: Step<T>,
    reg2: Seq<(u32, T)>,
)
    requires
        plan_spec(Command::wait_id { id, output }, reg0, step1, reg1),
        (step1 matches Step::Do(_)),
        (cmd2 == (Command::kill_id { id }) || (exists|o2: Option<bool>|
            cmd2 == (Command::wait_id { id, output: o2 }))),
        plan_spec(cmd2, reg1, step2, reg2),
    ensures
        step2 == Step::Done::<T>(Err(Error::InvalidProcessorId(id))),
        reg2 == reg1,
{
    if !has_handle(reg0, id) {
        assert(step1 == Step::Done::<T>(Err(Error::InvalidProcessorId(id))));
        assert(false);
    }
    assert(!has_handle(reg1, id));
}

/// Law: a child's exit status is reported exactly — code N answers N, and a
/// signal-terminated child with no code answers the reserved sentinel.
/// This holds alike for `system`, `popen`, `command` and `wait_id`, whose
/// status member goes through the same `code_or_none`.
pub proof fn lemma_exit_code_exact(c: Option<i32>, r: Result<Json, Error>)
    requires
        conclude_ok(Outcome::Code(c), r),
    ensures
        c matches Some(n) ==> r == Result::<Json, Error>::Ok(Json::Int(n as i64)),
        c is None ==> r == Result::<Json, Error>::Ok(
            Json::Int(crate::NONE_EXIT_CODE as i64),
        ),
{
}

/// Law: `popen` issues a run whose stdout alone is captured, and its
/// response carries exactly the decoded captured bytes and the status —
/// no `stderr` member exists, so stderr content cannot reach the result.
pub proof fn lemma_popen_stdout_only<T>(
    prog: String,
    args: Vec<String>,
    stdout: Vec<u8>,
    code: Option<i32>,
    reg0: Seq<(u32, T)>,
    step: Step<T>,
    reg1: Seq<(u32, T)>,
    r: Result<Json, Error>,
)
    requires
        plan_spec(Command::popen(prog, args), reg0, step, reg1),
        conclude_ok(Outcome::CapturedOut { stdout, code }, r),
    ensures
        step == Step::Do(Action::<T>::RunCaptureOut { prog, args }),
        r matches Ok(j) && j matches Json::Obj(o) && o@.len() == 2 && (o@[0].1 matches Json::Str(t)
            && t@ == lossy_of(stdout@)) && o@[1].1 == Json::Int(code_or_none(code)),
        r matches Ok(j) && j matches Json::Obj(o) ==> forall|i: int|
            0 <= i < o@.len() ==> (#[trigger] o@[i].0)@ != "stderr"@,
{
    reveal_strlit("stdout");
    reveal_strlit("status");
    reveal_strlit("stderr");
    assert("stdout"@ =~= seq!['s', 't', 'd', 'o', 'u', 't']);
    assert("status"@ =~= seq!['s', 't', 'a', 't', 'u', 's']);
    assert("stderr"@ =~= seq!['s', 't', 'd', 'e', 'r', 'r']);
    assert("stdout"@[3] == 'o' && "stderr"@[3] == 'e');
    assert("status"@[2] == 'a' && "stderr"@[2] == 'd');
    assert("stdout"@ != "stderr"@);
    assert("status"@ != "stderr"@);
}

/// Law: a redirection target's open mode is decided by its append flag
/// alone — append set means append mode, unset means truncate — and the
/// two modes are mutually exclusive in every case, so pre-existing content
/// is either wholly kept (and appended after) or wholly replaced.
pub proof fn lemma_redirect_append_exclusive()
    ensures
        forall|flag: bool| #[trigger] redirect_open(flag).append == flag,
        forall|flag: bool| #[trigger] redirect_open(flag).truncate == !flag,
        forall|flag: bool|
            !(#[trigger] redirect_open(flag).append && redirect_open(flag).truncate),
        forall|flag: bool| #[trigger] redirect_open(flag).create,
{
}

} // verus!

