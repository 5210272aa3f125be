//! The subprocess launch descriptor: pure configuration describing how to
//! start a child process — extra arguments, environment mutations, a working
//! directory override, and redirection targets for the three standard
//! streams. All fields are optional; absence means "inherit".
//!
//! The functions here compute the decisions the front end must carry out:
//! exactly which open options each redirection target gets, and the net
//! environment of the child (optional full clear, then the overrides, then
//! the explicit removals).

use vstd::prelude::*;
use crate::{IsFalse, IsTrue};

verus! {

/// The options a file is opened with. A plain-data mirror of the platform's
/// open options, so that contracts can pin each flag.
#[derive(Clone, Copy, Debug, PartialEq, Eq, Structural)]
pub struct OpenSpec {
    pub read: bool,
    pub write: bool,
    pub append: bool,
    pub truncate: bool,
    pub create: bool,
    pub create_new: bool,
}

/// The open options of a stdout/stderr redirection target: always created if
/// absent and opened for writing; appended to when the stream's append flag
/// is set, truncated otherwise — never both.
pub open spec fn redirect_open(append: bool) -> OpenSpec {
    OpenSpec {
        read: false,
        write: true,
        append: append,
        truncate: !append,
        create: true,
        create_new: false,
    }
}

/// The open options of a `write` command target: create or truncate, and
/// with the "must be new" flag, fail if the file already exists.
pub open spec fn write_open(must_new: bool) -> OpenSpec {
    OpenSpec {
        read: false,
        write: true,
        append: false,
        truncate: true,
        create: true,
        create_new: must_new,
    }
}

/// The open options of an `append` command target: append-only, and created
/// when absent only if the "may create" side of the flag allows it —
/// without it, a missing file makes the open fail.
pub open spec fn append_open(may_create: bool) -> OpenSpec {
    OpenSpec {
        read: false,
        write: false,
        append: true,
        truncate: false,
        create: may_create,
        create_new: false,
    }
}

/// A configuration value describing how to start a child process.
#[derive(Debug, Default, PartialEq, Eq)]
pub struct CommandBuilder {
    pub args: Option<Vec<String>>,
    pub env_clear: Option<bool>,
    pub envs: Option<Vec<(String, String)>>,
    pub remove_envs: Option<Vec<String>>,
    pub current_dir: Option<String>,
    pub stdin: Option<String>,
    pub stdout: Option<String>,
    pub stderr: Option<String>,
    pub stdout_append: Option<bool>,
    pub stderr_append: Option<bool>,
}

/// The value bound to name `n` in the binding list `s`, the last binding
/// winning, or `None` when `n` is unbound.
pub open spec fn lookup(s: Seq<(String, String)>, n: Seq<char>) -> Option<Seq<char>>
    decreases s.len(),
{
    if s.len() == 0 {
        None
    } else if s.last().0@ == n {
        Some(s.last().1@)
    } else {
        lookup(s.drop_last(), n)
    }
}

/// Whether one of the names in `s` is `n`.
pub open spec fn names_contain(s: Seq<String>, n: Seq<char>) -> bool {
    exists|i: int| 0 <= i < s.len() && #[trigger] s[i]@ == n
}

/// The environment overrides of a descriptor, as a binding list.
pub open spec fn envs_of(d: CommandBuilder) -> Seq<(String, String)> {
    match d.envs {
        Some(e) => e@,
        None => Seq::empty(),
    }
}

/// The removal list of a descriptor.
pub open spec fn removes_of(d: CommandBuilder) -> Seq<String> {
    match d.remove_envs {
        Some(r) => r@,
        None => Seq::empty(),
    }
}

/// What the child's environment binds name `n` to, per the descriptor's net
/// effect: optional full clear, then the overrides, then the removals.
pub open spec fn env_expected(
    d: CommandBuilder,
    inherited: Seq<(String, String)>,
    n: Seq<char>,
) -> Option<Seq<char>> {
    if names_contain(removes_of(d), n) {
        None
    } else if lookup(envs_of(d), n) is Some {
        lookup(envs_of(d), n)
    } else if d.env_clear.spec_is_true() {
        None
    } else {
        lookup(inherited, n)
    }
}

/// Whether `name` occurs in the optional removal list.
#[verifier::loop_isolation(false)]
fn in_removes(remove_envs: &Option<Vec<String>>, name: &String) -> (r: bool)
    ensures
        r == names_contain(
            match *remove_envs {
                Some(rs) => rs@,
                None => Seq::<String>::empty(),
            },
            name@,
        ),
{
    match remove_envs {
        Some(rs) => {
            let n = rs.len();
            for i in 0..n
                invariant
                    n == rs.len(),
                    forall|j: int| 0 <= j < i ==> #[trigger] rs@[j]@ != name@,
            {
                if rs[i].eq(name) {
                    proof {
                        assert(names_contain(rs@, name@));
                    }
                    return true;
                }
            }
            false
        },
        None => false,
    }
}

impl CommandBuilder {
    /// The open options of the stdout redirection target.
    pub fn stdout_open(&self) -> (r: OpenSpec)
        ensures
            r == redirect_open(self.stdout_append.spec_is_true()),
    {
        OpenSpec {
            read: false,
            write: true,
            append: self.stdout_append.is_true(),
            truncate: self.stdout_append.is_false(),
            create: true,
            create_new: false,
        }
    }

    /// The open options of the stderr redirection target.
    pub fn stderr_open(&self) -> (r: OpenSpec)
        ensures
            r == redirect_open(self.stderr_append.spec_is_true()),
    {
        OpenSpec {
            read: false,
            write: true,
            append: self.stderr_append.is_true(),
            truncate: self.stderr_append.is_false(),
            create: true,
            create_new: false,
        }
    }

    /// The full argument list of the child: the base command's arguments
    /// with the descriptor's arguments, if any, appended.
    pub fn full_args(&self, base: Vec<String>) -> (r: Vec<String>)
        ensures
            r@ == base@ + (match self.args {
                Some(a) => a@,
                None => Seq::<String>::empty(),
            }),
    {
        let ghost base0 = base@;
        let mut out = base;
        match &self.args {
            Some(a) => {
                let n = a.len();
                for i in 0..n
                    invariant
                        n == a@.len(),
                        out@ == base0 + a@.subrange(0, i as int),
                {
                    out.push(a[i].clone());
                    proof {
                        assert(out@ =~= base0 + a@.subrange(0, i + 1));
                    }
                }
                proof {
                    assert(a@.subrange(0, a@.len() as int) =~= a@);
                }
            },
            None => {
                proof {
                    assert(out@ =~= base0 + Seq::<String>::empty());
                }
            },
        }
        out
    }

    /// The child's net environment: starting from the inherited bindings (or
    /// from nothing, when `env_clear` is set), the overrides are applied and
    /// the removals taken out. The result binds every name exactly as
    /// `env_expected` says.
    #[verifier::loop_isolation(false)]
    pub fn effective_env(&self, inherited: &Vec<(String, String)>) -> (r: Vec<(String, String)>)
        ensures
            forall|n: Seq<char>| #[trigger] lookup(r@, n) == env_expected(*self, inherited@, n),
    {
        let mut out: Vec<(String, String)> = Vec::new();
        if !self.env_clear.is_true() {
            let n = inherited.len();
            for i in 0..n
                invariant
                    out@ == inherited@.subrange(0, i as int),
            {
                out.push((inherited[i].0.clone(), inherited[i].1.clone()));
                proof {
                    assert(out@ =~= inherited@.subrange(0, i + 1));
                }
            }
            proof {
                assert(out@ =~= inherited@);
            }
        }
        let ghost base: Seq<(String, String)> = out@;
        proof {
            assert(forall|n: Seq<char>|
                #[trigger] lookup(base, n) == (if self.env_clear.spec_is_true() {
                    None::<Seq<char>>
                } else {
                    lookup(inherited@, n)
                }));
        }
        match &self.envs {
            Some(es) => {
                let m = es.len();
                for i in 0..m
                    invariant
                        forall|n: Seq<char>| #[trigger] lookup(out@, n) == (if lookup(
                            es@.subrange(0, i as int),
                            n,
                        ) is Some {
                            lookup(es@.subrange(0, i as int), n)
                        } else if self.env_clear.spec_is_true() {
                            None::<Seq<char>>
                        } else {
                            lookup(inherited@, n)
                        }),
                {
                    let ghost pre = out@;
                    out.push((es[i].0.clone(), es[i].1.clone()));
                    proof {
                        let t = es@.subrange(0, i + 1);
                        assert(t.drop_last() =~= es@.subrange(0, i as int));
                        assert(out@.drop_last() =~= pre);
                        assert forall|n: Seq<char>| #[trigger] lookup(out@, n) == (if lookup(
                            t,
                            n,
                        ) is Some {
                            lookup(t, n)
                        } else if self.env_clear.spec_is_true() {
                            None::<Seq<char>>
                        } else {
                            lookup(inherited@, n)
                        }) by {
                            assert(lookup(out@, n) == (if out@.last().0@ == n {
                                Some(out@.last().1@)
                            } else {
                                lookup(pre, n)
                            }));
                        };
                    }
                }
                proof {
                    assert(es@.subrange(0, es@.len() as int) =~= es@);
                }
            },
            None => {},
        }
        let ghost withenvs = out@;
        proof {
            assert(forall|n: Seq<char>|
                #[trigger] lookup(withenvs, n) == (if lookup(envs_of(*self), n) is Some {
                    lookup(envs_of(*self), n)
                } else if self.env_clear.spec_is_true() {
                    None::<Seq<char>>
                } else {
                    lookup(inherited@, n)
                }));
        }
        let mut kept: Vec<(String, String)> = Vec::new();
        let p = out.len();
        for i in 0..p
            invariant
                forall|n: Seq<char>| #[trigger] lookup(kept@, n) == (if names_contain(
                    removes_of(*self),
                    n,
                ) {
                    None::<Seq<char>>
                } else {
                    lookup(withenvs.subrange(0, i as int), n)
                }),
        {
            let ghost pre = kept@;
            let drop = in_removes(&self.remove_envs, &out[i].0);
            if !drop {
                kept.push((out[i].0.clone(), out[i].1.clone()));
            }
            proof {
                let t = withenvs.subrange(0, i + 1);
                assert(t.drop_last() =~= withenvs.subrange(0, i as int));
                assert forall|n: Seq<char>| #[trigger] lookup(kept@, n) == (if names_contain(
                    removes_of(*self),
                    n,
                ) {
                    None::<Seq<char>>
                } else {
                    lookup(t, n)
                }) by {
                    if !drop {
                        assert(kept@.drop_last() =~= pre);
                        assert(lookup(kept@, n) == (if kept@.last().0@ == n {
                            Some(kept@.last().1@)
                        } else {
                            lookup(pre, n)
                        }));
                    }
                    assert(lookup(t, n) == (if t.last().0@ == n {
                        Some(t.last().1@)
                    } else {
                        lookup(withenvs.subrange(0, i as int), n)
                    }));
                };
            }
        }
        proof {
            assert(withenvs.subrange(0, withenvs.len() as int) =~= withenvs);
        }
        kept
    }
}

} // verus!
