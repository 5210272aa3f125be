use jq_bridge::command::Command;
use jq_bridge::descriptor::CommandBuilder;
use jq_bridge::dispatch::{conclude, Action, Context, Outcome, PathOut, Step, Timestamp};
use jq_bridge::error::Error;
use jq_bridge::json::Json;

fn ctx() -> Context<u32> {
    Context::new()
}

#[test]
fn read_plans_a_file_read() {
    let step = Command::read(String::from("/tmp/x")).plan(&mut ctx());
    assert_eq!(step, Step::Do(Action::ReadFile(String::from("/tmp/x"))));
}

#[test]
fn write_must_new_sets_create_new() {
    let step = Command::write {
        path: String::from("p"),
        text: String::from("t"),
        must_new: Some(true),
    }
        .plan(&mut ctx());
    match step {
        Step::Do(Action::WriteFile { path, text, opts }) => {
            assert_eq!(path, "p");
            assert_eq!(text, "t");
            assert!(opts.create_new && opts.create && opts.truncate && opts.write);
        },
        _ => panic!("expected a write action"),
    }
}

#[test]
fn write_without_must_new_truncates_only() {
    let step = Command::write {
        path: String::from("p"),
        text: String::from("t"),
        must_new: None,
    }
        .plan(&mut ctx());
    match step {
        Step::Do(Action::WriteFile { opts, .. }) => {
            assert!(!opts.create_new && opts.create && opts.truncate);
        },
        _ => panic!("expected a write action"),
    }
}

#[test]
fn append_flags_decide_create() {
    let step = Command::append {
        path: String::from("p"),
        text: String::from("t"),
        must_exist: Some(true),
    }
        .plan(&mut ctx());
    match step {
        Step::Do(Action::AppendFile { opts, .. }) => {
            assert!(opts.append && !opts.create && !opts.truncate);
        },
        _ => panic!("expected an append action"),
    }
    let step = Command::append {
        path: String::from("p"),
        text: String::from("t"),
        must_exist: None,
    }
        .plan(&mut ctx());
    match step {
        Step::Do(Action::AppendFile { opts, .. }) => {
            assert!(opts.append && opts.create && !opts.truncate);
        },
        _ => panic!("expected an append action"),
    }
}

#[test]
fn print_renders_strings_raw() {
    let step = Command::print(Json::Str(String::from("hi"))).plan(&mut ctx());
    assert_eq!(step, Step::Do(Action::WriteOut { text: String::from("hi"), newline: false }));
    let step = Command::println(Json::Int(3)).plan(&mut ctx());
    assert_eq!(step, Step::Do(Action::WriteOut { text: String::from("3"), newline: true }));
    let step = Command::pretty_pipe(Json::Str(String::from("hi"))).plan(&mut ctx());
    assert_eq!(step, Step::Do(Action::WriteOut { text: String::from("\"hi\""), newline: true }));
}

#[test]
fn exit_plans_exit() {
    let step = Command::exit(7).plan(&mut ctx());
    assert_eq!(step, Step::Do(Action::Exit(7)));
}

#[test]
fn random_is_done_with_an_unsigned() {
    match Command::random.plan(&mut ctx()) {
        Step::Done(Ok(Json::UInt(_))) => {},
        other => panic!("expected an unsigned draw, got {:?}", other),
    }
}

#[test]
fn random_float_defers_to_the_front_end() {
    let step = Command::random_float.plan(&mut ctx());
    assert_eq!(step, Step::Do(Action::DrawFloat));
}

#[test]
fn launch_carries_the_descriptor() {
    let b = CommandBuilder { stdout: Some(String::from("out.log")), ..Default::default() };
    let step = Command::command(String::from("prog"), b).plan(&mut ctx());
    match step {
        Step::Do(Action::Launch { prog, builder }) => {
            assert_eq!(prog, "prog");
            assert_eq!(builder.stdout, Some(String::from("out.log")));
        },
        _ => panic!("expected a launch action"),
    }
}

#[test]
fn wait_id_consumes_the_handle() {
    let mut c: Context<u32> = Context::new();
    assert!(c.register(4, 44));
    let step = Command::wait_id { id: 4, output: Some(true) }.plan(&mut c);
    assert_eq!(step, Step::Do(Action::WaitChild { child: 44, capture: true }));
    let step = Command::wait_id { id: 4, output: None }.plan(&mut c);
    assert_eq!(step, Step::Done(Err(Error::InvalidProcessorId(4))));
    let step = Command::kill_id { id: 4 }.plan(&mut c);
    assert_eq!(step, Step::Done(Err(Error::InvalidProcessorId(4))));
}

#[test]
fn kill_id_consumes_the_handle() {
    let mut c: Context<u32> = Context::new();
    assert!(c.register(8, 88));
    let step = Command::kill_id { id: 8 }.plan(&mut c);
    assert_eq!(step, Step::Do(Action::KillChild { child: 88 }));
    let step = Command::wait_id { id: 8, output: Some(false) }.plan(&mut c);
    assert_eq!(step, Step::Done(Err(Error::InvalidProcessorId(8))));
}

#[test]
fn unknown_env_is_null() {
    assert_eq!(conclude(Outcome::MaybeVar(None)), Ok(Json::Null));
}

#[test]
fn exit_codes_are_exact() {
    assert_eq!(conclude(Outcome::Code(Some(3))), Ok(Json::Int(3)));
    assert_eq!(conclude(Outcome::Code(Some(0))), Ok(Json::Int(0)));
    assert_eq!(conclude(Outcome::Code(None)), Ok(Json::Int(250)));
}

#[test]
fn failures_become_io_errors() {
    assert_eq!(
        conclude(Outcome::Failed(String::from("No such file"))),
        Err(Error::IoError(String::from("No such file")))
    );
}

#[test]
fn entries_keep_order_and_first_invalid_wins() {
    let es = vec![
        PathOut { valid: true, text: String::from("a") },
        PathOut { valid: true, text: String::from("b") },
    ];
    assert_eq!(
        conclude(Outcome::Entries(es)),
        Ok(Json::Arr(vec![Json::Str(String::from("a")), Json::Str(String::from("b"))]))
    );
    let es = vec![
        PathOut { valid: true, text: String::from("a") },
        PathOut { valid: false, text: String::from("bad") },
        PathOut { valid: false, text: String::from("worse") },
    ];
    assert_eq!(
        conclude(Outcome::Entries(es)),
        Err(Error::InvalidString(String::from("bad")))
    );
    assert_eq!(conclude(Outcome::Entries(vec![])), Ok(Json::Arr(vec![])));
}

#[test]
fn popen_result_has_no_stderr_member() {
    let r = conclude(Outcome::CapturedOut { stdout: b"hi\n".to_vec(), code: Some(0) });
    assert_eq!(
        r,
        Ok(Json::Obj(vec![
            (String::from("stdout"), Json::Str(String::from("hi\n"))),
            (String::from("status"), Json::Int(0)),
        ]))
    );
}

#[test]
fn captured_run_decodes_both_streams() {
    let r = conclude(Outcome::Captured {
        stdout: b"out".to_vec(),
        stderr: vec![0xff],
        code: None,
    });
    assert_eq!(
        r,
        Ok(Json::Obj(vec![
            (String::from("stdout"), Json::Str(String::from("out"))),
            (String::from("stderr"), Json::Str(String::from("\u{fffd}"))),
            (String::from("status"), Json::Int(250)),
        ]))
    );
}

#[test]
fn metadata_object_shape() {
    let r = conclude(Outcome::Meta { readonly: false, is_file: true, is_dir: false, len: 12 });
    assert_eq!(
        r,
        Ok(Json::Obj(vec![
            (String::from("readonly"), Json::Bool(false)),
            (String::from("is_file"), Json::Bool(true)),
            (String::from("id_dir"), Json::Bool(false)),
            (String::from("len"), Json::UInt(12)),
        ]))
    );
}

#[test]
fn float_text_is_a_raw_number() {
    assert_eq!(
        conclude(Outcome::NumText(String::from("0.25"))),
        Ok(Json::Num(String::from("0.25")))
    );
}

#[test]
fn float_draws_stay_in_unit_range() {
    for _ in 0..64 {
        let x: f64 = rand::Rng::random(&mut rand::rng());
        assert!((0.0..1.0).contains(&x));
        let rendered = conclude(Outcome::NumText(format!("{x}")));
        match rendered {
            Ok(Json::Num(s)) => {
                let back: f64 = s.parse().unwrap();
                assert!((0.0..1.0).contains(&back));
            },
            other => panic!("expected a number, got {:?}", other),
        }
    }
}

#[test]
fn metadata_extra_renders_utc_timestamps() {
    let epoch = Timestamp { secs: 0, nanos: 0 };
    let r = conclude(Outcome::MetaExtra {
        readonly: false,
        is_file: true,
        is_dir: false,
        len: 1,
        accessed: epoch,
        modified: Timestamp { secs: 86_400, nanos: 0 },
        created: epoch,
    });
    match r {
        Ok(Json::Obj(o)) => {
            assert_eq!(o.len(), 7);
            assert_eq!(o[4].0, "accessed");
            match (&o[4].1, &o[5].1) {
                (Json::Str(acc), Json::Str(modi)) => {
                    assert!(acc.starts_with("1970-01-01"), "got {acc}");
                    assert!(modi.starts_with("1970-01-02"), "got {modi}");
                    assert_ne!(acc, modi);
                },
                other => panic!("expected timestamp strings, got {:?}", other),
            }
        },
        other => panic!("expected an object, got {:?}", other),
    }
}

#[test]
fn write_then_read_round_trip_model() {
    let step = Command::write {
        path: String::from("f.txt"),
        text: String::from("payload"),
        must_new: None,
    }
        .plan(&mut ctx());
    let written = match step {
        Step::Do(Action::WriteFile { path, text, opts }) => {
            assert_eq!(path, "f.txt");
            assert!(opts.truncate && opts.create && !opts.create_new);
            text
        },
        _ => panic!("expected a write action"),
    };
    let step = Command::read(String::from("f.txt")).plan(&mut ctx());
    assert_eq!(step, Step::Do(Action::ReadFile(String::from("f.txt"))));
    assert_eq!(conclude(Outcome::Text(written)), Ok(Json::Str(String::from("payload"))));
}

#[test]
fn empty_read_dir_scenario() {
    let step = Command::read_dir(String::from(".")).plan(&mut ctx());
    assert_eq!(step, Step::Do(Action::ReadDir(String::from("."))));
    let r = conclude(Outcome::Entries(vec![]));
    assert_eq!(jq_bridge::bridge::encode_response(r), "{\"ok\":[]}");
}
