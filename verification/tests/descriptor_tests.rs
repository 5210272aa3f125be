use jq_bridge::descriptor::CommandBuilder;

fn pairs(v: &[(&str, &str)]) -> Vec<(String, String)> {
    v.iter().map(|(a, b)| (a.to_string(), b.to_string())).collect()
}

fn get<'a>(env: &'a [(String, String)], name: &str) -> Option<&'a str> {
    env.iter().rev().find(|(k, _)| k == name).map(|(_, v)| v.as_str())
}

#[test]
fn redirect_modes_follow_append_flags() {
    let d = CommandBuilder { stdout_append: Some(true), ..Default::default() };
    let out = d.stdout_open();
    assert!(out.append && !out.truncate && out.create && out.write);
    let err = d.stderr_open();
    assert!(!err.append && err.truncate && err.create && err.write);

    let d = CommandBuilder { stderr_append: Some(true), ..Default::default() };
    assert!(d.stdout_open().truncate && !d.stdout_open().append);
    assert!(d.stderr_open().append && !d.stderr_open().truncate);
}

#[test]
fn full_args_appends_in_order() {
    let d = CommandBuilder {
        args: Some(vec![String::from("-a"), String::from("x")]),
        ..Default::default()
    };
    let all = d.full_args(vec![String::from("base")]);
    assert_eq!(all, vec![String::from("base"), String::from("-a"), String::from("x")]);
    let d = CommandBuilder::default();
    assert_eq!(d.full_args(vec![String::from("base")]), vec![String::from("base")]);
}

#[test]
fn env_overrides_inherited() {
    let d = CommandBuilder {
        envs: Some(pairs(&[("A", "new"), ("B", "two")])),
        ..Default::default()
    };
    let env = d.effective_env(&pairs(&[("A", "old"), ("C", "keep")]));
    assert_eq!(get(&env, "A"), Some("new"));
    assert_eq!(get(&env, "B"), Some("two"));
    assert_eq!(get(&env, "C"), Some("keep"));
}

#[test]
fn env_clear_drops_inherited_but_keeps_overrides() {
    let d = CommandBuilder {
        env_clear: Some(true),
        envs: Some(pairs(&[("A", "set")])),
        ..Default::default()
    };
    let env = d.effective_env(&pairs(&[("A", "old"), ("C", "gone")]));
    assert_eq!(get(&env, "A"), Some("set"));
    assert_eq!(get(&env, "C"), None);
}

#[test]
fn removals_win_over_everything() {
    let d = CommandBuilder {
        envs: Some(pairs(&[("A", "set")])),
        remove_envs: Some(vec![String::from("A"), String::from("C")]),
        ..Default::default()
    };
    let env = d.effective_env(&pairs(&[("C", "inherited"), ("D", "keep")]));
    assert_eq!(get(&env, "A"), None);
    assert_eq!(get(&env, "C"), None);
    assert_eq!(get(&env, "D"), Some("keep"));
}

#[test]
fn env_clear_false_behaves_like_absent() {
    let d = CommandBuilder { env_clear: Some(false), ..Default::default() };
    let env = d.effective_env(&pairs(&[("K", "v")]));
    assert_eq!(get(&env, "K"), Some("v"));
}
