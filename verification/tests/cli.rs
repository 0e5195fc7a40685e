use rmskin_builder::cli::{git_text, title_from_directory};
use rmskin_builder::{CliArgs, CliError, Environment, GitQuery, Lookup};

fn env() -> Environment {
    Environment {
        github_ref: None,
        github_sha: None,
        github_actor: None,
        github_repository: None,
    }
}

fn value(lookup: Lookup) -> String {
    match lookup {
        Lookup::Value(v) => v,
        other => panic!("not a value: {:?}", other),
    }
}

#[test]
fn version() {
    let mut args = CliArgs::default();
    assert!(matches!(
        args.get_version(&env()),
        Lookup::Git(GitQuery::DescribeTags)
    ));
    args.version(Some("1.2.3".to_string()));
    assert!(!value(args.get_version(&env())).is_empty());
    assert_eq!(value(args.get_version(&env())), "1.2.3");
}

#[test]
fn version_ci_push() {
    let sha = "DEADBEEF";
    let mut env = env();
    env.github_ref = Some("".to_string());
    env.github_sha = Some(sha.to_string());
    let args = CliArgs::default();
    let version = value(args.get_version(&env));
    assert!(sha.ends_with(&version));
    assert_eq!(version, "EADBEEF");
}

#[test]
fn version_ci_tag() {
    let tag = "v1.2.3";
    let mut env = env();
    env.github_ref = Some(format!("refs/tags/{tag}"));
    let args = CliArgs::default();
    assert_eq!(value(args.get_version(&env)).as_str(), tag);
}

#[test]
fn version_ci_default() {
    let tag = "x0x.y0y";
    let mut env = env();
    env.github_ref = Some("".to_string());
    let args = CliArgs::default();
    assert_eq!(value(args.get_version(&env)).as_str(), tag);
}

#[test]
fn version_ci_short_sha_is_kept_whole() {
    let mut env = env();
    env.github_ref = Some("refs/heads/main".to_string());
    env.github_sha = Some("abc".to_string());
    assert_eq!(value(CliArgs::new().get_version(&env)), "abc");
    env.github_sha = Some("1234567".to_string());
    assert_eq!(value(CliArgs::new().get_version(&env)), "1234567");
    env.github_sha = Some("".to_string());
    assert_eq!(value(CliArgs::new().get_version(&env)), "");
}

#[test]
fn version_ci_tag_wins_over_sha() {
    let mut env = env();
    env.github_ref = Some("refs/tags/".to_string());
    env.github_sha = Some("DEADBEEF".to_string());
    assert_eq!(value(CliArgs::new().get_version(&env)), "");
    env.github_ref = Some("refs/tags".to_string());
    assert_eq!(value(CliArgs::new().get_version(&env)), "EADBEEF");
}

#[test]
fn author() {
    let mut args = CliArgs::default();
    assert!(matches!(
        args.get_author(&env()),
        Lookup::Git(GitQuery::UserName)
    ));
    args.author(Some("Somebody".to_string()));
    assert!(!value(args.get_author(&env())).is_empty());
    assert_eq!(value(args.get_author(&env())), "Somebody");
}

#[test]
fn author_ci() {
    let author = "2bndy5";
    let mut env = env();
    env.github_actor = Some(author.to_string());
    let args = CliArgs::default();
    assert_eq!(value(args.get_author(&env)).as_str(), author);
}

#[test]
fn title() {
    let mut args = CliArgs::default();
    assert!(matches!(
        args.get_title(&env()),
        Ok(Lookup::WorkingDirectory)
    ));
    let name = title_from_directory(Some("workspace".to_string())).unwrap();
    args.title(Some(name));
    assert_eq!(value(args.get_title(&env()).unwrap()).as_str(), "workspace");
}

#[test]
fn title_ci() {
    let mut env = env();
    env.github_repository = Some("2bndy5/rmskin-action".to_string());
    let args = CliArgs::default();
    assert_eq!(
        value(args.get_title(&env).unwrap()),
        "rmskin-action".to_string()
    );
}

#[test]
fn title_ci_bad() {
    let bad_repo_name = "2bndy5\\rmskin-action";
    let mut env = env();
    env.github_repository = Some(bad_repo_name.to_string());
    let args = CliArgs::default();
    let title = args.get_title(&env);
    assert!(title.is_err());
    if let Err(CliError::MalformedRepoName(bad_name)) = title {
        assert_eq!(&bad_name, bad_repo_name);
    } else {
        panic!("another error");
    }
}

#[test]
fn title_ci_splits_at_the_first_slash() {
    let mut env = env();
    env.github_repository = Some("owner/group/name".to_string());
    assert_eq!(value(CliArgs::new().get_title(&env).unwrap()), "group/name");
    env.github_repository = Some("owner/".to_string());
    assert_eq!(value(CliArgs::new().get_title(&env).unwrap()), "");
    env.github_repository = Some("ünïcode/náme".to_string());
    assert_eq!(value(CliArgs::new().get_title(&env).unwrap()), "náme");
}

#[test]
fn set_values_win_over_the_environment() {
    let env = Environment {
        github_ref: Some("refs/tags/v9".to_string()),
        github_sha: Some("DEADBEEF".to_string()),
        github_actor: Some("actor".to_string()),
        github_repository: Some("no slash".to_string()),
    };
    let mut args = CliArgs::new();
    args.version(Some("1.0".to_string()));
    args.author(Some("me".to_string()));
    args.title(Some("mine".to_string()));
    assert_eq!(value(args.get_version(&env)), "1.0");
    assert_eq!(value(args.get_author(&env)), "me");
    assert_eq!(value(args.get_title(&env).unwrap()), "mine");
    args.title(None);
    assert!(matches!(
        args.get_title(&env),
        Err(CliError::MalformedRepoName(_))
    ));
}

#[test]
fn working_directory_without_a_name() {
    assert!(matches!(
        title_from_directory(None),
        Err(CliError::UnknownWorkingDirectory)
    ));
}

#[test]
fn git_output_is_trimmed() {
    assert_eq!(git_text(b"v1.2.3\n").unwrap(), "v1.2.3");
    assert_eq!(git_text(b" \t\r\n\x0cJane Doe \n\n").unwrap(), "Jane Doe");
    assert_eq!(git_text(b"").unwrap(), "");
    assert_eq!(git_text(b"\n \n").unwrap(), "");
    assert_eq!(git_text(b"\x0bv1\x0b").unwrap(), "\x0bv1\x0b");
    assert_eq!(git_text("\"abc1234\"\n".as_bytes()).unwrap(), "\"abc1234\"");
    assert_eq!(git_text("J\u{fc}rgen\n".as_bytes()).unwrap(), "J\u{fc}rgen");
}

#[test]
fn git_output_must_be_utf8() {
    assert!(matches!(
        git_text(b"\xff\xfe\n"),
        Err(CliError::Utf8Error(_))
    ));
}

#[test]
fn git_questions() {
    assert_eq!(GitQuery::DescribeTags.args(), vec!["describe", "--tags"]);
    assert_eq!(
        GitQuery::LastCommit.args(),
        vec!["log", "-1", "--format=\"%h\""]
    );
    assert_eq!(GitQuery::UserName.args(), vec!["config", "get", "user.name"]);
    assert_eq!(
        GitQuery::DescribeTags.fallback(),
        Some(GitQuery::LastCommit)
    );
    assert_eq!(GitQuery::LastCommit.fallback(), None);
    assert_eq!(GitQuery::UserName.fallback(), None);
}
