use jsmoke::computer_command::{Attempt, ComputerCommand, ComputerCommandError};
use jsmoke::may::MayFrom;
use jsmoke::types::vcs::{
    VersionControlSystem, CREATE_ARG, GIT_CMD, HG_CMD, INIT_ARG, PIJUL_CMD, SVN_CMD,
};

#[test]
fn from_str() {
    [
        ("git", VersionControlSystem::Git),
        ("hg", VersionControlSystem::Hg),
        ("pijul", VersionControlSystem::Pijul),
        ("svn", VersionControlSystem::Svn),
        ("none", VersionControlSystem::NoVcs),
    ]
    .iter()
    .for_each(|(cmd, vcs)| assert_eq!(VersionControlSystem::from_str(cmd, true), Ok(*vcs)));
}

#[test]
fn name_and_arg() {
    [
        (VersionControlSystem::Git, GIT_CMD, INIT_ARG),
        (VersionControlSystem::Hg, HG_CMD, INIT_ARG),
        (VersionControlSystem::Pijul, PIJUL_CMD, INIT_ARG),
        (VersionControlSystem::Svn, SVN_CMD, CREATE_ARG),
    ]
    .into_iter()
    .for_each(|(vcs, cmd, arg)| {
        let cc = ComputerCommand::may_from(&vcs).expect("this was expected to be some o_O");
        let (name, args): (&str, &[String]) = (&cc.name, &cc.args);
        let first_arg = args
            .iter()
            .next()
            .expect("the computer command was expected to hold at least one arg")
            .as_ref();
        assert_eq!((name, first_arg), (cmd, arg));
    });
}

#[test]
fn none_computer_command() {
    assert!(ComputerCommand::may_from(&VersionControlSystem::NoVcs).is_none());
}

#[test]
fn from_str_minds_the_case_unless_told_otherwise() {
    assert_eq!(VersionControlSystem::from_str("GIT", true), Ok(VersionControlSystem::Git));
    assert_eq!(VersionControlSystem::from_str("PiJuL", true), Ok(VersionControlSystem::Pijul));
    assert_eq!(
        VersionControlSystem::from_str("GIT", false),
        Err("invalid variant: GIT".to_string())
    );
    assert_eq!(VersionControlSystem::from_str("svn", false), Ok(VersionControlSystem::Svn));
    assert_eq!(
        VersionControlSystem::from_str("svnadmin", true),
        Err("invalid variant: svnadmin".to_string())
    );
    assert_eq!(
        VersionControlSystem::from_str("", true),
        Err("invalid variant: ".to_string())
    );
    assert_eq!(
        VersionControlSystem::from_str(" git", true),
        Err("invalid variant:  git".to_string())
    );
}

#[test]
fn command_names_are_as_listed() {
    assert_eq!(GIT_CMD, "git");
    assert_eq!(HG_CMD, "hg");
    assert_eq!(PIJUL_CMD, "pijul");
    assert_eq!(SVN_CMD, "svnadmin");
    assert_eq!(CREATE_ARG, "create");
    assert_eq!(INIT_ARG, "init");
    let cc = ComputerCommand::may_from(&VersionControlSystem::Svn).expect("a command");
    assert_eq!(cc.name, "svnadmin");
    assert_eq!(cc.args, vec!["create"]);
}

#[test]
fn push_arg_appends_and_chains() {
    let mut cc = ComputerCommand { name: "git".to_string(), args: Vec::new() };
    cc.push_arg("init").push_arg("--bare");
    assert_eq!(cc.name, "git");
    assert_eq!(cc.args, vec!["init", "--bare"]);
}

#[test]
fn conclude_tells_the_three_outcomes_apart() {
    let cc = ComputerCommand { name: "hg".to_string(), args: vec!["init".to_string()] };
    let out = cc
        .conclude(Attempt::Finished { success: true, written: "done".to_string() })
        .ok()
        .expect("the command reported success");
    assert_eq!((out.name.as_str(), out.args.len(), out.output.as_str()), ("hg", 1, "done"));
    assert_eq!(out.args[0], "init");
    match cc.conclude(Attempt::Finished { success: false, written: "oops".to_string() }) {
        Err(ComputerCommandError::ErrorStatusReturned { name, args, stderr }) => {
            assert_eq!(name, "hg");
            assert_eq!(args, vec!["init"]);
            assert_eq!(stderr, "oops");
        }
        _ => panic!("an error status was expected"),
    }
    match cc.conclude(Attempt::NotStarted) {
        Err(ComputerCommandError::DontExists(name)) => assert_eq!(name, "hg"),
        _ => panic!("a command that does not exist was expected"),
    }
}
