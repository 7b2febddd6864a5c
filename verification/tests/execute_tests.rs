use termbuf::config::Config;
use termbuf::execute::{Builtin, BuiltinAction, BuiltinCommand, CdTarget, ExecMessage, Job};

#[test]
fn job_lifecycle() {
    let mut job = Job::new(vec!["ls".to_string(), "my dir".to_string()]);
    assert_eq!(job.args, vec!["ls", "my dir"]);
    assert!(job.return_code.is_none());
    assert!(job.start_time.is_none());
    assert!(job.end_time.is_none());
    assert_eq!(job.args_printable(), "ls \"my dir\"");
    job.start();
    assert!(job.start_time.is_some());
    assert!(job.end_time.is_none());
    job.end();
    assert!(job.end_time.is_some());
    assert!(job.end_time.unwrap() >= job.start_time.unwrap());
    assert_eq!(job.args, vec!["ls", "my dir"]);
}

#[test]
fn config_paths() {
    let config = Config::with_data_home("/home/u/.local/share");
    assert_eq!(config.rqos_data_home, "/home/u/.local/share/rqos");
    assert_eq!(
        config.get_filename("font.txt"),
        "/home/u/.local/share/rqos/font.txt"
    );
    assert_eq!(config.get_filename(""), "/home/u/.local/share/rqos/");
}

fn job(words: &[&str]) -> Job {
    Job::new(words.iter().map(|w| w.to_string()).collect())
}

#[test]
fn builtin_by_name() {
    assert_eq!(Builtin::run(&job(&["cd", "/tmp"])), BuiltinAction::ChangeDirectory);
    assert_eq!(Builtin::run(&job(&["jobs"])), BuiltinAction::ListJobs);
    assert_eq!(Builtin::run(&job(&["yes"])), BuiltinAction::Yes);
    assert_eq!(Builtin::run(&job(&["ls", "cd"])), BuiltinAction::Spawn);
    assert_eq!(Builtin::run(&job(&["CD"])), BuiltinAction::Spawn);
    assert_eq!(Builtin::run(&job(&[""])), BuiltinAction::Spawn);
}

#[test]
fn cd_targets() {
    assert!(matches!(Builtin::cd_target(&job(&["cd"])), CdTarget::Home));
    assert!(matches!(Builtin::cd_target(&job(&["cd", "-"])), CdTarget::Previous));
    match Builtin::cd_target(&job(&["cd", "/usr/lib", "x"])) {
        CdTarget::Path(path) => assert_eq!(path, "/usr/lib"),
        _ => panic!("a path was given"),
    }
}

#[test]
fn cd_messages() {
    let messages = Builtin::cmd_cd(job(&["cd", "/nowhere"]), "/nowhere", false);
    assert_eq!(messages.len(), 2);
    match &messages[0] {
        ExecMessage::StdErr(text) => {
            assert_eq!(text, "cd: /nowhere: No such file or directory")
        }
        _ => panic!("an error was due"),
    }
    match &messages[1] {
        ExecMessage::JobDone(done) => {
            assert_eq!(done.args, vec!["cd", "/nowhere"]);
            assert_eq!(done.return_code, Some(1));
            assert!(done.start_time.is_some());
            assert!(done.end_time.is_some());
        }
        _ => panic!("the job was due"),
    }

    let messages = Builtin::cmd_cd(job(&["cd"]), "/home/u", true);
    assert_eq!(messages.len(), 1);
    match &messages[0] {
        ExecMessage::JobDone(done) => {
            assert_eq!(done.args, vec!["cd"]);
            assert_eq!(done.return_code, Some(0));
        }
        _ => panic!("the job was due"),
    }
}

#[test]
fn jobs_and_yes() {
    let mut listing = job(&["jobs"]);
    assert!(matches!(
        Builtin::cmd_jobs(&mut listing),
        ExecMessage::BuiltinCommand(BuiltinCommand::Jobs)
    ));
    assert_eq!(listing.return_code, Some(0));
    assert!(listing.start_time.is_some());
    assert!(listing.end_time.is_none());

    let mut yes = job(&["yes"]);
    match Builtin::cmd_yes(&mut yes) {
        ExecMessage::StdOut(text) => assert_eq!(text, "y"),
        _ => panic!("output was due"),
    }
    assert_eq!(yes.return_code, Some(0));
    assert!(yes.start_time.is_some());
}

#[test]
fn job_messages() {
    let sleeper = job(&["sleep", "10"]);
    assert_eq!(sleeper.not_found_message(), "Error: `sleep 10` not found");
    assert_eq!(sleeper.killed_message(), "Error: `sleep 10` killed");
    assert_eq!(sleeper.running_message(0, 0), "sleep 10 running for 0.000s");
    assert_eq!(sleeper.running_message(12, 7), "sleep 10 running for 12.007s");
    assert_eq!(sleeper.running_message(3, 45), "sleep 10 running for 3.045s");
    assert_eq!(sleeper.running_message(3, 999), "sleep 10 running for 3.999s");
    assert_eq!(
        sleeper.running_message(u64::MAX, 120),
        "sleep 10 running for 18446744073709551615.120s"
    );
    assert_eq!(job(&[]).running_message(1, 1), " running for 1.001s");
    assert_eq!(
        job(&["echo", "a b", ""]).running_message(1, 1),
        "echo a b  running for 1.001s"
    );
}

fn seconds(line: &str, prefix: &str) -> u64 {
    let rest = line.strip_prefix(prefix).expect("line starts with the words");
    let rest = rest.strip_suffix('s').expect("line ends with the unit");
    let (secs, millis) = rest.split_once('.').expect("seconds and milliseconds");
    assert_eq!(millis.len(), 3);
    assert!(millis.chars().all(|c| c.is_ascii_digit()));
    secs.parse().expect("whole seconds")
}

#[test]
fn running_jobs_are_listed() {
    let mut first = job(&["sleep", "100"]);
    first.start();
    first.start_time = Some(std::time::SystemTime::now() - std::time::Duration::from_secs(90));
    let mut done = job(&["true"]);
    done.start();
    done.end();
    let never_started = job(&["later"]);
    let mut second = job(&["cat"]);
    second.start();
    let jobs = vec![first, done, never_started, second];

    let lines = Builtin::running_lines(&jobs);
    assert_eq!(lines.len(), 2);
    assert!(seconds(&lines[0], "sleep 100 running for ") >= 90);
    assert!(seconds(&lines[1], "cat running for ") < 90);

    match Builtin::jobs(&jobs) {
        ExecMessage::StdOut(text) => {
            let printed: Vec<&str> = text.split('\n').collect();
            assert_eq!(printed.len(), 2);
            assert!(printed[0].starts_with("sleep 100 running for "));
            assert!(printed[1].starts_with("cat running for "));
        }
        _ => panic!("output was due"),
    }
    match Builtin::jobs(&Vec::new()) {
        ExecMessage::StdOut(text) => assert_eq!(text, ""),
        _ => panic!("output was due"),
    }
}

#[test]
fn running_job_started_in_the_future() {
    let mut ahead = job(&["ahead"]);
    ahead.start_time = Some(std::time::SystemTime::now() + std::time::Duration::from_secs(3600));
    let lines = Builtin::running_lines(&vec![ahead]);
    assert_eq!(lines, vec!["ahead running for 0.000s"]);
}
