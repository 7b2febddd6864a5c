//! Jobs of the shell and the messages that report on them.

use vstd::prelude::*;
use std::sync::mpsc::Sender;
use std::time::{Duration, SystemTime, SystemTimeError};
use crate::args::{printable_line, Args};
use vstd::string::StringExecFns;
use crate::chars::{
    clone_strings, decimal, digit_char, from_chars, push_decimal, push_digit, to_chars, views,
};

verus! {

/// `std::time::SystemTime`, a point in time of the system clock. Nothing is
/// known of its value.
#[verifier::external_type_specification]
#[verifier::external_body]
pub struct ExSystemTime(SystemTime);

/// `std::sync::mpsc::Sender`, the sending half of a channel. It is only
/// carried along in messages.
#[verifier::external_type_specification]
#[verifier::external_body]
#[verifier::reject_recursive_types(T)]
pub struct ExSender<T>(Sender<T>);

/// `std::time::SystemTimeError`, the error of a span of time that would be
/// negative. Nothing is read from it.
#[verifier::external_type_specification]
#[verifier::external_body]
pub struct ExSystemTimeError(SystemTimeError);

/// `SystemTime::now` reads the system clock. Nothing is stated of the time
/// that it returns.
pub assume_specification[ SystemTime::now ]() -> (time: SystemTime)
;

/// `SystemTime::elapsed` gives the span of time from this time to now on
/// the system clock, or an error where the clock now stands before this
/// time. Nothing is stated of which it is, nor of the span.
pub assume_specification[ SystemTime::elapsed ](time: &SystemTime) -> (span: Result<
    Duration,
    SystemTimeError,
>)
;

/// `SystemTime::duration_since` gives the span of time from `earlier` to
/// this time, or an error where `earlier` is the later of the two. Nothing
/// is stated of which it is, nor of the span.
pub assume_specification[ SystemTime::duration_since ](
    time: &SystemTime,
    earlier: SystemTime,
) -> (span: Result<Duration, SystemTimeError>)
;

/// `Duration::as_secs` gives the whole seconds of a span of time. Nothing
/// is stated of their number.
pub assume_specification[ Duration::as_secs ](span: &Duration) -> (secs: u64)
;

/// `Duration::subsec_millis` gives the part of a span of time beyond its
/// whole seconds, in whole milliseconds; it is always below one thousand.
pub assume_specification[ Duration::subsec_millis ](span: &Duration) -> (millis: u32)
    ensures
        millis < 1000,
;

/// A command with its arguments, and what is known of its run.
pub struct Job {
    pub args: Vec<String>,
    pub return_code: Option<i32>,
    pub start_time: Option<SystemTime>,
    pub end_time: Option<SystemTime>,
}

/// A command that the shell carries out itself.
pub enum BuiltinCommand {
    Jobs,
}

/// What a running job reports to the shell.
pub enum ExecMessage {
    StdOut(String),
    StdErr(String),
    StdInQueue(Sender<String>),
    BuiltinCommand(BuiltinCommand),
    JobDone(Job),
}

impl Job {
    /// A job that has not run yet.
    pub fn new(args: Vec<String>) -> (job: Job)
        ensures
            job.args == args,
            job.return_code is None,
            job.start_time is None,
            job.end_time is None,
    {
        Job { args, return_code: None, start_time: None, end_time: None }
    }

    /// The command and its arguments as one command line.
    pub fn args_printable(&self) -> (line: String)
        ensures
            line@ == printable_line(views(self.args@)),
    {
        let args = Args::from_vec(clone_strings(&self.args));
        args.printable()
    }

    /// Notes the present time as the start of the run.
    pub fn start(&mut self)
        ensures
            final(self).start_time is Some,
            final(self).args == old(self).args,
            final(self).return_code == old(self).return_code,
            final(self).end_time == old(self).end_time,
    {
        self.start_time = Some(SystemTime::now());
    }

    /// Notes the present time as the end of the run.
    pub fn end(&mut self)
        ensures
            final(self).end_time is Some,
            final(self).args == old(self).args,
            final(self).return_code == old(self).return_code,
            final(self).start_time == old(self).start_time,
    {
        self.end_time = Some(SystemTime::now());
    }
}

/// Runs commands as processes.
pub struct Execute {}

/// The commands that the shell knows by name.
pub struct Builtin {}

/// What it takes to run a job.
#[derive(Clone, Copy, Debug, PartialEq, Eq, Structural)]
pub enum BuiltinAction {
    /// `cd`: change the working directory.
    ChangeDirectory,
    /// `jobs`: list the jobs that run.
    ListJobs,
    /// `yes`: answer with `y`.
    Yes,
    /// Anything else: start the command as a process.
    Spawn,
}

/// Where `cd` goes.
pub enum CdTarget {
    /// Without an argument: the home directory.
    Home,
    /// For `-`: the directory that was left last.
    Previous,
    /// The directory named.
    Path(String),
}

/// The whole seconds of a span of time and the milliseconds beyond them.
fn seconds_and_millis(span: &Duration) -> (parts: (u64, u32))
    ensures
        parts.1 < 1000,
{
    (span.as_secs(), span.subsec_millis())
}

/// The time that has passed since `start` on the system clock, as whole
/// seconds and the milliseconds beyond them; nothing where the clock now
/// stands before `start`.
fn elapsed_since(start: &SystemTime) -> (elapsed: Option<(u64, u32)>)
    ensures
        match elapsed {
            Some((_, millis)) => millis < 1000,
            None => true,
        },
{
    match start.elapsed() {
        Ok(span) => Some(seconds_and_millis(&span)),
        Err(_) => None,
    }
}

/// What the command named `name` takes to run.
pub open spec fn action_of(name: Seq<char>) -> BuiltinAction {
    if name == "cd"@ {
        BuiltinAction::ChangeDirectory
    } else if name == "jobs"@ {
        BuiltinAction::ListJobs
    } else if name == "yes"@ {
        BuiltinAction::Yes
    } else {
        BuiltinAction::Spawn
    }
}

/// The message of `cd` for a directory that does not exist.
pub open spec fn cd_error(path: Seq<char>) -> Seq<char> {
    "cd: "@ + path + ": No such file or directory"@
}

/// The message for a command that was not found.
pub open spec fn not_found_error(line: Seq<char>) -> Seq<char> {
    "Error: `"@ + line + "` not found"@
}

/// The message for a command that was killed.
pub open spec fn killed_error(line: Seq<char>) -> Seq<char> {
    "Error: `"@ + line + "` killed"@
}

/// Whether the message prints `text` as output.
pub open spec fn prints(message: ExecMessage, text: Seq<char>) -> bool {
    match message {
        ExecMessage::StdOut(out) => out@ == text,
        _ => false,
    }
}

/// Whether the message reports `text` as an error.
pub open spec fn reports_error(message: ExecMessage, text: Seq<char>) -> bool {
    match message {
        ExecMessage::StdErr(out) => out@ == text,
        _ => false,
    }
}

/// Whether the message hands back a job with the arguments given that has
/// started and has ended with the return code given.
pub open spec fn hands_back(message: ExecMessage, args: Vec<String>, code: i32) -> bool {
    match message {
        ExecMessage::JobDone(done) => {
            &&& done.args == args
            &&& done.return_code == Some(code)
            &&& done.start_time is Some
            &&& done.end_time is Some
        },
        _ => false,
    }
}

/// The first `n` words with `separator` between two of them.
pub open spec fn joined(words: Seq<Seq<char>>, separator: char, n: int) -> Seq<char>
    decreases n,
{
    if n <= 0 {
        Seq::empty()
    } else if n == 1 {
        words[0]
    } else {
        joined(words, separator, n - 1) + seq![separator] + words[n - 1]
    }
}

/// Milliseconds below 1000 in three digits.
pub open spec fn three_digits(millis: nat) -> Seq<char>
    recommends
        millis < 1000,
{
    seq![digit_char(millis / 100), digit_char((millis / 10) % 10), digit_char(millis % 10)]
}

/// The line that reports a running job: its words, and how long it has run
/// in seconds with three decimal places.
pub open spec fn running_line(words: Seq<Seq<char>>, secs: nat, millis: nat) -> Seq<char> {
    joined(words, ' ', words.len() as int) + " running for "@ + decimal(secs) + seq!['.']
        + three_digits(millis) + seq!['s']
}

impl Job {
    /// The message for this job where its command was not found.
    pub fn not_found_message(&self) -> (message: String)
        ensures
            message@ == not_found_error(printable_line(views(self.args@))),
    {
        let message = String::from_str("Error: `").concat(self.args_printable().as_str()).concat(
            "` not found",
        );
        message
    }

    /// The message for this job where it was killed.
    pub fn killed_message(&self) -> (message: String)
        ensures
            message@ == killed_error(printable_line(views(self.args@))),
    {
        let message = String::from_str("Error: `").concat(self.args_printable().as_str()).concat(
            "` killed",
        );
        message
    }

    /// The line that reports this job as running for the time given.
    pub fn running_message(&self, secs: u64, millis: u32) -> (line: String)
        requires
            millis < 1000,
        ensures
            line@ == running_line(views(self.args@), secs as nat, millis as nat),
    {
        let mut out = join(&self.args, ' ');
        let ghost words = out@;
        let mut label = to_chars(" running for ");
        out.append(&mut label);
        let ghost labelled = out@;
        push_decimal(&mut out, secs);
        out.push('.');
        push_digit(&mut out, (millis / 100) as u8);
        push_digit(&mut out, ((millis / 10) % 10) as u8);
        push_digit(&mut out, (millis % 10) as u8);
        out.push('s');
        proof {
            assert(labelled =~= words + " running for "@);
            assert(out@ =~= labelled + decimal(secs as nat) + seq!['.'] + three_digits(
                millis as nat,
            ) + seq!['s']);
        }
        from_chars(&out)
    }
}

impl Builtin {
    /// Tells what it takes to run the job, by the name of its command.
    pub fn run(job: &Job) -> (action: BuiltinAction)
        requires
            job.args@.len() > 0,
        ensures
            action == action_of(job.args@[0]@),
    {
        let name = &job.args[0];
        if *name == String::from_str("cd") {
            BuiltinAction::ChangeDirectory
        } else if *name == String::from_str("jobs") {
            BuiltinAction::ListJobs
        } else if *name == String::from_str("yes") {
            BuiltinAction::Yes
        } else {
            BuiltinAction::Spawn
        }
    }

    /// Tells where `cd` goes for the job.
    pub fn cd_target(job: &Job) -> (target: CdTarget)
        requires
            job.args@.len() > 0,
        ensures
            job.args@.len() == 1 ==> target is Home,
            job.args@.len() > 1 && job.args@[1]@ == "-"@ ==> target is Previous,
            job.args@.len() > 1 && job.args@[1]@ != "-"@ ==> target == CdTarget::Path(
                job.args@[1],
            ),
    {
        if job.args.len() == 1 {
            CdTarget::Home
        } else if job.args[1] == String::from_str("-") {
            CdTarget::Previous
        } else {
            CdTarget::Path(job.args[1].clone())
        }
    }

    /// Ends `cd` for the directory `path`. Where the directory does not
    /// exist, the first message says so and the job ends with code 1;
    /// otherwise it ends with code 0. The last message hands the job back.
    pub fn cmd_cd(job: Job, path: &str, exists: bool) -> (messages: Vec<ExecMessage>)
        ensures
            messages@.len() == (if exists { 1int } else { 2int }),
            !exists ==> reports_error(messages@[0], cd_error(path@)),
            hands_back(messages@.last(), job.args, if exists { 0i32 } else { 1i32 }),
    {
        let mut job = job;
        let mut messages: Vec<ExecMessage> = Vec::new();
        job.start();
        if exists {
            job.return_code = Some(0);
        } else {
            let text = String::from_str("cd: ").concat(path).concat(": No such file or directory");
            messages.push(ExecMessage::StdErr(text));
            job.return_code = Some(1);
        }
        job.end();
        messages.push(ExecMessage::JobDone(job));
        messages
    }

    /// Runs `jobs`: the job starts and ends with code 0, and the message
    /// asks the shell to list its jobs.
    pub fn cmd_jobs(job: &mut Job) -> (message: ExecMessage)
        ensures
            message is BuiltinCommand,
            final(job).return_code == Some(0i32),
            final(job).start_time is Some,
            final(job).args == old(job).args,
            final(job).end_time == old(job).end_time,
    {
        job.start();
        job.return_code = Some(0);
        ExecMessage::BuiltinCommand(BuiltinCommand::Jobs)
    }

    /// Runs `yes`: the job starts and ends with code 0, and the message
    /// prints `y`.
    pub fn cmd_yes(job: &mut Job) -> (message: ExecMessage)
        ensures
            prints(message, "y"@),
            final(job).return_code == Some(0i32),
            final(job).start_time is Some,
            final(job).args == old(job).args,
            final(job).end_time == old(job).end_time,
    {
        job.start();
        job.return_code = Some(0);
        ExecMessage::StdOut(String::from_str("y"))
    }

    /// The lines that report the jobs still running, one for each job that
    /// has started and not ended, in the order of the jobs. Each line gives
    /// the time on the system clock since the job started, or a time of
    /// zero where the clock stands before that start.
    pub fn running_lines(jobs: &Vec<Job>) -> (lines: Vec<String>)
        ensures
            reports(views(lines@), running_words(jobs@, jobs@.len() as int)),
    {
        let mut lines: Vec<String> = Vec::new();
        let mut i: usize = 0;
        while i < jobs.len()
            invariant
                i <= jobs.len(),
                reports(views(lines@), running_words(jobs@, i as int)),
            decreases jobs.len() - i,
        {
            let job = &jobs[i];
            if job.end_time.is_none() {
                match &job.start_time {
                    Some(start) => {
                        let (secs, millis) = match elapsed_since(start) {
                            Some(elapsed) => elapsed,
                            None => (0, 0),
                        };
                        let ghost before = views(lines@);
                        lines.push(job.running_message(secs, millis));
                        proof {
                            let words = views(job.args@);
                            let after = views(lines@);
                            assert(after =~= before.push(
                                running_line(words, secs as nat, millis as nat),
                            ));
                            assert(running_words(jobs@, i as int + 1) == running_words(
                                jobs@,
                                i as int,
                            ).push(words));
                            assert forall|k: int| 0 <= k < after.len() implies reports_job(
                                #[trigger] after[k],
                                running_words(jobs@, i as int + 1)[k],
                            ) by {
                                if k < before.len() {
                                    assert(reports_job(before[k], running_words(jobs@, i as int)[k]));
                                } else {
                                    assert(is_running_line(
                                        after[k],
                                        words,
                                        secs as nat,
                                        millis as nat,
                                    ));
                                }
                            }
                        }
                    },
                    None => {},
                }
            }
            i += 1;
        }
        lines
    }

    /// Runs the listing of jobs: the message prints the lines that report
    /// the jobs still running, one line below the other.
    pub fn jobs(jobs: &Vec<Job>) -> (message: ExecMessage)
        ensures
            exists|lines: Seq<Seq<char>>|
                #![trigger reports(lines, running_words(jobs@, jobs@.len() as int))]
                reports(lines, running_words(jobs@, jobs@.len() as int)) && prints(
                    message,
                    joined(lines, '\n', lines.len() as int),
                ),
    {
        let lines = Self::running_lines(jobs);
        let text = join(&lines, '\n');
        let message = ExecMessage::StdOut(from_chars(&text));
        proof {
            assert(reports(views(lines@), running_words(jobs@, jobs@.len() as int)) && prints(
                message,
                joined(views(lines@), '\n', views(lines@).len() as int),
            ));
        }
        message
    }
}

/// The words of those of the first `n` jobs that run: that have started and
/// have not ended.
pub open spec fn running_words(jobs: Seq<Job>, n: int) -> Seq<Seq<Seq<char>>>
    decreases n,
{
    if n <= 0 {
        Seq::empty()
    } else if jobs[n - 1].end_time is None && jobs[n - 1].start_time is Some {
        running_words(jobs, n - 1).push(views(jobs[n - 1].args@))
    } else {
        running_words(jobs, n - 1)
    }
}

/// Whether `line` reports the job with the words given as running for the
/// time given.
pub open spec fn is_running_line(line: Seq<char>, words: Seq<Seq<char>>, secs: nat, millis: nat) -> bool {
    millis < 1000 && line == running_line(words, secs, millis)
}

/// Whether `line` reports the job with the words given as running for some
/// time.
pub open spec fn reports_job(line: Seq<char>, words: Seq<Seq<char>>) -> bool {
    exists|secs: nat, millis: nat| #[trigger] is_running_line(line, words, secs, millis)
}

/// Whether the lines report the jobs with the words given, one line for
/// each job in their order.
pub open spec fn reports(lines: Seq<Seq<char>>, jobs: Seq<Seq<Seq<char>>>) -> bool {
    &&& lines.len() == jobs.len()
    &&& forall|k: int| 0 <= k < lines.len() ==> reports_job(#[trigger] lines[k], jobs[k])
}

/// The strings with `separator` between two of them, as characters.
pub fn join(strings: &Vec<String>, separator: char) -> (out: Vec<char>)
    ensures
        out@ == joined(views(strings@), separator, strings@.len() as int),
{
    let mut out: Vec<char> = Vec::new();
    let mut i: usize = 0;
    while i < strings.len()
        invariant
            i <= strings.len(),
            out@ == joined(views(strings@), separator, i as int),
        decreases strings.len() - i,
    {
        if i > 0 {
            out.push(separator);
        }
        let mut word = to_chars(strings[i].as_str());
        out.append(&mut word);
        proof {
            assert(views(strings@)[i as int] == strings@[i as int]@);
            assert(out@ =~= joined(views(strings@), separator, i as int + 1));
        }
        i += 1;
    }
    out
}

/// The time from `start` to `end`, as whole seconds and the milliseconds
/// beyond them; nothing where `end` lies before `start`.
fn time_between(start: &SystemTime, end: &SystemTime) -> (elapsed: Option<(u64, u32)>)
    ensures
        match elapsed {
            Some((_, millis)) => millis < 1000,
            None => true,
        },
{
    match end.duration_since(*start) {
        Ok(span) => Some(seconds_and_millis(&span)),
        Err(_) => None,
    }
}

impl Job {
    /// How long the job has run, from its start to its end, as whole
    /// seconds and milliseconds; nothing where it has not started or not
    /// ended, or where its end lies before its start.
    pub fn duration(&self) -> (elapsed: Option<(u64, u32)>)
        ensures
            match elapsed {
                Some((_, millis)) => millis < 1000 && self.start_time is Some
                    && self.end_time is Some,
                None => true,
            },
    {
        match (&self.start_time, &self.end_time) {
            (Some(start), Some(end)) => time_between(start, end),
            _ => None,
        }
    }
}

} // verus!
