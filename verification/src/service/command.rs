//! External programs: what to run, and what came of it.
use crate::text::texts;
use vstd::prelude::*;

verus! {

/// A program and its arguments.
#[derive(Debug)]
pub struct CommandLine {
    pub program: String,
    pub args: Vec<String>,
}

/// A program and its arguments, as character sequences.
pub struct CommandLineView {
    pub program: Seq<char>,
    pub args: Seq<Seq<char>>,
}

impl View for CommandLine {
    type V = CommandLineView;

    open spec fn view(&self) -> CommandLineView {
        CommandLineView { program: self.program@, args: texts(self.args@) }
    }
}

/// What came of running a program.
#[derive(Debug)]
pub enum CommandOutcome {
    /// It ran and ended.
    Finished {
        /// Whether it reported success.
        success: bool,
        /// The exit status in words.
        status: String,
        /// What it wrote to standard output.
        stdout: Vec<u8>,
        /// What it wrote to standard error.
        stderr: Vec<u8>,
    },
    /// It could not be started; the system's words for why.
    NotStarted { error: String },
}

/// What came of running a program, with its texts as character sequences.
pub enum CommandOutcomeView {
    Finished { success: bool, status: Seq<char>, stdout: Seq<u8>, stderr: Seq<u8> },
    NotStarted { error: Seq<char> },
}

impl View for CommandOutcome {
    type V = CommandOutcomeView;

    open spec fn view(&self) -> CommandOutcomeView {
        match self {
            CommandOutcome::Finished { success, status, stdout, stderr } => {
                CommandOutcomeView::Finished {
                    success: *success,
                    status: status@,
                    stdout: stdout@,
                    stderr: stderr@,
                }
            },
            CommandOutcome::NotStarted { error } => CommandOutcomeView::NotStarted {
                error: error@,
            },
        }
    }
}

/// What to do next in a task that runs one program after the other.
#[derive(Debug)]
pub enum CommandStep {
    /// Run this and hand in what came of it.
    Run(CommandLine),
    /// Nothing more: the task is done, or why it failed.
    Done(Result<(), String>),
}

/// What to do next in such a task, with its texts as character sequences.
pub enum CommandStepView {
    Run(CommandLineView),
    Done(Result<(), Seq<char>>),
}

impl View for CommandStep {
    type V = CommandStepView;

    open spec fn view(&self) -> CommandStepView {
        match self {
            CommandStep::Run(line) => CommandStepView::Run(line@),
            CommandStep::Done(Ok(_)) => CommandStepView::Done(Ok(())),
            CommandStep::Done(Err(message)) => CommandStepView::Done(Err(message@)),
        }
    }
}

/// A command line that starts with the program `program`.
pub fn command(program: &str) -> (r: CommandLine)
    ensures
        r@ == (CommandLineView { program: program@, args: Seq::empty() }),
{
    let r = CommandLine { program: program.to_owned(), args: Vec::new() };
    assert(texts(r.args@) == Seq::<Seq<char>>::empty());
    r
}

impl CommandLine {
    /// The command line with one more argument.
    pub fn arg(self, text: &str) -> (r: CommandLine)
        ensures
            r@ == (CommandLineView { program: self@.program, args: self@.args.push(text@) }),
    {
        let program: String = self.program;
        let mut args: Vec<String> = self.args;
        let ghost before = texts(args@);
        args.push(text.to_owned());
        assert(texts(args@) == before.push(text@));
        CommandLine { program, args }
    }

    /// The command line with more arguments.
    pub fn args(self, more: &Vec<String>) -> (r: CommandLine)
        ensures
            r@ == (CommandLineView {
                program: self@.program,
                args: self@.args + texts(more@),
            }),
    {
        let program: String = self.program;
        let mut args: Vec<String> = self.args;
        let ghost before = texts(args@);
        let mut i: usize = 0;
        while i < more.len()
            invariant
                i <= more.len(),
                texts(args@) == before + texts(more@).take(i as int),
            decreases more.len() - i,
        {
            let ghost so_far = texts(args@);
            args.push(more[i].clone());
            assert(texts(args@) == so_far.push(more@[i as int]@));
            i = i + 1;
        }
        assert(texts(more@).take(i as int) == texts(more@));
        CommandLine { program, args }
    }
}

} // verus!
