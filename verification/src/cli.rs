//! The command line: what to run and how to show the result.

use vstd::prelude::*;
use vstd::slice::slice_subrange;
use crate::text::{chars_of, push_chars, string_from_chars};

verus! {

/// The options and the command given on the command line.
#[derive(Debug)]
pub struct Cli {
    /// Stop tracing after this many seconds.
    pub timeout: u64,
    /// Show the result in a fullscreen dashboard.
    pub tui: bool,
    /// Keep the raw trace file instead of deleting it.
    pub keep_trace: bool,
    /// Disable colored output.
    pub no_color: bool,
    /// The command to run and analyze: the program, then its arguments.
    pub command: Vec<String>,
}

impl Cli {
    /// The program to run: the first word of the command.
    pub fn program(&self) -> (r: &str)
        requires
            self.command@.len() > 0,
        ensures
            r@ == self.command@[0]@,
    {
        self.command[0].as_str()
    }

    /// The arguments of the program: the words of the command after the first.
    pub fn program_args(&self) -> (r: &[String])
        requires
            self.command@.len() > 0,
        ensures
            r@ == self.command@.subrange(1, self.command@.len() as int),
    {
        slice_subrange(self.command.as_slice(), 1, self.command.len())
    }
}

/// The program followed by each argument, each after one space: the
/// command as the reports show it.
pub open spec fn command_line(program: Seq<char>, args: Seq<String>) -> Seq<char>
    decreases args.len(),
{
    if args.len() == 0 {
        program
    } else {
        command_line(program, args.drop_last()) + seq![' '] + args.last()@
    }
}

/// The command as the reports show it (see `command_line`).
pub fn command_text(program: &str, args: &[String]) -> (r: String)
    ensures
        r@ == command_line(program@, args@),
{
    let mut out = chars_of(program);
    let mut i: usize = 0;
    while i < args.len()
        invariant
            i <= args@.len(),
            out@ == command_line(program@, args@.take(i as int)),
        decreases args.len() - i,
    {
        out.push(' ');
        let arg = chars_of(args[i].as_str());
        push_chars(&mut out, arg.as_slice());
        proof {
            let next = args@.take(i + 1);
            assert(next.drop_last() =~= args@.take(i as int));
            assert(next.last() == args@[i as int]);
        }
        i = i + 1;
    }
    assert(args@.take(args@.len() as int) =~= args@);
    string_from_chars(out.as_slice())
}

} // verus!
