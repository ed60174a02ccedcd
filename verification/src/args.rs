//! The command-line surface, as plain data. Flag decoding happens outside
//! the library and hands in an [`Args`] value.

use crate::unicode::{str_trim, trim_of};
use vstd::prelude::*;

verus! {

/// The subcommand the process was started with.
pub enum Command {
    /// Open the given files, one editor window each.
    Open { file_names: Vec<String> },
}

/// Everything decoded from the command line.
pub struct Args {
    pub command: Command,
}

/// The files to open, each name trimmed of surrounding whitespace.
pub fn parse_args(args: Args) -> (r: Vec<String>)
    ensures
        ({
            let names = (match args.command {
                Command::Open { file_names } => file_names,
            })@;
            r@.len() == names.len() && forall|i: int|
                0 <= i < names.len() ==> (#[trigger] r@[i])@ == trim_of(names[i]@)
        }),
{
    let Command::Open { file_names } = args.command;
    let mut out: Vec<String> = Vec::new();
    let mut i: usize = 0;
    while i < file_names.len()
        invariant
            i <= file_names@.len(),
            out@.len() == i,
            forall|j: int| 0 <= j < i ==> (#[trigger] out@[j])@ == trim_of(file_names@[j]@),
        decreases file_names@.len() - i,
    {
        out.push(str_trim(file_names[i].as_str()).to_owned());
        i = i + 1;
    }
    out
}

} // verus!
