//! Building the arguments of programs.

use super::generate::{arguments_of, Argument, CommandArg};
use std::path::PathBuf;
use vstd::prelude::*;

verus! {

/// A flag and its value, where there is one.
pub open spec fn flag_with(flag: Seq<char>, value: Option<Seq<char>>) -> Seq<Argument> {
    match value {
        Some(value) => seq![Argument::Text(flag), Argument::Text(value)],
        None => Seq::empty(),
    }
}

/// Adds a text argument.
pub fn push_text(args: &mut Vec<CommandArg>, text: &str)
    ensures
        arguments_of(final(args)@) == arguments_of(old(args)@).push(Argument::Text(text@)),
{
    let ghost before = arguments_of(args@);
    args.push(CommandArg::Text(text.to_string()));
    proof {
        assert(arguments_of(args@) =~= before.push(Argument::Text(text@)));
    }
}

/// Adds a file argument.
pub fn push_file(args: &mut Vec<CommandArg>, file: &PathBuf)
    ensures
        arguments_of(final(args)@) == arguments_of(old(args)@).push(Argument::File(*file)),
{
    let ghost before = arguments_of(args@);
    args.push(CommandArg::File(file.clone()));
    proof {
        assert(arguments_of(args@) =~= before.push(Argument::File(*file)));
    }
}

/// Adds a flag and its value.
pub fn push_flag(args: &mut Vec<CommandArg>, flag: &str, value: &str)
    ensures
        arguments_of(final(args)@) == arguments_of(old(args)@) + flag_with(flag@, Some(value@)),
{
    let ghost before = arguments_of(args@);
    push_text(args, flag);
    push_text(args, value);
    proof {
        assert(arguments_of(args@) =~= before + flag_with(flag@, Some(value@)));
    }
}

} // verus!
