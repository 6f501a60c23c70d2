//! A list of shell commands built one at a time, with `{}` placeholders
//! filled in from arguments.
use vstd::prelude::*;
use crate::text::{self, push_str, push_string, replace_all, replace_first};

verus! {

/// `fmt` with every `{}` replaced by `arg`.
pub open spec fn fill(fmt: Seq<char>, arg: Seq<char>) -> Seq<char> {
    text::replace_spec(fmt, "{}"@, arg)
}

/// `fmt` with its `{}` placeholders replaced by `args`, one each, from the
/// left.
pub open spec fn fill_args(fmt: Seq<char>, args: Seq<Seq<char>>) -> Seq<char>
    decreases args.len(),
{
    if args.len() == 0 {
        fmt
    } else {
        text::replace_first_spec(fill_args(fmt, args.drop_last()), "{}"@, args.last())
    }
}

/// The views of a slice of string slices.
pub open spec fn arg_views(v: Seq<&str>) -> Seq<Seq<char>> {
    v.map_values(|s: &str| s@)
}

/// A list of commands under construction.
pub struct CommandBuilder {
    commands: Vec<String>,
}

impl CommandBuilder {
    /// The commands so far.
    pub closed spec fn cmds(&self) -> Seq<Seq<char>> {
        text::views(self.commands@)
    }

    /// No commands yet.
    pub fn new() -> (r: Self)
        ensures
            r.cmds() == Seq::<Seq<char>>::empty(),
    {
        let r = CommandBuilder { commands: Vec::new() };
        assert(r.cmds() =~= Seq::<Seq<char>>::empty());
        r
    }

    /// Appends a command.
    pub fn add(&mut self, cmd: &str)
        ensures
            final(self).cmds() == old(self).cmds().push(cmd@),
    {
        push_str(&mut self.commands, cmd);
    }

    /// Appends `fmt` with every `{}` replaced by `arg`.
    pub fn add_with(&mut self, fmt: &str, arg: &str)
        ensures
            final(self).cmds() == old(self).cmds().push(fill(fmt@, arg@)),
    {
        push_string(&mut self.commands, replace_all(fmt, "{}", arg));
    }

    /// Appends `fmt` with its placeholders filled by `args`, one each, from
    /// the left.
    pub fn add_with_args(&mut self, fmt: &str, args: &[&str])
        ensures
            final(self).cmds() == old(self).cmds().push(fill_args(fmt@, arg_views(args@))),
    {
        let mut s = text::owned(fmt);
        let mut i: usize = 0;
        while i < args.len()
            invariant
                i <= args.len(),
                s@ == fill_args(fmt@, arg_views(args@).take(i as int)),
            decreases args.len() - i,
        {
            proof {
                assert(arg_views(args@).take(i + 1).drop_last() =~= arg_views(args@).take(i as int));
            }
            s = replace_first(s.as_str(), "{}", args[i]);
            i = i + 1;
        }
        assert(arg_views(args@).take(i as int) =~= arg_views(args@));
        push_string(&mut self.commands, s);
    }

    /// The commands, in order.
    pub fn build(self) -> (r: Vec<String>)
        ensures
            text::views(r@) == self.cmds(),
    {
        self.commands
    }
}

} // verus!
