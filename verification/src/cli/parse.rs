//! Arguments of a subcommand: flags, options with a value, and what stands in
//! position.

use vstd::prelude::*;

use crate::app::connect::holds_name;
use crate::text::{begins_with, cat3, has_prefix, same, views};

verus! {

broadcast use crate::text::group_views;

/// The arguments without those equal to `flag`.
pub open spec fn without_flag(args: Seq<Seq<char>>, flag: Seq<char>) -> Seq<Seq<char>>
    decreases args.len(),
{
    if args.len() == 0 {
        Seq::empty()
    } else {
        let before = without_flag(args.drop_last(), flag);
        if args.last() == flag {
            before
        } else {
            before.push(args.last())
        }
    }
}

/// Take a flag out of the arguments. Returns whether it was there.
pub fn take_flag(args: &mut Vec<String>, flag: &str) -> (r: bool)
    ensures
        r == views(old(args)@).contains(flag@),
        views(final(args)@) == without_flag(views(old(args)@), flag@),
{
    let found = holds_name(args, flag);
    let ghost all = views(args@);
    let mut kept: Vec<String> = Vec::new();
    let mut i: usize = 0;
    assert(all.take(0) =~= Seq::empty());
    while i < args.len()
        invariant
            all == views(args@),
            i <= args@.len(),
            views(kept@) == without_flag(all.take(i as int), flag@),
        decreases args@.len() - i,
    {
        assert(all.take(i + 1).drop_last() =~= all.take(i as int));
        assert(all.take(i + 1).last() == args@[i as int]@);
        if !same(args[i].as_str(), flag) {
            kept.push(args[i].clone());
        }
        i = i + 1;
    }
    assert(all.take(args@.len() as int) =~= all);
    *args = kept;
    found
}

/// The position of the first argument equal to `name`, if there is one.
pub open spec fn position_of(args: Seq<Seq<char>>, name: Seq<char>) -> Option<int>
    decreases args.len(),
{
    if args.len() == 0 {
        None
    } else {
        match position_of(args.drop_last(), name) {
            Some(i) => Some(i),
            None => if args.last() == name {
                Some(args.len() - 1)
            } else {
                None
            },
        }
    }
}

/// The value of an option: the argument behind it.
pub open spec fn option_value(args: Seq<Seq<char>>, name: Seq<char>) -> Option<Seq<char>> {
    match position_of(args, name) {
        Some(i) => if i + 1 < args.len() {
            Some(args[i + 1])
        } else {
            None
        },
        None => None,
    }
}

/// The arguments without an option and its value.
pub open spec fn without_option(args: Seq<Seq<char>>, name: Seq<char>) -> Seq<Seq<char>> {
    match position_of(args, name) {
        Some(i) => if i + 1 < args.len() {
            args.take(i) + args.skip(i + 2)
        } else {
            args.take(i)
        },
        None => args,
    }
}

pub proof fn lemma_first_position(args: Seq<Seq<char>>, name: Seq<char>, i: int)
    requires
        0 <= i < args.len(),
        position_of(args.take(i), name) is None,
        args[i] == name,
    ensures
        position_of(args, name) == Some(i),
    decreases args.len(),
{
    if i == args.len() - 1 {
        assert(args.drop_last() =~= args.take(i));
    } else {
        assert(args.drop_last().take(i) =~= args.take(i));
        lemma_first_position(args.drop_last(), name, i);
    }
}

fn find_position(args: &Vec<String>, name: &str) -> (r: Option<usize>)
    ensures
        match r {
            Some(i) => position_of(views(args@), name@) == Some(i as int) && i < args@.len(),
            None => position_of(views(args@), name@) is None,
        },
{
    let ghost all = views(args@);
    let mut i: usize = 0;
    assert(all.take(0) =~= Seq::empty());
    while i < args.len()
        invariant
            all == views(args@),
            i <= args@.len(),
            position_of(all.take(i as int), name@) is None,
        decreases args@.len() - i,
    {
        assert(all.take(i + 1).drop_last() =~= all.take(i as int));
        assert(all.take(i + 1).last() == args@[i as int]@);
        if same(args[i].as_str(), name) {
            proof {
                lemma_first_position(all, name@, i as int);
            }
            return Some(i);
        }
        i = i + 1;
    }
    assert(all.take(args@.len() as int) =~= all);
    None
}

/// Take an option and its value out of the arguments. Returns the value.
pub fn take_opt(args: &mut Vec<String>, name: &str) -> (r: Option<String>)
    ensures
        crate::text::opt_view(r) == option_value(views(old(args)@), name@),
        views(final(args)@) == without_option(views(old(args)@), name@),
{
    let ghost all = views(args@);
    match find_position(args, name) {
        Some(i) => {
            let _ = args.remove(i);
            if i < args.len() {
                let value = args.remove(i);
                assert(views(args@) =~= all.take(i as int) + all.skip(i + 2));
                Some(value)
            } else {
                assert(views(args@) =~= all.take(i as int));
                None
            }
        },
        None => None,
    }
}

/// The arguments that are neither flags nor options.
pub open spec fn positional_args(args: Seq<Seq<char>>) -> Seq<Seq<char>>
    decreases args.len(),
{
    if args.len() == 0 {
        Seq::empty()
    } else {
        let before = positional_args(args.drop_last());
        if begins_with(args.last(), "--"@) {
            before
        } else {
            before.push(args.last())
        }
    }
}

pub fn positional(args: &Vec<String>) -> (r: Vec<String>)
    ensures
        views(r@) == positional_args(views(args@)),
{
    let ghost all = views(args@);
    let mut out: Vec<String> = Vec::new();
    let mut i: usize = 0;
    assert(all.take(0) =~= Seq::empty());
    while i < args.len()
        invariant
            all == views(args@),
            i <= args@.len(),
            views(out@) == positional_args(all.take(i as int)),
        decreases args@.len() - i,
    {
        assert(all.take(i + 1).drop_last() =~= all.take(i as int));
        assert(all.take(i + 1).last() == args@[i as int]@);
        if !has_prefix(args[i].as_str(), "--") {
            out.push(args[i].clone());
        }
        i = i + 1;
    }
    assert(all.take(args@.len() as int) =~= all);
    out
}

/// How a listing is printed.
#[derive(Debug, Clone, Copy, PartialEq, Eq, Structural)]
pub enum OutputFormat {
    Plain,
    Json,
}

/// The format that the arguments ask for, or what is wrong with it.
pub open spec fn format_of(args: Seq<Seq<char>>) -> Result<OutputFormat, Seq<char>> {
    match position_of(args, "--format"@) {
        None => Ok(OutputFormat::Plain),
        Some(_) => match option_value(args, "--format"@) {
            None => Err("--format needs a value (plain|json)"@),
            Some(value) => if value == "plain"@ {
                Ok(OutputFormat::Plain)
            } else if value == "json"@ {
                Ok(OutputFormat::Json)
            } else {
                Err("unknown format '"@ + value + "' (plain|json)"@)
            },
        },
    }
}

pub fn parse_format(args: &Vec<String>) -> (r: Result<OutputFormat, String>)
    ensures
        match r {
            Ok(format) => format_of(views(args@)) == Ok::<OutputFormat, Seq<char>>(format),
            Err(message) => format_of(views(args@)) == Err::<OutputFormat, Seq<char>>(message@),
        },
{
    let i: usize = match find_position(args, "--format") {
        Some(i) => i,
        None => {
            return Ok(OutputFormat::Plain);
        },
    };
    if i >= args.len() - 1 {
        return Err("--format needs a value (plain|json)".to_owned());
    }
    let value = args[i + 1].as_str();
    if same(value, "plain") {
        Ok(OutputFormat::Plain)
    } else if same(value, "json") {
        Ok(OutputFormat::Json)
    } else {
        Err(cat3("unknown format '", value, "' (plain|json)"))
    }
}

} // verus!
