//! Command-line flags of the backend server: route-table inspection and a
//! strict checking mode.

use vstd::prelude::*;

verus! {

/// The server's parsed command line.
#[derive(Debug)]
pub struct Cli {
    /// Dump the route-to-state table and continue.
    pub dump_state_traits: bool,
    /// Write the table to this path instead of printing it.
    pub output: Option<String>,
    /// Fail startup when managed state and routes disagree.
    pub check: bool,
}

/// What the server's flag list parses to, scanning from position `i` with the
/// flags gathered so far: the two boolean flags, and `--output` with a value.
/// A repeated or unknown flag, or `--output` without a value, fails the parse.
pub open spec fn spec_parse_server(
    args: Seq<Seq<char>>,
    i: int,
    acc: (bool, Option<Seq<char>>, bool),
) -> Option<(bool, Option<Seq<char>>, bool)>
    decreases args.len() - i,
{
    if i >= args.len() {
        Some(acc)
    } else {
        let a = args[i];
        if a == "--dump-state-traits"@ && !acc.0 {
            spec_parse_server(args, i + 1, (true, acc.1, acc.2))
        } else if a == "--check"@ && !acc.2 {
            spec_parse_server(args, i + 1, (acc.0, acc.1, true))
        } else if a == "--output"@ && acc.1 is None {
            if i + 1 < args.len() {
                spec_parse_server(args, i + 2, (acc.0, Some(args[i + 1]), acc.2))
            } else {
                None
            }
        } else {
            None
        }
    }
}

/// The full server command line: the first argument is the program name.
pub open spec fn spec_parse_server_cli(args: Seq<Seq<char>>) -> Option<
    (bool, Option<Seq<char>>, bool),
> {
    if args.len() < 1 {
        None
    } else {
        spec_parse_server(args, 1, (false, None, false))
    }
}

impl Cli {
    /// Parse the server's command line, program name first. Accepts exactly
    /// what `spec_parse_server_cli` accepts.
    pub fn parse_from(args: Vec<String>) -> (r: Result<Cli, String>)
        ensures
            match r {
                Ok(cli) => spec_parse_server_cli(args@.map_values(|a: String| a@)) == Some(
                    (
                        cli.dump_state_traits,
                        match cli.output {
                            Some(o) => Some(o@),
                            None => None::<Seq<char>>,
                        },
                        cli.check,
                    ),
                ),
                Err(_) => spec_parse_server_cli(args@.map_values(|a: String| a@)) is None,
            },
    {
        let ghost av = args@.map_values(|a: String| a@);
        if args.len() < 1 {
            return Err(String::from_str("missing program name"));
        }
        let mut dump: bool = false;
        let mut output: Option<String> = None;
        let mut check: bool = false;
        let mut i: usize = 1;
        while i < args.len()
            invariant
                1 <= i <= args@.len(),
                av == args@.map_values(|a: String| a@),
                spec_parse_server_cli(av) == spec_parse_server(
                    av,
                    i as int,
                    (
                        dump,
                        match output {
                            Some(ref o) => Some(o@),
                            None => None::<Seq<char>>,
                        },
                        check,
                    ),
                ),
            decreases args@.len() - i,
        {
            let a = &args[i];
            if *a == String::from_str("--dump-state-traits") && !dump {
                dump = true;
                i = i + 1;
            } else if *a == String::from_str("--check") && !check {
                check = true;
                i = i + 1;
            } else if *a == String::from_str("--output") && output.is_none() {
                if i + 1 >= args.len() {
                    return Err(String::from_str("--output takes a path"));
                }
                output = Some(args[i + 1].clone());
                i = i + 2;
            } else {
                return Err(String::from_str("unknown or repeated flag"));
            }
        }
        Ok(Cli { dump_state_traits: dump, output, check })
    }
}

} // verus!
