use vstd::prelude::*;

verus! {

/// What the command line asks for.
pub enum Launch {
    /// Print the usage text and exit with status 0.
    Help,
    /// Serve on the unix socket at this path.
    Serve(String),
}

/// A word that asks for the usage text.
pub open spec fn is_help_flag(a: Seq<char>) -> bool {
    a == "-h"@ || a == "--help"@
}

/// The command line, program name first, asks for help: a help flag stands
/// anywhere in it, or it does not hold exactly one argument besides the
/// program name.
pub open spec fn wants_help(args: Seq<String>) -> bool {
    args.len() != 2 || exists|i: int| 0 <= i < args.len() && is_help_flag(#[trigger] args[i]@)
}

/// Reads the command line, program name first.
pub fn parse_args(args: Vec<String>) -> (r: Launch)
    ensures
        r is Help <==> wants_help(args@),
        r matches Launch::Serve(p) ==> p@ == args@[1]@,
{
    let short = "-h".to_owned();
    let long = "--help".to_owned();
    let mut i: usize = 0;
    while i < args.len()
        invariant
            0 <= i <= args.len(),
            short@ == "-h"@,
            long@ == "--help"@,
            forall|j: int| 0 <= j < i ==> !is_help_flag(#[trigger] args@[j]@),
        decreases args.len() - i,
    {
        if args[i] == short || args[i] == long {
            return Launch::Help;
        }
        i = i + 1;
    }
    if args.len() != 2 {
        return Launch::Help;
    }
    let mut args = args;
    let path = args.remove(1);
    Launch::Serve(path)
}

} // verus!
