use vstd::prelude::*;

verus! {

/// The resolved settings of one invocation: what to search for, in which
/// file, and whether matching is case-sensitive.
#[derive(Debug)]
pub struct Config {
    pub query: String,
    pub filename: String,
    pub case_sensitive: bool,
}

impl Config {
    /// Resolves the argument list into a configuration.
    ///
    /// `args` is the full argument vector, program name first: the query is
    /// the second entry, the filename the third. `case_insensitive_set` is
    /// the environment's toggle, `true` when the `CASE_INSENSITIVE` variable
    /// is set (to any value); the caller looks the variable up and passes the
    /// outcome in, so that resolution itself stays pure.
    pub fn new(args: &Vec<String>, case_insensitive_set: bool) -> (r: Result<Config, &'static str>)
        ensures
            match r {
                Ok(c) => {
                    &&& args@.len() >= 3
                    &&& c.query@ == args@[1]@
                    &&& c.filename@ == args@[2]@
                    &&& c.case_sensitive == !case_insensitive_set
                },
                Err(e) => {
                    &&& args@.len() < 3
                    &&& e@ == "Not enough arguments\ntry: rustgrep <query> <filename>"@
                },
            },
    {
        if args.len() < 3 {
            return Err("Not enough arguments\ntry: rustgrep <query> <filename>");
        }
        let query = args[1].clone();
        let filename = args[2].clone();
        let case_sensitive = !case_insensitive_set;
        Ok(Config { query, filename, case_sensitive })
    }
}

} // verus!
