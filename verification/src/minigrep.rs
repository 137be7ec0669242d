use vstd::prelude::*;

verus! {

/// The command line of the search tool: the text to look for and the file to
/// look in, borrowed from the argument list.
pub struct Config<'a> {
    pub query: &'a String,
    pub filename: &'a String,
}

impl<'a> Config<'a> {
    /// Reads the configuration from the command-line arguments, the program
    /// name first: the query is the second argument and the file name the
    /// third. Fewer than three arguments are refused.
    pub fn new(args: &'a Vec<String>) -> (r: Result<Config<'a>, &'static str>)
        ensures
            r is Err <==> args.len() < 3,
            r matches Err(e) ==> e@ == "not enough arguments!"@,
            r matches Ok(config) ==> *config.query == args@[1] && *config.filename == args@[2],
    {
        if args.len() < 3 {
            return Err("not enough arguments!");
        }
        let query = &args[1];
        let filename = &args[2];
        Ok(Config { query, filename })
    }
}

} // verus!
