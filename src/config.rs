use vstd::prelude::*;

verus! {

/// What one search run is asked to do.
#[derive(Debug, PartialEq, Eq)]
pub struct Config {
    pub query: String,
    pub file_path: String,
    pub ignore_case: bool,
}

/// Why the arguments do not describe a run.
#[derive(Debug, PartialEq, Eq)]
pub enum ArgsError {
    /// No argument was given.
    MissingQuery,
    /// Only the query, held here, was given.
    MissingFilePath(String),
}

impl Config {
    /// Reads a run from the positional arguments (the program's name left
    /// out): the query, then the file path; arguments after those two are
    /// ignored. `ignore_case` says whether case is to be ignored.
    pub fn build(args: &Vec<String>, ignore_case: bool) -> (r: Result<Config, ArgsError>)
        ensures
            args@.len() == 0 <==> r == Err::<Config, ArgsError>(ArgsError::MissingQuery),
            args@.len() == 1 <==> (r matches Err(ArgsError::MissingFilePath(q)) && q@ == args@[0]@),
            args@.len() >= 2 <==> (r matches Ok(c) && c.query@ == args@[0]@ && c.file_path@
                == args@[1]@ && c.ignore_case == ignore_case),
    {
        if args.len() == 0 {
            return Err(ArgsError::MissingQuery);
        }
        let query = args[0].clone();
        if args.len() == 1 {
            return Err(ArgsError::MissingFilePath(query));
        }
        let file_path = args[1].clone();
        Ok(Config { query, file_path, ignore_case })
    }
}

} // verus!
