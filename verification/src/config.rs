use vstd::prelude::*;

verus! {

/// The two roots a run works over. The caller that builds one is responsible
/// for the on-disk checks (the input root exists, is a directory and is
/// non-empty; the output root exists or was created): this type only records
/// the validated pair.
pub struct Config {
    pub input_path: String,
    pub output_path: String,
}

impl Config {
    /// Builds a `Config` from the raw argument list
    /// `[program, input, output]`, rejecting any other argument count.
    pub fn new(args: &[String]) -> (r: Result<Config, &'static str>)
        ensures
            args@.len() == 3 ==> (r matches Ok(c)
                && c.input_path@ == args@[1]@
                && c.output_path@ == args@[2]@),
            args@.len() != 3 ==> (r matches Err(e) && e@ == "Invalid number of args given"@),
    {
        match Config::validate_number_of_args(args) {
            Ok(()) => {
                let input_path = args[1].clone();
                let output_path = args[2].clone();
                Ok(Config { input_path, output_path })
            },
            Err(e) => Err(e),
        }
    }

    /// A run takes exactly two positional arguments beside the program name.
    pub fn validate_number_of_args(args: &[String]) -> (r: Result<(), &'static str>)
        ensures
            r is Ok <==> args@.len() == 3,
            r matches Err(e) ==> e@ == "Invalid number of args given"@,
    {
        if args.len() != 3 {
            return Err("Invalid number of args given");
        }
        Ok(())
    }
}

} // verus!
