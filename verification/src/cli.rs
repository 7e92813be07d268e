use vstd::prelude::*;

use crate::backend::Backend;
use crate::text::str_eq;
use crate::text::views_of;

verus! {

/// One conversion to perform: where to read, where to write, and which
/// backend the output uses. Built once per invocation from the command
/// line and never changed.
#[derive(Clone, Debug, PartialEq, Eq)]
pub struct ConversionRequest {
    pub input_bag: String,
    pub output_bag: String,
    pub backend: Backend,
}

/// The ways a command line can fail to describe a conversion.
#[derive(Clone, Copy, Debug, PartialEq, Eq, Structural)]
pub enum CliError {
    MissingSubcommand,
    UnknownSubcommand,
    MissingInputBag,
    MissingOutputBag,
    UnexpectedArgument,
}

/// The subcommand selecting conversion into the database backend.
pub open spec fn sub_mcap_to_sqlite3() -> Seq<char> {
    "mcap-to-sqlite3"@
}

/// The subcommand selecting conversion into the container backend.
pub open spec fn sub_sqlite3_to_mcap() -> Seq<char> {
    "sqlite3-to-mcap"@
}

pub open spec fn known_subcommand(s: Seq<char>) -> bool {
    s == sub_mcap_to_sqlite3() || s == sub_sqlite3_to_mcap()
}

/// The backend a known subcommand selects.
pub open spec fn backend_of_subcommand(s: Seq<char>) -> Backend
    recommends
        known_subcommand(s),
{
    if s == sub_mcap_to_sqlite3() {
        Backend::Sqlite3
    } else {
        Backend::Mcap
    }
}

/// Which error an ill-formed command line is rejected with.
pub open spec fn parse_error_spec(a: Seq<Seq<char>>) -> CliError
    recommends
        !(a.len() == 3 && known_subcommand(a[0])),
{
    if a.len() == 0 {
        CliError::MissingSubcommand
    } else if !known_subcommand(a[0]) {
        CliError::UnknownSubcommand
    } else if a.len() == 1 {
        CliError::MissingInputBag
    } else if a.len() == 2 {
        CliError::MissingOutputBag
    } else {
        CliError::UnexpectedArgument
    }
}

/// Parses the command-line arguments (the executable's own name already
/// stripped): a subcommand naming the conversion direction, the input bag
/// path, and the output bag path.
pub fn parse_args(args: &Vec<String>) -> (r: Result<ConversionRequest, CliError>)
    ensures
        r is Ok <==> args@.len() == 3 && known_subcommand(args@[0]@),
        r matches Ok(req) ==> {
            &&& req.input_bag@ == args@[1]@
            &&& req.output_bag@ == args@[2]@
            &&& req.backend == backend_of_subcommand(args@[0]@)
        },
        r matches Err(e) ==> e == parse_error_spec(views_of(args@)),
{
    if args.len() == 0 {
        return Err(CliError::MissingSubcommand);
    }
    let sub: &str = args[0].as_str();
    let is_m2s = str_eq(sub, "mcap-to-sqlite3");
    let is_s2m = str_eq(sub, "sqlite3-to-mcap");
    if !is_m2s && !is_s2m {
        return Err(CliError::UnknownSubcommand);
    }
    if args.len() == 1 {
        return Err(CliError::MissingInputBag);
    }
    if args.len() == 2 {
        return Err(CliError::MissingOutputBag);
    }
    if args.len() > 3 {
        return Err(CliError::UnexpectedArgument);
    }
    let backend = if is_m2s {
        Backend::Sqlite3
    } else {
        Backend::Mcap
    };
    Ok(ConversionRequest { input_bag: args[1].clone(), output_bag: args[2].clone(), backend })
}

} // verus!
