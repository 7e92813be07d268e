use vstd::prelude::*;
use vstd::string::StringExecFns;

use crate::backend::Backend;
use crate::text::views_of;

verus! {

/// The exact text of the configuration document handed to the external
/// conversion tool: a line-oriented declarative description naming the
/// output location, the target backend, and the "convert everything" flag.
pub open spec fn config_content_spec(output_path: Seq<char>, backend: Backend) -> Seq<char> {
    "output_bags:\n  - uri: "@ + output_path + "\n    storage_id: "@
        + backend.storage_id_spec() + "\n    all: true\n"@
}

/// Renders the configuration document for `output_path` and `backend`.
pub fn config_content(output_path: &str, backend: Backend) -> (r: String)
    ensures
        r@ == config_content_spec(output_path@, backend),
{
    let mut s = String::from_str("output_bags:\n  - uri: ");
    s.append(output_path);
    s.append("\n    storage_id: ");
    s.append(backend.storage_id());
    s.append("\n    all: true\n");
    proof {
        assert(s@ =~= config_content_spec(output_path@, backend));
    }
    s
}

/// The name of the external conversion tool's executable.
pub fn tool_command() -> (r: &'static str)
    ensures
        r@ == "ros2"@,
{
    "ros2"
}

/// The argument list the external tool is invoked with: its `bag convert`
/// mode, the input bag behind `-i`, and the configuration document's path
/// behind `-o`.
pub open spec fn tool_args_spec(input_bag: Seq<char>, config_path: Seq<char>) -> Seq<Seq<char>> {
    seq!["bag"@, "convert"@, "-i"@, input_bag, "-o"@, config_path]
}

pub fn tool_args(input_bag: &str, config_path: &str) -> (r: Vec<String>)
    ensures
        views_of(r@) == tool_args_spec(input_bag@, config_path@),
{
    let mut v: Vec<String> = Vec::new();
    v.push(String::from_str("bag"));
    v.push(String::from_str("convert"));
    v.push(String::from_str("-i"));
    v.push(String::from_str(input_bag));
    v.push(String::from_str("-o"));
    v.push(String::from_str(config_path));
    proof {
        assert(views_of(v@) =~= tool_args_spec(input_bag@, config_path@));
    }
    v
}

} // verus!
