use std::path::Path;
use vstd::prelude::*;
use vstd::string::StrSliceExecFns;
use vstd::string::StringExecFns;

verus! {

/// Relies on `std::path::Path::exists`: whether the path points at an
/// existing entity on disk. The answer depends on the filesystem, so
/// nothing is promised of it.
#[verifier::external_body]
fn path_exists(name: &str) -> bool {
    Path::new(name).exists()
}

/// Accepts `-` (standard input) or the name of an existing file, handing
/// the name back; anything else is rejected. Whether a file exists is the
/// filesystem's answer, so acceptance of other names is not pinned down;
/// what is returned in each case is.
pub fn verify_file(filename: &str) -> (r: Result<String, &'static str>)
    ensures
        r matches Ok(f) ==> f@ == filename@,
        r matches Err(e) ==> e@ == "File does not exist"@ && filename@ != "-"@,
        filename@ == "-"@ ==> r is Ok,
{
    let is_dash = filename.unicode_len() == 1 && filename.get_char(0) == '-';
    proof {
        reveal_strlit("-");
        assert(is_dash ==> filename@ =~= "-"@);
        assert(filename@ == "-"@ ==> is_dash);
    }
    if is_dash || path_exists(filename) {
        Ok(filename.to_owned())
    } else {
        Err("File does not exist")
    }
}

/// Accepts the name of an existing file, handing the name back; a missing
/// file is rejected with a message naming it.
pub fn verify_input_file(filename: &str) -> (r: Result<String, String>)
    ensures
        r matches Ok(f) ==> f@ == filename@,
        r matches Err(e) ==> e@ == "File not found: "@ + filename@,
{
    if !path_exists(filename) {
        return Err(String::from_str("File not found: ").concat(filename));
    }
    Ok(filename.to_owned())
}

} // verus!
