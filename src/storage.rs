use vstd::prelude::*;
use vstd::string::StringExecFns;

verus! {

/// The directory that holds the task file: under the user's profile on Windows,
/// a hidden directory in the user's home elsewhere.
pub open spec fn default_dir(windows: bool, username: Seq<char>) -> Seq<char> {
    if windows {
        username + "\\AppData\\Local\\tdr\\"@
    } else {
        "/home/"@ + username + "/.tdr/"@
    }
}

/// The task file inside `dir`.
pub open spec fn file_in(dir: Seq<char>) -> Seq<char> {
    dir + "/tasks.json"@
}

/// Relies on whoami::username: the name of the user running the process (whoami
/// falls back to a fixed default where it cannot be read). Nothing is promised
/// of its value, which depends on the machine.
#[verifier::external_body]
fn current_username() -> (r: String) {
    whoami::username()
}

/// The task directory of `username`, as `default_dir` gives it.
pub fn default_path_for(windows: bool, username: &str) -> (r: String)
    ensures
        r@ == default_dir(windows, username@),
{
    if windows {
        let mut out = String::from_str(username);
        out.append("\\AppData\\Local\\tdr\\");
        out
    } else {
        let mut out = String::from_str("/home/");
        out.append(username);
        out.append("/.tdr/");
        out
    }
}

/// The task directory of the user running the process.
pub fn get_default_path(windows: bool) -> (r: String)
    ensures
        exists|user: Seq<char>| r@ == default_dir(windows, user),
{
    let user = current_username();
    default_path_for(windows, user.as_str())
}

/// The path of the task file inside the directory `dir`.
pub fn tasks_file(dir: &str) -> (r: String)
    ensures
        r@ == file_in(dir@),
{
    let mut out = String::from_str(dir);
    out.append("/tasks.json");
    out
}

} // verus!
