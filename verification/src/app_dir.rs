use vstd::prelude::*;
use vstd::string::*;

verus! {

/// Relies on home::home_dir: the user's home directory as the platform
/// reports it, rendered as a string; `None` when no home directory can
/// be resolved (or its path is not valid UTF-8).
#[verifier::external_body]
fn home_dir_string() -> (r: Option<String>) {
    match home::home_dir() {
        Some(p) => p.to_str().map(|s| s.to_string()),
        None => None,
    }
}

/// The app's directory under a given home directory: `<home>/.todo`.
pub fn app_dir_in(home: &str) -> (r: String)
    ensures
        r@ == home@ + "/.todo"@,
{
    let mut s = home.to_owned();
    s.append("/.todo");
    s
}

/// The database file under a given home directory:
/// `<home>/.todo/todo.db`.
pub fn app_db_path_in(home: &str) -> (r: String)
    ensures
        r@ == home@ + "/.todo/todo.db"@,
{
    let mut s = home.to_owned();
    s.append("/.todo/todo.db");
    s
}

/// Get the path to the todo database (sqlite), `<home>/.todo/todo.db`;
/// `None` when no home directory can be resolved.
pub fn get_app_db_path() -> (r: Option<String>)
    ensures
        r matches Some(p) ==> exists|h: Seq<char>| p@ == h + "/.todo/todo.db"@,
{
    match home_dir_string() {
        Some(h) => {
            let p = app_db_path_in(h.as_str());
            proof {
                assert(p@ == h@ + "/.todo/todo.db"@);
            }
            Some(p)
        },
        None => None,
    }
}

} // verus!
