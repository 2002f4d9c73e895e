use vstd::prelude::*;

verus! {

/// An earlier, narrower command surface kept alongside the main one:
/// just creating and listing todos. The running binary builds its own
/// argument-parser types and converts into the option types of the crate
/// root.
pub struct Cli {
    pub command: Commands,
}

pub enum Commands {
    Add(AddTodoArgs),
    List(ListArgs),
}

/// Inputs for creating a todo, as this surface phrases them.
pub struct AddTodoArgs {
    pub title: String,
    pub date: Option<String>,
    pub time: Option<String>,
    pub description: Option<String>,
    pub url: Option<String>,
}

/// Listing switches of this surface.
pub struct ListArgs {
    pub filter: Option<String>,
    pub sort: Option<String>,
    pub reverse: bool,
    pub limit: Option<usize>,
    pub output: Option<String>,
}

} // verus!
