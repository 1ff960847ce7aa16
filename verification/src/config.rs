use vstd::prelude::*;

verus! {

/// How the delegate command is to be run: its name, and whether it must be
/// executed with elevated permissions.
#[derive(Debug)]
pub struct Wrapper {
    pub command: String,
    pub requires_root: bool,
}

/// The tool's configuration: the single delegate-wrapper section.
#[derive(Debug)]
pub struct Config {
    pub wrapper: Wrapper,
}

impl Default for Wrapper {
    /// The stock configuration: `pacman`, run through the escalation helper.
    fn default() -> (r: Self)
        ensures
            r.command@ == "pacman"@,
            r.requires_root,
    {
        Wrapper { command: "pacman".to_owned(), requires_root: true }
    }
}

impl Default for Config {
    fn default() -> (r: Self)
        ensures
            r.wrapper.command@ == "pacman"@,
            r.wrapper.requires_root,
    {
        Config { wrapper: Wrapper::default() }
    }
}

} // verus!
