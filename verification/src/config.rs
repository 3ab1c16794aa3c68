//! The configuration: the types of change that the user is offered.

use vstd::prelude::*;

verus! {

/// The configuration.
pub struct Config {
    /// The types of change on offer, in the order in which they are shown.
    pub prefixes: Vec<String>,
}

impl View for Config {
    type V = Seq<Seq<char>>;

    open spec fn view(&self) -> Seq<Seq<char>> {
        self.prefixes.deep_view()
    }
}

/// The types on offer where nothing else has been configured.
pub open spec fn default_prefixes() -> Seq<Seq<char>> {
    seq![
        "build"@,
        "chore"@,
        "ci"@,
        "feat"@,
        "fix"@,
        "style"@,
        "refactor"@,
        "docs"@,
        "perf"@,
        "test"@,
        "revert"@,
    ]
}

impl Config {
    /// The configuration that offers the default types.
    pub fn create_default_config() -> (r: Config)
        ensures
            r@ == default_prefixes(),
    {
        let mut prefixes: Vec<String> = Vec::new();
        prefixes.push("build".to_owned());
        prefixes.push("chore".to_owned());
        prefixes.push("ci".to_owned());
        prefixes.push("feat".to_owned());
        prefixes.push("fix".to_owned());
        prefixes.push("style".to_owned());
        prefixes.push("refactor".to_owned());
        prefixes.push("docs".to_owned());
        prefixes.push("perf".to_owned());
        prefixes.push("test".to_owned());
        prefixes.push("revert".to_owned());
        let r = Config { prefixes };
        assert(r@ =~= default_prefixes());
        r
    }
}

} // verus!
