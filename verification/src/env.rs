//! The user's directories, as the `dirs` crate finds them.
use crate::path::{components, well_formed, LocalPath, PathView};
use vstd::prelude::*;

verus! {

/// `dirs::home_dir`, with the path given as text; a path that is not valid
/// UTF-8 counts as not found. The result depends on the environment (`$HOME`,
/// the password database), so nothing is stated of it.
#[verifier::external_body]
fn home_dir_text() -> Option<String> {
    dirs::home_dir().and_then(|p| p.into_os_string().into_string().ok())
}

/// `dirs::config_dir`, with the path given as text; a path that is not valid
/// UTF-8 counts as not found. The result depends on the environment
/// (`$XDG_CONFIG_HOME`, `$HOME`), so nothing is stated of it.
#[verifier::external_body]
fn config_dir_text() -> Option<String> {
    dirs::config_dir().and_then(|p| p.into_os_string().into_string().ok())
}

/// The directories a command needs from the environment.
pub struct Dirs {
    pub config: Option<LocalPath>,
    pub home: Option<LocalPath>,
}

pub struct DirsView {
    pub config: Option<PathView>,
    pub home: Option<PathView>,
}

impl View for Dirs {
    type V = DirsView;

    open spec fn view(&self) -> DirsView {
        DirsView {
            config: match self.config {
                Some(p) => Some(p@),
                None => None,
            },
            home: match self.home {
                Some(p) => Some(p@),
                None => None,
            },
        }
    }
}

/// Whatever the environment gave is a path written as some text.
pub open spec fn found_dir(d: Option<PathView>) -> bool {
    d matches Some(p) ==> exists|t: Seq<char>| p == components(t) && well_formed(p)
}

fn parse_found(t: Option<String>) -> (r: Option<LocalPath>)
    ensures
        found_dir(match r {
            Some(p) => Some(p@),
            None => None,
        }),
        r is Some <==> t is Some,
{
    match t {
        Some(s) => {
            let p = LocalPath::parse(s.as_str());
            Some(p)
        },
        None => None,
    }
}

impl Dirs {
    /// Looks up the user's config and home directories.
    pub fn lookup() -> (d: Dirs)
        ensures
            found_dir(d@.config),
            found_dir(d@.home),
    {
        let config = parse_found(config_dir_text());
        let home = parse_found(home_dir_text());
        Dirs { config, home }
    }

    pub fn duplicate(&self) -> (d: Dirs)
        ensures
            d@ == self@,
    {
        let config = match &self.config {
            Some(p) => Some(p.duplicate()),
            None => None,
        };
        let home = match &self.home {
            Some(p) => Some(p.duplicate()),
            None => None,
        };
        Dirs { config, home }
    }
}

} // verus!
