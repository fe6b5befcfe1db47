//! Where the configuration file is looked for, and which of the places
//! that exist is taken.

use vstd::prelude::*;
use vstd::string::StringExecFns;

verus! {

/// The file below the directory of configuration files, in a directory of the terminal's own.
pub const XDG_NESTED_FILE: &'static str = "alacritty/alacritty.yml";

/// The file directly below the directory of configuration files.
pub const XDG_FLAT_FILE: &'static str = "alacritty.yml";

/// The file below the home directory, in the usual directory of configuration files.
pub const HOME_NESTED_FILE: &'static str = ".config/alacritty/alacritty.yml";

/// The hidden file directly below the home directory.
pub const HOME_DOT_FILE: &'static str = ".alacritty.yml";

/// A place where the configuration file may be: a relative path below a base directory.
#[derive(Debug)]
pub struct ConfigCandidate {
    /// The directory that the environment names.
    pub base: String,
    /// The path of the file below that directory.
    pub relative: String,
}

impl ConfigCandidate {
    /// The base directory and the relative path, as character sequences.
    pub open spec fn view(&self) -> (Seq<char>, Seq<char>) {
        (self.base@, self.relative@)
    }
}

/// The places of a list, as pairs of character sequences.
pub open spec fn candidate_views(candidates: Seq<ConfigCandidate>) -> Seq<(Seq<char>, Seq<char>)> {
    candidates.map_values(|c: ConfigCandidate| c.view())
}

/// The places to try, first to last: two below the directory of
/// configuration files, where the environment names one, then two below
/// the home directory, where it names one.
pub open spec fn search_order(xdg_config_home: Option<Seq<char>>, home: Option<Seq<char>>) -> Seq<
    (Seq<char>, Seq<char>),
> {
    let below_xdg = match xdg_config_home {
        Some(dir) => seq![(dir, XDG_NESTED_FILE@), (dir, XDG_FLAT_FILE@)],
        None => Seq::empty(),
    };
    let below_home = match home {
        Some(dir) => seq![(dir, HOME_NESTED_FILE@), (dir, HOME_DOT_FILE@)],
        None => Seq::empty(),
    };
    below_xdg + below_home
}

/// `index` is the first position of `exists` that holds `true`.
pub open spec fn is_first_existing(exists: Seq<bool>, index: int) -> bool {
    &&& 0 <= index < exists.len()
    &&& exists[index]
    &&& forall|j: int| 0 <= j < index ==> !exists[j]
}

/// Lists the places where the configuration file is looked for, in the
/// order in which they are tried.
pub fn config_candidates(xdg_config_home: Option<String>, home: Option<String>) -> (r: Vec<
    ConfigCandidate,
>)
    ensures
        candidate_views(r@) == search_order(
            match xdg_config_home {
                Some(dir) => Some(dir@),
                None => None,
            },
            match home {
                Some(dir) => Some(dir@),
                None => None,
            },
        ),
{
    let mut out: Vec<ConfigCandidate> = Vec::new();
    if let Some(dir) = xdg_config_home {
        out.push(ConfigCandidate { base: dir.clone(), relative: String::from_str(XDG_NESTED_FILE) });
        out.push(ConfigCandidate { base: dir, relative: String::from_str(XDG_FLAT_FILE) });
    }
    if let Some(dir) = home {
        out.push(ConfigCandidate { base: dir.clone(), relative: String::from_str(HOME_NESTED_FILE) });
        out.push(ConfigCandidate { base: dir, relative: String::from_str(HOME_DOT_FILE) });
    }
    proof {
        assert(candidate_views(out@) =~= search_order(
            match xdg_config_home {
                Some(dir) => Some(dir@),
                None => None,
            },
            match home {
                Some(dir) => Some(dir@),
                None => None,
            },
        ));
    }
    out
}

/// Picks the first place that exists. `exists` says of each place, in the
/// order of the search, whether a file is there.
pub fn first_existing(exists: &Vec<bool>) -> (r: Option<usize>)
    ensures
        match r {
            Some(index) => is_first_existing(exists@, index as int),
            None => forall|j: int| 0 <= j < exists@.len() ==> !exists@[j],
        },
{
    let mut i: usize = 0;
    while i < exists.len()
        invariant
            i <= exists.len(),
            forall|j: int| 0 <= j < i ==> !exists@[j],
        decreases exists.len() - i,
    {
        if exists[i] {
            return Some(i);
        }
        i = i + 1;
    }
    None
}

} // verus!
