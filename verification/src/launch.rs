//! What the program works out before the game starts: the line that names
//! its version, and the name of the map to load.

use vstd::prelude::*;
use vstd::string::StringExecFns;
use crate::text::{ends_with, has_suffix, lowercase, same_text, to_lowercase};

verus! {

/// How the build relates to the released sources.
#[derive(Clone, Copy, Debug, PartialEq, Eq, Structural)]
pub enum VersionStatus {
    /// Built from a release.
    Stable,
    /// Built from sources later than the last release.
    Dev,
    /// Built from sources with changes that were not committed.
    Dirty,
}

impl VersionStatus {
    /// The status that `name` stands for, if any. The names are those of the
    /// variants, letter for letter.
    pub open spec fn named(name: Seq<char>) -> Option<VersionStatus> {
        if name == "Stable"@ {
            Some(VersionStatus::Stable)
        } else if name == "Dev"@ {
            Some(VersionStatus::Dev)
        } else if name == "Dirty"@ {
            Some(VersionStatus::Dirty)
        } else {
            None
        }
    }

    /// What follows the version number.
    pub open spec fn dev_mark(self) -> Seq<char> {
        match self {
            VersionStatus::Stable => ""@,
            VersionStatus::Dev => "-dev"@,
            VersionStatus::Dirty => "-dev"@,
        }
    }

    /// What follows the hash of the sources.
    pub open spec fn dirty_mark(self) -> Seq<char> {
        match self {
            VersionStatus::Stable => ""@,
            VersionStatus::Dev => ""@,
            VersionStatus::Dirty => "-dirty"@,
        }
    }

    /// Reads a status from its name.
    pub fn from_name(name: &str) -> (r: Option<VersionStatus>)
        ensures
            r == VersionStatus::named(name@),
    {
        if same_text(name, "Stable") {
            Some(VersionStatus::Stable)
        } else if same_text(name, "Dev") {
            Some(VersionStatus::Dev)
        } else if same_text(name, "Dirty") {
            Some(VersionStatus::Dirty)
        } else {
            None
        }
    }
}

/// The version line: the program's name, the version number with the mark of
/// a development build, and in brackets the hash of the sources with the
/// mark of uncommitted changes, a space and the date of the sources.
pub open spec fn version_line(
    number: Seq<char>,
    short_hash: Seq<char>,
    date: Seq<char>,
    status: VersionStatus,
) -> Seq<char> {
    "vault13 "@ + number + status.dev_mark() + " ("@ + short_hash + status.dirty_mark() + " "@
        + date + ")"@
}

/// The line that names this build.
pub fn version(number: &str, short_hash: &str, date: &str, status: VersionStatus) -> (r: String)
    ensures
        r@ == version_line(number@, short_hash@, date@, status),
{
    let (dev, dirty) = match status {
        VersionStatus::Stable => ("", ""),
        VersionStatus::Dev => ("-dev", ""),
        VersionStatus::Dirty => ("-dev", "-dirty"),
    };
    let mut r = String::from_str("vault13 ");
    r.append(number);
    r.append(dev);
    r.append(" (");
    r.append(short_hash);
    r.append(dirty);
    r.append(" ");
    r.append(date);
    r.append(")");
    r
}

/// The name of the map that `arg` asks for: `arg` in lower case, without
/// the extension `.map` where it has it.
pub open spec fn map_name_of(arg: Seq<char>) -> Seq<char> {
    let s = lowercase(arg);
    if has_suffix(s, ".map"@) {
        s.subrange(0, s.len() - 4)
    } else {
        s
    }
}

/// The name of the map to load, from the argument that names it.
pub fn map_name(arg: &str) -> (r: String)
    ensures
        r@ == map_name_of(arg@),
{
    let mut s = to_lowercase(arg);
    proof {
        reveal_strlit(".map");
    }
    if ends_with(s.as_str(), ".map") {
        let ghost whole = s@;
        s.pop();
        s.pop();
        s.pop();
        s.pop();
        assert(s@ =~= whole.subrange(0, whole.len() - 4));
    }
    s
}

} // verus!
