//! Names and places of rainscape preset files.

use vstd::prelude::*;
use vstd::string::StringExecFns;
use vstd::string::StrSliceExecFns;
use crate::text::{chars_of, ends_with, text_eq};

verus! {

/// Where a rainscape file lives below the rainscapes directory.
#[derive(Clone, Copy, Debug, PartialEq, Eq, Structural)]
pub enum Location {
    /// Directly in the rainscapes directory.
    Root,
    /// In the folder of custom rainscapes.
    Custom,
}

/// Whether the text `.json` stands in `s` at position `k`.
pub open spec fn json_at(s: Seq<char>, k: int) -> bool {
    0 <= k && k + 5 <= s.len() && s.subrange(k, k + 5) == ".json"@
}

/// The character at position `i` once every `.json` in `s` has become
/// `.rain`.
pub open spec fn replaced_char(s: Seq<char>, i: int) -> char {
    if json_at(s, i) {
        '.'
    } else if json_at(s, i - 1) {
        'r'
    } else if json_at(s, i - 2) {
        'a'
    } else if json_at(s, i - 3) {
        'i'
    } else if json_at(s, i - 4) {
        'n'
    } else {
        s[i]
    }
}

/// The text with every `.json` in it replaced by `.rain`.
pub open spec fn json_to_rain(s: Seq<char>) -> Seq<char> {
    Seq::new(s.len(), |i: int| replaced_char(s, i))
}

/// The file name that a rainscape is stored under: a name that ends in
/// `.rain` as it is, one that ends in `.json` with every `.json` in it
/// turned into `.rain`, any other with `.rain` added.
pub open spec fn normalized_name(name: Seq<char>) -> Seq<char> {
    if ".rain"@.is_suffix_of(name) {
        name
    } else if ".json"@.is_suffix_of(name) {
        json_to_rain(name)
    } else {
        name + ".rain"@
    }
}

/// Whether a stored file name is one of the two that live in the root.
pub open spec fn is_root_name(name: Seq<char>) -> bool {
    name == "Autosave.rain"@ || name == "Default.rain"@
}

/// Whether a file name has the extension `rain`: it ends in `.rain` and has
/// at least one character before that.
pub open spec fn has_rain_extension(name: Seq<char>) -> bool {
    ".rain"@.is_suffix_of(name) && name.len() > ".rain"@.len()
}

fn replace_json(s: &str) -> (out: String)
    ensures
        out@ == json_to_rain(s@),
{
    let v = chars_of(s);
    let pat = chars_of(".json");
    proof {
        reveal_strlit(".json");
        reveal_strlit(".rain");
    }
    let ghost target = json_to_rain(s@);
    let mut out = String::new();
    let mut run_start: usize = 0;
    let mut i: usize = 0;
    assert(out@ =~= target.take(0));
    while i < v.len()
        invariant
            run_start <= i <= v.len(),
            v@ == s@,
            pat@ == ".json"@,
            pat@.len() == 5,
            pat@[0] == '.' && pat@[1] == 'j' && pat@[2] == 's' && pat@[3] == 'o' && pat@[4] == 'n',
            ".rain"@ =~= seq!['.', 'r', 'a', 'i', 'n'],
            target == json_to_rain(s@),
            out@ == target.take(run_start as int),
            forall|j: int| run_start <= j < i ==> target[j] == s@[j],
            forall|k: int| i - 4 <= k < i ==> !json_at(s@, k),
        decreases v.len() - i,
    {
        if v.len() - i >= 5 && crate::text::matches_at(&v, i, &pat) {
            assert(json_at(s@, i as int));
            proof {
                let m = s@.subrange(i as int, i + 5);
                assert(m[1] == s@[i + 1] && m[2] == s@[i + 2] && m[3] == s@[i + 3] && m[4]
                    == s@[i + 4]);
                assert forall|k: int| i + 1 <= k < i + 5 implies !json_at(s@, k) by {
                    if json_at(s@, k) {
                        assert(s@.subrange(k, k + 5)[0] == s@[k]);
                    }
                }
                assert(target.take(i + 5) =~= target.take(run_start as int) + s@.subrange(
                    run_start as int,
                    i as int,
                ) + ".rain"@);
            }
            out.append(s.substring_char(run_start, i));
            out.append(".rain");
            i = i + 5;
            run_start = i;
        } else {
            assert(!json_at(s@, i as int));
            i = i + 1;
        }
    }
    proof {
        assert(target =~= target.take(run_start as int) + s@.subrange(
            run_start as int,
            v.len() as int,
        ));
    }
    out.append(s.substring_char(run_start, v.len()));
    out
}

/// The file name that a rainscape is stored under.
pub fn normalize_rain_filename(filename: &str) -> (stored: String)
    ensures
        stored@ == normalized_name(filename@),
{
    if ends_with(filename, ".rain") {
        String::from_str(filename)
    } else if ends_with(filename, ".json") {
        replace_json(filename)
    } else {
        String::from_str(filename).concat(".rain")
    }
}

/// Where a rainscape with the given stored name is written: the autosave
/// and the default in the root, every other in the custom folder.
pub fn save_location(stored_name: &str) -> (location: Location)
    ensures
        location == if is_root_name(stored_name@) {
            Location::Root
        } else {
            Location::Custom
        },
{
    if text_eq(stored_name, "Autosave.rain") || text_eq(stored_name, "Default.rain") {
        Location::Root
    } else {
        Location::Custom
    }
}

/// Where a rainscape is read from: the root when the file is there, else
/// the custom folder when it is there, else nowhere.
pub fn read_location(in_root: bool, in_custom: bool) -> (location: Option<Location>)
    ensures
        location == if in_root {
            Some(Location::Root)
        } else if in_custom {
            Some(Location::Custom)
        } else {
            None
        },
{
    if in_root {
        Some(Location::Root)
    } else if in_custom {
        Some(Location::Custom)
    } else {
        None
    }
}

/// Whether a directory entry is a rainscape file: a regular file whose name
/// has the extension `rain`.
pub fn is_rain_file(file_name: &str, is_file: bool) -> (rain: bool)
    ensures
        rain == (is_file && has_rain_extension(file_name@)),
{
    if !is_file {
        return false;
    }
    let name = chars_of(file_name);
    let ext = chars_of(".rain");
    ends_with(file_name, ".rain") && name.len() > ext.len()
}

/// The rainscape loaded at startup: the autosave when there is one, else the
/// default.
pub fn startup_rainscape_name(autosave_exists: bool) -> (name: &'static str)
    ensures
        name@ == if autosave_exists {
            "Autosave.rain"@
        } else {
            "Default.rain"@
        },
{
    if autosave_exists {
        "Autosave.rain"
    } else {
        "Default.rain"
    }
}

/// Running totals of a migration of rainscape files to a new directory.
#[derive(Clone, Copy, Debug, PartialEq, Eq, Structural)]
pub struct MigrationTally {
    pub migrated: u32,
    pub failed: u32,
}

impl MigrationTally {
    /// A tally with nothing counted.
    pub fn new() -> (tally: MigrationTally)
        ensures
            tally == (MigrationTally { migrated: 0, failed: 0 }),
    {
        MigrationTally { migrated: 0, failed: 0 }
    }

    /// Whether an entry of the old directory is to be copied: a rainscape
    /// file that the new directory does not hold yet.
    pub fn should_copy(file_name: &str, is_file: bool, exists_in_target: bool) -> (copy: bool)
        ensures
            copy == (is_file && has_rain_extension(file_name@) && !exists_in_target),
    {
        is_rain_file(file_name, is_file) && !exists_in_target
    }

    /// Counts the outcome of one copy.
    pub fn record(&mut self, copied: bool)
        requires
            old(self).migrated < u32::MAX,
            old(self).failed < u32::MAX,
        ensures
            *final(self) == if copied {
                MigrationTally { migrated: (old(self).migrated + 1) as u32, failed: old(self).failed }
            } else {
                MigrationTally { migrated: old(self).migrated, failed: (old(self).failed + 1) as u32 }
            },
    {
        if copied {
            self.migrated = self.migrated + 1;
        } else {
            self.failed = self.failed + 1;
        }
    }

    /// Whether the old directory may be removed: only when no copy failed,
    /// else it is kept as a backup.
    pub fn may_remove_old(&self) -> (remove: bool)
        ensures
            remove == (self.failed == 0),
    {
        self.failed == 0
    }
}

} // verus!
