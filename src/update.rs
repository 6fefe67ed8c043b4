use vstd::prelude::*;

verus! {

/// A published release of this program.
#[derive(Debug)]
pub struct Release {
    pub tag_name: String,
    pub html_url: String,
}

impl Release {
    /// A field-by-field copy.
    pub fn duplicate(&self) -> (r: Release)
        ensures
            r == *self,
    {
        Release { tag_name: self.tag_name.clone(), html_url: self.html_url.clone() }
    }
}

/// Picks the release to announce from a newest-first release list: the newest
/// one, unless its tag is the running version's.
pub fn newer_release(releases: &Vec<Release>, current_version: &str) -> (r: Option<Release>)
    ensures
        r == (if releases@.len() > 0 && releases@[0].tag_name@ != current_version@ {
            Some(releases@[0])
        } else {
            None
        }),
{
    if releases.len() == 0 {
        return None;
    }
    let current = current_version.to_owned();
    let latest = &releases[0];
    if latest.tag_name == current {
        None
    } else {
        Some(latest.duplicate())
    }
}

} // verus!
