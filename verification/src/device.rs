//! The catalog entry of a supported laptop model.

use vstd::prelude::*;
use vstd::string::StringExecFns;

verus! {

/// The catalog that a user may put in place of the installed one lies at this
/// path below the home directory, and below `/tmp` where no home is known.
pub open spec fn spec_device_file_path(home: Option<String>) -> Seq<char> {
    (match home {
        Some(h) => h@,
        None => "/tmp"@,
    }) + "/.local/share/razercontrol/laptops.json"@
}

/// The path of the user's catalog, given the home directory if one is set.
pub fn get_device_file_path(home: Option<String>) -> (path: String)
    ensures
        path@ == spec_device_file_path(home),
{
    let base: String = match home {
        Some(h) => h,
        None => "/tmp".to_owned(),
    };
    base.concat("/.local/share/razercontrol/laptops.json")
}

/// One laptop model: its identity, its named capabilities and its fan speed table.
#[derive(Clone, Debug)]
pub struct SupportedDevice {
    pub name: String,
    pub vid: String,
    pub pid: String,
    pub features: Vec<String>,
    pub fan: Vec<u16>,
}

impl SupportedDevice {
    /// Some entry of the capability list spells `feature`.
    pub open spec fn lists(&self, feature: Seq<char>) -> bool {
        exists|i: int| 0 <= i < self.features@.len() && (#[trigger] self.features@[i])@ == feature
    }

    /// The model carries the ids `vid` and `pid`.
    pub open spec fn identified_by(&self, vid: Seq<char>, pid: Seq<char>) -> bool {
        self.vid@ == vid && self.pid@ == pid
    }

    pub fn has_feature(&self, feature: &str) -> (b: bool)
        ensures
            b == self.lists(feature@),
    {
        let wanted: String = feature.to_owned();
        let n: usize = self.features.len();
        let mut i: usize = 0;
        while i < n
            invariant
                n == self.features@.len(),
                i <= n,
                wanted@ == feature@,
                forall|j: int| 0 <= j < i ==> (#[trigger] self.features@[j])@ != feature@,
            decreases n - i,
        {
            if self.features[i] == wanted {
                return true;
            }
            i += 1;
        }
        false
    }

    pub fn can_boost(&self) -> (b: bool)
        ensures
            b == self.lists("boost"@),
    {
        self.has_feature("boost")
    }

    pub fn has_logo(&self) -> (b: bool)
        ensures
            b == self.lists("logo"@),
    {
        self.has_feature("logo")
    }

    /// The display name, as a value of its own.
    pub fn get_name(&self) -> (name: String)
        ensures
            name@ == self.name@,
    {
        self.name.clone()
    }

    /// Whether this model carries the ids that an attached device reports.
    pub fn matches(&self, vid: &String, pid: &String) -> (b: bool)
        ensures
            b == self.identified_by(vid@, pid@),
    {
        self.vid == *vid && self.pid == *pid
    }
}

} // verus!
