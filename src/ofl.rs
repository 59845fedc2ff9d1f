//! Fixture definitions in the shape of the Open Fixture Library's files.
//! Reading the files is left to the caller; these types hold what was read.
use vstd::prelude::*;

use crate::kind::{lower_of, lowercase};
use crate::text::{contains_text, occurs_in, same_text};

verus! {

/// A fixture definition: its channels by name and its modes.
///
/// `available_channels` pairs each channel name with its definition; as
/// in a definition file, each name occurs once. A lookup takes the first
/// pair with a matching name.
pub struct OflFixture {
    pub schema: Option<String>,
    pub name: String,
    pub short_name: Option<String>,
    pub categories: Vec<String>,
    pub meta: OflMeta,
    pub links: Option<OflLinks>,
    pub rdm: Option<OflRdm>,
    pub available_channels: Vec<(String, OflChannel)>,
    pub modes: Vec<OflMode>,
    pub fixture_key: String,
    pub manufacturer_key: String,
    pub ofl_url: Option<String>,
}

pub struct OflMeta {
    pub authors: Vec<String>,
    pub create_date: String,
    pub last_modify_date: String,
}

pub struct OflLinks {
    pub manual: Option<Vec<String>>,
    pub product_page: Option<Vec<String>>,
    pub video: Option<Vec<String>>,
}

pub struct OflRdm {
    pub model_id: u32,
}

/// One channel definition: a single capability, or several.
pub struct OflChannel {
    pub fine_channel_aliases: Option<Vec<String>>,
    pub capability: Option<OflCapability>,
    pub capabilities: Option<Vec<OflCapability>>,
}

pub struct OflCapability {
    pub dmx_range: Option<Vec<u8>>,
    pub capability_type: String,
    pub color: Option<String>,
    pub colors: Option<Vec<String>>,
    pub comment: Option<String>,
}

/// A mode: the ordered list of channel names that it puts on the wire.
pub struct OflMode {
    pub name: String,
    pub short_name: String,
    pub rdm_personality_index: Option<u32>,
    pub channels: Vec<String>,
}

/// The manufacturers database: each manufacturer key once, with its entry.
pub struct OflManufacturers {
    pub schema: Option<String>,
    pub manufacturers: Vec<(String, OflManufacturer)>,
}

pub struct OflManufacturer {
    pub name: String,
    pub website: Option<String>,
    pub rdm_id: Option<u32>,
}

impl OflFixture {
    /// The index of the first mode named `mode_name`.
    pub fn mode_index(&self, mode_name: &str) -> (r: Option<usize>)
        ensures
            match r {
                Some(i) => i < self.modes@.len() && self.modes@[i as int].name@ == mode_name@
                    && forall|j: int| 0 <= j < i ==> self.modes@[j].name@ != mode_name@,
                None => forall|j: int| 0 <= j < self.modes@.len() ==> self.modes@[j].name@ != mode_name@,
            },
    {
        let n = self.modes.len();
        let mut i: usize = 0;
        while i < n
            invariant
                n == self.modes@.len(),
                i <= n,
                forall|j: int| 0 <= j < i ==> self.modes@[j].name@ != mode_name@,
            decreases n - i,
        {
            if same_text(self.modes[i].name.as_str(), mode_name) {
                return Some(i);
            }
            i = i + 1;
        }
        None
    }
}

/// Whether a fixture name matches a search term: the term occurs in the
/// name, both in lowercase.
pub fn name_matches(name: &str, term: &str) -> (r: bool)
    ensures
        r == occurs_in(lower_of(term@), lower_of(name@)),
{
    let name_lower = lowercase(name);
    let term_lower = lowercase(term);
    contains_text(name_lower.as_str(), term_lower.as_str())
}

} // verus!
