//! The in-memory set of sensor ids known to the store.

use vstd::prelude::*;
use vstd::string::StringExecFns;
use crate::records::Sensor;

verus! {

/// The ids that a list of strings holds.
pub open spec fn id_set(ids: Seq<String>) -> Set<Seq<char>> {
    ids.map_values(|s: String| s@).to_set()
}

/// The one kind of sensor whose readings are stored.
pub open spec fn supported_kind() -> Seq<char> {
    "loudness"@
}

/// A snapshot of the sensor ids in the store, replaced whole on each load.
pub struct SensorDirectory {
    ids: Vec<String>,
}

impl View for SensorDirectory {
    type V = Set<Seq<char>>;

    closed spec fn view(&self) -> Set<Seq<char>> {
        id_set(self.ids@)
    }
}

impl SensorDirectory {
    /// A directory that knows no sensor.
    pub fn new() -> (r: SensorDirectory)
        ensures
            r@ == Set::<Seq<char>>::empty(),
    {
        let r = SensorDirectory { ids: Vec::new() };
        assert(r@ =~= Set::<Seq<char>>::empty());
        r
    }

    /// Replaces the snapshot with the ids the store listed.
    pub fn load(&mut self, ids: Vec<String>)
        ensures
            final(self)@ == id_set(ids@),
    {
        self.ids = ids;
    }

    /// Whether `id` was in the store at the last load.
    pub fn contains(&self, id: &String) -> (r: bool)
        ensures
            r == self@.contains(id@),
    {
        let ghost views = self.ids@.map_values(|s: String| s@);
        let mut i: usize = 0;
        while i < self.ids.len()
            invariant
                i <= self.ids@.len(),
                views == self.ids@.map_values(|s: String| s@),
                forall|k: int| 0 <= k < i ==> views[k] != id@,
            decreases self.ids@.len() - i,
        {
            if self.ids[i] == *id {
                assert(views[i as int] == id@);
                assert(self@.contains(id@));
                return true;
            }
            i += 1;
        }
        assert(!self@.contains(id@)) by {
            if self@.contains(id@) {
                let k = choose|k: int| 0 <= k < views.len() && views[k] == id@;
            }
        }
        false
    }

    /// Whether sensors of this kind may be registered.
    pub fn supports(sensor: &Sensor) -> (r: bool)
        ensures
            r == (sensor@.kind == supported_kind()),
    {
        let kind = String::from_str("loudness");
        sensor.type_ == kind
    }
}

} // verus!
