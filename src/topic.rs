//! Sensor identity from a pub/sub topic `<org>/<site>/<subsite>/<kind>/<group>/<sensor_id>`.

use vstd::prelude::*;
use vstd::string::StringExecFns;
use crate::records::{Sensor, SensorView};
use crate::text::{chars_of, split_chars, split_on, string_of, views};

verus! {

/// Why a topic names no sensor.
#[derive(Clone, Copy, PartialEq, Eq, Structural, Debug)]
pub enum RouteError {
    /// Fewer than five `/`-separated segments.
    TooShort,
}

/// The sensor a topic names: the id is the last segment, the kind the
/// fourth, the location the first three joined by `/`.
pub open spec fn routed(t: Seq<char>) -> Result<SensorView, RouteError> {
    let s = split_on(t, '/');
    if s.len() < 5 {
        Err(RouteError::TooShort)
    } else {
        Ok(
            SensorView {
                id: s.last(),
                kind: s[3],
                location: s[0] + seq!['/'] + s[1] + seq!['/'] + s[2],
            },
        )
    }
}

/// Derives the sensor's identity from its topic. The kind is not checked.
pub fn route(topic: &str) -> (r: Result<Sensor, RouteError>)
    ensures
        match r {
            Ok(s) => routed(topic@) == Ok::<SensorView, RouteError>(s@),
            Err(e) => routed(topic@) == Err::<SensorView, RouteError>(e),
        },
{
    let chars = chars_of(topic);
    let segs = split_chars(&chars, '/');
    assert(views(segs@).len() == segs@.len());
    let n = segs.len();
    if n < 5 {
        return Err(RouteError::TooShort);
    }
    assert(views(segs@)[0] == segs@[0]@);
    assert(views(segs@)[1] == segs@[1]@);
    assert(views(segs@)[2] == segs@[2]@);
    assert(views(segs@)[3] == segs@[3]@);
    assert(views(segs@)[n - 1] == segs@[n - 1]@);
    proof {
        reveal_strlit("/");
    }
    let mut location = string_of(&segs[0]);
    location.append("/");
    location.append(string_of(&segs[1]).as_str());
    location.append("/");
    location.append(string_of(&segs[2]).as_str());
    let ghost s = split_on(topic@, '/');
    assert(location@ =~= s[0] + seq!['/'] + s[1] + seq!['/'] + s[2]);
    assert(s.last() == segs@[n - 1]@);
    Ok(Sensor::new(string_of(&segs[n - 1]), string_of(&segs[3]), location))
}

} // verus!
