//! The upstream pollution response and its unpacking into a flat reading.

use vstd::prelude::*;

use crate::clock::now_unix;

verus! {

/// The eight pollutant concentrations of a reading, in µg/m³, carried as the
/// decimal strings the upstream response reported.
#[derive(Clone, Debug, PartialEq)]
pub struct Components {
    pub co: String,
    pub no: String,
    pub no2: String,
    pub o3: String,
    pub so2: String,
    pub pm2_5: String,
    pub pm10: String,
    pub nh3: String,
}

/// The air-quality index of a reading: a small severity scale.
#[derive(Clone, Copy, Debug, PartialEq, Eq, Structural)]
pub struct MainAqi {
    pub aqi: i8,
}

/// One entry of the upstream response: an index and the concentrations.
#[derive(Clone, Debug, PartialEq)]
pub struct PollList {
    pub components: Components,
    pub main: MainAqi,
}

/// The upstream response: a list of readings. The upstream may return more
/// than one entry; only the first is ever used.
#[derive(Clone, Debug, PartialEq)]
pub struct PollResponse {
    pub list: Vec<PollList>,
}

/// A flat reading ready for the sink: capture time, a location label still
/// to be filled in, the index and the eight concentrations.
#[derive(Clone, Debug)]
pub struct PollUpdate {
    pub time: i64,
    pub location: String,
    pub aqi: i8,
    pub co: String,
    pub no: String,
    pub no2: String,
    pub o3: String,
    pub so2: String,
    pub pm2_5: String,
    pub pm10: String,
    pub nh3: String,
}

/// `r` is the flat reading taken from `entry` at capture time `time`, with
/// the location label still pending.
pub open spec fn update_matches_entry(r: PollUpdate, entry: PollList, time: i64) -> bool {
    &&& r.time == time
    &&& r.location@ == "pending"@
    &&& r.aqi == entry.main.aqi
    &&& r.co == entry.components.co
    &&& r.no == entry.components.no
    &&& r.no2 == entry.components.no2
    &&& r.o3 == entry.components.o3
    &&& r.so2 == entry.components.so2
    &&& r.pm2_5 == entry.components.pm2_5
    &&& r.pm10 == entry.components.pm10
    &&& r.nh3 == entry.components.nh3
}

impl PollResponse {
    /// Consumes the response into a flat reading captured at `time`,
    /// reading entry 0 and discarding any further entries.
    pub fn unpack_at(self, time: i64) -> (r: PollUpdate)
        requires
            self.list.len() >= 1,
        ensures
            update_matches_entry(r, self.list@[0], time),
    {
        let entry = &self.list[0];
        PollUpdate {
            time,
            location: String::from_str("pending"),
            aqi: entry.main.aqi,
            co: entry.components.co.clone(),
            no: entry.components.no.clone(),
            no2: entry.components.no2.clone(),
            o3: entry.components.o3.clone(),
            so2: entry.components.so2.clone(),
            pm2_5: entry.components.pm2_5.clone(),
            pm10: entry.components.pm10.clone(),
            nh3: entry.components.nh3.clone(),
        }
    }

    /// Consumes the response into a flat reading captured now. The upstream's
    /// own timestamp, had it one, plays no part: capture time is taken from
    /// the clock at unpack time.
    pub fn unpack(self) -> (r: PollUpdate)
        requires
            self.list.len() >= 1,
        ensures
            update_matches_entry(r, self.list@[0], r.time),
    {
        let time = now_unix();
        self.unpack_at(time)
    }
}

/// Unpacking reads entry 0 alone: two responses that agree on their first
/// entry yield readings that agree on every field, whatever trails behind.
pub proof fn lemma_unpack_uses_first_entry_only(
    a: PollResponse,
    b: PollResponse,
    ra: PollUpdate,
    rb: PollUpdate,
    time: i64,
)
    requires
        a.list@.len() >= 1,
        b.list@.len() >= 1,
        a.list@[0] == b.list@[0],
        update_matches_entry(ra, a.list@[0], time),
        update_matches_entry(rb, b.list@[0], time),
    ensures
        ra.time == rb.time,
        ra.location@ == rb.location@,
        ra.aqi == rb.aqi,
        ra.co == rb.co,
        ra.no == rb.no,
        ra.no2 == rb.no2,
        ra.o3 == rb.o3,
        ra.so2 == rb.so2,
        ra.pm2_5 == rb.pm2_5,
        ra.pm10 == rb.pm10,
        ra.nh3 == rb.nh3,
{
}

} // verus!
