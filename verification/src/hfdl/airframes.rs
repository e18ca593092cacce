//! The live map of the ground stations' frequencies, as the airframes service reports it.

use vstd::prelude::*;
use crate::events::{StationId, StationIdModel};
use crate::stations::{heard_models, Heard, HeardModel};

verus! {

pub const AIRFRAMESIO_HOST: &'static str = "feed.acars.io";

pub const AIRFRAMESIO_DUMPHFDL_TCP_PORT: u16 = 5556;

pub const AIRFRAMESIO_DUMPVDL2_UDP_PORT: u16 = 5552;

/// The frequencies, in kHz, on which a ground station is active.
#[derive(Debug, PartialEq, Eq)]
pub struct GroundStationFreqInfo {
    pub active: Vec<u16>,
}

/// What the service reports of one ground station. `last_updated` is in microseconds since
/// the Unix epoch.
#[derive(Debug, PartialEq, Eq)]
pub struct GroundStationStatus {
    pub id: u8,
    pub name: String,
    pub frequencies: GroundStationFreqInfo,
    pub last_updated: i64,
}

/// What the service reports.
#[derive(Debug, PartialEq, Eq)]
pub struct HFDLGroundStationStatus {
    pub ground_stations: Vec<GroundStationStatus>,
}

/// The active frequencies of all `stations`, station after station.
pub open spec fn all_active(stations: Seq<GroundStationStatus>) -> Seq<u16>
    decreases stations.len(),
{
    if stations.len() == 0 {
        Seq::empty()
    } else {
        all_active(stations.drop_last()) + stations.last().frequencies.active@
    }
}

impl HFDLGroundStationStatus {
    /// The active frequencies of all stations, station after station.
    pub fn all_freqs(&self) -> (out: Vec<u16>)
        ensures
            out@ == all_active(self.ground_stations@),
    {
        let mut out: Vec<u16> = Vec::new();
        let mut i: usize = 0;
        while i < self.ground_stations.len()
            invariant
                i <= self.ground_stations.len(),
                out@ == all_active(self.ground_stations@.take(i as int)),
            decreases self.ground_stations.len() - i,
        {
            let ghost before = out@;
            let fs = &self.ground_stations[i].frequencies.active;
            let mut k: usize = 0;
            while k < fs.len()
                invariant
                    k <= fs.len(),
                    out@ == before + fs@.take(k as int),
                decreases fs.len() - k,
            {
                out.push(fs[k]);
                assert(fs@.take(k + 1) =~= fs@.take(k as int).push(fs@[k as int]));
                assert(out@ =~= before + fs@.take(k + 1));
                k += 1;
            }
            proof {
                assert(fs@.take(fs.len() as int) =~= fs@);
                assert(self.ground_stations@.take(i + 1).drop_last() =~= self.ground_stations@.take(
                    i as int,
                ));
                assert(self.ground_stations@.take(i + 1).last() == self.ground_stations@[i as int]);
            }
            i += 1;
        }
        proof {
            assert(self.ground_stations@.take(self.ground_stations.len() as int)
                =~= self.ground_stations@);
        }
        out
    }
}

/// Why the service gave no report.
#[derive(Clone, Copy, Debug, PartialEq, Eq, Structural)]
pub enum ServiceFault {
    /// The service is down: it answered 500, 502, 503 or 504.
    Unreachable,
    /// The service does not know the request: it answered 400 or 404.
    Changed,
}

/// What the status of the service's answer says.
pub open spec fn answer(status: u16) -> Result<(), ServiceFault> {
    if status == 500 || status == 502 || status == 503 || status == 504 {
        Err(ServiceFault::Unreachable)
    } else if status == 400 || status == 404 {
        Err(ServiceFault::Changed)
    } else {
        Ok(())
    }
}

/// Reads the status of the service's answer.
pub fn check_answer(status: u16) -> (out: Result<(), ServiceFault>)
    ensures
        out == answer(status),
{
    if status == 500 || status == 502 || status == 503 || status == 504 {
        Err(ServiceFault::Unreachable)
    } else if status == 400 || status == 404 {
        Err(ServiceFault::Changed)
    } else {
        Ok(())
    }
}

/// The frequencies, in kHz, on which the service reports a station to be active.
pub open spec fn reported_freqs(g: GroundStationStatus) -> Seq<u64> {
    Seq::new(g.frequencies.active@.len(), |i: int| g.frequencies.active@[i] as u64)
}

/// What the service says of its stations: each under its number and name, with the
/// frequencies on which it is active.
pub open spec fn report_heard(report: Seq<GroundStationStatus>) -> Seq<HeardModel> {
    Seq::new(
        report.len(),
        |i: int|
            HeardModel {
                id: StationIdModel::Number(report[i].id as u64),
                name: Some(report[i].name@),
                freqs: reported_freqs(report[i]),
            },
    )
}

impl HFDLGroundStationStatus {
    /// What the service says of its stations.
    pub fn heard(&self) -> (out: Vec<Heard>)
        ensures
            heard_models(out@) == report_heard(self.ground_stations@),
    {
        let report = &self.ground_stations;
        let mut out: Vec<Heard> = Vec::new();
        let mut k: usize = 0;
        while k < report.len()
            invariant
                k <= report.len(),
                out@.len() == k,
                forall|j: int| 0 <= j < k ==> (#[trigger] out@[j])@ == report_heard(report@)[j],
            decreases report.len() - k,
        {
            let station = &report[k];
            let mut freqs: Vec<u64> = Vec::new();
            let mut i: usize = 0;
            while i < station.frequencies.active.len()
                invariant
                    i <= station.frequencies.active.len(),
                    freqs@.len() == i,
                    forall|j: int| 0 <= j < i ==> freqs@[j] == station.frequencies.active@[j] as u64,
                decreases station.frequencies.active.len() - i,
            {
                freqs.push(station.frequencies.active[i] as u64);
                i += 1;
            }
            assert(freqs@ =~= reported_freqs(*station));
            out.push(
                Heard {
                    id: StationId::Number(station.id as u64),
                    name: Some(station.name.clone()),
                    freqs,
                },
            );
            k += 1;
        }
        assert(heard_models(out@) =~= report_heard(report@));
        out
    }
}

} // verus!
