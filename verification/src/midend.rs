//! The raw history endpoint: the latest samples as three columns.

use vstd::prelude::*;
use crate::web::{fill_window, padded, HistorySample, LENGTH};

verus! {

/// The three columns the endpoint sends.
pub struct RecordData {
    pub timestamps: Vec<i64>,
    pub latencys: Vec<i32>,
    pub players: Vec<i32>,
}

/// The endpoint: the latest rows (newest first) as three columns of
/// `LENGTH` entries each, padded with zeros when fewer rows were read.
pub fn index(rows: &Vec<HistorySample>) -> (rd: RecordData)
    requires
        rows.len() <= LENGTH,
    ensures
        rd.timestamps@ == padded(rows@.map_values(|r: HistorySample| r.timestamp), LENGTH as nat, 0i64),
        rd.latencys@ == padded(rows@.map_values(|r: HistorySample| r.latency), LENGTH as nat, 0i32),
        rd.players@ == padded(rows@.map_values(|r: HistorySample| r.players), LENGTH as nat, 0i32),
{
    let (timestamps, latencys, players) = fill_window(rows);
    RecordData { timestamps, latencys, players }
}

} // verus!
