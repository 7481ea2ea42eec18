//! The canonical time-interval record shared by both data sources, and
//! the classified errors a load can end in.

use vstd::prelude::*;

verus! {

/// The mathematical content of one record: the timestamp bytes as given
/// by the source, the four prices in ten-thousandths, and the volume.
pub struct RecordModel {
    pub timestamp: Seq<u8>,
    pub open: int,
    pub high: int,
    pub low: int,
    pub close: int,
    pub volume: int,
}

/// One stock record: one time interval of a price series. The timestamp
/// is kept as the source wrote it and not parsed further; the prices are
/// decimal fixed-point values in ten-thousandths of a unit; the volume is
/// a non-negative count. A record never changes once constructed.
#[derive(Clone, Debug, PartialEq, Eq)]
pub struct StockRecord {
    pub timestamp: Vec<u8>,
    pub open: i64,
    pub high: i64,
    pub low: i64,
    pub close: i64,
    pub volume: u64,
}

impl View for StockRecord {
    type V = RecordModel;

    open spec fn view(&self) -> RecordModel {
        RecordModel {
            timestamp: self.timestamp@,
            open: self.open as int,
            high: self.high as int,
            low: self.low as int,
            close: self.close as int,
            volume: self.volume as int,
        }
    }
}

/// Why a demo load failed. Both outcomes end the whole call: no partial
/// sequence of records is ever returned.
#[derive(Clone, Copy, Debug, PartialEq, Eq, Structural)]
pub enum LoadError {
    /// The file could not be opened or read. Only the surrounding binary,
    /// which does the file I/O, produces this value.
    IoError,
    /// A row was malformed or a column was missing, so the whole load is
    /// rejected rather than a short series returned.
    SchemaError,
}

} // verus!
