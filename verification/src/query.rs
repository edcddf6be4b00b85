//! The query boundary of the storage collaborator.
//!
//! Pagination defaults and column-name validation are the only rules of the
//! query layer that live here; SQL generation, filtering and execution
//! belong to the storage collaborator outside the library.

use vstd::prelude::*;

verus! {

/// The page size a query gets when it names none.
pub fn default_page_size() -> (n: usize)
    ensures
        n == 10,
{
    10
}

/// A page bound: readings strictly after `after` (a timestamp text), at
/// most `page_size` of them.
#[derive(Debug, PartialEq, Eq)]
pub struct Pagination {
    pub after: Option<Vec<u8>>,
    pub page_size: usize,
}

/// A read query: which columns to return and which page.
#[derive(Debug, PartialEq, Eq)]
pub struct MeasurementQuery {
    pub pagination: Pagination,
    pub columns: Vec<Vec<u8>>,
}

/// The column names a query may ask for.
pub open spec fn spec_allowed_column(c: Seq<u8>) -> bool {
    ||| c == "sensor_id"@.map_values(|ch: char| ch as u8)
    ||| c == "topic"@.map_values(|ch: char| ch as u8)
    ||| c == "timestamp"@.map_values(|ch: char| ch as u8)
    ||| c == "temperature"@.map_values(|ch: char| ch as u8)
    ||| c == "humidity"@.map_values(|ch: char| ch as u8)
    ||| c == "pressure"@.map_values(|ch: char| ch as u8)
}

fn bytes_eq(a: &[u8], b: &[u8]) -> (r: bool)
    ensures
        r == (a@ == b@),
{
    if a.len() != b.len() {
        proof {
            if a@ == b@ {
                assert(a@.len() == b@.len());
            }
        }
        return false;
    }
    let mut i: usize = 0;
    while i < a.len()
        invariant
            i <= a@.len(),
            a@.len() == b@.len(),
            forall|j: int| 0 <= j < i ==> a@[j] == b@[j],
        decreases a@.len() - i,
    {
        if a[i] != b[i] {
            proof {
                if a@ == b@ {
                    assert(a@[i as int] == b@[i as int]);
                }
            }
            return false;
        }
        i += 1;
    }
    proof {
        assert(a@ =~= b@);
    }
    true
}

impl MeasurementQuery {
    /// Whether every requested column is one of the six the schema offers.
    pub fn are_columns_sane(&self) -> (r: bool)
        ensures
            r == (forall|i: int|
                0 <= i < self.columns@.len() ==> spec_allowed_column(
                    #[trigger] self.columns@[i]@,
                )),
    {
        let sensor_id: Vec<u8> = vec![0x73, 0x65, 0x6E, 0x73, 0x6F, 0x72, 0x5F, 0x69, 0x64];
        let topic: Vec<u8> = vec![0x74, 0x6F, 0x70, 0x69, 0x63];
        let timestamp: Vec<u8> = vec![0x74, 0x69, 0x6D, 0x65, 0x73, 0x74, 0x61, 0x6D, 0x70];
        let temperature: Vec<u8> = vec![
            0x74,
            0x65,
            0x6D,
            0x70,
            0x65,
            0x72,
            0x61,
            0x74,
            0x75,
            0x72,
            0x65,
        ];
        let humidity: Vec<u8> = vec![0x68, 0x75, 0x6D, 0x69, 0x64, 0x69, 0x74, 0x79];
        let pressure: Vec<u8> = vec![0x70, 0x72, 0x65, 0x73, 0x73, 0x75, 0x72, 0x65];
        proof {
            reveal_strlit("sensor_id");
            reveal_strlit("topic");
            reveal_strlit("timestamp");
            reveal_strlit("temperature");
            reveal_strlit("humidity");
            reveal_strlit("pressure");
            assert(sensor_id@ =~= "sensor_id"@.map_values(|ch: char| ch as u8));
            assert(topic@ =~= "topic"@.map_values(|ch: char| ch as u8));
            assert(timestamp@ =~= "timestamp"@.map_values(|ch: char| ch as u8));
            assert(temperature@ =~= "temperature"@.map_values(|ch: char| ch as u8));
            assert(humidity@ =~= "humidity"@.map_values(|ch: char| ch as u8));
            assert(pressure@ =~= "pressure"@.map_values(|ch: char| ch as u8));
        }
        let mut i: usize = 0;
        while i < self.columns.len()
            invariant
                i <= self.columns@.len(),
                sensor_id@ == "sensor_id"@.map_values(|ch: char| ch as u8),
                topic@ == "topic"@.map_values(|ch: char| ch as u8),
                timestamp@ == "timestamp"@.map_values(|ch: char| ch as u8),
                temperature@ == "temperature"@.map_values(|ch: char| ch as u8),
                humidity@ == "humidity"@.map_values(|ch: char| ch as u8),
                pressure@ == "pressure"@.map_values(|ch: char| ch as u8),
                forall|j: int|
                    0 <= j < i ==> spec_allowed_column(#[trigger] self.columns@[j]@),
            decreases self.columns@.len() - i,
        {
            let c = &self.columns[i];
            let ok = bytes_eq(c.as_slice(), sensor_id.as_slice()) || bytes_eq(
                c.as_slice(),
                topic.as_slice(),
            ) || bytes_eq(c.as_slice(), timestamp.as_slice()) || bytes_eq(
                c.as_slice(),
                temperature.as_slice(),
            ) || bytes_eq(c.as_slice(), humidity.as_slice()) || bytes_eq(
                c.as_slice(),
                pressure.as_slice(),
            );
            if !ok {
                return false;
            }
            i += 1;
        }
        true
    }
}

} // verus!
