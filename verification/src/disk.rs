//! The binary form of a document: the path of its background image and its
//! curves, each curve a record of six coordinates.
//!
//! The bytes are bincode's. A record lists `from.x`, `from.y`, `to.x`,
//! `to.y`, `control.x`, `control.y`; bincode writes a coordinate's bit
//! pattern as the four bytes of the single-precision number it stands for.

use crate::bezier::{Curve, Curves, Point};
use vstd::prelude::*;

verus! {

/// bincode's error. It is carried from a failed call to the caller and
/// never looked into.
#[verifier::external_type_specification]
#[verifier::external_body]
pub struct ExErrorKind(bincode::ErrorKind);

/// The bytes that bincode writes for a path and a list of records.
pub uninterp spec fn bincode_encoding(path: Seq<char>, records: Seq<Seq<u32>>) -> Seq<u8>;

/// The path and the list of records that bincode reads at the start of
/// `bytes`, or `None` where it reads none.
pub uninterp spec fn bincode_decoding(bytes: Seq<u8>) -> Option<(Seq<char>, Seq<Seq<u32>>)>;

/// The records of a list, each as the sequence of its components.
pub open spec fn records_view(records: Seq<Vec<u32>>) -> Seq<Seq<u32>> {
    records.map_values(|r: Vec<u32>| r@)
}

/// Calls `bincode::serialize` on the pair of a path and a list of records.
/// Trusted: the call succeeds (it writes to a vector without a size limit,
/// and every sequence in the pair knows its length); its bytes are a function
/// of the pair alone; and bincode reads the same pair back from them.
#[verifier::external_body]
fn serialize(path: &String, records: &Vec<Vec<u32>>) -> (outcome: Result<
    Vec<u8>,
    Box<bincode::ErrorKind>,
>)
    ensures
        outcome is Ok,
        outcome->Ok_0@ == bincode_encoding(path@, records_view(records@)),
        bincode_decoding(outcome->Ok_0@) == Some((path@, records_view(records@))),
{
    bincode::serialize(&(path, records))
}

/// Calls `bincode::deserialize` for the pair of a path and a list of
/// records. Trusted: whether the call succeeds, and the pair it gives, are a
/// function of the bytes alone.
#[verifier::external_body]
fn deserialize(bytes: &[u8]) -> (outcome: Result<(String, Vec<Vec<u32>>), Box<bincode::ErrorKind>>)
    ensures
        match outcome {
            Ok(pair) => bincode_decoding(bytes@) == Some((pair.0@, records_view(pair.1@))),
            Err(_) => bincode_decoding(bytes@) is None,
        },
{
    bincode::deserialize(bytes)
}

/// The number of components of a curve's record.
pub const RECORD_LEN: usize = 6;

/// The record of a curve.
pub open spec fn record_of(c: Curve) -> Seq<u32> {
    seq![c.from.x, c.from.y, c.to.x, c.to.y, c.control.x, c.control.y]
}

/// The curve of a record of six components.
pub open spec fn curve_of(r: Seq<u32>) -> Curve
    recommends
        r.len() == RECORD_LEN,
{
    Curve {
        from: Point { x: r[0], y: r[1] },
        to: Point { x: r[2], y: r[3] },
        control: Point { x: r[4], y: r[5] },
    }
}

/// The records of a list of curves, in the curves' order.
pub open spec fn records_of(curves: Seq<Curve>) -> Seq<Seq<u32>> {
    curves.map_values(|c: Curve| record_of(c))
}

/// The curves of a list of records, in the records' order.
pub open spec fn curves_of(records: Seq<Seq<u32>>) -> Seq<Curve> {
    records.map_values(|r: Seq<u32>| curve_of(r))
}

/// Every record has six components.
pub open spec fn well_formed(records: Seq<Seq<u32>>) -> bool {
    forall|i: int| 0 <= i < records.len() ==> (#[trigger] records[i]).len() == RECORD_LEN
}

/// Record `i` is the first that does not have six components.
pub open spec fn first_malformed(records: Seq<Seq<u32>>, i: int) -> bool {
    &&& 0 <= i < records.len()
    &&& records[i].len() != RECORD_LEN
    &&& well_formed(records.take(i))
}

/// Why bytes could not be loaded.
#[derive(Debug)]
pub enum Error {
    /// The bytes are cut short or are not a document at all.
    BincodeErr(Box<bincode::ErrorKind>),
    /// The record at this position, counted from zero, is the first that
    /// does not have six components.
    Arity { record: usize },
}

/// A document in the shape in which it is written: the path of the
/// background image, and the curves as records.
#[derive(Debug)]
pub struct Serialized {
    path: String,
    curves: Vec<Vec<u32>>,
}

impl Serialized {
    /// The records of the document's curves.
    pub closed spec fn records(&self) -> Seq<Seq<u32>> {
        records_view(self.curves@)
    }

    /// The path of the document's background image.
    pub closed spec fn image_path(&self) -> Seq<char> {
        self.path@
    }

    /// The path of the document's background image.
    pub fn path(&self) -> (path: &String)
        ensures
            path@ == self.image_path(),
    {
        &self.path
    }

    #[verifier::type_invariant]
    spec fn every_record_is_whole(self) -> bool {
        well_formed(records_view(self.curves@))
    }

    /// The document of an image path and curves.
    pub fn new(path: String, curves: &Curves) -> (s: Serialized)
        ensures
            s.image_path() == path@,
            s.records() == records_of(curves@),
            well_formed(s.records()),
    {
        let mut records: Vec<Vec<u32>> = Vec::new();
        for c in walk: curves.iter()
            invariant
                walk.seq().unref() == curves@,
                records_view(records@) == records_of(curves@.take(walk.index() as int)),
        {
            let mut record: Vec<u32> = Vec::new();
            record.push(c.from.x);
            record.push(c.from.y);
            record.push(c.to.x);
            record.push(c.to.y);
            record.push(c.control.x);
            record.push(c.control.y);
            let ghost before = records@;
            let ghost done = curves@.take(walk.index() as int);
            records.push(record);
            proof {
                assert(*c == walk.seq().unref()[walk.index() as int]);
                assert(record@ == record_of(*c));
                assert(curves@.take(walk.index() + 1) == done.push(*c));
                assert(records_view(before.push(record)) == records_view(before).push(record@));
                assert(records_of(done.push(*c)) == records_of(done).push(record_of(*c)));
            }
        }
        proof {
            assert(curves@.take(curves@.len() as int) == curves@);
        }
        Serialized { path, curves: records }
    }

    /// The document's curves.
    pub fn curves(&self) -> (cs: Curves)
        ensures
            cs@ == curves_of(self.records()),
    {
        proof {
            use_type_invariant(self);
        }
        let mut cs = Curves::default();
        let mut i: usize = 0;
        while i < self.curves.len()
            invariant
                i <= self.curves.len(),
                well_formed(self.records()),
                cs@ == curves_of(self.records().take(i as int)),
            decreases self.curves.len() - i,
        {
            let c = &self.curves[i];
            assert(self.records()[i as int] == c@);
            let curve = Curve {
                from: Point { x: c[0], y: c[1] },
                to: Point { x: c[2], y: c[3] },
                control: Point { x: c[4], y: c[5] },
            };
            cs.push(curve);
            proof {
                assert(self.records().take(i + 1) == self.records().take(i as int).push(c@));
                assert(curves_of(self.records().take(i as int).push(c@)) == curves_of(
                    self.records().take(i as int),
                ).push(curve_of(c@)));
            }
            i += 1;
        }
        proof {
            assert(self.records().take(self.curves.len() as int) == self.records());
        }
        cs
    }

    /// The document of an image path and records, where every record has
    /// six components; else the position of the first that has not.
    pub fn from_records(path: String, records: Vec<Vec<u32>>) -> (outcome: Result<
        Serialized,
        Error,
    >)
        ensures
            well_formed(records_view(records@)) ==> (outcome matches Ok(s) && s.image_path() == path@
                && s.records() == records_view(records@)),
            !well_formed(records_view(records@)) ==> (outcome matches Err(Error::Arity { record })
                && first_malformed(records_view(records@), record as int)),
    {
        let mut i: usize = 0;
        while i < records.len()
            invariant
                i <= records.len(),
                well_formed(records_view(records@).take(i as int)),
            decreases records.len() - i,
        {
            if records[i].len() != RECORD_LEN {
                assert(records_view(records@)[i as int] == records@[i as int]@);
                return Err(Error::Arity { record: i });
            }
            proof {
                let all = records_view(records@);
                assert(all[i as int] == records@[i as int]@);
                assert forall|j: int| 0 <= j < i + 1 implies (#[trigger] all.take(i + 1)[j]).len()
                    == RECORD_LEN by {
                    if j < i {
                        assert(all.take(i + 1)[j] == all.take(i as int)[j]);
                    }
                }
            }
            i += 1;
        }
        proof {
            assert(records_view(records@).take(records.len() as int) == records_view(records@));
        }
        Ok(Serialized { path, curves: records })
    }
}

/// The document, path and records, that loading finds in `bytes`: the pair
/// that bincode reads there, provided every record has six components.
pub open spec fn load_spec(bytes: Seq<u8>) -> Option<(Seq<char>, Seq<Seq<u32>>)> {
    match bincode_decoding(bytes) {
        Some(pair) if well_formed(pair.1) => Some(pair),
        _ => None,
    }
}

/// `bytes` are what a document of this path and these records is saved as.
pub open spec fn saved_as(path: Seq<char>, records: Seq<Seq<u32>>, bytes: Seq<u8>) -> bool {
    &&& bytes == bincode_encoding(path, records)
    &&& bincode_decoding(bytes) == Some((path, records))
}

/// The bytes of a document. Loading them gives the document back.
pub fn save(s: Serialized) -> (bytes: Vec<u8>)
    ensures
        saved_as(s.image_path(), s.records(), bytes@),
        load_spec(bytes@) == Some((s.image_path(), s.records())),
{
    proof {
        use_type_invariant(&s);
    }
    match serialize(&s.path, &s.curves) {
        Ok(bytes) => bytes,
        Err(_) => unreached(),
    }
}

/// The document in `bytes`. Fails where bincode reads no path and records
/// there, and where it does but a record does not have six components.
pub fn load(bytes: &[u8]) -> (outcome: Result<Serialized, Error>)
    ensures
        bincode_decoding(bytes@) is None ==> outcome matches Err(Error::BincodeErr(_)),
        bincode_decoding(bytes@) matches Some(pair) ==> {
            if well_formed(pair.1) {
                outcome matches Ok(s) && s.image_path() == pair.0 && s.records() == pair.1
            } else {
                outcome matches Err(Error::Arity { record }) && first_malformed(
                    pair.1,
                    record as int,
                )
            }
        },
{
    match deserialize(bytes) {
        Ok(pair) => Serialized::from_records(pair.0, pair.1),
        Err(e) => Err(Error::BincodeErr(e)),
    }
}

/// A curve is the curve of its record, and so are the curves of a list.
pub proof fn curves_of_records(curves: Seq<Curve>)
    ensures
        well_formed(records_of(curves)),
        curves_of(records_of(curves)) == curves,
{
    assert forall|i: int| 0 <= i < curves.len() implies curve_of(record_of(curves[i]))
        == curves[i] by {}
    assert(curves_of(records_of(curves)) =~= curves);
}

/// Loading inverts saving: in the bytes that a path and curves are saved
/// as, loading finds that path and the records of exactly those curves.
pub proof fn load_inverts_save(path: Seq<char>, curves: Seq<Curve>, bytes: Seq<u8>)
    requires
        saved_as(path, records_of(curves), bytes),
    ensures
        load_spec(bytes) matches Some(pair) && pair.0 == path && curves_of(pair.1) == curves,
{
    curves_of_records(curves);
}

} // verus!
