//! The demo data source: a comma-delimited table of records, one header
//! row naming the six fields in order, one data row per observation.
//!
//! The whole load is fail-fast: a malformed row, a missing column or a
//! bad header rejects the file, so downstream analytics never work on a
//! silently shortened series. The surrounding binary reads the file and
//! hands the bytes in; everything from bytes to records is verified here.

use vstd::prelude::*;
use crate::num::{
    dec_value, is_price_bytes, price_value, is_u64_bytes,
    parse_price, parse_u64, bytes_eq, slice_subrange, views_of,
};
use crate::schema::{LoadError, RecordModel, StockRecord};

verus! {

/// The views of a sequence of records.
pub open spec fn record_views(rs: Seq<StockRecord>) -> Seq<RecordModel> {
    rs.map_values(|r: StockRecord| r@)
}

/// Splitting a byte string on a separator, defined byte by byte from the
/// right: a separator closes the current piece, any other byte extends it.
/// The result always has one piece more than there are separators.
pub open spec fn split_on(s: Seq<u8>, sep: u8) -> Seq<Seq<u8>>
    decreases s.len(),
{
    if s.len() == 0 {
        seq![Seq::<u8>::empty()]
    } else if s.last() == sep {
        split_on(s.drop_last(), sep).push(Seq::<u8>::empty())
    } else {
        let rest = split_on(s.drop_last(), sep);
        rest.update(rest.len() - 1, rest.last().push(s.last()))
    }
}

/// Splits a byte slice on a separator, with the pieces pinned to the
/// spec-level `split_on`.
pub fn split_bytes(s: &[u8], sep: u8) -> (r: Vec<Vec<u8>>)
    ensures
        views_of(r@) == split_on(s@, sep),
        r@.len() >= 1,
{
    let mut fields: Vec<Vec<u8>> = Vec::new();
    let mut cur: Vec<u8> = Vec::new();
    let mut i: usize = 0;
    proof {
        assert(s@.take(0) =~= Seq::<u8>::empty());
        assert(views_of(fields@).push(cur@) =~= split_on(s@.take(0), sep));
    }
    while i < s.len()
        invariant
            0 <= i <= s@.len(),
            views_of(fields@).push(cur@) == split_on(s@.take(i as int), sep),
        decreases s@.len() - i,
    {
        let ghost prev_fields = fields@;
        let ghost prev_cur = cur@;
        proof {
            assert(s@.take(i + 1).drop_last() =~= s@.take(i as int));
            assert(s@.take(i + 1).last() == s@[i as int]);
        }
        if s[i] == sep {
            fields.push(cur);
            cur = Vec::new();
            proof {
                assert(views_of(fields@) =~= views_of(prev_fields).push(prev_cur));
                assert(split_on(s@.take(i + 1), sep) == split_on(s@.take(i as int), sep).push(
                    Seq::<u8>::empty(),
                ));
                assert(views_of(fields@).push(cur@) =~= split_on(s@.take(i + 1), sep));
            }
        } else {
            cur.push(s[i]);
            proof {
                let rest = split_on(s@.take(i as int), sep);
                assert(rest == views_of(prev_fields).push(prev_cur));
                assert(rest.last() == prev_cur);
                assert(split_on(s@.take(i + 1), sep) == rest.update(
                    rest.len() - 1,
                    rest.last().push(s@[i as int]),
                ));
                assert(views_of(fields@).push(cur@) =~= rest.update(
                    rest.len() - 1,
                    rest.last().push(s@[i as int]),
                ));
            }
        }
        i += 1;
    }
    let ghost prev_fields = fields@;
    let ghost prev_cur = cur@;
    fields.push(cur);
    proof {
        assert(s@.take(s@.len() as int) =~= s@);
        assert(views_of(fields@) =~= views_of(prev_fields).push(prev_cur));
    }
    fields
}

/// A line with a trailing carriage return loses it, so files with either
/// line ending load the same way.
pub open spec fn strip_cr(l: Seq<u8>) -> Seq<u8> {
    if l.len() > 0 && l.last() == 13 {
        l.drop_last()
    } else {
        l
    }
}

/// The logical lines of the file: the newline-separated pieces, without
/// an empty piece left by a trailing final newline, each without its
/// trailing carriage return.
pub open spec fn lines_of(s: Seq<u8>) -> Seq<Seq<u8>> {
    let raw = split_on(s, 10);
    let trimmed = if raw.len() > 1 && raw.last().len() == 0 {
        raw.drop_last()
    } else {
        raw
    };
    trimmed.map_values(|l: Seq<u8>| strip_cr(l))
}

/// The mandatory header row, naming the six fields in their fixed order:
/// `timestamp,open,high,low,close,volume`.
pub open spec fn header_bytes() -> Seq<u8> {
    seq![
        // timestamp,
        116u8, 105, 109, 101, 115, 116, 97, 109, 112, 44,
        // open,
        111, 112, 101, 110, 44,
        // high,
        104, 105, 103, 104, 44,
        // low,
        108, 111, 119, 44,
        // close,
        99, 108, 111, 115, 101, 44,
        // volume
        118, 111, 108, 117, 109, 101,
    ]
}

/// What one data row denotes: six comma-separated fields, the four price
/// fields as decimal fixed-point text and the volume as an unsigned
/// count, or nothing if any field is missing or malformed.
pub open spec fn row_model(line: Seq<u8>) -> Option<RecordModel> {
    let fs = split_on(line, 44);
    if fs.len() == 6 && is_price_bytes(fs[1]) && is_price_bytes(fs[2]) && is_price_bytes(fs[3])
        && is_price_bytes(fs[4]) && is_u64_bytes(fs[5]) {
        Some(
            RecordModel {
                timestamp: fs[0],
                open: price_value(fs[1]),
                high: price_value(fs[2]),
                low: price_value(fs[3]),
                close: price_value(fs[4]),
                volume: dec_value(fs[5]),
            },
        )
    } else {
        None
    }
}

/// A file is well-formed when its first line is exactly the header and
/// every later line is a well-formed data row.
pub open spec fn demo_rows_ok(s: Seq<u8>) -> bool {
    let ls = lines_of(s);
    &&& ls.len() >= 1
    &&& ls[0] == header_bytes()
    &&& forall|k: int| 1 <= k < ls.len() ==> (#[trigger] row_model(ls[k])) is Some
}

/// The records a well-formed file denotes, in file order.
pub open spec fn demo_records(s: Seq<u8>) -> Seq<RecordModel> {
    let ls = lines_of(s);
    Seq::new((ls.len() - 1) as nat, |k: int| row_model(ls[k + 1])->0)
}

/// Drops a trailing carriage return from a line.
fn strip_cr_slice(l: &[u8]) -> (r: &[u8])
    ensures
        r@ == strip_cr(l@),
{
    if l.len() > 0 && l[l.len() - 1] == 13 {
        let r = slice_subrange(l, 0, l.len() - 1);
        proof {
            assert(r@ =~= l@.drop_last());
        }
        r
    } else {
        l
    }
}

/// Copies a byte slice into an owned byte string.
fn copy_bytes(s: &[u8]) -> (r: Vec<u8>)
    ensures
        r@ == s@,
{
    let mut out: Vec<u8> = Vec::new();
    let mut i: usize = 0;
    while i < s.len()
        invariant
            0 <= i <= s@.len(),
            out@ == s@.take(i as int),
        decreases s@.len() - i,
    {
        out.push(s[i]);
        proof {
            assert(s@.take(i + 1) =~= s@.take(i as int).push(s@[i as int]));
        }
        i += 1;
    }
    proof {
        assert(s@.take(s@.len() as int) =~= s@);
    }
    out
}

/// Parses one stripped data row into a record, exactly when the row is
/// well-formed.
fn parse_row(line: &[u8]) -> (r: Option<StockRecord>)
    ensures
        r is Some <==> row_model(line@) is Some,
        r matches Some(rec) ==> rec@ == row_model(line@)->0,
{
    let fs = split_bytes(line, 44);
    if fs.len() != 6 {
        return None;
    }
    proof {
        assert(views_of(fs@)[0] == fs@[0]@);
        assert(views_of(fs@)[1] == fs@[1]@);
        assert(views_of(fs@)[2] == fs@[2]@);
        assert(views_of(fs@)[3] == fs@[3]@);
        assert(views_of(fs@)[4] == fs@[4]@);
        assert(views_of(fs@)[5] == fs@[5]@);
    }
    let open = match parse_price(fs[1].as_slice()) {
        Some(v) => v,
        None => {
            return None;
        },
    };
    let high = match parse_price(fs[2].as_slice()) {
        Some(v) => v,
        None => {
            return None;
        },
    };
    let low = match parse_price(fs[3].as_slice()) {
        Some(v) => v,
        None => {
            return None;
        },
    };
    let close = match parse_price(fs[4].as_slice()) {
        Some(v) => v,
        None => {
            return None;
        },
    };
    let volume = match parse_u64(fs[5].as_slice()) {
        Some(v) => v,
        None => {
            return None;
        },
    };
    let timestamp = copy_bytes(fs[0].as_slice());
    Some(StockRecord { timestamp, open, high, low, close, volume })
}

/// Loads the demo table from the file's bytes. Returns every record in
/// file order exactly when the header and every row are well-formed;
/// otherwise the whole load fails with a schema error and no partial
/// result. The file-not-found case never reaches this function: the
/// surrounding binary reports it as an I/O error without calling in.
pub fn load_demo_data(contents: &[u8]) -> (r: Result<Vec<StockRecord>, LoadError>)
    ensures
        r is Ok <==> demo_rows_ok(contents@),
        r matches Ok(v) ==> record_views(v@) == demo_records(contents@),
        r matches Err(e) ==> e == LoadError::SchemaError,
{
    let mut pieces = split_bytes(contents, 10);
    let n = pieces.len();
    if n > 1 && pieces[n - 1].len() == 0 {
        let _ = pieces.pop();
    }
    let ghost trimmed = {
        let raw = split_on(contents@, 10);
        if raw.len() > 1 && raw.last().len() == 0 {
            raw.drop_last()
        } else {
            raw
        }
    };
    proof {
        assert(views_of(pieces@) =~= trimmed);
        assert(lines_of(contents@) == trimmed.map_values(|l: Seq<u8>| strip_cr(l)));
    }
    let header_line = strip_cr_slice(pieces[0].as_slice());
    proof {
        assert(lines_of(contents@)[0] == strip_cr(trimmed[0]));
    }
    let header: Vec<u8> = vec![
        // timestamp,
        116u8, 105, 109, 101, 115, 116, 97, 109, 112, 44,
        // open,
        111, 112, 101, 110, 44,
        // high,
        104, 105, 103, 104, 44,
        // low,
        108, 111, 119, 44,
        // close,
        99, 108, 111, 115, 101, 44,
        // volume
        118, 111, 108, 117, 109, 101,
    ];
    proof {
        assert(header@ =~= header_bytes());
    }
    if !bytes_eq(header_line, header.as_slice()) {
        return Err(LoadError::SchemaError);
    }
    let mut records: Vec<StockRecord> = Vec::new();
    let mut idx: usize = 1;
    while idx < pieces.len()
        invariant
            1 <= idx <= pieces@.len(),
            views_of(pieces@) == trimmed,
            lines_of(contents@) == trimmed.map_values(|l: Seq<u8>| strip_cr(l)),
            records@.len() == idx - 1,
            forall|k: int| 1 <= k < idx ==> (#[trigger] row_model(lines_of(contents@)[k])) is Some,
            forall|k: int| 0 <= k < idx - 1 ==> #[trigger] records@[k]@ == row_model(
                lines_of(contents@)[k + 1],
            )->0,
        decreases pieces@.len() - idx,
    {
        let line = strip_cr_slice(pieces[idx].as_slice());
        proof {
            assert(lines_of(contents@)[idx as int] == strip_cr(trimmed[idx as int]));
        }
        match parse_row(line) {
            None => {
                return Err(LoadError::SchemaError);
            },
            Some(rec) => {
                records.push(rec);
            },
        }
        idx += 1;
    }
    proof {
        assert(record_views(records@) =~= demo_records(contents@));
    }
    Ok(records)
}

} // verus!
