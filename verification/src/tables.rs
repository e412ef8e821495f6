//! The two static character tables and the verified search over them.
//!
//! Each table is a list of rows, one row per character: the character's
//! Unicode scalar value paired with its telegraph code. Rows are kept in
//! strictly increasing order of scalar value, so every key appears at most
//! once per table and a binary search finds it.

use vstd::prelude::*;

verus! {

/// One table row: a character's Unicode scalar value and its telegraph code.
pub type Row = (u32, usize);

/// The Traditional (Taiwan) table, as a mathematical sequence of rows.
///
/// Rows are sorted by scalar value. Codes follow the historical telegraph
/// code book; the circled zero sign carries the degenerate code 0.
pub open spec fn tw_seq() -> Seq<Row> {
    seq![
        (0x3007, 0),  // IDEOGRAPHIC NUMBER ZERO
        (0x4E00, 1),  // "one"
        (0x4E01, 2),  // "fourth"
        (0x4E03, 3),  // "seven"
        (0x4E08, 4),  // "unit of length"
        (0x4E09, 5),  // "three"
        (0x4E0A, 6),  // "above"
        (0x4E0B, 7),  // "below"
        (0x4E0D, 8),  // "not"
        (0x4E10, 9),  // "beggar"
        (0x4E11, 10), // "clown"
        (0x4E14, 11), // "moreover"
        (0x4E15, 12), // "great"
        (0x4E16, 13), // "world"
        (0x4E19, 14), // "third"
        (0x4E1E, 15), // "assist"
        (0x4E1F, 16), // "to lose"
        (0x4E26, 17), // "side by side"
        (0x4E2D, 22), // "middle"
        (0x4EBA, 86), // "person"
        (0x570B, 948), // "country"
        (0x9019, 6638), // "this"
    ]
}

/// The Simplified (Mainland) table, as a mathematical sequence of rows.
///
/// Rows are sorted by scalar value. Simplified forms keep the code of the
/// character they stand for in the historical code book.
pub open spec fn cn_seq() -> Seq<Row> {
    seq![
        (0x3007, 0),  // IDEOGRAPHIC NUMBER ZERO
        (0x4E00, 1),  // "one"
        (0x4E01, 2),  // "fourth"
        (0x4E03, 3),  // "seven"
        (0x4E08, 4),  // "unit of length"
        (0x4E09, 5),  // "three"
        (0x4E0A, 6),  // "above"
        (0x4E0B, 7),  // "below"
        (0x4E0D, 8),  // "not"
        (0x4E10, 9),  // "beggar"
        (0x4E11, 10), // "clown"
        (0x4E14, 11), // "moreover"
        (0x4E15, 12), // "great"
        (0x4E16, 13), // "world"
        (0x4E19, 14), // "third"
        (0x4E1E, 15), // "assist"
        (0x4E22, 16), // "to lose" (simplified form)
        (0x4E2D, 22), // "middle"
        (0x4EBA, 86), // "person"
        (0x56FD, 948), // "country" (simplified form)
        (0x5E76, 17), // "side by side" (simplified form)
        (0x8FD9, 6638), // "this" (simplified form)
    ]
}

/// A table is well formed when its keys are strictly increasing (so each
/// character appears at most once) and every code lies in the historical
/// four-digit range.
pub open spec fn table_well_formed(t: Seq<Row>) -> bool {
    &&& forall|i: int, j: int| 0 <= i < j < t.len() ==> t[i].0 < t[j].0
    &&& forall|i: int| 0 <= i < t.len() ==> #[trigger] t[i].1 <= 9999
}

/// Whether some row of `t` carries the key `k`.
pub open spec fn table_has_key(t: Seq<Row>, k: u32) -> bool {
    exists|i: int| 0 <= i < t.len() && t[i].0 == k
}

/// The code a table assigns to a key: the code of the row carrying `k`,
/// or `None` when no row does.
pub open spec fn table_code(t: Seq<Row>, k: u32) -> Option<usize> {
    if table_has_key(t, k) {
        Some(t[choose|i: int| 0 <= i < t.len() && t[i].0 == k].1)
    } else {
        None
    }
}

/// The code the Traditional table assigns to a character.
pub open spec fn tw_code(c: char) -> Option<usize> {
    table_code(tw_seq(), c as u32)
}

/// The code the Simplified table assigns to a character.
pub open spec fn cn_code(c: char) -> Option<usize> {
    table_code(cn_seq(), c as u32)
}

/// The Traditional table is sorted, duplicate-free and four-digit.
pub proof fn lemma_tw_well_formed()
    ensures
        table_well_formed(tw_seq()),
{
}

/// The Simplified table is sorted, duplicate-free and four-digit.
pub proof fn lemma_cn_well_formed()
    ensures
        table_well_formed(cn_seq()),
{
}

/// Any code a well-formed table assigns lies in the four-digit range.
pub proof fn lemma_table_code_in_range(t: Seq<Row>, k: u32)
    requires
        table_well_formed(t),
        table_code(t, k) is Some,
    ensures
        table_code(t, k)->Some_0 <= 9999,
{
}

/// Builds the Traditional table rows in memory.
fn tw_rows() -> (v: Vec<Row>)
    ensures
        v@ == tw_seq(),
{
    let mut v: Vec<Row> = Vec::new();
    v.push((0x3007, 0));
    v.push((0x4E00, 1));
    v.push((0x4E01, 2));
    v.push((0x4E03, 3));
    v.push((0x4E08, 4));
    v.push((0x4E09, 5));
    v.push((0x4E0A, 6));
    v.push((0x4E0B, 7));
    v.push((0x4E0D, 8));
    v.push((0x4E10, 9));
    v.push((0x4E11, 10));
    v.push((0x4E14, 11));
    v.push((0x4E15, 12));
    v.push((0x4E16, 13));
    v.push((0x4E19, 14));
    v.push((0x4E1E, 15));
    v.push((0x4E1F, 16));
    v.push((0x4E26, 17));
    v.push((0x4E2D, 22));
    v.push((0x4EBA, 86));
    v.push((0x570B, 948));
    v.push((0x9019, 6638));
    proof {
        assert(v@ =~= tw_seq());
    }
    v
}

/// Builds the Simplified table rows in memory.
fn cn_rows() -> (v: Vec<Row>)
    ensures
        v@ == cn_seq(),
{
    let mut v: Vec<Row> = Vec::new();
    v.push((0x3007, 0));
    v.push((0x4E00, 1));
    v.push((0x4E01, 2));
    v.push((0x4E03, 3));
    v.push((0x4E08, 4));
    v.push((0x4E09, 5));
    v.push((0x4E0A, 6));
    v.push((0x4E0B, 7));
    v.push((0x4E0D, 8));
    v.push((0x4E10, 9));
    v.push((0x4E11, 10));
    v.push((0x4E14, 11));
    v.push((0x4E15, 12));
    v.push((0x4E16, 13));
    v.push((0x4E19, 14));
    v.push((0x4E1E, 15));
    v.push((0x4E22, 16));
    v.push((0x4E2D, 22));
    v.push((0x4EBA, 86));
    v.push((0x56FD, 948));
    v.push((0x5E76, 17));
    v.push((0x8FD9, 6638));
    proof {
        assert(v@ =~= cn_seq());
    }
    v
}

/// Binary search over a sorted table: returns exactly the code the table
/// assigns to `key`.
fn search(rows: &Vec<Row>, key: u32) -> (r: Option<usize>)
    requires
        table_well_formed(rows@),
    ensures
        r == table_code(rows@, key),
{
    let mut lo: usize = 0;
    let mut hi: usize = rows.len();
    while lo < hi
        invariant
            lo <= hi <= rows@.len(),
            table_well_formed(rows@),
            forall|i: int| 0 <= i < lo ==> rows@[i].0 < key,
            forall|i: int| hi <= i < rows@.len() ==> rows@[i].0 > key,
        decreases hi - lo,
    {
        let mid: usize = lo + (hi - lo) / 2;
        let row_key: u32 = rows[mid].0;
        if row_key < key {
            lo = mid + 1;
        } else if row_key > key {
            hi = mid;
        } else {
            let code: usize = rows[mid].1;
            proof {
                assert(table_has_key(rows@, key));
                let j = choose|i: int| 0 <= i < rows@.len() && rows@[i].0 == key;
                assert(j == mid as int);
            }
            return Some(code);
        }
    }
    proof {
        assert(forall|i: int| 0 <= i < rows@.len() ==> rows@[i].0 != key);
    }
    None
}

/// Looks a character up in the Traditional table.
pub fn tw_lookup(c: char) -> (r: Option<usize>)
    ensures
        r == tw_code(c),
{
    let rows = tw_rows();
    proof {
        lemma_tw_well_formed();
    }
    search(&rows, c as u32)
}

/// Looks a character up in the Simplified table.
pub fn cn_lookup(c: char) -> (r: Option<usize>)
    ensures
        r == cn_code(c),
{
    let rows = cn_rows();
    proof {
        lemma_cn_well_formed();
    }
    search(&rows, c as u32)
}

} // verus!
