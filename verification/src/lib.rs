//! Conversion of single Chinese characters to their historical four-digit
//! telegraph codes.
//!
//! Two static tables are embedded: one for Traditional (Taiwan) characters
//! and one for Simplified (Mainland) characters. A query names one character
//! and a [`Table`] selector; the answer is the character's numeric code, or
//! `None` when the character is unknown or the query does not hold exactly
//! one character. Absence is a normal outcome, never an error.

use vstd::prelude::*;

pub mod format;
pub mod tables;

verus! {

use crate::format::format4;
use crate::tables::{cn_code, tw_code};

/// Selects which character table(s) a lookup consults.
#[derive(Debug, Clone, Copy, PartialEq, Eq)]
pub enum Table {
    /// Search the Traditional table first, then the Simplified table.
    Both,
    /// Search only the Traditional Chinese (Taiwan) table.
    TW,
    /// Search only the Simplified Chinese table.
    CN,
}

/// The code a query resolves to: `None` unless the query holds exactly one
/// character; otherwise the selected table's code for that character, the
/// Traditional table taking precedence under [`Table::Both`].
pub open spec fn telegraph_spec(s: Seq<char>, table: Table) -> Option<usize> {
    if s.len() != 1 {
        None
    } else {
        match table {
            Table::Both => if tw_code(s[0]) is Some {
                tw_code(s[0])
            } else {
                cn_code(s[0])
            },
            Table::TW => tw_code(s[0]),
            Table::CN => cn_code(s[0]),
        }
    }
}

/// Converts a Chinese character to its telegraph code.
///
/// `character` must hold exactly one character; a query of any other length
/// finds nothing. The selector names the table(s) consulted; under
/// [`Table::Both`] the Traditional table is searched first.
pub fn to_telegraph(character: &str, table: Table) -> (r: Option<usize>)
    ensures
        r == telegraph_spec(character@, table),
{
    if character.unicode_len() != 1 {
        return None;
    }
    let c = character.get_char(0);
    match table {
        Table::Both => {
            let t = crate::tables::tw_lookup(c);
            if t.is_some() {
                t
            } else {
                crate::tables::cn_lookup(c)
            }
        },
        Table::TW => crate::tables::tw_lookup(c),
        Table::CN => crate::tables::cn_lookup(c),
    }
}

/// Any code a query can resolve to lies in the four-digit range.
pub proof fn lemma_telegraph_code_in_range(s: Seq<char>, table: Table)
    requires
        telegraph_spec(s, table) is Some,
    ensures
        telegraph_spec(s, table)->Some_0 <= 9999,
{
    crate::tables::lemma_tw_well_formed();
    crate::tables::lemma_cn_well_formed();
    if telegraph_spec(s, table) == tw_code(s[0]) {
        crate::tables::lemma_table_code_in_range(crate::tables::tw_seq(), s[0] as u32);
    } else {
        crate::tables::lemma_table_code_in_range(crate::tables::cn_seq(), s[0] as u32);
    }
}

/// Converts a Chinese character to its telegraph code rendered as a
/// four-digit zero-padded decimal string.
///
/// Exactly the queries that [`to_telegraph`] resolves are rendered; all
/// others yield `None`.
pub fn to_telegraph_string(character: &str, table: Table) -> (r: Option<String>)
    ensures
        telegraph_spec(character@, table) is None ==> r is None,
        telegraph_spec(character@, table) matches Some(n) ==> (r matches Some(f)
            && f@ == format4(n as int)),
{
    match to_telegraph(character, table) {
        Some(n) => {
            proof {
                lemma_telegraph_code_in_range(character@, table);
            }
            Some(crate::format::format_code(n))
        },
        None => None,
    }
}

/// A character the Traditional table knows resolves to its Traditional code,
/// both when only that table is consulted and when both are.
pub proof fn lemma_traditional_lookup(c: char)
    requires
        tw_code(c) is Some,
    ensures
        telegraph_spec(seq![c], Table::TW) == tw_code(c),
        telegraph_spec(seq![c], Table::Both) == tw_code(c),
{
}

/// A character only the Simplified table knows resolves to its Simplified
/// code, both when only that table is consulted and when both are.
pub proof fn lemma_simplified_lookup(c: char)
    requires
        cn_code(c) is Some,
        tw_code(c) is None,
    ensures
        telegraph_spec(seq![c], Table::CN) == cn_code(c),
        telegraph_spec(seq![c], Table::Both) == cn_code(c),
{
}

/// When both tables know a character, consulting both yields the
/// Traditional table's code: Traditional takes precedence.
pub proof fn lemma_traditional_precedence(c: char)
    requires
        tw_code(c) is Some,
        cn_code(c) is Some,
    ensures
        telegraph_spec(seq![c], Table::Both) == tw_code(c),
{
}

/// A query of any length other than one character finds nothing, whatever
/// the selector and whatever the tables hold of its pieces.
pub proof fn lemma_malformed_query(s: Seq<char>, table: Table)
    requires
        s.len() != 1,
    ensures
        telegraph_spec(s, table) is None,
{
}

/// Every code a query resolves to is rendered faithfully: the rendering has
/// exactly four characters and denotes the code itself.
pub proof fn lemma_rendering_faithful(s: Seq<char>, table: Table)
    requires
        telegraph_spec(s, table) is Some,
    ensures
        format4(telegraph_spec(s, table)->Some_0 as int).len() == 4,
        crate::format::decode4(format4(telegraph_spec(s, table)->Some_0 as int))
            == telegraph_spec(s, table)->Some_0,
{
    lemma_telegraph_code_in_range(s, table);
    crate::format::lemma_format4_faithful(telegraph_spec(s, table)->Some_0 as int);
}

} // verus!
