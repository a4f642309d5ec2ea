//! The cell model: what one result cell holds, and the fixed policy that
//! renders every cell as text.

use vstd::prelude::*;
use vstd::string::StringExecFns;
use crate::num::i64_to_dec;
use crate::num::int_dec;

verus! {

/// One result cell, as the engine types it. A real arrives already carrying
/// the engine-side default text of its float, so everything downstream works
/// on integers, text and bytes alone.
pub enum CellValue {
    /// An absent value.
    Null,
    /// A signed integer.
    Integer(i64),
    /// A floating-point value, as the text the boundary rendered it to.
    Real(String),
    /// A text value.
    Text(String),
    /// A binary value.
    Blob(Vec<u8>),
}

/// The rendering policy: an absent value and a blob become fixed
/// placeholders, an integer its base-10 text, a real and a text their own
/// characters. Blob bytes are erased, not recoverable.
pub open spec fn rendered(v: CellValue) -> Seq<char> {
    match v {
        CellValue::Null => "NULL"@,
        CellValue::Integer(i) => int_dec(i as int),
        CellValue::Real(s) => s@,
        CellValue::Text(s) => s@,
        CellValue::Blob(_) => "BLOB"@,
    }
}

/// Renders one cell as text, exactly as `rendered` says.
pub fn render_cell(v: &CellValue) -> (s: String)
    ensures
        s@ == rendered(*v),
{
    match v {
        CellValue::Null => String::from_str("NULL"),
        CellValue::Integer(i) => i64_to_dec(*i),
        CellValue::Real(t) => t.clone(),
        CellValue::Text(t) => t.clone(),
        CellValue::Blob(_) => String::from_str("BLOB"),
    }
}

} // verus!
