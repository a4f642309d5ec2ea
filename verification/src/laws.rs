//! The rendering policy's guarantees, stated and proved once, for every
//! possible cell.

use vstd::prelude::*;
use crate::num::int_dec;
use crate::num::lemma_dec_seq_shape;
use crate::value::CellValue;
use crate::value::rendered;

verus! {

/// The shape of a non-negative base-10 text: at least one character, digit
/// characters only, and no leading zero unless the text is "0" itself.
pub open spec fn nonneg_decimal(s: Seq<char>) -> bool {
    &&& s.len() >= 1
    &&& forall|k: int| 0 <= k < s.len() ==> '0' <= #[trigger] s[k] <= '9'
    &&& s.len() > 1 ==> s[0] != '0'
}

/// The shape of a negative base-10 text: a leading '-', then digits only,
/// the first of them never a zero.
pub open spec fn neg_decimal(s: Seq<char>) -> bool {
    &&& s.len() >= 2
    &&& s[0] == '-'
    &&& forall|k: int| 1 <= k < s.len() ==> '0' <= #[trigger] s[k] <= '9'
    &&& s[1] != '0'
}

/// Round-trip identity for text: a text cell renders as exactly its own
/// characters, unchanged, whatever they are.
pub proof fn lemma_text_round_trip(s: String)
    ensures
        rendered(CellValue::Text(s)) == s@,
{
}

/// Null normalization: an absent value always renders as the same four
/// characters, whatever column it sat in.
pub proof fn lemma_null_normalization()
    ensures
        rendered(CellValue::Null) == "NULL"@,
        rendered(CellValue::Null) == seq!['N', 'U', 'L', 'L'],
{
    reveal_strlit("NULL");
    assert(rendered(CellValue::Null) =~= seq!['N', 'U', 'L', 'L']);
}

/// Integer formatting: an integer cell renders as the value's base-10 text,
/// with no leading zeros and a '-' exactly when the value is negative.
pub proof fn lemma_integer_formatting(v: i64)
    ensures
        rendered(CellValue::Integer(v)) == int_dec(v as int),
        v >= 0 ==> nonneg_decimal(int_dec(v as int)),
        v < 0 ==> neg_decimal(int_dec(v as int)),
{
    if v >= 0 {
        lemma_dec_seq_shape(v as nat);
    } else {
        lemma_dec_seq_shape((-(v as int)) as nat);
    }
}

/// Blob erasure: every binary cell renders as the same fixed placeholder,
/// whatever bytes it held and however many; the bytes themselves are gone.
pub proof fn lemma_blob_erasure(b1: Vec<u8>, b2: Vec<u8>)
    ensures
        rendered(CellValue::Blob(b1)) == "BLOB"@,
        rendered(CellValue::Blob(b1)) == rendered(CellValue::Blob(b2)),
{
}

} // verus!
