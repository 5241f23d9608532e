//! Small helpers shared by the request handlers: bounding the length of
//! client-supplied text fields, and splitting a comma-separated list.

use vstd::prelude::*;

use vstd::string::StringSliceAdditionalSpecFns;
use vstd::string::StrSliceExecFns;

use crate::error::Error;

verus! {

/// The position of the first comma of a text, or -1 when it has none.
pub open spec fn first_comma_index(text: Seq<char>) -> int
    decreases text.len(),
{
    if text.len() == 0 {
        -1
    } else if text[0] == ',' {
        0
    } else {
        let rest = first_comma_index(text.skip(1));
        if rest < 0 {
            -1
        } else {
            rest + 1
        }
    }
}

/// The pieces of a text split at every comma, the commas themselves
/// dropped. A text without commas is one piece, so the empty text is one
/// empty piece, and neighbouring commas enclose an empty piece.
pub open spec fn spec_split_commas(text: Seq<char>) -> Seq<Seq<char>>
    decreases text.len(),
{
    let comma = first_comma_index(text);
    if 0 <= comma < text.len() {
        seq![text.take(comma)] + spec_split_commas(text.skip(comma + 1))
    } else {
        seq![text]
    }
}

proof fn lemma_first_comma_at(text: Seq<char>, position: int)
    requires
        0 <= position < text.len(),
        text[position] == ',',
        forall|j: int| 0 <= j < position ==> text[j] != ',',
    ensures
        first_comma_index(text) == position,
    decreases position,
{
    if position > 0 {
        lemma_first_comma_at(text.skip(1), position - 1);
    }
}

proof fn lemma_no_comma(text: Seq<char>)
    requires
        forall|j: int| 0 <= j < text.len() ==> text[j] != ',',
    ensures
        first_comma_index(text) == -1,
    decreases text.len(),
{
    if text.len() > 0 {
        lemma_no_comma(text.skip(1));
    }
}

/// Splits a comma-separated list into its pieces, as `spec_split_commas`
/// says: one piece per comma-free run, empty runs included.
pub fn split_comma_string(text: &str) -> (result: Vec<String>)
    ensures
        result@.map_values(|piece: String| piece@) == spec_split_commas(text@),
{
    let length = text.unicode_len();
    let mut result: Vec<String> = Vec::new();
    let mut start: usize = 0;
    let mut i: usize = 0;
    proof {
        assert(text@.skip(0) =~= text@);
        assert(result@.map_values(|piece: String| piece@) =~= Seq::<Seq<char>>::empty());
        assert(Seq::<Seq<char>>::empty() + spec_split_commas(text@) =~= spec_split_commas(text@));
    }
    while i < length
        invariant
            length == text@.len(),
            start <= i <= length,
            forall|j: int| start <= j < i ==> text@[j] != ',',
            spec_split_commas(text@) == result@.map_values(|piece: String| piece@)
                + spec_split_commas(text@.skip(start as int)),
        decreases length - i,
    {
        if text.get_char(i) == ',' {
            result.push(text.substring_char(start, i).to_owned());
            proof {
                let remainder = text@.skip(start as int);
                lemma_first_comma_at(remainder, i - start);
                assert(remainder.take(i - start) =~= text@.subrange(start as int, i as int));
                assert(remainder.skip(i - start + 1) =~= text@.skip(i + 1 as int));
                assert(result@.map_values(|piece: String| piece@) =~= result@.map_values(
                    |piece: String| piece@,
                ).drop_last().push(text@.subrange(start as int, i as int)));
            }
            start = i + 1;
        }
        i += 1;
    }
    result.push(text.substring_char(start, length).to_owned());
    proof {
        let remainder = text@.skip(start as int);
        lemma_no_comma(remainder);
        assert(result@.map_values(|piece: String| piece@) =~= result@.map_values(
            |piece: String| piece@,
        ).drop_last().push(remainder));
    }
    result
}

/// Whether an optional text field stays within a byte-length bound; an
/// absent field always does.
pub open spec fn within_length(field: Option<&str>, maximum_length: u64) -> bool {
    match field {
        Some(text) => text.spec_bytes().len() <= maximum_length,
        None => true,
    }
}

/// Bounds the byte length of an optional text field: accepts an absent or
/// short enough field, and refuses a longer one by name.
pub fn check_length(field_name: &'static str, field: Option<&str>, maximum_length: u64) -> (result:
    Result<(), Error>)
    ensures
        result is Ok <==> within_length(field, maximum_length),
        result matches Err(e) ==> e matches Error::TooManyCharacters {
            field: f,
            maximum_length: m,
        } && f@ == field_name@ && m == maximum_length,
{
    if let Some(field) = field {
        if field.as_bytes().len() as u64 > maximum_length {
            return Err(Error::TooManyCharacters { field: field_name, maximum_length });
        }
    }
    Ok(())
}

} // verus!
