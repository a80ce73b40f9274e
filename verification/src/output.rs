//! The output parser: splits the captured standard output of the build
//! project into exactly two lines, the apply SQL and the revert SQL.
//!
//! The contract is deliberately strict: fewer than two lines is an error,
//! and anything after the second line is ignored.  A stray print in the
//! user's logic therefore breaks the run loudly instead of corrupting SQL.

use vstd::prelude::*;
use vstd::string::StrSliceExecFns;
use vstd::string::StringExecFns;
use crate::errors::MigrationError;
use crate::text::contains_char;
use crate::text::first_index;
use crate::text::prefix_before;
use crate::text::lemma_first_index;
use crate::text::take_until;

verus! {

/// Whether the captured output holds at least two lines, that is, at least
/// one line break.
pub open spec fn has_two_lines(raw: Seq<char>) -> bool {
    contains_char(raw, '\n')
}

/// The first line of the captured output: the text before the first line
/// break.
pub open spec fn first_line(raw: Seq<char>) -> Seq<char> {
    prefix_before(raw, '\n')
}

/// The second line of the captured output: the text between the first line
/// break and the next one (or the end).
pub open spec fn second_line(raw: Seq<char>) -> Seq<char> {
    prefix_before(raw.skip(first_index(raw, '\n') + 1), '\n')
}

/// Splits captured build output into the apply SQL (line one) and the
/// revert SQL (line two).
///
/// Fails exactly when the output holds fewer than two lines, that is, no
/// line break at all.
pub fn parse_output(raw: &str) -> (r: Result<(String, String), MigrationError>)
    ensures
        has_two_lines(raw@) <==> r is Ok,
        r matches Ok(lines) ==> lines.0@ == first_line(raw@) && lines.1@ == second_line(raw@),
        !has_two_lines(raw@) ==> r == Err::<(String, String), MigrationError>(
            MigrationError::MalformedOutputError,
        ),
{
    let n = raw.unicode_len();
    let k = crate::text::find_char(raw, '\n');
    proof {
        lemma_first_index(raw@, '\n');
    }
    if k == n {
        return Err(MigrationError::MalformedOutputError);
    }
    let up = raw.substring_char(0, k);
    let rest = raw.substring_char(k + 1, n);
    proof {
        assert(raw@.subrange(k + 1, n as int) =~= raw@.skip(k + 1));
        assert(raw@.subrange(0, k as int) =~= raw@.take(k as int));
    }
    let down = take_until(rest, '\n');
    Ok((String::from_str(up), down))
}

} // verus!
