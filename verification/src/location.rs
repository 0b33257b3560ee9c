//! Call-site locations recorded in a backtrace.

use vstd::prelude::*;
use vstd::string::{StrSliceExecFns, StringExecFns};

use crate::text::{dec_str, u32_dec};

verus! {

/// The longest file identifier a location keeps; longer names are truncated.
pub const FILE_MAX: usize = 32;

/// One call site: a bounded file identifier, a line and a column.
///
/// Immutable once constructed; a new value is captured each time an error
/// propagates through a call site.
pub struct Location {
    pub file: String,
    pub line: u32,
    pub column: u32,
}

/// The file identifier as a location stores it: kept whole when it fits the
/// bounded buffer, truncated to the first `FILE_MAX` characters otherwise.
pub open spec fn trunc_file(file: Seq<char>) -> Seq<char> {
    if file.len() <= FILE_MAX {
        file
    } else {
        file.take(FILE_MAX as int)
    }
}

/// The rendering of a location: `file:line:column`.
pub open spec fn loc_text(loc: Location) -> Seq<char> {
    loc.file@ + ":"@ + dec_str(loc.line as nat) + ":"@ + dec_str(loc.column as nat)
}

impl Location {
    /// Capture the call site whose coordinates the caller supplies, keeping
    /// at most the first `FILE_MAX` characters of the file identifier.
    pub fn caller(file: &str, line: u32, column: u32) -> (loc: Location)
        ensures
            loc.file@ == trunc_file(file@),
            loc.line == line,
            loc.column == column,
    {
        let n = file.unicode_len();
        let kept = if n <= FILE_MAX {
            String::from_str(file)
        } else {
            String::from_str(file.substring_char(0, FILE_MAX))
        };
        proof {
            assert(kept@ =~= trunc_file(file@));
        }
        Location { file: kept, line, column }
    }

    /// Render this location as `file:line:column`.
    pub fn render(&self) -> (s: String)
        ensures
            s@ == loc_text(*self),
    {
        let mut s = String::from_str(self.file.as_str());
        s.append(":");
        let line_s = u32_dec(self.line);
        s.append(line_s.as_str());
        s.append(":");
        let col_s = u32_dec(self.column);
        s.append(col_s.as_str());
        proof {
            assert(s@ =~= loc_text(*self));
        }
        s
    }
}

} // verus!
