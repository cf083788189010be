//! The statement classifier: decides, on a complete trimmed input, whether
//! it is a local console directive, a database-selection directive, or a
//! statement to forward to the server.

use vstd::prelude::*;
use crate::text::{
    trim_spec, fold_matches, fold_starts_with, str_trim, str_fold_matches, str_fold_starts_with,
};

verus! {

/// What one complete input asks the console to do.
pub enum Directive {
    /// Show the connection status report; handled locally.
    ShowStatus,
    /// Clear the screen; handled locally, no server round trip.
    ClearScreen,
    /// Switch the active database to the named one.
    SelectDatabase(String),
    /// Pass the input through to the server unchanged.
    ForwardToServer(String),
}

pub open spec fn kw_status() -> Seq<char> {
    seq!['s', 't', 'a', 't', 'u', 's']
}

pub open spec fn kw_clear() -> Seq<char> {
    seq!['c', 'l', 'e', 'a', 'r']
}

pub open spec fn kw_clear_short() -> Seq<char> {
    seq!['\\', 'c']
}

pub open spec fn kw_use() -> Seq<char> {
    seq!['u', 's', 'e', ' ']
}

/// Whether the trimmed input is exactly the status keyword, ignoring case.
pub open spec fn is_status_input(s: Seq<char>) -> bool {
    fold_matches(trim_spec(s), kw_status())
}

/// Whether the trimmed input is exactly one of the clear-screen keywords,
/// ignoring case.
pub open spec fn is_clear_input(s: Seq<char>) -> bool {
    fold_matches(trim_spec(s), kw_clear()) || fold_matches(trim_spec(s), kw_clear_short())
}

/// Whether the trimmed input begins with the database-selection keyword,
/// ignoring case.
pub open spec fn is_use_input(s: Seq<char>) -> bool {
    fold_starts_with(trim_spec(s), kw_use())
}

/// The exclusive end, at or before `j`, of the last character before `j`
/// that is not a statement terminator; zero when everything before `j` is
/// a terminator.
pub open spec fn rskip_semi(s: Seq<char>, j: nat) -> nat
    recommends
        j <= s.len(),
    decreases j,
{
    if j == 0 {
        0
    } else if s[j - 1] == ';' {
        rskip_semi(s, (j - 1) as nat)
    } else {
        j
    }
}

/// The sequence with trailing statement terminators removed.
pub open spec fn strip_trailing_semis(s: Seq<char>) -> Seq<char> {
    s.take(rskip_semi(s, s.len()) as int)
}

/// The database name carried by a selection directive: the remainder after
/// the keyword, with surrounding whitespace and any trailing statement
/// terminator trimmed away.
pub open spec fn db_name_spec(t: Seq<char>) -> Seq<char>
    recommends
        t.len() >= 4,
{
    trim_spec(strip_trailing_semis(trim_spec(t.skip(4))))
}

/// Decide what one complete input asks for. The keyword directives are
/// matched exactly against the whitespace-trimmed input, ignoring ASCII
/// case; everything else is forwarded to the server unchanged.
pub fn classify(input: &str) -> (r: Directive)
    ensures
        is_status_input(input@) ==> r is ShowStatus,
        !is_status_input(input@) && is_clear_input(input@) ==> r is ClearScreen,
        !is_status_input(input@) && !is_clear_input(input@) && is_use_input(input@) ==> (
        r matches Directive::SelectDatabase(name) && name@ == db_name_spec(trim_spec(input@))),
        !is_status_input(input@) && !is_clear_input(input@) && !is_use_input(input@) ==> (
        r matches Directive::ForwardToServer(original) && original@ == input@),
{
    let t = str_trim(input);
    proof {
        reveal_strlit("status");
        reveal_strlit("clear");
        reveal_strlit("\\c");
        reveal_strlit("use ");
        assert("status"@ =~= kw_status());
        assert("clear"@ =~= kw_clear());
        assert("\\c"@ =~= kw_clear_short());
        assert("use "@ =~= kw_use());
    }
    if str_fold_matches(t, "status") {
        Directive::ShowStatus
    } else if str_fold_matches(t, "clear") || str_fold_matches(t, "\\c") {
        Directive::ClearScreen
    } else if str_fold_starts_with(t, "use ") {
        let n: usize = t.unicode_len();
        let rest = t.substring_char(4, n);
        proof {
            assert(rest@ =~= trim_spec(input@).skip(4));
        }
        let rest_trimmed = str_trim(rest);
        let m: usize = rest_trimmed.unicode_len();
        let mut j: usize = m;
        loop
            invariant
                j <= m,
                m == rest_trimmed@.len(),
                rskip_semi(rest_trimmed@, m as nat) == rskip_semi(rest_trimmed@, j as nat),
            ensures
                j <= m,
                rskip_semi(rest_trimmed@, m as nat) == j,
            decreases j,
        {
            if j == 0 {
                break ;
            }
            if rest_trimmed.get_char(j - 1) != ';' {
                break ;
            }
            j = j - 1;
        }
        let stripped = rest_trimmed.substring_char(0, j);
        proof {
            assert(stripped@ =~= strip_trailing_semis(rest_trimmed@));
        }
        let name = str_trim(stripped);
        Directive::SelectDatabase(name.to_owned())
    } else {
        Directive::ForwardToServer(input.to_owned())
    }
}

} // verus!
