//! The console session: the connection-facing state (current database,
//! display host and port, color preference) and the exact text of every
//! locally produced line — prompts, confirmations, status rows, the
//! non-query summary, the welcome banner and the clear-screen sequence.
//! The network round trips themselves happen outside; this module owns
//! every decision about what they produce on screen.

use vstd::prelude::*;
use crate::numfmt::{dec_rep, centis_rep, u64_string, centis_string};
use crate::style::{style_prompt, style_banner, style_error};

verus! {

/// The state a console session owns. It changes only when a
/// database-selection directive succeeds.
pub struct Session {
    pub current_db: Option<String>,
    pub host: String,
    pub port: u16,
    pub color_enabled: bool,
}

/// The primary prompt: the current database shown in parentheses when one
/// is selected.
pub open spec fn primary_prompt_rep(db: Option<Seq<char>>) -> Seq<char> {
    match db {
        Some(name) => "mysql("@ + name + ") > "@,
        None => "mysql > "@,
    }
}

/// The continuation prompt shown while a statement is still accumulating;
/// it carries no database indicator.
pub open spec fn continuation_prompt_rep() -> Seq<char> {
    "    -> "@
}

/// The confirmation line after a successful database switch.
pub open spec fn db_changed_rep(name: Seq<char>) -> Seq<char> {
    "Database changed to '"@ + name + "'"@
}

/// The report for a non-query statement that affected `n` rows, with
/// singular wording exactly at one row.
pub open spec fn query_ok_rep(n: nat, centis: nat) -> Seq<char> {
    "Query OK, "@ + dec_rep(n) + (if n == 1 {
        " row"@
    } else {
        " rows"@
    }) + " affected ("@ + centis_rep(centis) + " sec)"@
}

/// The error line shown for a failed statement or directive.
pub open spec fn error_line_rep(message: Seq<char>) -> Seq<char> {
    "Error: "@ + message
}

/// The welcome banner around a server version and a connection identifier.
pub open spec fn banner_rep(version: Seq<char>, connection_id: nat) -> Seq<char> {
    "\nWelcome to the MySQL monitor.  Commands end with ;\n\nServer version: "@ + version
        + "\nConnection Id: "@ + dec_rep(connection_id)
        + "\n\nCopyright (c) 2000, 2024, Oracle and/or its affiliates.\nRust MySQL Monitor. A cross-platform MySQL client.\n\nType 'help;' or '\\h' for help. Type '\\c' to clear the current input statement.\n"@
}

impl Session {
    /// The current database as ghost text.
    pub open spec fn db_view(&self) -> Option<Seq<char>> {
        match self.current_db {
            Some(ref name) => Some(name@),
            None => None,
        }
    }

    /// A fresh session over the given display coordinates.
    pub fn new(host: String, port: u16, database: Option<String>, color_enabled: bool) -> (r:
        Session)
        ensures
            r.db_view() == match database {
                Some(ref name) => Some::<Seq<char>>(name@),
                None => None::<Seq<char>>,
            },
            r.host@ == host@,
            r.port == port,
            r.color_enabled == color_enabled,
    {
        Session { current_db: database, host, port, color_enabled }
    }

    /// The unstyled prompt for the given accumulator state: a continuation
    /// marker while a statement is pending, else the primary prompt with
    /// the current database.
    pub fn prompt_text(&self, continuation: bool) -> (r: String)
        ensures
            continuation ==> r@ == continuation_prompt_rep(),
            !continuation ==> r@ == primary_prompt_rep(self.db_view()),
    {
        if continuation {
            "    -> ".to_owned()
        } else {
            match &self.current_db {
                Some(name) => {
                    let mut s = "mysql(".to_owned();
                    s.append(name.as_str());
                    s.append(") > ");
                    proof {
                        assert(s@ =~= primary_prompt_rep(self.db_view()));
                    }
                    s
                },
                None => "mysql > ".to_owned(),
            }
        }
    }

    /// The prompt as shown, accented when colors are on.
    pub fn prompt(&self, continuation: bool) -> (r: String)
        ensures
            !self.color_enabled && continuation ==> r@ == continuation_prompt_rep(),
            !self.color_enabled && !continuation ==> r@ == primary_prompt_rep(self.db_view()),
            continuation ==> r@.len() >= continuation_prompt_rep().len(),
            !continuation ==> r@.len() >= primary_prompt_rep(self.db_view()).len(),
    {
        style_prompt(self.prompt_text(continuation), self.color_enabled)
    }

    /// Record that the executor switched the active database, and give
    /// back the confirmation line. Nothing else of the session changes.
    pub fn set_database(&mut self, name: &str) -> (msg: String)
        ensures
            final(self).db_view() == Some(name@),
            final(self).host@ == old(self).host@,
            final(self).port == old(self).port,
            final(self).color_enabled == old(self).color_enabled,
            msg@ == db_changed_rep(name@),
    {
        self.current_db = Some(name.to_owned());
        let mut s = "Database changed to '".to_owned();
        s.append(name);
        s.append("'");
        proof {
            assert(s@ =~= db_changed_rep(name@));
        }
        s
    }

    /// The status report as label/value rows, in order: server version,
    /// connected host and port, current database, character set. A lookup
    /// that produced nothing renders as an empty value rather than failing
    /// the whole report.
    pub fn status_rows(&self, version: Option<String>, charset: Option<String>) -> (r: Vec<
        (String, String),
    >)
        ensures
            r@.len() == 4,
            r@[0].0@ == "Server version:"@,
            r@[0].1@ == match version {
                Some(ref v) => v@,
                None => Seq::<char>::empty(),
            },
            r@[1].0@ == "Server:"@,
            r@[1].1@ == self.host@ + ":"@ + dec_rep(self.port as nat),
            r@[2].0@ == "Current database:"@,
            r@[2].1@ == match self.db_view() {
                Some(name) => name,
                None => "None"@,
            },
            r@[3].0@ == "Character set:"@,
            r@[3].1@ == match charset {
                Some(ref c) => c@,
                None => Seq::<char>::empty(),
            },
    {
        let mut rows: Vec<(String, String)> = Vec::new();
        let version_text = match version {
            Some(v) => v,
            None => String::new(),
        };
        rows.push(("Server version:".to_owned(), version_text));
        let mut endpoint = self.host.clone();
        endpoint.append(":");
        let port_text = u64_string(self.port as u64);
        endpoint.append(port_text.as_str());
        proof {
            assert(endpoint@ =~= self.host@ + ":"@ + dec_rep(self.port as nat));
        }
        rows.push(("Server:".to_owned(), endpoint));
        let db_text = match &self.current_db {
            Some(name) => name.clone(),
            None => "None".to_owned(),
        };
        rows.push(("Current database:".to_owned(), db_text));
        let charset_text = match charset {
            Some(c) => c,
            None => String::new(),
        };
        rows.push(("Character set:".to_owned(), charset_text));
        rows
    }
}

/// The outcome line of a non-query statement: nothing at zero affected
/// rows, else exactly the report with its row count, wording and elapsed
/// time.
pub fn query_ok_message(affected: u64, elapsed_centis: u64) -> (r: Option<String>)
    ensures
        r is Some <==> affected > 0,
        r matches Some(msg) ==> msg@ == query_ok_rep(affected as nat, elapsed_centis as nat),
{
    if affected == 0 {
        None
    } else {
        let mut s = "Query OK, ".to_owned();
        let count = u64_string(affected);
        s.append(count.as_str());
        if affected == 1 {
            s.append(" row");
        } else {
            s.append(" rows");
        }
        s.append(" affected (");
        let t = centis_string(elapsed_centis);
        s.append(t.as_str());
        s.append(" sec)");
        proof {
            assert(s@ =~= query_ok_rep(affected as nat, elapsed_centis as nat));
        }
        Some(s)
    }
}

/// The error line for a failed statement or directive, accented when
/// colors are on.
pub fn error_line(message: &str, color_enabled: bool) -> (r: String)
    ensures
        !color_enabled ==> r@ == error_line_rep(message@),
        r@.len() >= error_line_rep(message@).len(),
{
    let mut s = "Error: ".to_owned();
    s.append(message);
    proof {
        assert(s@ =~= error_line_rep(message@));
    }
    style_error(s, color_enabled)
}

/// The welcome banner around the server version and connection identifier,
/// accented when colors are on.
pub fn welcome_banner(version: &str, connection_id: u32, color_enabled: bool) -> (r: String)
    ensures
        !color_enabled ==> r@ == banner_rep(version@, connection_id as nat),
        r@.len() >= banner_rep(version@, connection_id as nat).len(),
{
    let mut s = "\nWelcome to the MySQL monitor.  Commands end with ;\n\nServer version: "
        .to_owned();
    s.append(version);
    s.append("\nConnection Id: ");
    let id = u64_string(connection_id as u64);
    s.append(id.as_str());
    s.append(
        "\n\nCopyright (c) 2000, 2024, Oracle and/or its affiliates.\nRust MySQL Monitor. A cross-platform MySQL client.\n\nType 'help;' or '\\h' for help. Type '\\c' to clear the current input statement.\n",
    );
    proof {
        assert(s@ =~= banner_rep(version@, connection_id as nat));
    }
    style_banner(s, color_enabled)
}

/// The terminal escape sequence that clears the screen and homes the
/// cursor, emitted for the clear directive.
pub fn clear_screen_sequence() -> (r: &'static str)
    ensures
        r@ == "\x1B[2J\x1B[1;1H"@,
{
    "\x1B[2J\x1B[1;1H"
}

} // verus!
