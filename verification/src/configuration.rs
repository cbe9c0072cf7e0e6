//! The service's settings and the environment it runs in.
use vstd::prelude::*;

use crate::text::text_eq;
use crate::token::{all_digits, decimal, digits_value, lemma_decimal_digits, push_decimal};

verus! {

/// The settings of the service.
pub struct Settings {
    pub application: ApplicationSetting,
    pub database: DatabaseSettings,
}

/// Where the database is and how to sign in to it.
pub struct DatabaseSettings {
    pub db_name: String,
    pub port: u16,
    pub username: String,
    pub password: String,
    pub host: String,
}

/// Where the service listens.
pub struct ApplicationSetting {
    pub host: String,
    pub port: u16,
}

/// The connection string of a PostgreSQL database:
/// `postgres://<username>:<password>@<host>:<port>/<db_name>`.
pub open spec fn connection_string(db: DatabaseSettings) -> Seq<char> {
    seq!['p', 'o', 's', 't', 'g', 'r', 'e', 's', ':', '/', '/'] + db.username@ + seq![':']
        + db.password@ + seq!['@'] + db.host@ + seq![':'] + decimal(db.port as nat) + seq!['/']
        + db.db_name@
}

/// `postgres://`
pub open spec fn postgres_scheme() -> Seq<char> {
    seq!['p', 'o', 's', 't', 'g', 'r', 'e', 's', ':', '/', '/']
}

/// Where the port starts in the connection string of `db`: after
/// `postgres://<username>:<password>@<host>:`.
pub open spec fn port_start(db: DatabaseSettings) -> int {
    11int + db.username@.len() + 1 + db.password@.len() + 1 + db.host@.len() + 1
}

/// The connection string carries every setting: it starts with
/// `postgres://<username>:<password>@<host>:`, ends with `/<db_name>`, and
/// between them stands the configured port as a decimal numeral (digits,
/// no leading zero, of value `db.port`).
pub proof fn connection_string_carries_the_settings(db: DatabaseSettings)
    ensures
        connection_string(db).take(port_start(db)) == postgres_scheme() + db.username@ + seq![':']
            + db.password@ + seq!['@'] + db.host@ + seq![':'],
        port_start(db) < connection_string(db).len() - db.db_name@.len() - 1,
        connection_string(db)[connection_string(db).len() - db.db_name@.len() - 1] == '/',
        connection_string(db).skip(connection_string(db).len() - db.db_name@.len())
            == db.db_name@,
        all_digits(
            connection_string(db).subrange(
                port_start(db),
                connection_string(db).len() - db.db_name@.len() - 1,
            ),
        ),
        digits_value(
            connection_string(db).subrange(
                port_start(db),
                connection_string(db).len() - db.db_name@.len() - 1,
            ),
        ) == db.port,
        connection_string(db).len() - db.db_name@.len() - 1 - port_start(db) > 1
            ==> connection_string(db)[port_start(db)] != '0',
{
    let s = connection_string(db);
    let head = postgres_scheme() + db.username@ + seq![':'] + db.password@ + seq!['@'] + db.host@
        + seq![':'];
    let d = decimal(db.port as nat);
    lemma_decimal_digits(db.port as nat);
    assert(s =~= head + d + seq!['/'] + db.db_name@);
    assert(head.len() == port_start(db));
    assert(s.take(port_start(db)) =~= head);
    let end = s.len() - db.db_name@.len() - 1;
    assert(s.subrange(port_start(db), end) =~= d);
    assert(s.skip(end + 1) =~= db.db_name@);
    assert(s[port_start(db)] == d[0]);
}

impl Settings {
    pub fn postgres_connection_string(&self) -> (s: String)
        ensures
            s@ == connection_string(self.database),
    {
        proof {
            reveal_strlit("postgres://");
            reveal_strlit(":");
            reveal_strlit("@");
            reveal_strlit("/");
        }
        let db = &self.database;
        let mut s = "postgres://".to_owned();
        s.append(db.username.as_str());
        s.append(":");
        s.append(db.password.as_str());
        s.append("@");
        s.append(db.host.as_str());
        s.append(":");
        push_decimal(&mut s, db.port as u32);
        s.append("/");
        s.append(db.db_name.as_str());
        proof {
            assert(s@ =~= connection_string(self.database));
        }
        s
    }
}

/// The environment the service runs in.
#[derive(Clone, Copy, Debug, PartialEq, Eq, Structural)]
pub enum Environment {
    Local,
    Production,
}

/// `local`
pub open spec fn local_text() -> Seq<char> {
    seq!['l', 'o', 'c', 'a', 'l']
}

/// `production`
pub open spec fn production_text() -> Seq<char> {
    seq!['p', 'r', 'o', 'd', 'u', 'c', 't', 'i', 'o', 'n']
}

impl Environment {
    /// The name of an environment.
    pub open spec fn name(self) -> Seq<char> {
        match self {
            Environment::Local => local_text(),
            Environment::Production => production_text(),
        }
    }

    pub fn as_str(&self) -> (s: &'static str)
        ensures
            s@ == self.name(),
    {
        proof {
            reveal_strlit("local");
            reveal_strlit("production");
        }
        match self {
            Environment::Local => "local",
            Environment::Production => "production",
        }
    }
}

/// Whether all characters of `s` are ASCII.
pub open spec fn all_ascii(s: Seq<char>) -> bool {
    forall|i: int| 0 <= i < s.len() ==> #[trigger] s[i] <= '\u{7f}'
}

/// The ASCII lowercase of a character: `A`..`Z` become `a`..`z`, any other
/// character stays.
pub open spec fn ascii_lower_char(c: char) -> char {
    if 'A' <= c && c <= 'Z' {
        ((c as int) + 32) as char
    } else {
        c
    }
}

/// The ASCII lowercase of a text.
pub open spec fn ascii_lowercase(s: Seq<char>) -> Seq<char> {
    s.map_values(|c: char| ascii_lower_char(c))
}

/// What `str::to_lowercase` gives for the given characters.
pub uninterp spec fn str_to_lowercase(s: Seq<char>) -> Seq<char>;

/// Calls `str::to_lowercase`. Trusted: its result is `str_to_lowercase` of the
/// argument (a function of the characters alone, by Unicode's lowercase
/// mapping), and on ASCII text it lowercases `A`..`Z` and keeps every other
/// character, as the documented mapping does for ASCII. Nothing is stated of
/// text with characters beyond ASCII.
#[verifier::external_body]
fn to_lowercase(s: &str) -> (r: String)
    ensures
        r@ == str_to_lowercase(s@),
        all_ascii(s@) ==> r@ == ascii_lowercase(s@),
{
    s.to_lowercase()
}

/// The environment that a lowercased name stands for, if any.
pub open spec fn environment_named(lower: Seq<char>) -> Option<Environment> {
    if lower == local_text() {
        Some(Environment::Local)
    } else if lower == production_text() {
        Some(Environment::Production)
    } else {
        None
    }
}

/// The note that follows an unsupported environment's name in the error.
pub open spec fn unsupported_environment_note() -> Seq<char> {
    " is not a supported environment. Use either `local` or `production`."@
}

/// Parses an environment name, ignoring case.
pub open spec fn parse_environment(s: Seq<char>) -> core::result::Result<Environment, Seq<char>> {
    let lower = str_to_lowercase(s);
    match environment_named(lower) {
        Some(e) => Ok(e),
        None => Err(lower + unsupported_environment_note()),
    }
}

impl TryFrom<String> for Environment {
    type Error = String;

    fn try_from(s: String) -> (r: core::result::Result<Self, Self::Error>)
        ensures
            match (r, parse_environment(s@)) {
                (Ok(e), Ok(spec_e)) => e == spec_e,
                (Err(m), Err(spec_m)) => m@ == spec_m,
                _ => false,
            },
            // On ASCII text the name is lowercased A..Z-wise: an environment
            // is found by that lowercase, and the error names it.
            all_ascii(s@) ==> match r {
                Ok(e) => ascii_lowercase(s@) == e.name(),
                Err(m) => m@ == ascii_lowercase(s@) + unsupported_environment_note()
                    && environment_named(ascii_lowercase(s@)) is None,
            },
            // An ASCII name of an environment, in any case, parses to it.
            all_ascii(s@) && ascii_lowercase(s@) == local_text() ==> r == Ok::<Environment, String>(
                Environment::Local,
            ),
            all_ascii(s@) && ascii_lowercase(s@) == production_text() ==> r == Ok::<
                Environment,
                String,
            >(Environment::Production),
            // The name of an environment parses back to it.
            s@ == Environment::Local.name() ==> r == Ok::<Environment, String>(Environment::Local),
            s@ == Environment::Production.name() ==> r == Ok::<Environment, String>(
                Environment::Production,
            ),
    {
        proof {
            reveal_strlit("local");
            reveal_strlit("production");
            assert("local"@ =~= local_text());
            assert("production"@ =~= production_text());
        }
        let lower = to_lowercase(s.as_str());
        proof {
            if s@ == local_text() || s@ == production_text() {
                assert(ascii_lowercase(s@) =~= s@);
            }
        }
        if text_eq(&lower, "local") {
            Ok(Environment::Local)
        } else if text_eq(&lower, "production") {
            Ok(Environment::Production)
        } else {
            let mut message = lower;
            message.append(" is not a supported environment. Use either `local` or `production`.");
            Err(message)
        }
    }
}

impl vstd::std_specs::convert::TryFromSpecImpl<String> for Environment {
    open spec fn obeys_try_from_spec() -> bool {
        false
    }

    /// On success, what `parse_environment` gives; the error text is not
    /// described here (the `ensures` of `try_from` states it).
    open spec fn try_from_spec(s: String) -> core::result::Result<Self, String> {
        match parse_environment(s@) {
            Ok(e) => Ok(e),
            Err(_) => vstd::pervasive::arbitrary(),
        }
    }
}

/// The environment the service runs in, from the value of the variable that
/// names it: `local` when the variable is not set.
pub fn environment_from_variable(value: Option<String>) -> (r: core::result::Result<Environment, String>)
    ensures
        match value {
            None => r == Ok::<Environment, String>(Environment::Local),
            Some(v) => match (r, parse_environment(v@)) {
                (Ok(e), Ok(spec_e)) => e == spec_e,
                (Err(m), Err(spec_m)) => m@ == spec_m,
                _ => false,
            },
        },
{
    match value {
        Some(v) => Environment::try_from(v),
        None => Ok(Environment::Local),
    }
}

} // verus!
