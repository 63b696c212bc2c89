//! Reading the command line of the `depot` program, and its help text.

use vstd::prelude::*;
use vstd::string::StrSliceExecFns;

use crate::error::Error;

verus! {

/// The help text.
pub const USAGE: &'static str = "Usage: depot [-nsh?] <action> <key>

Actions:
    stow        Read a value from stdin and associate it with the given key
    fetch       Print the value associated with the given key to stdout
    drop        Remove the given key from the depot

Options:
    -n          No newline character will be printed after fetching a value
    -s          The provided value is secret and will be encrypted
    -h, -?      Print this help message and exit

Environment Variables:
    DEPOT_PATH  Specifies a non-standard path to the depot's database
                (Defaults to $XDG_CONFIG_HOME/depot/depot.db)
    DEPOT_PASS  Specifies the password to be used to encrypt/decrypt values
                (Be careful with this! It is certainly less secure!)";

/// What the command line asks for: action, key, whether the value is
/// secret, whether a newline follows a fetched value.
pub type Request = (Seq<char>, Seq<char>, bool, bool);

pub open spec fn is_help_flag(a: Seq<char>) -> bool {
    a == "-h"@ || a == "--help"@ || a == "-?"@
}

/// The outcome of reading `args` from position `i` on, in state `st`: the
/// first help request wins, options are letters after a dash, then come
/// one action and one key.
pub open spec fn scan(args: Seq<Seq<char>>, i: int, st: Request) -> Result<Request, Seq<char>>
    decreases args.len() - i,
{
    if i < 0 || i >= args.len() {
        if st.0.len() == 0 {
            Err("no action specified"@)
        } else if st.1.len() == 0 {
            Err("no key specified"@)
        } else {
            Ok(st)
        }
    } else {
        let a = args[i];
        if is_help_flag(a) {
            Ok(("help"@, st.1, st.2, st.3))
        } else if a.len() > 0 && a[0] == '-' {
            scan(args, i + 1, (st.0, st.1, st.2 || a.contains('s'), st.3 && !a.contains('n')))
        } else if st.0.len() == 0 {
            if a == "help"@ {
                Ok(("help"@, st.1, st.2, st.3))
            } else {
                scan(args, i + 1, (a, st.1, st.2, st.3))
            }
        } else if st.1.len() == 0 {
            scan(args, i + 1, (st.0, a, st.2, st.3))
        } else {
            Err("one key at a time"@)
        }
    }
}

/// What `parse_args` gives for these arguments.
pub open spec fn parse_spec(args: Seq<String>) -> Result<Request, Seq<char>> {
    scan(args.map_values(|s: String| s@), 0, (""@, ""@, false, true))
}

/// Whether two strings hold the same characters.
fn same_text(a: &str, b: &str) -> (r: bool)
    ensures
        r == (a@ == b@),
{
    let n = a.unicode_len();
    if n != b.unicode_len() {
        return false;
    }
    let mut i: usize = 0;
    while i < n
        invariant
            n == a@.len(),
            n == b@.len(),
            i <= n,
            a@.subrange(0, i as int) == b@.subrange(0, i as int),
        decreases n - i,
    {
        if a.get_char(i) != b.get_char(i) {
            assert(a@[i as int] != b@[i as int]);
            return false;
        }
        assert(a@.subrange(0, i + 1) == a@.subrange(0, i as int).push(a@[i as int]));
        assert(b@.subrange(0, i + 1) == b@.subrange(0, i as int).push(b@[i as int]));
        i = i + 1;
    }
    assert(a@ == a@.subrange(0, n as int));
    assert(b@ == b@.subrange(0, n as int));
    true
}

/// Whether `a` holds the character `c`.
fn has_char(a: &str, c: char) -> (r: bool)
    ensures
        r == a@.contains(c),
{
    let n = a.unicode_len();
    let mut i: usize = 0;
    while i < n
        invariant
            n == a@.len(),
            i <= n,
            forall|j: int| 0 <= j < i ==> a@[j] != c,
        decreases n - i,
    {
        if a.get_char(i) == c {
            assert(a@[i as int] == c);
            return true;
        }
        i = i + 1;
    }
    false
}

/// Reads the arguments after the program's name into the action, the key,
/// and the options `-s` (the value is secret) and `-n` (no newline after a
/// fetched value). A help request anywhere gives the action `help`.
pub fn parse_args(args: &[String]) -> (r: Result<(&str, &str, bool, bool), Error>)
    ensures
        match r {
            Ok((a, k, s, n)) => parse_spec(args@) == Ok::<Request, Seq<char>>((a@, k@, s, n)),
            Err(e) => e matches Error::AnyErr(m) && parse_spec(args@) == Err::<Request, Seq<char>>(m@),
        },
{
    let ghost views = args@.map_values(|s: String| s@);
    let mut action: &str = "";
    let mut key: &str = "";
    let mut secret = false;
    let mut newline = true;
    proof {
        reveal_strlit("");
    }
    let mut i: usize = 0;
    while i < args.len()
        invariant
            views == args@.map_values(|s: String| s@),
            i <= args@.len(),
            scan(views, 0, (""@, ""@, false, true)) == scan(views, i as int, (action@, key@, secret, newline)),
        decreases args.len() - i,
    {
        let a: &str = args[i].as_str();
        assert(views[i as int] == a@);
        if same_text(a, "-h") || same_text(a, "--help") || same_text(a, "-?") {
            return Ok(("help", key, secret, newline));
        }
        let dash = a.unicode_len() > 0 && a.get_char(0) == '-';
        if dash {
            secret = secret || has_char(a, 's');
            newline = newline && !has_char(a, 'n');
        } else if action.unicode_len() == 0 {
            if same_text(a, "help") {
                return Ok(("help", key, secret, newline));
            }
            action = a;
        } else if key.unicode_len() == 0 {
            key = a;
        } else {
            return Err(Error::AnyErr("one key at a time".to_owned()));
        }
        i = i + 1;
    }
    if action.unicode_len() == 0 {
        Err(Error::AnyErr("no action specified".to_owned()))
    } else if key.unicode_len() == 0 {
        Err(Error::AnyErr("no key specified".to_owned()))
    } else {
        Ok((action, key, secret, newline))
    }
}

/// The text that remains of a string without its leading and trailing
/// whitespace.
pub uninterp spec fn trimmed(s: Seq<char>) -> Seq<char>;

/// Characters that `str::trim` documents as whitespace, among others.
pub open spec fn is_blank(c: char) -> bool {
    c == ' ' || c == '\t' || c == '\n' || c == '\r'
}

/// Relies on str::trim: the part of the string left without leading and
/// trailing whitespace, no longer than the string, neither starting nor
/// ending with a blank, and left as it is by a second trim.
#[verifier::external_body]
fn trim_text(s: &str) -> (r: &str)
    ensures
        r@ == trimmed(s@),
        r@.len() <= s@.len(),
        r@.len() > 0 ==> !is_blank(r@[0]) && !is_blank(r@.last()),
        trimmed(r@) == r@,
{
    s.trim()
}

/// The value given on input, without surrounding whitespace; an error when
/// nothing else is left, since a value must not be empty.
pub fn value_from_input(raw: &str) -> (r: Result<String, Error>)
    ensures
        match r {
            Ok(v) => v@ == trimmed(raw@) && v@.len() > 0 && !is_blank(v@[0]) && !is_blank(
                v@.last(),
            ),
            Err(e) => e matches Error::AnyErr(m) && m@ == "value must be a non-empty string"@
                && trimmed(raw@).len() == 0,
        },
        raw@.len() == 0 ==> r is Err,
{
    let v = trim_text(raw);
    if v.unicode_len() == 0 {
        Err(Error::AnyErr("value must be a non-empty string".to_owned()))
    } else {
        Ok(v.to_owned())
    }
}

/// The help text.
pub fn usage() -> (r: String)
    ensures
        r@ == USAGE@,
{
    USAGE.to_owned()
}

} // verus!
