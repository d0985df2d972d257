//! The shape of a GraphQL response: its data, its errors and the places in
//! the query that the errors point at.
use vstd::prelude::*;
use std::collections::HashMap;
use crate::text::{decimal, push_char, push_decimal, push_str, trim_end_char, trim_end_matches_char};

verus! {

/// A JSON value, whose format the server defines.
#[verifier::external_type_specification]
#[verifier::external_body]
pub struct ExJsonValue(serde_json::Value);

/// Represents a location inside a query string. Used in errors. See [`Error`].
#[derive(Debug, Clone, Copy, PartialEq, Eq, Structural)]
pub struct Location {
    /// The line number in the query string where the error originated (starting from 1).
    pub line: i32,
    /// The column number in the query string where the error originated (starting from 1).
    pub column: i32,
}

impl Default for Location {
    fn default() -> (r: Location)
        ensures
            r == (Location { line: 0, column: 0 }),
    {
        Location { line: 0, column: 0 }
    }
}

/// Part of a path in a query. It can be an object key or an array index. See [`Error`].
#[derive(Debug, Clone, PartialEq, Eq)]
pub enum PathFragment {
    /// A key inside an object
    Key(String),
    /// An index inside an array
    Index(i32),
}

/// An element in the top-level `errors` array of a response body.
#[derive(Debug, Clone, PartialEq, Eq)]
pub struct Error {
    /// The human-readable error message. This is the only required field.
    pub message: String,
    /// Which locations in the query the error applies to.
    pub locations: Option<Vec<Location>>,
    /// Which path in the query the error applies to, e.g. `["users", 0, "email"]`.
    pub path: Option<Vec<PathFragment>>,
    /// Additional errors. Their exact format is defined by the server.
    pub extensions: Option<HashMap<String, serde_json::Value>>,
}

/// The generic shape taken by the responses of GraphQL APIs.
#[derive(Debug, PartialEq, Eq)]
pub struct Response<Data> {
    /// The absent, partial or complete response data.
    pub data: Option<Data>,
    /// The top-level errors returned by the server.
    pub errors: Option<Vec<Error>>,
    /// Additional extensions. Their exact format is defined by the server.
    pub extensions: Option<HashMap<String, serde_json::Value>>,
}

/// A path fragment as text: a key as it is, an index in decimal.
pub open spec fn path_fragment_text(f: PathFragment) -> Seq<char> {
    match f {
        PathFragment::Key(key) => key@,
        PathFragment::Index(idx) => decimal(idx as int),
    }
}

/// Each fragment's text followed by `/`, in order.
pub open spec fn fragments_text(frags: Seq<PathFragment>) -> Seq<char>
    decreases frags.len(),
{
    if frags.len() == 0 {
        Seq::empty()
    } else {
        fragments_text(frags.drop_last()) + path_fragment_text(frags.last()) + seq!['/']
    }
}

/// The path of an error as text: its fragments separated by `/` (like a
/// JSON Pointer), the slashes that end it removed; `<query>` when the
/// error has no path.
pub open spec fn error_path_text(path: Option<Vec<PathFragment>>) -> Seq<char> {
    match path {
        Some(frags) => trim_end_char(fragments_text(frags@), '/'),
        None => "<query>"@,
    }
}

/// The location an error is reported at: its first location, or line and
/// column 0 when it has none.
pub open spec fn error_location(locations: Option<Vec<Location>>) -> Location {
    match locations {
        Some(locs) => if locs@.len() > 0 {
            locs@[0]
        } else {
            Location { line: 0, column: 0 }
        },
        None => Location { line: 0, column: 0 },
    }
}

/// An error as text: `path:line:column: message`.
pub open spec fn error_text(e: Error) -> Seq<char> {
    let loc = error_location(e.locations);
    error_path_text(e.path) + seq![':'] + decimal(loc.line as int) + seq![':'] + decimal(
        loc.column as int,
    ) + seq![':', ' '] + e.message@
}

/// The line and column in an error's text are those of its first location
/// whenever it has one, whatever its path; the text is the path's text, the
/// line, the column and the message, separated by `:` (a space after the
/// last one).
pub proof fn law_error_text_first_location(e: Error)
    requires
        e.locations matches Some(locs) && locs@.len() > 0,
    ensures
        ({
            let first = e.locations->Some_0@[0];
            error_text(e) == error_path_text(e.path) + seq![':'] + decimal(first.line as int)
                + seq![':'] + decimal(first.column as int) + seq![':', ' '] + e.message@
        }),
        e.path is None ==> ({
            let first = e.locations->Some_0@[0];
            error_text(e) == "<query>"@ + seq![':'] + decimal(first.line as int) + seq![':']
                + decimal(first.column as int) + seq![':', ' '] + e.message@
        }),
{
}

/// An error without locations is reported at line 0, column 0.
pub proof fn law_error_text_without_location(e: Error)
    requires
        e.locations is None || e.locations->Some_0@.len() == 0,
    ensures
        error_text(e) == error_path_text(e.path) + seq![':'] + decimal(0) + seq![':'] + decimal(0)
            + seq![':', ' '] + e.message@,
{
}

/// Errors that differ only in their paths have texts that differ only in
/// their path parts: what follows the path is the same.
pub proof fn law_error_text_path_independent(a: Error, b: Error)
    requires
        a.locations == b.locations,
        a.message == b.message,
    ensures
        error_text(a).skip(error_path_text(a.path).len() as int) == error_text(b).skip(
            error_path_text(b.path).len() as int,
        ),
{
    let ta = error_text(a).skip(error_path_text(a.path).len() as int);
    let tb = error_text(b).skip(error_path_text(b.path).len() as int);
    assert(ta =~= tb);
}

fn push_path_fragment(out: &mut String, f: &PathFragment)
    ensures
        final(out)@ == old(out)@ + path_fragment_text(*f),
{
    match f {
        PathFragment::Key(key) => push_str(out, key.as_str()),
        PathFragment::Index(idx) => push_decimal(out, *idx),
    }
}

impl PathFragment {
    /// The fragment as text: a key as it is, an index in decimal.
    pub fn to_string(&self) -> (s: String)
        ensures
            s@ == path_fragment_text(*self),
    {
        let mut s = String::new();
        push_path_fragment(&mut s, self);
        assert(s@ =~= path_fragment_text(*self));
        s
    }
}

impl Error {
    /// The error as text: `path:line:column: message`, where the path joins
    /// the fragments with `/` (`<query>` when there is no path) and the
    /// location is the first one (`0:0` when there is none).
    pub fn to_string(&self) -> (s: String)
        ensures
            s@ == error_text(*self),
    {
        // Use `/` as a separator like JSON Pointer.
        let path = match &self.path {
            Some(fragments) => {
                let mut acc = String::new();
                let n = fragments.len();
                for i in 0..n
                    invariant
                        n == fragments@.len(),
                        acc@ == fragments_text(fragments@.take(i as int)),
                {
                    push_path_fragment(&mut acc, &fragments[i]);
                    push_char(&mut acc, '/');
                    proof {
                        let t = fragments@.take(i + 1);
                        assert(t.drop_last() =~= fragments@.take(i as int));
                        assert(acc@ =~= fragments_text(t));
                    }
                }
                assert(fragments@.take(n as int) =~= fragments@);
                trim_end_matches_char(acc.as_str(), '/').to_owned()
            },
            None => "<query>".to_owned(),
        };
        // Get the location of the error. We'll use just the first location for this.
        let loc = match &self.locations {
            Some(locations) => if locations.len() > 0 {
                locations[0]
            } else {
                Location::default()
            },
            None => Location::default(),
        };
        let mut s = path;
        push_char(&mut s, ':');
        push_decimal(&mut s, loc.line);
        push_char(&mut s, ':');
        push_decimal(&mut s, loc.column);
        push_char(&mut s, ':');
        push_char(&mut s, ' ');
        push_str(&mut s, self.message.as_str());
        assert(s@ =~= error_text(*self));
        s
    }
}

} // verus!
