//! What is served for a location: the media type of a file, the rendered
//! listing of a directory, the rule that decides whether a directory is
//! listed at all, and the page that stands for a status.

use crate::config::LocationConfig;
use crate::text::{same_text, slice_of, text_of, to_chars};
use vstd::prelude::*;
use vstd::string::*;

verus! {

/// The first media type that `mime_guess` has for the extension of a path;
/// nothing where the path has no extension or the extension is not known.
pub uninterp spec fn guessed_mime(path: Seq<char>) -> Option<Seq<char>>;

/// `mime_guess::from_path` and `MimeGuess::first_raw`: the first media type on
/// record for the extension of `path`. The file system is not consulted.
#[verifier::external_body]
fn guess_mime(path: &str) -> (guess: Option<String>)
    ensures
        text_of(guess) == guessed_mime(path@),
{
    mime_guess::from_path(path).first_raw().map(String::from)
}

/// The media type to send for a guess: the guess, or
/// `application/octet-stream` where there is none.
pub open spec fn mime_for(guess: Option<Seq<char>>) -> Seq<char> {
    match guess {
        Some(mime) => mime,
        None => "application/octet-stream"@,
    }
}

/// The media type to send for a guess.
pub fn mime_from(guess: Option<String>) -> (mime: String)
    ensures
        mime@ == mime_for(text_of(guess)),
{
    match guess {
        Some(mime) => mime,
        None => "application/octet-stream".to_owned(),
    }
}

/// The media type of the file at `path`, by its extension.
pub fn mime_match(path: &str) -> (mime: String)
    ensures
        mime@ == mime_for(guessed_mime(path@)),
{
    mime_from(guess_mime(path))
}

/// The page that stands for a status: `status` as title and heading, `info`
/// below it.
pub open spec fn status_page_of(status: Seq<char>, info: Seq<char>) -> Seq<char> {
    "<html>\n<head>\n    <title>"@ + status
        + "</title>\n</head>\n<body>\n    <center>\n        <h1>"@ + status
        + "</h1>\n    </center>\n    <hr>\n    <center>"@ + info
        + "</center>\n</body>\n</html>\n"@
}

/// Renders the page that stands for a status.
pub fn status_page(status: &str, info: String) -> (page: String)
    ensures
        page@ == status_page_of(status@, info@),
{
    let mut page = "<html>\n<head>\n    <title>".to_owned();
    page.append(status);
    page.append("</title>\n</head>\n<body>\n    <center>\n        <h1>");
    page.append(status);
    page.append("</h1>\n    </center>\n    <hr>\n    <center>");
    page.append(info.as_str());
    page.append("</center>\n</body>\n</html>\n");
    page
}

/// One entry of a directory, as the file system reports it.
#[derive(Clone, Debug, PartialEq, Eq)]
pub struct DirEntry {
    /// The name of the entry within its directory.
    pub name: String,
    pub is_dir: bool,
    pub is_symlink: bool,
}

/// The link target of an entry: its name, with `/` after a directory.
pub open spec fn link_name(entry: DirEntry) -> Seq<char> {
    if entry.is_dir {
        entry.name@ + "/"@
    } else {
        entry.name@
    }
}

/// The name an entry is shown under: `/` follows a directory, `@` a symbolic
/// link.
pub open spec fn display_name(entry: DirEntry) -> Seq<char> {
    if entry.is_dir {
        entry.name@ + "/"@
    } else if entry.is_symlink {
        entry.name@ + "@"@
    } else {
        entry.name@
    }
}

/// The list item for one entry.
pub open spec fn entry_line(entry: DirEntry) -> Seq<char> {
    "<li><a href=\""@ + link_name(entry) + "\">"@ + display_name(entry) + "</a></li>\n"@
}

/// The list items for the first `n` entries, in their order.
pub open spec fn entry_lines(entries: Seq<DirEntry>, n: int) -> Seq<char>
    decreases n,
{
    if n <= 0 {
        Seq::empty()
    } else {
        entry_lines(entries, n - 1) + entry_line(entries[n - 1])
    }
}

/// What stands before the list items.
pub open spec fn listing_head(location: Seq<char>) -> Seq<char> {
    "<!DOCTYPE HTML>\n<html lang=\"en\">\n<head>\n<meta charset=\"utf-8\">\n<title>Directory listing for /"@
        + location + "</title>\n</head>\n<body>\n<h1>Directory listing for /"@ + location
        + "</h1>\n<hr>\n<ul>\n"@
}

/// The listing of a directory: a document titled by the location, with one
/// list item per entry in the order given.
pub open spec fn listing_of(location: Seq<char>, entries: Seq<DirEntry>) -> Seq<char> {
    listing_head(location) + entry_lines(entries, entries.len() as int)
        + "</ul>\n<hr>\n</body>\n</html>\n"@
}

/// Appends the list item for `entry` to `html`.
pub fn process_entry(html: &mut String, entry: &DirEntry)
    ensures
        final(html)@ == old(html)@ + entry_line(*entry),
{
    html.append("<li><a href=\"");
    html.append(entry.name.as_str());
    if entry.is_dir {
        html.append("/");
    }
    html.append("\">");
    html.append(entry.name.as_str());
    if entry.is_dir {
        html.append("/");
    } else if entry.is_symlink {
        html.append("@");
    }
    html.append("</a></li>\n");
    assert(html@ =~= old(html)@ + entry_line(*entry));
}

/// Renders the listing of the directory at `location` from its entries.
pub fn location_index(location: &str, entries: &Vec<DirEntry>) -> (html: String)
    ensures
        html@ == listing_of(location@, entries@),
{
    let mut html =
        "<!DOCTYPE HTML>\n<html lang=\"en\">\n<head>\n<meta charset=\"utf-8\">\n<title>Directory listing for /".to_owned();
    html.append(location);
    html.append("</title>\n</head>\n<body>\n<h1>Directory listing for /");
    html.append(location);
    html.append("</h1>\n<hr>\n<ul>\n");
    let mut i: usize = 0;
    while i < entries.len()
        invariant
            i <= entries.len(),
            html@ == listing_head(location@) + entry_lines(entries@, i as int),
        decreases entries.len() - i,
    {
        process_entry(&mut html, &entries[i]);
        assert(html@ =~= listing_head(location@) + entry_lines(entries@, i + 1));
        i += 1;
    }
    html.append("</ul>\n<hr>\n</body>\n</html>\n");
    html
}

/// What is done for a directory that is not in the cache.
#[derive(Clone, Debug, PartialEq, Eq)]
pub enum ListingPlan {
    /// The directory is enumerated and a listing is rendered.
    Enumerate,
    /// The content of the file at `path` is served as the listing.
    ServeIndex { path: String },
    /// The directory is not listed.
    Refuse,
}

/// What is done for a directory, over plain text.
pub enum Plan {
    Enumerate,
    ServeIndex { path: Seq<char> },
    Refuse,
}

impl View for ListingPlan {
    type V = Plan;

    open spec fn view(&self) -> Plan {
        match self {
            ListingPlan::Enumerate => Plan::Enumerate,
            ListingPlan::ServeIndex { path } => Plan::ServeIndex { path: path@ },
            ListingPlan::Refuse => Plan::Refuse,
        }
    }
}

/// The first position at or after `from` that holds no `/`.
pub open spec fn skip_slashes(s: Seq<char>, from: int) -> int
    decreases s.len() - from,
{
    if from >= s.len() {
        s.len() as int
    } else if s[from] != '/' {
        from
    } else {
        skip_slashes(s, from + 1)
    }
}

/// Whether a rule written for `prefix` is a rule for `location`: the prefix,
/// without the `/` it starts with, is the location.
pub open spec fn rule_matches(prefix: Seq<char>, location: Seq<char>) -> bool {
    prefix.subrange(skip_slashes(prefix, 0), prefix.len() as int) == location
}

/// The plan for `location` under the rules from position `from` on. The
/// rules are tried in order. A rule for the location that names an index file
/// has that file served; one that does not switch listings on refuses; one
/// that switches them on passes the decision to the rules after it. Where no
/// rule decides, the directory is enumerated.
pub open spec fn plan_from(
    rules: Seq<(String, LocationConfig)>,
    location: Seq<char>,
    from: int,
) -> Plan
    decreases rules.len() - from,
{
    if from < 0 || from >= rules.len() {
        Plan::Enumerate
    } else if !rule_matches(rules[from].0@, location) {
        plan_from(rules, location, from + 1)
    } else if rules[from].1.index is Some {
        Plan::ServeIndex { path: rules[from].1.index.unwrap()@ }
    } else if rules[from].1.auto_index != Some(true) {
        Plan::Refuse
    } else {
        plan_from(rules, location, from + 1)
    }
}

/// The plan for `location` under a configuration's rules; without rules
/// every directory is enumerated.
pub open spec fn plan_of(rules: Option<Vec<(String, LocationConfig)>>, location: Seq<char>) -> Plan {
    match rules {
        Some(rules) => plan_from(rules@, location, 0),
        None => Plan::Enumerate,
    }
}

/// Tests whether a rule written for `prefix` is a rule for `location`.
pub fn is_rule_for(prefix: &str, location: &str) -> (b: bool)
    ensures
        b == rule_matches(prefix@, location@),
{
    let chars = to_chars(prefix);
    let mut i: usize = 0;
    while i < chars.len() && chars[i] == '/'
        invariant
            i <= chars.len(),
            skip_slashes(chars@, 0) == skip_slashes(chars@, i as int),
        decreases chars.len() - i,
    {
        i += 1;
    }
    let rest = slice_of(prefix, i, chars.len());
    same_text(&to_chars(rest.as_str()), &to_chars(location))
}

/// Decides what is done for the directory at `location`: see `plan_from`.
pub fn listing_plan(rules: &Option<Vec<(String, LocationConfig)>>, location: &str) -> (plan:
    ListingPlan)
    ensures
        plan@ == plan_of(*rules, location@),
{
    match rules {
        None => ListingPlan::Enumerate,
        Some(list) => {
            let mut i: usize = 0;
            while i < list.len()
                invariant
                    i <= list.len(),
                    plan_of(*rules, location@) == plan_from(list@, location@, i as int),
                decreases list.len() - i,
            {
                if is_rule_for(list[i].0.as_str(), location) {
                    match &list[i].1.index {
                        Some(path) => {
                            return ListingPlan::ServeIndex { path: path.clone() };
                        },
                        None => {},
                    }
                    match list[i].1.auto_index {
                        Some(true) => {},
                        _ => {
                            return ListingPlan::Refuse;
                        },
                    }
                }
                i += 1;
            }
            ListingPlan::Enumerate
        },
    }
}

} // verus!
