//! The request pipeline: the fixed sequence of decisions that turns one
//! request line into one response.
//!
//! The pipeline does no input or output. Between two decisions stands a
//! question that only the file system can answer, so the pipeline is a
//! machine: `step` takes the stage that was reached and the answer that came
//! in, and gives the next stage and what to do next. The last action is
//! always a reply; every failure on the way ends in a reply with a status
//! that names it.

use crate::cache::{inserted, promoted, value_of, ContentCache, Kind};
use crate::config::Config;
use crate::date::{http_date, http_date_of};
use crate::request::{parse_request_line, request_of, Request, RequestLine};
use crate::resolver::{
    candidate, candidate_of, join, joined, location, location_of, resolution_of, resolve,
    Resolution, Resolved,
};
use crate::response::{
    head_of, lemma_field_index, status_text, with_field, Fields, Response,
};
use crate::route::{
    guessed_mime, listing_of, listing_plan, location_index, mime_for, mime_match, plan_of,
    status_page, status_page_of, DirEntry, ListingPlan, Plan,
};
use crate::text::{decimal, text_of, usize_to_decimal};
use vstd::prelude::*;
use vstd::string::*;
use vstd::utf8::encode_utf8;

verus! {

/// The media type of listings and of the pages that stand for a status.
pub const HTML_UTF_8: &'static str = "text/html; charset=utf-8";

/// The name the server gives itself, before version and description.
pub const PRODUCT: &'static str = "Zest";

/// What the file system gave for a regular file.
#[derive(Debug)]
pub struct FileData {
    /// The whole content.
    pub bytes: Vec<u8>,
    /// When the file was last modified, in seconds since the start of 1970.
    pub modified: Option<i64>,
}

/// A response, ready to be written: the head, then the body.
#[derive(Debug)]
pub struct Reply {
    pub status_code: i32,
    pub head: String,
    pub body: Vec<u8>,
}

/// How far a request has come.
#[derive(Debug)]
pub enum Stage {
    /// Nothing has been read.
    Start,
    /// The candidate path is with the file system.
    Resolving { version: String },
    /// The path is known; whether it is a directory is not.
    Inspecting { version: String, path: String, location: String },
    /// The directory is being enumerated.
    Listing { version: String, location: String },
    /// The index file of the directory is being read.
    Indexing { version: String, location: String },
    /// The file is being read.
    Reading { version: String, path: String, location: String },
    /// The reply has been given.
    Done,
}

/// What came in.
#[derive(Debug)]
pub enum Event {
    /// The first line of the request, without its line break; nothing where
    /// the connection gave none.
    Line(Option<String>),
    /// The canonical forms of the root, of the candidate path and of the
    /// error page; nothing for a path that does not exist.
    Canonical { root: String, candidate: Option<String>, error_page: Option<String> },
    /// Whether the path is a directory.
    Kind { is_dir: bool },
    /// The entries of the directory; nothing where it could not be read.
    Entries(Option<Vec<DirEntry>>),
    /// The content of the index file; nothing where it could not be read.
    Index(Option<String>),
    /// The file; nothing where it could not be opened or read.
    File(Option<FileData>),
}

/// What to do next.
#[derive(Debug)]
pub enum Action {
    /// Make `candidate` and `error_page` canonical, and `root` too.
    Canonicalize { root: String, candidate: String, error_page: String },
    /// Find out whether `path` is a directory.
    Inspect { path: String },
    /// Enumerate the directory at `path`.
    Enumerate { path: String },
    /// Read the index file at `path` as text.
    ReadIndex { path: String },
    /// Read the file at `path` and its time of modification.
    ReadFile { path: String },
    /// Write the reply and close the connection.
    Respond(Reply),
}

/// The banner: product, version, and the configured description in brackets.
pub open spec fn banner_of(version: Seq<char>, info: Seq<char>) -> Seq<char> {
    PRODUCT@ + "/"@ + version + " ("@ + info + ")"@
}

/// Writes the banner.
pub fn server_banner(version: &str, info: &str) -> (banner: String)
    ensures
        banner@ == banner_of(version@, info@),
{
    let mut banner = PRODUCT.to_owned();
    banner.append("/");
    banner.append(version);
    banner.append(" (");
    banner.append(info);
    banner.append(")");
    banner
}

/// The body of a reply: the content for status 200, and for every other
/// status the page that stands for it.
pub open spec fn reply_body(status: int, banner: Seq<char>, content: Seq<u8>) -> Seq<u8> {
    if status == 200 {
        content
    } else {
        encode_utf8(status_page_of(status_text(status), banner))
    }
}

/// The header fields of a reply, in the order in which they are sent. The
/// two time stamps are sent where they can be written.
pub open spec fn reply_fields(
    banner: Seq<char>,
    date: Option<Seq<char>>,
    length: nat,
    content_type: Seq<char>,
    modified: Option<Seq<char>>,
) -> Fields {
    let server = seq![("Server"@, banner)];
    let dated = match date {
        Some(d) => server.push(("Date"@, d)),
        None => server,
    };
    let typed = dated.push(("Content-Length"@, decimal(length))).push(
        ("Content-Type"@, content_type),
    );
    match modified {
        Some(m) => typed.push(("Last-Modified"@, m)),
        None => typed,
    }
}

/// The time stamp for an optional time.
pub open spec fn stamp_of(seconds: Option<i64>) -> Option<Seq<char>> {
    match seconds {
        Some(t) => http_date_of(t as int),
        None => None,
    }
}

/// Whether `reply` is the reply with the given status to a client that
/// speaks `version`, sent at `now`, for `content` of type `content_type`.
pub open spec fn is_reply(
    reply: Reply,
    version: Seq<char>,
    status: int,
    banner: Seq<char>,
    now: int,
    content_type: Seq<char>,
    modified: Option<i64>,
    content: Seq<u8>,
) -> bool {
    let body = reply_body(status, banner, content);
    &&& reply.status_code == status
    &&& reply.body@ == body
    &&& reply.head@ == head_of(
        version,
        status,
        reply_fields(banner, http_date_of(now), body.len(), content_type, stamp_of(modified)),
    )
}

/// Whether `action` ends the request with that reply.
pub open spec fn replies(
    next: Stage,
    action: Action,
    version: Seq<char>,
    status: int,
    banner: Seq<char>,
    now: int,
    content_type: Seq<char>,
    modified: Option<i64>,
    content: Seq<u8>,
) -> bool {
    &&& next is Done
    &&& action matches Action::Respond(reply)
    &&& is_reply(reply, version, status, banner, now, content_type, modified, content)
}

/// A name that no field has yet goes to the end.
proof fn lemma_new_field(fields: Fields, name: Seq<char>, value: Seq<char>)
    requires
        forall|i: int| 0 <= i < fields.len() ==> (#[trigger] fields[i]).0 != name,
    ensures
        with_field(fields, name, value) == fields.push((name, value)),
{
    lemma_field_index(fields, name, 0);
}

/// Puts a reply together.
pub fn reply(
    version: String,
    status_code: i32,
    banner: &str,
    now: i64,
    content_type: String,
    modified: Option<i64>,
    content: Vec<u8>,
) -> (r: Reply)
    ensures
        is_reply(
            r,
            version@,
            status_code as int,
            banner@,
            now as int,
            content_type@,
            modified,
            content@,
        ),
{
    proof {
        reveal_strlit("Server");
        reveal_strlit("Date");
        reveal_strlit("Content-Length");
        reveal_strlit("Content-Type");
        reveal_strlit("Last-Modified");
        assert("Server"@.len() == 6);
        assert("Date"@.len() == 4);
        assert("Content-Length"@.len() == 14);
        assert("Content-Type"@.len() == 12);
        assert("Last-Modified"@.len() == 13);
    }
    let mut response = Response::new();
    response.set_version(version);
    response.set_status(status_code);
    let body = if status_code == 200 {
        content
    } else {
        let status = response.status(status_code);
        let page = status_page(status.as_str(), banner.to_owned());
        page.as_str().as_bytes_vec()
    };
    let ghost date = http_date_of(now as int);
    let ghost stamp = stamp_of(modified);
    proof {
        lemma_new_field(response.fields(), "Server"@, banner@);
    }
    response.send_header("Server", banner.to_owned());
    assert(response.fields() =~= seq![("Server"@, banner@)]);
    match http_date(now) {
        Some(d) => {
            proof {
                lemma_new_field(response.fields(), "Date"@, d@);
            }
            response.send_header("Date", d);
        },
        None => {},
    }
    let ghost dated = response.fields();
    assert(dated =~= match date {
        Some(d) => seq![("Server"@, banner@)].push(("Date"@, d)),
        None => seq![("Server"@, banner@)],
    });
    let length = usize_to_decimal(body.len());
    proof {
        assert forall|i: int| 0 <= i < dated.len() implies (#[trigger] dated[i]).0
            != "Content-Length"@ by {
            assert(dated[i].0 == "Server"@ || dated[i].0 == "Date"@);
        }
        lemma_new_field(response.fields(), "Content-Length"@, length@);
    }
    response.send_header("Content-Length", length);
    proof {
        lemma_new_field(response.fields(), "Content-Type"@, content_type@);
    }
    response.send_header("Content-Type", content_type);
    let ghost typed = response.fields();
    assert(typed =~= dated.push(("Content-Length"@, decimal(body@.len()))).push(
        ("Content-Type"@, content_type@),
    ));
    match modified {
        Some(t) => match http_date(t) {
            Some(d) => {
                proof {
                    lemma_new_field(response.fields(), "Last-Modified"@, d@);
                }
                response.send_header("Last-Modified", d);
            },
            None => {},
        },
        None => {},
    }
    assert(response.fields() =~= reply_fields(banner@, date, body@.len(), content_type@, stamp));
    Reply { status_code, head: response.resp(), body }
}

/// A reply that ends the request.
fn finish(
    version: String,
    status_code: i32,
    banner: &str,
    now: i64,
    content_type: String,
    modified: Option<i64>,
    content: Vec<u8>,
) -> (r: (Stage, Action))
    ensures
        replies(
            r.0,
            r.1,
            version@,
            status_code as int,
            banner@,
            now as int,
            content_type@,
            modified,
            content@,
        ),
{
    (
        Stage::Done,
        Action::Respond(reply(version, status_code, banner, now, content_type, modified, content)),
    )
}

/// A reply without content: the page that stands for `status_code`.
fn fail(version: String, status_code: i32, banner: &str, now: i64) -> (r: (Stage, Action))
    ensures
        replies(
            r.0,
            r.1,
            version@,
            status_code as int,
            banner@,
            now as int,
            HTML_UTF_8@,
            None,
            Seq::empty(),
        ),
{
    finish(version, status_code, banner, now, HTML_UTF_8.to_owned(), None, Vec::new())
}

/// The text of a line that may be missing.
pub open spec fn line_of(line: Option<String>) -> Seq<char> {
    match line {
        Some(line) => line@,
        None => Seq::empty(),
    }
}

/// What follows the request line. A malformed line is answered with 400 and
/// a method other than retrieval with 501, both in version 1.1. A retrieval
/// has its candidate path and the path of the error page made canonical.
pub open spec fn begun(
    line: Option<String>,
    config: Config,
    banner: Seq<char>,
    now: int,
    next: Stage,
    action: Action,
) -> bool {
    match request_of(line_of(line)) {
        Request::Malformed => replies(
            next,
            action,
            "1.1"@,
            400,
            banner,
            now,
            HTML_UTF_8@,
            None,
            Seq::empty(),
        ),
        Request::Unsupported => replies(
            next,
            action,
            "1.1"@,
            501,
            banner,
            now,
            HTML_UTF_8@,
            None,
            Seq::empty(),
        ),
        Request::Get { target, version } => {
            &&& next matches Stage::Resolving { version: v }
            &&& v@ == version
            &&& action matches Action::Canonicalize { root, candidate, error_page }
            &&& root@ == config.server.root@
            &&& candidate@ == candidate_of(config.server.root@, target)
            &&& error_page@ == joined(config.server.root@, config.spec_error_page())
        },
    }
}

/// What follows the answer of the file system on the candidate path. A path
/// that does not exist is answered with 404, typed as the error page is; a
/// path outside the root with 301; any other path is inspected.
pub open spec fn resolved(
    version: Seq<char>,
    root: Seq<char>,
    canonical: Option<Seq<char>>,
    error_page: Option<Seq<char>>,
    config: Config,
    banner: Seq<char>,
    now: int,
    next: Stage,
    action: Action,
) -> bool {
    let page = match error_page {
        Some(page) => page,
        None => joined(config.server.root@, config.spec_error_page()),
    };
    match resolution_of(root, canonical, page, config.spec_allows_outside_root()) {
        Resolved::NotFound { error_page } => replies(
            next,
            action,
            version,
            404,
            banner,
            now,
            mime_for(guessed_mime(error_page)),
            None,
            Seq::empty(),
        ),
        Resolved::Outside => replies(
            next,
            action,
            version,
            301,
            banner,
            now,
            HTML_UTF_8@,
            None,
            Seq::empty(),
        ),
        Resolved::Found { path } => {
            &&& next matches Stage::Inspecting { version: v, path: p, location: l }
            &&& v@ == version
            &&& p@ == path
            &&& l@ == location_of(root, path)
            &&& action matches Action::Inspect { path: q }
            &&& q@ == path
        },
    }
}

/// Capacities and size limit are as they were.
pub open spec fn same_limits(before: ContentCache, after: ContentCache) -> bool {
    &&& after.capacity_of(Kind::Listing) == before.capacity_of(Kind::Listing)
    &&& after.capacity_of(Kind::File) == before.capacity_of(Kind::File)
    &&& after.spec_file_maxsize() == before.spec_file_maxsize()
}

/// The cache is as it was.
pub open spec fn untouched(before: ContentCache, after: ContentCache) -> bool {
    &&& same_limits(before, after)
    &&& after.of(Kind::Listing) == before.of(Kind::Listing)
    &&& after.of(Kind::File) == before.of(Kind::File)
}

/// What follows once the kind of the path is known. The store of that kind
/// is consulted under the location; a hit is served at once and counts as a
/// use. On a miss a file is read; a directory is enumerated, or has its
/// index file read, or is refused with 301, as the rules for the location
/// say.
pub open spec fn inspected(
    version: Seq<char>,
    path: Seq<char>,
    location: Seq<char>,
    is_dir: bool,
    config: Config,
    banner: Seq<char>,
    now: int,
    before: ContentCache,
    after: ContentCache,
    next: Stage,
    action: Action,
) -> bool {
    let kind = if is_dir {
        Kind::Listing
    } else {
        Kind::File
    };
    &&& same_limits(before, after)
    &&& after.of(kind) == promoted(before.of(kind), location)
    &&& after.of(ContentCache::other(kind)) == before.of(ContentCache::other(kind))
    &&& match value_of(before.of(kind), location) {
        Some(content) => replies(
            next,
            action,
            version,
            200,
            banner,
            now,
            if is_dir {
                HTML_UTF_8@
            } else {
                mime_for(guessed_mime(path))
            },
            None,
            content,
        ),
        None => if is_dir {
            match plan_of(config.locations, location) {
                Plan::Enumerate => {
                    &&& next matches Stage::Listing { version: v, location: l }
                    &&& v@ == version
                    &&& l@ == location
                    &&& action matches Action::Enumerate { path: p }
                    &&& p@ == path
                },
                Plan::ServeIndex { path: index } => {
                    &&& next matches Stage::Indexing { version: v, location: l }
                    &&& v@ == version
                    &&& l@ == location
                    &&& action matches Action::ReadIndex { path: p }
                    &&& p@ == index
                },
                Plan::Refuse => replies(
                    next,
                    action,
                    version,
                    301,
                    banner,
                    now,
                    HTML_UTF_8@,
                    None,
                    Seq::empty(),
                ),
            }
        } else {
            &&& next matches Stage::Reading { version: v, path: p, location: l }
            &&& v@ == version
            &&& p@ == path
            &&& l@ == location
            &&& action matches Action::ReadFile { path: q }
            &&& q@ == path
        },
    }
}

/// What follows the listing of a directory, rendered or read from its index
/// file. Without one the request is answered with 301 and the cache stays as
/// it was. With one, the listing is stored under the location and served.
pub open spec fn listed(
    version: Seq<char>,
    location: Seq<char>,
    listing: Option<Seq<char>>,
    banner: Seq<char>,
    now: int,
    before: ContentCache,
    after: ContentCache,
    next: Stage,
    action: Action,
) -> bool {
    match listing {
        None => untouched(before, after) && replies(
            next,
            action,
            version,
            301,
            banner,
            now,
            HTML_UTF_8@,
            None,
            Seq::empty(),
        ),
        Some(html) => {
            &&& same_limits(before, after)
            &&& after.of(Kind::Listing) == inserted(
                before.of(Kind::Listing),
                before.capacity_of(Kind::Listing),
                location,
                encode_utf8(html),
            )
            &&& after.of(Kind::File) == before.of(Kind::File)
            &&& replies(
                next,
                action,
                version,
                200,
                banner,
                now,
                HTML_UTF_8@,
                None,
                encode_utf8(html),
            )
        },
    }
}

/// The listing that the entries of a directory give.
pub open spec fn rendering_of(location: Seq<char>, entries: Option<Vec<DirEntry>>) -> Option<
    Seq<char>,
> {
    match entries {
        Some(entries) => Some(listing_of(location, entries@)),
        None => None,
    }
}

/// What follows the reading of a file. A file that could not be opened or
/// read is answered with 500 and the cache stays as it was. Any other file
/// is served with its type and its time of modification, and is stored
/// under the location unless it is longer than the size limit.
pub open spec fn read(
    version: Seq<char>,
    path: Seq<char>,
    location: Seq<char>,
    data: Option<FileData>,
    banner: Seq<char>,
    now: int,
    before: ContentCache,
    after: ContentCache,
    next: Stage,
    action: Action,
) -> bool {
    match data {
        None => untouched(before, after) && replies(
            next,
            action,
            version,
            500,
            banner,
            now,
            HTML_UTF_8@,
            None,
            Seq::empty(),
        ),
        Some(file) => {
            &&& same_limits(before, after)
            &&& after.of(Kind::File) == if before.bypasses(Kind::File, file.bytes@.len()) {
                before.of(Kind::File)
            } else {
                inserted(
                    before.of(Kind::File),
                    before.capacity_of(Kind::File),
                    location,
                    file.bytes@,
                )
            }
            &&& after.of(Kind::Listing) == before.of(Kind::Listing)
            &&& replies(
                next,
                action,
                version,
                200,
                banner,
                now,
                mime_for(guessed_mime(path)),
                file.modified,
                file.bytes@,
            )
        },
    }
}

/// One step of the pipeline: what `stage` and `event` lead to. An event that
/// is no answer to what the stage asked ends the request with 500.
pub open spec fn stepped(
    stage: Stage,
    event: Event,
    config: Config,
    banner: Seq<char>,
    now: int,
    before: ContentCache,
    after: ContentCache,
    next: Stage,
    action: Action,
) -> bool {
    match (stage, event) {
        (Stage::Start, Event::Line(line)) => untouched(before, after) && begun(
            line,
            config,
            banner,
            now,
            next,
            action,
        ),
        (Stage::Resolving { version }, Event::Canonical { root, candidate, error_page }) => {
            untouched(before, after) && resolved(
                version@,
                root@,
                text_of(candidate),
                text_of(error_page),
                config,
                banner,
                now,
                next,
                action,
            )
        },
        (Stage::Inspecting { version, path, location }, Event::Kind { is_dir }) => inspected(
            version@,
            path@,
            location@,
            is_dir,
            config,
            banner,
            now,
            before,
            after,
            next,
            action,
        ),
        (Stage::Listing { version, location }, Event::Entries(entries)) => listed(
            version@,
            location@,
            rendering_of(location@, entries),
            banner,
            now,
            before,
            after,
            next,
            action,
        ),
        (Stage::Indexing { version, location }, Event::Index(text)) => listed(
            version@,
            location@,
            text_of(text),
            banner,
            now,
            before,
            after,
            next,
            action,
        ),
        (Stage::Reading { version, path, location }, Event::File(data)) => read(
            version@,
            path@,
            location@,
            data,
            banner,
            now,
            before,
            after,
            next,
            action,
        ),
        _ => untouched(before, after) && replies(
            next,
            action,
            "1.1"@,
            500,
            banner,
            now,
            HTML_UTF_8@,
            None,
            Seq::empty(),
        ),
    }
}

/// The store that a step consults or fills; nothing for a step that leaves
/// the cache alone.
pub open spec fn store_of(stage: Stage, event: Event) -> Option<Kind> {
    match (stage, event) {
        (Stage::Inspecting { .. }, Event::Kind { is_dir }) => Some(
            if is_dir {
                Kind::Listing
            } else {
                Kind::File
            },
        ),
        (Stage::Listing { .. }, Event::Entries(_)) => Some(Kind::Listing),
        (Stage::Indexing { .. }, Event::Index(_)) => Some(Kind::Listing),
        (Stage::Reading { .. }, Event::File(_)) => Some(Kind::File),
        _ => None,
    }
}

/// A step touches one store at most: the one that `store_of` names. The
/// other store, the capacities and the size limit are as they were, so that
/// the two stores can be kept behind two locks.
pub proof fn lemma_step_touches_one_store(
    stage: Stage,
    event: Event,
    config: Config,
    banner: Seq<char>,
    now: int,
    before: ContentCache,
    after: ContentCache,
    next: Stage,
    action: Action,
)
    requires
        stepped(stage, event, config, banner, now, before, after, next, action),
    ensures
        same_limits(before, after),
        store_of(stage, event) is None ==> untouched(before, after),
        store_of(stage, event) matches Some(kind) ==> after.of(ContentCache::other(kind))
            == before.of(ContentCache::other(kind)),
{
}

/// Says which store the next step needs.
pub fn store_needed(stage: &Stage, event: &Event) -> (kind: Option<Kind>)
    ensures
        kind == store_of(*stage, *event),
{
    match (stage, event) {
        (Stage::Inspecting { .. }, Event::Kind { is_dir }) => {
            if *is_dir {
                Some(Kind::Listing)
            } else {
                Some(Kind::File)
            }
        },
        (Stage::Listing { .. }, Event::Entries(_)) => Some(Kind::Listing),
        (Stage::Indexing { .. }, Event::Index(_)) => Some(Kind::Listing),
        (Stage::Reading { .. }, Event::File(_)) => Some(Kind::File),
        _ => None,
    }
}

/// A copy of `bytes`.
fn copy_of(bytes: &Vec<u8>) -> (copy: Vec<u8>)
    ensures
        copy@ == bytes@,
{
    let mut copy: Vec<u8> = Vec::new();
    let mut i: usize = 0;
    while i < bytes.len()
        invariant
            i <= bytes.len(),
            copy@ == bytes@.take(i as int),
        decreases bytes.len() - i,
    {
        copy.push(bytes[i]);
        assert(copy@ =~= bytes@.take(i + 1));
        i += 1;
    }
    assert(copy@ =~= bytes@);
    copy
}

/// Reads the request line: see `begun`.
pub fn begin(line: Option<String>, config: &Config, banner: &str, now: i64) -> (r: (Stage, Action))
    ensures
        begun(line, *config, banner@, now as int, r.0, r.1),
{
    let text = match line {
        Some(text) => text,
        None => String::new(),
    };
    match parse_request_line(text.as_str()) {
        RequestLine::Malformed => fail("1.1".to_owned(), 400, banner, now),
        RequestLine::Unsupported => fail("1.1".to_owned(), 501, banner, now),
        RequestLine::Get { target, version } => {
            let root = config.server.root.clone();
            let wanted = candidate(root.as_str(), target.as_str());
            let page = config.error_page();
            let error_page = join(root.as_str(), page.as_str());
            (
                Stage::Resolving { version },
                Action::Canonicalize { root, candidate: wanted, error_page },
            )
        },
    }
}

/// Takes the answer of the file system on the candidate path: see
/// `resolved`.
pub fn on_canonical(
    version: String,
    root: String,
    canonical: Option<String>,
    error_page: Option<String>,
    config: &Config,
    banner: &str,
    now: i64,
) -> (r: (Stage, Action))
    ensures
        resolved(
            version@,
            root@,
            text_of(canonical),
            text_of(error_page),
            *config,
            banner@,
            now as int,
            r.0,
            r.1,
        ),
{
    let page = match error_page {
        Some(page) => page,
        None => {
            let relative = config.error_page();
            join(config.server.root.as_str(), relative.as_str())
        },
    };
    match resolve(root.as_str(), canonical, page, config.allows_outside_root()) {
        Resolution::NotFound { error_page } => {
            let content_type = mime_match(error_page.as_str());
            finish(version, 404, banner, now, content_type, None, Vec::new())
        },
        Resolution::Outside => fail(version, 301, banner, now),
        Resolution::Found { path } => {
            let place = location(root.as_str(), path.as_str());
            let asked = path.clone();
            (Stage::Inspecting { version, path, location: place }, Action::Inspect { path: asked })
        },
    }
}

/// Takes the kind of the path: see `inspected`.
pub fn on_kind(
    version: String,
    path: String,
    location: String,
    is_dir: bool,
    config: &Config,
    banner: &str,
    now: i64,
    cache: &mut ContentCache,
) -> (r: (Stage, Action))
    requires
        old(cache).wf(),
    ensures
        final(cache).wf(),
        inspected(
            version@,
            path@,
            location@,
            is_dir,
            *config,
            banner@,
            now as int,
            *old(cache),
            *final(cache),
            r.0,
            r.1,
        ),
{
    if is_dir {
        match cache.lookup(Kind::Listing, location.as_str()) {
            Some(html) => finish(version, 200, banner, now, HTML_UTF_8.to_owned(), None, html),
            None => match listing_plan(&config.locations, location.as_str()) {
                ListingPlan::Enumerate => (
                    Stage::Listing { version, location },
                    Action::Enumerate { path },
                ),
                ListingPlan::ServeIndex { path: index } => (
                    Stage::Indexing { version, location },
                    Action::ReadIndex { path: index },
                ),
                ListingPlan::Refuse => fail(version, 301, banner, now),
            },
        }
    } else {
        match cache.lookup(Kind::File, location.as_str()) {
            Some(bytes) => {
                let content_type = mime_match(path.as_str());
                finish(version, 200, banner, now, content_type, None, bytes)
            },
            None => {
                let asked = path.clone();
                (Stage::Reading { version, path, location }, Action::ReadFile { path: asked })
            },
        }
    }
}

/// Takes the listing of a directory: see `listed`.
pub fn on_listing(
    version: String,
    location: String,
    listing: Option<String>,
    banner: &str,
    now: i64,
    cache: &mut ContentCache,
) -> (r: (Stage, Action))
    requires
        old(cache).wf(),
    ensures
        final(cache).wf(),
        listed(
            version@,
            location@,
            text_of(listing),
            banner@,
            now as int,
            *old(cache),
            *final(cache),
            r.0,
            r.1,
        ),
{
    match listing {
        None => fail(version, 301, banner, now),
        Some(html) => {
            let body = html.as_str().as_bytes_vec();
            cache.insert(Kind::Listing, location, copy_of(&body));
            finish(version, 200, banner, now, HTML_UTF_8.to_owned(), None, body)
        },
    }
}

/// Takes the entries of a directory and renders them: see `listed`.
pub fn on_entries(
    version: String,
    location: String,
    entries: Option<Vec<DirEntry>>,
    banner: &str,
    now: i64,
    cache: &mut ContentCache,
) -> (r: (Stage, Action))
    requires
        old(cache).wf(),
    ensures
        final(cache).wf(),
        listed(
            version@,
            location@,
            rendering_of(location@, entries),
            banner@,
            now as int,
            *old(cache),
            *final(cache),
            r.0,
            r.1,
        ),
{
    let listing = match &entries {
        Some(entries) => Some(location_index(location.as_str(), entries)),
        None => None,
    };
    on_listing(version, location, listing, banner, now, cache)
}

/// Takes the file: see `read`.
pub fn on_file(
    version: String,
    path: String,
    location: String,
    data: Option<FileData>,
    banner: &str,
    now: i64,
    cache: &mut ContentCache,
) -> (r: (Stage, Action))
    requires
        old(cache).wf(),
    ensures
        final(cache).wf(),
        read(
            version@,
            path@,
            location@,
            data,
            banner@,
            now as int,
            *old(cache),
            *final(cache),
            r.0,
            r.1,
        ),
{
    match data {
        None => fail(version, 500, banner, now),
        Some(file) => {
            let content_type = mime_match(path.as_str());
            cache.insert(Kind::File, location, copy_of(&file.bytes));
            finish(version, 200, banner, now, content_type, file.modified, file.bytes)
        },
    }
}

/// One step of the pipeline: from the stage that was reached and the event
/// that came in to the next stage and the next action. See `stepped`.
pub fn step(
    stage: Stage,
    event: Event,
    config: &Config,
    banner: &str,
    now: i64,
    cache: &mut ContentCache,
) -> (r: (Stage, Action))
    requires
        old(cache).wf(),
    ensures
        final(cache).wf(),
        stepped(
            stage,
            event,
            *config,
            banner@,
            now as int,
            *old(cache),
            *final(cache),
            r.0,
            r.1,
        ),
{
    match (stage, event) {
        (Stage::Start, Event::Line(line)) => begin(line, config, banner, now),
        (Stage::Resolving { version }, Event::Canonical { root, candidate, error_page }) => {
            on_canonical(version, root, candidate, error_page, config, banner, now)
        },
        (Stage::Inspecting { version, path, location }, Event::Kind { is_dir }) => on_kind(
            version,
            path,
            location,
            is_dir,
            config,
            banner,
            now,
            cache,
        ),
        (Stage::Listing { version, location }, Event::Entries(entries)) => on_entries(
            version,
            location,
            entries,
            banner,
            now,
            cache,
        ),
        (Stage::Indexing { version, location }, Event::Index(text)) => on_listing(
            version,
            location,
            text,
            banner,
            now,
            cache,
        ),
        (Stage::Reading { version, path, location }, Event::File(data)) => on_file(
            version,
            path,
            location,
            data,
            banner,
            now,
            cache,
        ),
        _ => fail("1.1".to_owned(), 500, banner, now),
    }
}

} // verus!
