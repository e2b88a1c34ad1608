//! The head of a response: status line and header fields.

use crate::text::{i32_to_decimal, same_text, signed_decimal, text_of, to_chars};
use vstd::prelude::*;
use vstd::string::*;

verus! {

/// Header fields in the order in which they are sent: `(name, value)`.
pub type Fields = Seq<(Seq<char>, Seq<char>)>;

/// The reason phrase of a status code. Every code that is not one of the
/// five named ones reads as an internal error.
pub open spec fn reason_of(status_code: int) -> Seq<char> {
    if status_code == 200 {
        "OK"@
    } else if status_code == 301 {
        "Moved Permanently"@
    } else if status_code == 400 {
        "Bad Request"@
    } else if status_code == 404 {
        "Not Found"@
    } else if status_code == 501 {
        "Not Implemented"@
    } else {
        "Internal Server Error"@
    }
}

/// A status as it is written: the code in decimal, a space, the reason.
pub open spec fn status_text(status_code: int) -> Seq<char> {
    signed_decimal(status_code) + " "@ + reason_of(status_code)
}

/// The first `n` header fields as lines: `name: value` and a line break each.
pub open spec fn field_lines(fields: Fields, n: int) -> Seq<char>
    decreases n,
{
    if n <= 0 {
        Seq::empty()
    } else {
        field_lines(fields, n - 1) + fields[n - 1].0 + ": "@ + fields[n - 1].1 + "\r\n"@
    }
}

/// The head of a response: the status line, the header fields in their
/// order, and the empty line that ends the head.
pub open spec fn head_of(version: Seq<char>, status_code: int, fields: Fields) -> Seq<char> {
    "HTTP/"@ + version + " "@ + status_text(status_code) + "\r\n"@ + field_lines(
        fields,
        fields.len() as int,
    ) + "\r\n"@
}

/// The first position in `fields` whose name is `name`, or the length of
/// `fields`.
pub open spec fn field_index(fields: Fields, name: Seq<char>, from: int) -> int
    decreases fields.len() - from,
{
    if from < 0 || from >= fields.len() {
        fields.len() as int
    } else if fields[from].0 == name {
        from
    } else {
        field_index(fields, name, from + 1)
    }
}

/// The fields after `name` is set to `value`: the field of that name keeps
/// its place and takes the value; a new name goes to the end.
pub open spec fn with_field(fields: Fields, name: Seq<char>, value: Seq<char>) -> Fields {
    let i = field_index(fields, name, 0);
    if i < fields.len() {
        fields.update(i, (name, value))
    } else {
        fields.push((name, value))
    }
}

/// The value that `name` had, if the field was set.
pub open spec fn field_value(fields: Fields, name: Seq<char>) -> Option<Seq<char>> {
    let i = field_index(fields, name, 0);
    if i < fields.len() {
        Some(fields[i].1)
    } else {
        None
    }
}

/// Where `field_index` points.
pub proof fn lemma_field_index(fields: Fields, name: Seq<char>, from: int)
    requires
        0 <= from <= fields.len(),
    ensures
        from <= field_index(fields, name, from) <= fields.len(),
        field_index(fields, name, from) < fields.len() ==> fields[field_index(
            fields,
            name,
            from,
        )].0 == name,
        forall|j: int| from <= j < field_index(fields, name, from) ==> (#[trigger] fields[j]).0 != name,
    decreases fields.len() - from,
{
    if from < fields.len() && fields[from].0 != name {
        lemma_field_index(fields, name, from + 1);
    }
}

/// A field that was set can be read back, and setting one field leaves the
/// others as they were.
pub proof fn lemma_set_then_get(fields: Fields, name: Seq<char>, value: Seq<char>, other: Seq<char>)
    ensures
        field_value(with_field(fields, name, value), name) == Some(value),
        other != name ==> field_value(with_field(fields, name, value), other) == field_value(
            fields,
            other,
        ),
{
    let new = with_field(fields, name, value);
    let i = field_index(fields, name, 0);
    lemma_field_index(fields, name, 0);
    lemma_same_names(fields, new, name, 0);
    lemma_field_index(new, name, 0);
    if other != name {
        lemma_other_names(fields, new, other, 0);
    }
}

/// Two field lists that have `name` at the same places give the same
/// `field_index`, also where the longer one has one field more and that
/// field is a `name`.
proof fn lemma_same_names(a: Fields, b: Fields, name: Seq<char>, from: int)
    requires
        0 <= from <= a.len(),
        a.len() <= b.len() <= a.len() + 1,
        forall|j: int| 0 <= j < a.len() ==> ((#[trigger] a[j]).0 == name <==> b[j].0 == name),
        b.len() > a.len() ==> b[a.len() as int].0 == name,
    ensures
        field_index(b, name, from) == field_index(a, name, from),
    decreases a.len() - from,
{
    if from < a.len() {
        assert(a[from].0 == name <==> b[from].0 == name);
        if a[from].0 != name {
            lemma_same_names(a, b, name, from + 1);
        }
    }
}

/// Setting `name` does not move the first field of another name, nor change
/// its value.
proof fn lemma_other_names(a: Fields, b: Fields, other: Seq<char>, from: int)
    requires
        0 <= from <= a.len(),
        a.len() <= b.len() <= a.len() + 1,
        forall|j: int|
            0 <= j < a.len() ==> ((#[trigger] a[j]).0 == other ==> b[j] == a[j]) && (b[j].0 == other
                ==> b[j] == a[j]),
        b.len() > a.len() ==> b[a.len() as int].0 != other,
    ensures
        field_index(b, other, from) < b.len() <==> field_index(a, other, from) < a.len(),
        field_index(a, other, from) < a.len() ==> field_index(b, other, from) == field_index(
            a,
            other,
            from,
        ) && b[field_index(b, other, from)] == a[field_index(a, other, from)],
    decreases b.len() - from,
{
    if from < a.len() {
        assert(a[from].0 == other ==> b[from] == a[from]);
        if a[from].0 != other {
            assert(b[from].0 != other);
            lemma_other_names(a, b, other, from + 1);
        }
    } else if from < b.len() {
        assert(b[from].0 != other);
        assert(field_index(b, other, from + 1) == b.len());
    }
}

/// The head of one response while it is put together.
pub struct Response {
    version: String,
    status_code: i32,
    headers: Vec<(String, String)>,
}

impl Response {
    /// The HTTP version that is answered in, as in `1.1`.
    pub closed spec fn version(&self) -> Seq<char> {
        self.version@
    }

    /// The status code that is answered with.
    pub closed spec fn spec_status_code(&self) -> i32 {
        self.status_code
    }

    /// The header fields set so far, in the order in which they are sent.
    pub closed spec fn fields(&self) -> Fields {
        Seq::new(self.headers@.len(), |i: int| (self.headers@[i].0@, self.headers@[i].1@))
    }

    /// A response in version 1.1 with status 200 and no header fields.
    pub fn new() -> (r: Response)
        ensures
            r.version() == "1.1"@,
            r.spec_status_code() == 200,
            r.fields() == Seq::<(Seq<char>, Seq<char>)>::empty(),
    {
        let r = Response { version: "1.1".to_owned(), status_code: 200, headers: Vec::new() };
        assert(r.fields() =~= Seq::<(Seq<char>, Seq<char>)>::empty());
        r
    }

    /// The status code that is answered with.
    #[verifier::when_used_as_spec(spec_status_code)]
    pub fn status_code(&self) -> (code: i32)
        ensures
            code == self.spec_status_code(),
    {
        self.status_code
    }

    /// Sets the status code.
    pub fn set_status(&mut self, status_code: i32)
        ensures
            final(self).spec_status_code() == status_code,
            final(self).version() == old(self).version(),
            final(self).fields() == old(self).fields(),
    {
        self.status_code = status_code;
    }

    /// Sets the version that is answered in.
    pub fn set_version(&mut self, version: String)
        ensures
            final(self).version() == version@,
            final(self).spec_status_code() == old(self).spec_status_code(),
            final(self).fields() == old(self).fields(),
    {
        self.version = version;
    }

    /// Sets the header field `k` to `v` and returns the value it had. A field
    /// that is set again keeps its place.
    pub fn send_header(&mut self, k: &str, v: String) -> (previous: Option<String>)
        ensures
            final(self).fields() == with_field(old(self).fields(), k@, v@),
            text_of(previous) == field_value(old(self).fields(), k@),
            final(self).version() == old(self).version(),
            final(self).spec_status_code() == old(self).spec_status_code(),
    {
        let name = to_chars(k);
        let mut i: usize = 0;
        while i < self.headers.len()
            invariant
                i <= self.headers.len(),
                name@ == k@,
                *self == *old(self),
                field_index(self.fields(), k@, 0) == field_index(self.fields(), k@, i as int),
            decreases self.headers.len() - i,
        {
            let current = to_chars(self.headers[i].0.as_str());
            if same_text(&current, &name) {
                let ghost before = self.fields();
                let mut headers: Vec<(String, String)> = Vec::new();
                std::mem::swap(&mut headers, &mut self.headers);
                let (field_name, field_value) = headers.remove(i);
                headers.insert(i, (field_name, v));
                self.headers = headers;
                assert(self.fields() =~= before.update(i as int, (k@, v@)));
                return Some(field_value);
            }
            i += 1;
        }
        let ghost before = self.fields();
        self.headers.push((k.to_owned(), v));
        assert(self.fields() =~= before.push((k@, v@)));
        None
    }

    /// Writes a status: the code, a space, the reason phrase.
    pub fn status(&self, status_code: i32) -> (text: String)
        ensures
            text@ == status_text(status_code as int),
    {
        let reason = if status_code == 200 {
            "OK"
        } else if status_code == 301 {
            "Moved Permanently"
        } else if status_code == 400 {
            "Bad Request"
        } else if status_code == 404 {
            "Not Found"
        } else if status_code == 501 {
            "Not Implemented"
        } else {
            "Internal Server Error"
        };
        let mut text = i32_to_decimal(status_code);
        text.append(" ");
        text.append(reason);
        text
    }

    /// Writes the head: status line, header fields, empty line.
    pub fn resp(&self) -> (head: String)
        ensures
            head@ == head_of(self.version(), self.spec_status_code() as int, self.fields()),
    {
        let mut head = "HTTP/".to_owned();
        head.append(self.version.as_str());
        head.append(" ");
        let status = self.status(self.status_code);
        head.append(status.as_str());
        head.append("\r\n");
        let ghost start = head@;
        let mut i: usize = 0;
        while i < self.headers.len()
            invariant
                i <= self.headers.len(),
                head@ == start + field_lines(self.fields(), i as int),
            decreases self.headers.len() - i,
        {
            head.append(self.headers[i].0.as_str());
            head.append(": ");
            head.append(self.headers[i].1.as_str());
            head.append("\r\n");
            assert(head@ =~= start + field_lines(self.fields(), i + 1));
            i += 1;
        }
        head.append("\r\n");
        head
    }
}

} // verus!
