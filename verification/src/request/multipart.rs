//! Multipart form bodies: the parts, their headers, the order in which the
//! body is streamed and its length.
use std::borrow::Cow;

use vstd::prelude::*;
use vstd::string::*;
use vstd::utf8::*;

pub mod boundary;
pub mod encoding;

use boundary::{
    boundary_of_state, crlf, dashes, delimiter_bytes, terminator_bytes, Boundary, BOUNDARY_LEN,
};
use encoding::{
    percent_encode_attr_char, percent_encode_noop, percent_encode_path_segment, percent_encoded,
    is_unreserved, lemma_unreserved_kept, stays_borrowed, EncodeSet,
};

verus! {

/// How field names are written in the `Content-Disposition` header.
#[derive(Clone, Copy, Debug, PartialEq, Eq, Structural)]
pub enum PercentEncoding {
    PathSegment,
    AttrChar,
    NoOp,
}

/// The written form of a field name and whether it is written as
/// `name="..."` (the encoding borrowed) rather than `name*=utf8''...`.
pub open spec fn encoded_name(enc: PercentEncoding, name: Seq<char>) -> (Seq<char>, bool) {
    match enc {
        PercentEncoding::PathSegment => (
            percent_encoded(EncodeSet::PathSegment, encode_utf8(name)),
            stays_borrowed(EncodeSet::PathSegment, encode_utf8(name)),
        ),
        PercentEncoding::AttrChar => (
            percent_encoded(EncodeSet::AttrChar, encode_utf8(name)),
            stays_borrowed(EncodeSet::AttrChar, encode_utf8(name)),
        ),
        PercentEncoding::NoOp => (name, true),
    }
}

/// A file name byte as it is written inside the quotes of `filename="..."`:
/// a backslash, a quote, CR and LF get a backslash in front.
pub open spec fn escape_byte(b: u8) -> Seq<u8> {
    if b == '\\' as u8 || b == '"' as u8 || b == '\r' as u8 || b == '\n' as u8 {
        seq!['\\' as u8, b]
    } else {
        seq![b]
    }
}

/// A file name as it is written inside the quotes of `filename="..."`.
pub open spec fn escaped_file_name(bytes: Seq<u8>) -> Seq<u8>
    decreases bytes.len(),
{
    if bytes.len() == 0 {
        Seq::empty()
    } else {
        escaped_file_name(bytes.drop_last()) + escape_byte(bytes.last())
    }
}

/// `name="..."` or `name*=utf8''...`, as the name was encoded.
pub open spec fn name_part(value: Seq<char>, borrowed: bool) -> Seq<u8> {
    if borrowed {
        encode_utf8("name=\""@) + encode_utf8(value) + encode_utf8("\""@)
    } else {
        encode_utf8("name*=utf8''"@) + encode_utf8(value)
    }
}

/// `; filename="..."` when there is a file name.
pub open spec fn file_part(file_name: Option<Seq<char>>) -> Seq<u8> {
    match file_name {
        Some(f) => encode_utf8("; filename=\""@) + escaped_file_name(encode_utf8(f)) + encode_utf8(
            "\""@,
        ),
        None => Seq::empty(),
    }
}

/// `\r\nContent-type: ...` when there is a MIME type.
pub open spec fn mime_part(mime: Option<Seq<char>>) -> Seq<u8> {
    match mime {
        Some(m) => encode_utf8("\r\nContent-type: "@) + encode_utf8(m),
        None => Seq::empty(),
    }
}

/// The headers of a part, without the blank line that ends them.
pub open spec fn header_bytes(
    enc: PercentEncoding,
    name: Seq<char>,
    file_name: Option<Seq<char>>,
    mime: Option<Seq<char>>,
) -> Seq<u8> {
    let (value, borrowed) = encoded_name(enc, name);
    encode_utf8("Content-Disposition: form-data; "@) + name_part(value, borrowed) + file_part(
        file_name,
    ) + mime_part(mime)
}

/// The file name and the MIME type of a part.
pub struct Metadata {
    mime: Option<String>,
    file_name: Option<String>,
}

impl Metadata {
    /// The file name's text, if there is one.
    pub closed spec fn file_name_text(&self) -> Option<Seq<char>> {
        match self.file_name {
            Some(f) => Some(f@),
            None => None,
        }
    }

    /// The MIME type's text, if there is one.
    pub closed spec fn mime_text(&self) -> Option<Seq<char>> {
        match self.mime {
            Some(m) => Some(m@),
            None => None,
        }
    }

    fn new() -> (r: Self)
        ensures
            r.file_name_text() is None,
            r.mime_text() is None,
    {
        Metadata { mime: None, file_name: None }
    }

    fn mime(self, mime: String) -> (r: Self)
        ensures
            r.mime_text() == Some(mime@),
            r.file_name_text() == self.file_name_text(),
    {
        Metadata { mime: Some(mime), file_name: self.file_name }
    }

    fn file_name(self, file_name: String) -> (r: Self)
        ensures
            r.file_name_text() == Some(file_name@),
            r.mime_text() == self.mime_text(),
    {
        Metadata { mime: self.mime, file_name: Some(file_name) }
    }
}

impl PercentEncoding {
    /// The name as this encoding writes it.
    pub fn encode_name<'a>(&self, name: &'a str) -> (r: Cow<'a, str>)
        ensures
            (r@, r is Borrowed) == encoded_name(*self, name@),
    {
        match self {
            PercentEncoding::PathSegment => percent_encode_path_segment(name),
            PercentEncoding::AttrChar => percent_encode_attr_char(name),
            PercentEncoding::NoOp => percent_encode_noop(name),
        }
    }

    /// The headers of a part named `name`.
    pub fn encode_headers(&self, name: &str, field: &Metadata) -> (r: Vec<u8>)
        ensures
            r@ == header_bytes(*self, name@, field.file_name_text(), field.mime_text()),
    {
        let mut buf: Vec<u8> = Vec::new();
        buf.extend_from_slice("Content-Disposition: form-data; ".as_bytes());
        let encoded = self.encode_name(name);
        push_name_part(&mut buf, encoded);
        push_file_part(&mut buf, &field.file_name);
        push_mime_part(&mut buf, &field.mime);
        assert(buf@ =~= header_bytes(*self, name@, field.file_name_text(), field.mime_text()));
        buf
    }
}

fn push_name_part(buf: &mut Vec<u8>, encoded: Cow<'_, str>)
    ensures
        final(buf)@ == old(buf)@ + name_part(encoded@, encoded is Borrowed),
{
    match encoded {
        Cow::Borrowed(value) => {
            buf.extend_from_slice("name=\"".as_bytes());
            buf.extend_from_slice(value.as_bytes());
            buf.extend_from_slice("\"".as_bytes());
        },
        Cow::Owned(value) => {
            buf.extend_from_slice("name*=utf8''".as_bytes());
            buf.extend_from_slice(value.as_str().as_bytes());
        },
    }
    assert(final(buf)@ =~= old(buf)@ + name_part(encoded@, encoded is Borrowed));
}

fn push_file_part(buf: &mut Vec<u8>, file_name: &Option<String>)
    ensures
        final(buf)@ == old(buf)@ + file_part(
            match file_name {
                Some(f) => Some(f@),
                None => None,
            },
        ),
{
    match file_name {
        Some(filename) => {
            buf.extend_from_slice("; filename=\"".as_bytes());
            push_escaped(buf, filename.as_str().as_bytes());
            buf.extend_from_slice("\"".as_bytes());
            assert(final(buf)@ =~= old(buf)@ + file_part(Some(filename@)));
        },
        None => {
            assert(buf@ =~= old(buf)@ + file_part(None));
        },
    }
}

fn push_mime_part(buf: &mut Vec<u8>, mime: &Option<String>)
    ensures
        final(buf)@ == old(buf)@ + mime_part(
            match mime {
                Some(m) => Some(m@),
                None => None,
            },
        ),
{
    match mime {
        Some(m) => {
            buf.extend_from_slice("\r\nContent-type: ".as_bytes());
            buf.extend_from_slice(m.as_str().as_bytes());
            assert(final(buf)@ =~= old(buf)@ + mime_part(Some(m@)));
        },
        None => {
            assert(buf@ =~= old(buf)@ + mime_part(None));
        },
    }
}

/// Appends the escaped form of a file name to `buf`.
fn push_escaped(buf: &mut Vec<u8>, bytes: &[u8])
    ensures
        final(buf)@ == old(buf)@ + escaped_file_name(bytes@),
{
    let mut i: usize = 0;
    while i < bytes.len()
        invariant
            i <= bytes@.len(),
            buf@ == old(buf)@ + escaped_file_name(bytes@.take(i as int)),
        decreases bytes@.len() - i,
    {
        let b = bytes[i];
        if b == ('\\' as u8) || b == ('"' as u8) || b == ('\r' as u8) || b == ('\n' as u8) {
            buf.push('\\' as u8);
        }
        buf.push(b);
        assert(bytes@.take(i + 1).drop_last() =~= bytes@.take(i as int));
        i = i + 1;
        assert(buf@ =~= old(buf)@ + escaped_file_name(bytes@.take(i as int)));
    }
    assert(bytes@.take(bytes@.len() as int) =~= bytes@);
}

/// What the value of a part is: bytes, or a stream with the upper bound of
/// its size hint.
pub enum ValueView<S> {
    Bytes(Seq<u8>),
    Stream(S, Option<usize>),
}

/// A part as the contracts see it.
pub struct PartView<S> {
    pub file_name: Option<Seq<char>>,
    pub mime: Option<Seq<char>>,
    pub value: ValueView<S>,
    pub body_length: Option<u64>,
}

/// A form as the contracts see it.
pub struct FormView<S> {
    pub boundary: Seq<u8>,
    pub fields: Seq<(Seq<char>, PartView<S>)>,
    pub encoding: PercentEncoding,
}

/// The length of a part's value, if it is known: the declared length, else
/// the upper bound of the value's size hint (the length of bytes).
pub open spec fn value_length<S>(p: PartView<S>) -> Option<int> {
    match p.body_length {
        Some(l) => Some(l as int),
        None => match p.value {
            ValueView::Bytes(b) => Some(b.len() as int),
            ValueView::Stream(_, upper) => match upper {
                Some(u) => Some(u as int),
                None => None,
            },
        },
    }
}

/// The bytes a part takes in the body, if its value's length is known:
/// delimiter, headers, blank line, value and line end.
pub open spec fn part_size<S>(enc: PercentEncoding, name: Seq<char>, p: PartView<S>) -> Option<
    int,
> {
    match value_length(p) {
        Some(v) => Some(
            2 + BOUNDARY_LEN + 2 + header_bytes(enc, name, p.file_name, p.mime).len() + 4 + v + 2,
        ),
        None => None,
    }
}

/// The bytes the parts take, if all their lengths are known.
pub open spec fn fields_length<S>(enc: PercentEncoding, fields: Seq<(Seq<char>, PartView<S>)>) -> Option<
    int,
>
    decreases fields.len(),
{
    if fields.len() == 0 {
        Some(0)
    } else {
        match (fields_length(enc, fields.drop_last()), part_size(enc, fields.last().0, fields.last().1)) {
            (Some(a), Some(b)) => Some(a + b),
            _ => None,
        }
    }
}

/// The sum of the known part sizes.
pub open spec fn fields_bound<S>(enc: PercentEncoding, fields: Seq<(Seq<char>, PartView<S>)>) -> int
    decreases fields.len(),
{
    if fields.len() == 0 {
        0
    } else {
        fields_bound(enc, fields.drop_last()) + match part_size(
            enc,
            fields.last().0,
            fields.last().1,
        ) {
            Some(b) => b,
            None => 0,
        }
    }
}

/// The length of the whole body, if it is known: the parts and, when there
/// is at least one, the terminator.
pub open spec fn form_length<S>(f: FormView<S>) -> Option<int> {
    match fields_length(f.encoding, f.fields) {
        Some(n) => Some(
            if f.fields.len() > 0 {
                n + 2 + f.boundary.len() + 4
            } else {
                n
            },
        ),
        None => None,
    }
}

/// A piece of a streamed body.
pub enum Chunk<S> {
    Bytes(Vec<u8>),
    Stream(S),
}

/// A piece of a streamed body as the contracts see it.
pub enum ChunkView<S> {
    Bytes(Seq<u8>),
    Stream(S),
}

impl<S> View for Chunk<S> {
    type V = ChunkView<S>;

    open spec fn view(&self) -> ChunkView<S> {
        match self {
            Chunk::Bytes(b) => ChunkView::Bytes(b@),
            Chunk::Stream(s) => ChunkView::Stream(*s),
        }
    }
}

/// The pieces a part's value is streamed as: bytes once unless they are
/// empty, a stream as it is.
pub open spec fn value_chunks<S>(v: ValueView<S>) -> Seq<ChunkView<S>> {
    match v {
        ValueView::Bytes(b) => if b.len() == 0 {
            Seq::empty()
        } else {
            seq![ChunkView::Bytes(b)]
        },
        ValueView::Stream(s, _) => seq![ChunkView::Stream(s)],
    }
}

/// The pieces of one part: delimiter, headers with the blank line, value,
/// line end.
pub open spec fn part_chunks<S>(
    boundary: Seq<u8>,
    enc: PercentEncoding,
    name: Seq<char>,
    p: PartView<S>,
) -> Seq<ChunkView<S>> {
    seq![
        ChunkView::Bytes(delimiter_bytes(boundary)),
        ChunkView::Bytes(header_bytes(enc, name, p.file_name, p.mime) + crlf() + crlf()),
    ] + value_chunks(p.value) + seq![ChunkView::Bytes(crlf())]
}

/// The pieces of the parts, in order.
pub open spec fn fields_chunks<S>(
    boundary: Seq<u8>,
    enc: PercentEncoding,
    fields: Seq<(Seq<char>, PartView<S>)>,
) -> Seq<ChunkView<S>>
    decreases fields.len(),
{
    if fields.len() == 0 {
        Seq::empty()
    } else {
        fields_chunks(boundary, enc, fields.drop_last()) + part_chunks(
            boundary,
            enc,
            fields.last().0,
            fields.last().1,
        )
    }
}

/// The pieces of the whole body: nothing for a form without parts, else the
/// parts and the terminator.
pub open spec fn form_chunks<S>(f: FormView<S>) -> Seq<ChunkView<S>> {
    if f.fields.len() == 0 {
        Seq::empty()
    } else {
        fields_chunks(f.boundary, f.encoding, f.fields) + seq![
            ChunkView::Bytes(terminator_bytes(f.boundary)),
        ]
    }
}

/// The value of a part: bytes, or a stream together with the upper bound of
/// its size hint.
pub struct BodyStream<S> {
    inner: Inner<S>,
}

enum Inner<S> {
    Bytes(Vec<u8>),
    Stream(S, Option<usize>),
}

impl<S> View for BodyStream<S> {
    type V = ValueView<S>;

    closed spec fn view(&self) -> ValueView<S> {
        match self.inner {
            Inner::Bytes(b) => ValueView::Bytes(b@),
            Inner::Stream(s, upper) => ValueView::Stream(s, upper),
        }
    }
}

impl<S> BodyStream<S> {
    /// A value made of bytes.
    pub fn bytes(value: Vec<u8>) -> (r: Self)
        ensures
            r@ == ValueView::<S>::Bytes(value@),
    {
        BodyStream { inner: Inner::Bytes(value) }
    }

    /// A value that is streamed, with the upper bound of the stream's size
    /// hint.
    pub fn stream(value: S, upper: Option<usize>) -> (r: Self)
        ensures
            r@ == ValueView::Stream(value, upper),
    {
        BodyStream { inner: Inner::Stream(value, upper) }
    }

    fn into_chunks(self, out: &mut Vec<Chunk<S>>)
        ensures
            final(out)@.map_values(|c: Chunk<S>| c@) == old(out)@.map_values(|c: Chunk<S>| c@)
                + value_chunks(self@),
    {
        match self.inner {
            Inner::Bytes(b) => {
                if b.len() > 0 {
                    out.push(Chunk::Bytes(b));
                }
            },
            Inner::Stream(s, _) => {
                out.push(Chunk::Stream(s));
            },
        }
        assert(final(out)@.map_values(|c: Chunk<S>| c@) =~= old(out)@.map_values(|c: Chunk<S>| c@)
            + value_chunks(self@));
    }
}

/// A field of a form: its value with a file name and a MIME type.
pub struct Part<S> {
    meta: Metadata,
    value: BodyStream<S>,
    body_length: Option<u64>,
}

impl<S> View for Part<S> {
    type V = PartView<S>;

    closed spec fn view(&self) -> PartView<S> {
        PartView {
            file_name: self.meta.file_name_text(),
            mime: self.meta.mime_text(),
            value: self.value@,
            body_length: self.body_length,
        }
    }
}

impl<S> Part<S> {
    fn new(value: BodyStream<S>, body_length: Option<u64>) -> (r: Self)
        ensures
            r@ == (PartView { file_name: None, mime: None, value: value@, body_length }),
    {
        Part { meta: Metadata::new(), value, body_length }
    }

    /// A part holding the UTF-8 bytes of a text.
    pub fn text(value: String) -> (r: Self)
        ensures
            r@ == (PartView::<S> {
                file_name: None,
                mime: None,
                value: ValueView::Bytes(encode_utf8(value@)),
                body_length: None,
            }),
    {
        let mut bytes: Vec<u8> = Vec::new();
        bytes.extend_from_slice(value.as_str().as_bytes());
        assert(bytes@ =~= encode_utf8(value@));
        Self::bytes(bytes)
    }

    /// A part holding bytes.
    pub fn bytes(value: Vec<u8>) -> (r: Self)
        ensures
            r@ == (PartView::<S> {
                file_name: None,
                mime: None,
                value: ValueView::Bytes(value@),
                body_length: None,
            }),
    {
        Self::new(BodyStream::bytes(value), None)
    }

    /// A part holding a stream, with the upper bound of the stream's size hint.
    pub fn stream(value: S, upper: Option<usize>) -> (r: Self)
        ensures
            r@ == (PartView {
                file_name: None,
                mime: None,
                value: ValueView::Stream(value, upper),
                body_length: None,
            }),
    {
        Self::new(BodyStream::stream(value, upper), None)
    }

    /// A part holding a stream of the given length.
    pub fn stream_with_length(value: S, upper: Option<usize>, length: u64) -> (r: Self)
        ensures
            r@ == (PartView {
                file_name: None,
                mime: None,
                value: ValueView::Stream(value, upper),
                body_length: Some(length),
            }),
    {
        Self::new(BodyStream::stream(value, upper), Some(length))
    }

    /// Sets the MIME type, given as its text.
    pub fn mime(self, mime: String) -> (r: Self)
        ensures
            r@ == (PartView { mime: Some(mime@), ..self@ }),
    {
        Part { meta: self.meta.mime(mime), value: self.value, body_length: self.body_length }
    }

    /// Sets the file name.
    pub fn file_name(self, filename: String) -> (r: Self)
        ensures
            r@ == (PartView { file_name: Some(filename@), ..self@ }),
    {
        Part {
            meta: self.meta.file_name(filename),
            value: self.value,
            body_length: self.body_length,
        }
    }

    /// A part streaming a file: named after the last component of the
    /// file's path when it has one that is valid UTF-8, else after
    /// `filename`.
    pub fn file(stream: S, upper: Option<usize>, path_name: Option<&str>, filename: &str) -> (r: Self)
        ensures
            r@ == (PartView {
                file_name: Some(
                    match path_name {
                        Some(n) => n@,
                        None => filename@,
                    },
                ),
                mime: None,
                value: ValueView::Stream(stream, upper),
                body_length: None,
            }),
    {
        let name = match path_name {
            Some(n) => n.to_string(),
            None => filename.to_string(),
        };
        Self::stream(stream, upper).file_name(name)
    }

    /// The length of the value, if it is known.
    fn value_length(&self) -> (r: Option<u64>)
        ensures
            match r {
                Some(v) => value_length(self@) == Some(v as int),
                None => value_length(self@) is None,
            },
    {
        match self.body_length {
            Some(l) => Some(l),
            None => match &self.value.inner {
                Inner::Bytes(b) => Some(b.len() as u64),
                Inner::Stream(_, upper) => match upper {
                    Some(u) => Some(*u as u64),
                    None => None,
                },
            },
        }
    }
}

/// A multipart form.
pub struct Form<S> {
    boundary: Boundary,
    fields: Vec<(String, Part<S>)>,
    percent_encoding: PercentEncoding,
}

impl<S> View for Form<S> {
    type V = FormView<S>;

    closed spec fn view(&self) -> FormView<S> {
        FormView {
            boundary: self.boundary@,
            fields: self.fields@.map_values(|f: (String, Part<S>)| (f.0@, f.1@)),
            encoding: self.percent_encoding,
        }
    }
}

impl<S> Form<S> {
    /// An empty form with a random boundary, writing names with the
    /// path-segment encoding.
    pub fn new() -> (r: Self)
        ensures
            r@.fields.len() == 0,
            r@.boundary.len() == BOUNDARY_LEN,
            exists|s: u64| s != 0 && r@.boundary == boundary_of_state(s),
            r@.encoding == PercentEncoding::PathSegment,
    {
        Form {
            boundary: Boundary::generate(),
            fields: Vec::new(),
            percent_encoding: PercentEncoding::PathSegment,
        }
    }

    /// The value of the `Content-Type` header:
    /// `multipart/form-data; boundary=` and the boundary.
    pub fn content_type(&self) -> (r: Vec<u8>)
        ensures
            r@ == encode_utf8("multipart/form-data; boundary="@) + self@.boundary,
    {
        let mut buf: Vec<u8> = Vec::new();
        buf.extend_from_slice("multipart/form-data; boundary=".as_bytes());
        buf.extend_from_slice(self.boundary.value());
        buf
    }

    /// The boundary.
    pub fn boundary(&self) -> (r: &[u8])
        ensures
            r@ == self@.boundary,
            r@.len() == BOUNDARY_LEN,
    {
        self.boundary.value()
    }

    /// Adds a text field.
    pub fn text(self, name: String, value: String) -> (r: Self)
        ensures
            r@ == (FormView {
                fields: self@.fields.push(
                    (
                        name@,
                        PartView {
                            file_name: None,
                            mime: None,
                            value: ValueView::Bytes(encode_utf8(value@)),
                            body_length: None,
                        },
                    ),
                ),
                ..self@
            }),
    {
        self.part(name, Part::text(value))
    }

    /// Adds a customized part.
    pub fn part(self, name: String, part: Part<S>) -> (r: Self)
        ensures
            r@ == (FormView { fields: self@.fields.push((name@, part@)), ..self@ }),
    {
        let Form { boundary, mut fields, percent_encoding } = self;
        let ghost old_fields = fields@;
        fields.push((name, part));
        let r = Form { boundary, fields, percent_encoding };
        assert(r@.fields =~= self@.fields.push((name@, part@)));
        r
    }

    /// Writes names with the path-segment encoding.
    pub fn percent_encode_path_seqment(self) -> (r: Self)
        ensures
            r@ == (FormView { encoding: PercentEncoding::PathSegment, ..self@ }),
    {
        Form { percent_encoding: PercentEncoding::PathSegment, ..self }
    }

    /// Writes names with the `attr-char` encoding of RFC 8187.
    pub fn percent_encode_attr_char(self) -> (r: Self)
        ensures
            r@ == (FormView { encoding: PercentEncoding::AttrChar, ..self@ }),
    {
        Form { percent_encoding: PercentEncoding::AttrChar, ..self }
    }

    /// Writes names as they are.
    pub fn percent_encode_noop(self) -> (r: Self)
        ensures
            r@ == (FormView { encoding: PercentEncoding::NoOp, ..self@ }),
    {
        Form { percent_encoding: PercentEncoding::NoOp, ..self }
    }
}


impl<S> Form<S> {
    /// The length of the body, or `None` when the length of a part's value is
    /// not known.
    pub fn compute_length(&self) -> (r: Option<u64>)
        requires
            fields_bound(self@.encoding, self@.fields) + 2 + BOUNDARY_LEN + 4 <= u64::MAX,
        ensures
            match r {
                Some(n) => form_length(self@) == Some(n as int),
                None => form_length(self@) is None,
            },
    {
        let ghost enc = self@.encoding;
        let ghost fields = self@.fields;
        let mut length: u64 = 0;
        let mut i: usize = 0;
        proof {
            assert(fields.take(0) =~= Seq::<(Seq<char>, PartView<S>)>::empty());
        }
        while i < self.fields.len()
            invariant
                i <= self.fields@.len(),
                fields == self@.fields,
                enc == self@.encoding,
                fields.len() == self.fields@.len(),
                fields_length(enc, fields.take(i as int)) == Some(length as int),
                fields_bound(enc, fields.take(i as int)) == length,
                fields_bound(enc, fields) + 2 + BOUNDARY_LEN + 4 <= u64::MAX,
            decreases self.fields@.len() - i,
        {
            let entry = &self.fields[i];
            let ghost prefix = fields.take(i as int);
            let ghost next = fields.take(i + 1);
            proof {
                assert(next.drop_last() =~= prefix);
                assert(next.last() == fields[i as int]);
                assert(fields[i as int] == (entry.0@, entry.1@));
                lemma_bound_monotone(enc, fields, i + 1, fields.len() as int);
                assert(fields.take(fields.len() as int) =~= fields);
            }
            match entry.1.value_length() {
                Some(v) => {
                    let header = self.percent_encoding.encode_headers(entry.0.as_str(), &entry.1.meta);
                    let header_length = header.len() as u64;
                    length = length + 2 + 67 + 2 + header_length + 4 + v + 2;
                },
                None => {
                    proof {
                        lemma_none_extends(enc, fields, i + 1, fields.len() as int);
                    }
                    return None;
                },
            }
            i = i + 1;
        }
        proof {
            assert(fields.take(fields.len() as int) =~= fields);
        }
        if self.fields.len() > 0 {
            length = length + 2 + self.boundary().len() as u64 + 4;
        }
        Some(length)
    }

    /// The body, piece by piece: for each part its delimiter, its headers
    /// with the blank line, its value and a line end; then the terminator.
    /// A form without parts has an empty body.
    pub fn stream(self) -> (r: Vec<Chunk<S>>)
        ensures
            r@.map_values(|c: Chunk<S>| c@) == form_chunks(self@),
    {
        let ghost view = self@;
        let Form { boundary, mut fields, percent_encoding } = self;
        let mut out: Vec<Chunk<S>> = Vec::new();
        if fields.len() == 0 {
            assert(out@.map_values(|c: Chunk<S>| c@) =~= form_chunks(view));
            return out;
        }
        let ghost all = view.fields;
        let n = fields.len();
        let mut k: usize = 0;
        proof {
            assert(all.take(0) =~= Seq::<(Seq<char>, PartView<S>)>::empty());
            assert(fields@.map_values(|f: (String, Part<S>)| (f.0@, f.1@)) =~= all.skip(0));
            assert(out@.map_values(|c: Chunk<S>| c@) =~= Seq::<ChunkView<S>>::empty());
        }
        while k < n
            invariant
                k <= n,
                n == all.len(),
                all == view.fields,
                boundary@ == view.boundary,
                percent_encoding == view.encoding,
                fields@.map_values(|f: (String, Part<S>)| (f.0@, f.1@)) == all.skip(k as int),
                out@.map_values(|c: Chunk<S>| c@) == fields_chunks(
                    view.boundary,
                    view.encoding,
                    all.take(k as int),
                ),
            decreases n - k,
        {
            proof {
                assert(all.skip(k as int).len() == n - k);
            }
            let ghost before = fields@;
            let (name, part) = fields.remove(0);
            proof {
                assert(all.skip(k as int)[0] == all[k as int]);
                assert forall|j: int| 0 <= j < fields@.len() implies fields@.map_values(
                    |f: (String, Part<S>)| (f.0@, f.1@),
                )[j] == #[trigger] all.skip(k + 1)[j] by {
                    assert(fields@[j] == before[j + 1]);
                    assert(before.map_values(|f: (String, Part<S>)| (f.0@, f.1@))[j + 1] == all.skip(
                        k as int,
                    )[j + 1]);
                }
                assert(all.take(k + 1).drop_last() =~= all.take(k as int));
                assert(all.take(k + 1).last() == all[k as int]);
                assert(fields@.map_values(|f: (String, Part<S>)| (f.0@, f.1@)) =~= all.skip(k + 1));
            }
            push_part_chunks(&boundary, percent_encoding, name, part, &mut out);
            k = k + 1;
        }
        proof {
            assert(all.take(n as int) =~= all);
        }
        let ghost before = out@;
        out.push(Chunk::Bytes(boundary.terminator()));
        assert(out@.map_values(|c: Chunk<S>| c@) =~= before.map_values(|c: Chunk<S>| c@) + seq![
            ChunkView::Bytes(terminator_bytes(view.boundary)),
        ]);
        out
    }
}

fn push_part_chunks<S>(
    boundary: &Boundary,
    enc: PercentEncoding,
    name: String,
    part: Part<S>,
    out: &mut Vec<Chunk<S>>,
)
    ensures
        final(out)@.map_values(|c: Chunk<S>| c@) == old(out)@.map_values(|c: Chunk<S>| c@)
            + part_chunks(boundary@, enc, name@, part@),
{
    let ghost start = old(out)@.map_values(|c: Chunk<S>| c@);
    out.push(Chunk::Bytes(boundary.delimiter()));
    let mut header = enc.encode_headers(name.as_str(), &part.meta);
    header.push('\r' as u8);
    header.push('\n' as u8);
    header.push('\r' as u8);
    header.push('\n' as u8);
    assert(header@ =~= header_bytes(enc, name@, part@.file_name, part@.mime) + crlf() + crlf());
    let ghost after_delimiter = out@;
    assert(after_delimiter.map_values(|c: Chunk<S>| c@) =~= start + seq![
        ChunkView::Bytes(delimiter_bytes(boundary@)),
    ]);
    out.push(Chunk::Bytes(header));
    let ghost mid = out@.map_values(|c: Chunk<S>| c@);
    assert(mid =~= start + seq![
        ChunkView::Bytes(delimiter_bytes(boundary@)),
        ChunkView::Bytes(header_bytes(enc, name@, part@.file_name, part@.mime) + crlf() + crlf()),
    ]);
    let ghost value = part@.value;
    part.value.into_chunks(out);
    let ghost after_value = out@;
    out.push(Chunk::Bytes(crlf_vec()));
    assert(out@.map_values(|c: Chunk<S>| c@) =~= after_value.map_values(|c: Chunk<S>| c@) + seq![
        ChunkView::Bytes(crlf()),
    ]);
    assert(out@.map_values(|c: Chunk<S>| c@) =~= start + part_chunks(boundary@, enc, name@, part@));
}

fn crlf_vec() -> (r: Vec<u8>)
    ensures
        r@ == crlf(),
{
    let mut v: Vec<u8> = Vec::new();
    v.push('\r' as u8);
    v.push('\n' as u8);
    assert(v@ =~= crlf());
    v
}

proof fn lemma_bound_monotone<S>(
    enc: PercentEncoding,
    fields: Seq<(Seq<char>, PartView<S>)>,
    i: int,
    j: int,
)
    requires
        0 <= i <= j <= fields.len(),
    ensures
        fields_bound(enc, fields.take(i)) <= fields_bound(enc, fields.take(j)),
    decreases j - i,
{
    if i < j {
        lemma_bound_monotone(enc, fields, i, j - 1);
        assert(fields.take(j).drop_last() =~= fields.take(j - 1));
        let last = fields.take(j).last();
        match part_size(enc, last.0, last.1) {
            Some(b) => {
                assert(b >= 0);
            },
            None => {},
        }
    }
}

proof fn lemma_none_extends<S>(
    enc: PercentEncoding,
    fields: Seq<(Seq<char>, PartView<S>)>,
    i: int,
    j: int,
)
    requires
        0 <= i <= j <= fields.len(),
        fields_length(enc, fields.take(i)) is None,
    ensures
        fields_length(enc, fields.take(j)) is None,
        j == fields.len() ==> fields_length(enc, fields) is None,
    decreases j - i,
{
    if i < j {
        lemma_none_extends(enc, fields, i, j - 1);
        assert(fields.take(j).drop_last() =~= fields.take(j - 1));
    }
    if j == fields.len() {
        assert(fields.take(j) =~= fields);
    }
}

/// The number of bytes the pieces give, where `yielded` tells how many bytes
/// a stream gives.
pub open spec fn streamed_len<S>(chunks: Seq<ChunkView<S>>, yielded: spec_fn(S) -> int) -> int
    decreases chunks.len(),
{
    if chunks.len() == 0 {
        0
    } else {
        streamed_len(chunks.drop_last(), yielded) + match chunks.last() {
            ChunkView::Bytes(b) => b.len() as int,
            ChunkView::Stream(s) => yielded(s),
        }
    }
}

proof fn lemma_streamed_len_add<S>(
    a: Seq<ChunkView<S>>,
    b: Seq<ChunkView<S>>,
    yielded: spec_fn(S) -> int,
)
    ensures
        streamed_len(a + b, yielded) == streamed_len(a, yielded) + streamed_len(b, yielded),
    decreases b.len(),
{
    if b.len() == 0 {
        assert(a + b =~= a);
    } else {
        lemma_streamed_len_add(a, b.drop_last(), yielded);
        assert((a + b).drop_last() =~= a + b.drop_last());
    }
}

proof fn lemma_streamed_len_single<S>(c: ChunkView<S>, yielded: spec_fn(S) -> int)
    ensures
        streamed_len(seq![c], yielded) == match c {
            ChunkView::Bytes(b) => b.len() as int,
            ChunkView::Stream(s) => yielded(s),
        },
{
    let single = seq![c];
    assert(single.drop_last() =~= Seq::<ChunkView<S>>::empty());
    assert(streamed_len(Seq::<ChunkView<S>>::empty(), yielded) == 0);
    assert(single.last() == c);
    assert(single.len() == 1);
}

/// A part whose value gives as many bytes as the part's length says: bytes
/// whose length is the part's, or a stream that gives, by `yielded`, the
/// length the part declares or its size hint bounds.
pub open spec fn yields_value_length<S>(p: PartView<S>, yielded: spec_fn(S) -> int) -> bool {
    match p.value {
        ValueView::Bytes(b) => value_length(p) == Some(b.len() as int),
        ValueView::Stream(s, _) => value_length(p) == Some(yielded(s)),
    }
}

/// When every part's value gives as many bytes as its part's length says —
/// bytes without another declared length, a stream made with its length
/// that yields exactly that many bytes — `compute_length` gives exactly the
/// number of bytes that `stream` produces.
pub proof fn lemma_length_is_streamed_length<S>(f: FormView<S>, yielded: spec_fn(S) -> int)
    requires
        f.boundary.len() == BOUNDARY_LEN,
        forall|i: int| 0 <= i < f.fields.len() ==> yields_value_length(#[trigger] f.fields[i].1, yielded),
    ensures
        form_length(f) == Some(streamed_len(form_chunks(f), yielded)),
{
    lemma_fields_length_is_streamed_len(f.boundary, f.encoding, f.fields, yielded);
    if f.fields.len() > 0 {
        lemma_streamed_len_add(
            fields_chunks(f.boundary, f.encoding, f.fields),
            seq![ChunkView::Bytes(terminator_bytes(f.boundary))],
            yielded,
        );
        lemma_streamed_len_single::<S>(ChunkView::Bytes(terminator_bytes(f.boundary)), yielded);
    }
}

proof fn lemma_fields_length_is_streamed_len<S>(
    boundary: Seq<u8>,
    enc: PercentEncoding,
    fields: Seq<(Seq<char>, PartView<S>)>,
    yielded: spec_fn(S) -> int,
)
    requires
        boundary.len() == BOUNDARY_LEN,
        forall|i: int| 0 <= i < fields.len() ==> yields_value_length(#[trigger] fields[i].1, yielded),
    ensures
        fields_length(enc, fields) == Some(streamed_len(fields_chunks(boundary, enc, fields), yielded)),
    decreases fields.len(),
{
    if fields.len() > 0 {
        let prefix = fields.drop_last();
        assert forall|i: int| 0 <= i < prefix.len() implies yields_value_length(
            #[trigger] prefix[i].1,
            yielded,
        ) by {
            assert(prefix[i] == fields[i]);
        }
        lemma_fields_length_is_streamed_len(boundary, enc, prefix, yielded);
        let (name, p) = fields.last();
        assert(yields_value_length(fields[fields.len() - 1].1, yielded));
        let pc = part_chunks(boundary, enc, name, p);
        lemma_streamed_len_add(fields_chunks(boundary, enc, prefix), pc, yielded);
        let h = header_bytes(enc, name, p.file_name, p.mime);
        let c1 = ChunkView::<S>::Bytes(delimiter_bytes(boundary));
        let c2 = ChunkView::<S>::Bytes(h + crlf() + crlf());
        let c3 = ChunkView::<S>::Bytes(crlf());
        let head = seq![c1, c2];
        let vc = value_chunks(p.value);
        let tail = seq![c3];
        lemma_streamed_len_add(head + vc, tail, yielded);
        lemma_streamed_len_add(head, vc, yielded);
        lemma_streamed_len_single(c1, yielded);
        lemma_streamed_len_single(c2, yielded);
        lemma_streamed_len_single(c3, yielded);
        lemma_streamed_len_add(seq![c1], seq![c2], yielded);
        assert(seq![c1] + seq![c2] =~= head);
        assert(head + vc + tail =~= pc);
        match p.value {
            ValueView::Bytes(b) => {
                if b.len() > 0 {
                    lemma_streamed_len_single(ChunkView::<S>::Bytes(b), yielded);
                } else {
                    assert(streamed_len(vc, yielded) == 0);
                }
            },
            ValueView::Stream(st, _) => {
                lemma_streamed_len_single(ChunkView::<S>::Stream(st), yielded);
            },
        }
    }
}

/// Inside the quotes of a file name, backslash, quote, carriage return and
/// line feed are each written after a backslash; every other byte is
/// written as it is.
pub proof fn lemma_file_name_escapes(b: u8)
    ensures
        (b == 0x5c || b == 0x22 || b == 0x0d || b == 0x0a) ==> escape_byte(b) == seq![0x5cu8, b],
        !(b == 0x5c || b == 0x22 || b == 0x0d || b == 0x0a) ==> escape_byte(b) == seq![b],
{
}

/// The headers of a part whose name is made of letters, digits, `-`, `.`,
/// `_` and `~`: whatever the encoding, the name is written as it is between
/// quotes, `Content-Disposition: form-data; name="..."`, followed by the
/// file name and the MIME type when they are set.
pub proof fn lemma_plain_name_header(
    enc: PercentEncoding,
    name: Seq<char>,
    file_name: Option<Seq<char>>,
    mime: Option<Seq<char>>,
)
    requires
        forall|i: int| 0 <= i < name.len() ==> is_unreserved(#[trigger] name[i]),
    ensures
        header_bytes(enc, name, file_name, mime) == encode_utf8("Content-Disposition: form-data; "@)
            + encode_utf8("name=\""@) + encode_utf8(name) + encode_utf8("\""@) + file_part(
            file_name,
        ) + mime_part(mime),
{
    match enc {
        PercentEncoding::PathSegment => lemma_unreserved_kept(EncodeSet::PathSegment, name),
        PercentEncoding::AttrChar => lemma_unreserved_kept(EncodeSet::AttrChar, name),
        PercentEncoding::NoOp => {},
    }
}

} // verus!
