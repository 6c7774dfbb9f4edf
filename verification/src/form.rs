//! The `application/x-www-form-urlencoded` syntax, as queries and request
//! bodies use it.

use url::form_urlencoded::Serializer;
use vstd::prelude::*;
use vstd::utf8::encode_utf8;

verus! {

/// A name and a value, both as text.
pub type Pair = (Seq<char>, Seq<char>);

/// Whether the serializer leaves the byte `b` as it is: `*`, `-`, `.`, `_`,
/// the ASCII digits and the ASCII letters.
pub open spec fn is_unreserved(b: u8) -> bool {
    b == 0x2A || b == 0x2D || b == 0x2E || b == 0x5F || (0x30 <= b <= 0x39) || (0x41 <= b <= 0x5A)
        || (0x61 <= b <= 0x7A)
}

/// The upper-case hexadecimal digit for a value below sixteen.
pub open spec fn hex_digit(n: int) -> char {
    if n < 10 {
        crate::text::digit_char(n)
    } else if n == 10 {
        'A'
    } else if n == 11 {
        'B'
    } else if n == 12 {
        'C'
    } else if n == 13 {
        'D'
    } else if n == 14 {
        'E'
    } else {
        'F'
    }
}

/// How one byte is written: unreserved bytes stand for themselves, a space
/// becomes `+`, and every other byte becomes `%` and two hexadecimal digits.
pub open spec fn encoded_byte(b: u8) -> Seq<char> {
    if is_unreserved(b) {
        seq![b as char]
    } else if b == 0x20 {
        seq!['+']
    } else {
        seq!['%', hex_digit(b as int / 16), hex_digit(b as int % 16)]
    }
}

/// How a run of bytes is written: byte by byte.
pub open spec fn encoded_bytes(bytes: Seq<u8>) -> Seq<char>
    decreases bytes.len(),
{
    if bytes.len() == 0 {
        Seq::empty()
    } else {
        encoded_bytes(bytes.drop_last()) + encoded_byte(bytes.last())
    }
}

/// How a name or a value is written: the encoding of its UTF-8 bytes.
pub open spec fn form_component(text: Seq<char>) -> Seq<char> {
    encoded_bytes(encode_utf8(text))
}

/// The text after one more pair: an `&` if anything stands there already,
/// then the name, `=`, and the value.
pub open spec fn form_append(text: Seq<char>, name: Seq<char>, value: Seq<char>) -> Seq<char> {
    let separator = if text.len() > 0 {
        seq!['&']
    } else {
        Seq::empty()
    };
    text + separator + form_component(name) + seq!['='] + form_component(value)
}

/// The serialized form of a list of pairs.
pub open spec fn form_text(pairs: Seq<Pair>) -> Seq<char>
    decreases pairs.len(),
{
    if pairs.len() == 0 {
        Seq::empty()
    } else {
        form_append(form_text(pairs.drop_last()), pairs.last().0, pairs.last().1)
    }
}

/// A pair as it stands in a form: the name, `=`, and the value.
pub open spec fn pair_text(pair: Pair) -> Seq<char> {
    form_component(pair.0) + seq!['='] + form_component(pair.1)
}

/// Whether `part` occurs in `text` as a run of consecutive characters.
pub open spec fn contains_text(text: Seq<char>, part: Seq<char>) -> bool {
    exists|at: int|
        0 <= at && at + part.len() <= text.len() && #[trigger] text.subrange(
            at,
            at + part.len(),
        ) == part
}

/// Whether a text is made of characters that the serializer leaves as they
/// are.
pub open spec fn unreserved_text(text: Seq<char>) -> bool {
    forall|i: int|
        0 <= i < text.len() ==> '\0' <= (#[trigger] text[i]) <= '\u{7f}' && is_unreserved(
            text[i] as u8,
        )
}

/// Every pair of a form stands in its text.
pub proof fn lemma_form_text_holds_each_pair(pairs: Seq<Pair>, k: int)
    requires
        0 <= k < pairs.len(),
    ensures
        contains_text(form_text(pairs), pair_text(pairs[k])),
    decreases pairs.len(),
{
    let rest = pairs.drop_last();
    let before = form_text(rest);
    let separator = if before.len() > 0 {
        seq!['&']
    } else {
        Seq::<char>::empty()
    };
    let last = pair_text(pairs.last());
    let whole = form_text(pairs);
    if k == pairs.len() - 1 {
        let at = (before.len() + separator.len()) as int;
        assert(whole.subrange(at, at + last.len()) =~= last);
    } else {
        lemma_form_text_holds_each_pair(rest, k);
        let part = pair_text(rest[k]);
        let at = choose|at: int|
            0 <= at && at + part.len() <= before.len() && #[trigger] before.subrange(
                at,
                at + part.len(),
            ) == part;
        assert(whole.subrange(at, at + part.len()) =~= before.subrange(at, at + part.len()));
    }
}

/// Bytes that the serializer leaves as they are come out as the characters
/// that they are.
proof fn lemma_unreserved_bytes(text: Seq<char>, bytes: Seq<u8>)
    requires
        unreserved_text(text),
        bytes.len() == text.len(),
        forall|i: int| 0 <= i < text.len() ==> text[i] as u8 == #[trigger] bytes[i],
    ensures
        encoded_bytes(bytes) == text,
    decreases bytes.len(),
{
    if bytes.len() > 0 {
        lemma_unreserved_bytes(text.drop_last(), bytes.drop_last());
    }
}

/// A name or value made of characters that the serializer leaves as they
/// are is written as it is.
pub proof fn lemma_unreserved_component(text: Seq<char>)
    requires
        unreserved_text(text),
    ensures
        form_component(text) == text,
{
    vstd::utf8::is_ascii_chars_encode_utf8(text);
    lemma_unreserved_bytes(text, encode_utf8(text));
}

/// The serializer of the `url` crate, writing into a string of its own. It
/// is kept behind a type of this crate because the serializer's own type is
/// bound by a trait of the `url` crate.
#[verifier::external_body]
pub struct FormSerializer {
    inner: Serializer<'static, String>,
}

/// The text that a serializer has written so far.
pub uninterp spec fn serializer_text(serializer: FormSerializer) -> Seq<char>;

/// Calls `Serializer::new` on an empty string: nothing is written yet.
#[verifier::external_body]
fn serializer_new() -> (serializer: FormSerializer)
    ensures
        serializer_text(serializer) == Seq::<char>::empty(),
{
    FormSerializer { inner: Serializer::new(String::new()) }
}

/// Calls `Serializer::append_pair`, which writes a separator where one is
/// due, then the encoded name, `=`, and the encoded value.
#[verifier::external_body]
fn serializer_append_pair(serializer: &mut FormSerializer, name: &str, value: &str)
    ensures
        serializer_text(*final(serializer)) == form_append(
            serializer_text(*old(serializer)),
            name@,
            value@,
        ),
{
    serializer.inner.append_pair(name, value);
}

/// Calls `Serializer::finish`, which hands out the text written. Taking the
/// serializer by value keeps it from being used afterwards.
#[verifier::external_body]
fn serializer_finish(serializer: FormSerializer) -> (text: String)
    ensures
        text@ == serializer_text(serializer),
{
    let mut serializer = serializer;
    serializer.inner.finish()
}

/// Collects pairs and writes them out in the form syntax.
pub struct FormWriter {
    serializer: FormSerializer,
    pairs: Ghost<Seq<Pair>>,
}

impl FormWriter {
    /// The pairs written so far, in order.
    pub closed spec fn pairs(&self) -> Seq<Pair> {
        self.pairs@
    }

    /// The text written is the serialized form of the pairs.
    pub closed spec fn wf(&self) -> bool {
        serializer_text(self.serializer) == form_text(self.pairs@)
    }

    /// A writer that holds no pair yet.
    pub fn new() -> (writer: FormWriter)
        ensures
            writer.wf(),
            writer.pairs() == Seq::<Pair>::empty(),
    {
        FormWriter { serializer: serializer_new(), pairs: Ghost(Seq::empty()) }
    }

    /// Adds one pair after those already written.
    pub fn append_pair(&mut self, name: &str, value: &str)
        requires
            old(self).wf(),
        ensures
            final(self).wf(),
            final(self).pairs() == old(self).pairs().push((name@, value@)),
    {
        serializer_append_pair(&mut self.serializer, name, value);
        proof {
            let before = self.pairs@;
            let after = before.push((name@, value@));
            assert(after.drop_last() =~= before);
            self.pairs@ = after;
        }
    }

    /// Ends the writing and returns the text.
    pub fn finish(self) -> (text: String)
        requires
            self.wf(),
        ensures
            text@ == form_text(self.pairs()),
    {
        serializer_finish(self.serializer)
    }
}

} // verus!
