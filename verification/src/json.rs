//! JSON text for request bodies: strings, arrays of strings, and objects with
//! fixed member names.

use vstd::prelude::*;
use vstd::string::StringExecFns;

verus! {

/// The lower-case hexadecimal digit for a value below sixteen.
pub open spec fn lower_hex_digit(n: int) -> char {
    if n < 10 {
        crate::text::digit_char(n)
    } else if n == 10 {
        'a'
    } else if n == 11 {
        'b'
    } else if n == 12 {
        'c'
    } else if n == 13 {
        'd'
    } else if n == 14 {
        'e'
    } else {
        'f'
    }
}

/// How one character stands inside a JSON string: the quote, the backslash
/// and the control characters are escaped, every other character stands for
/// itself.
pub open spec fn json_char(c: char) -> Seq<char> {
    if c == '"' {
        seq!['\\', '"']
    } else if c == '\\' {
        seq!['\\', '\\']
    } else if c == '\u{8}' {
        seq!['\\', 'b']
    } else if c == '\t' {
        seq!['\\', 't']
    } else if c == '\n' {
        seq!['\\', 'n']
    } else if c == '\u{c}' {
        seq!['\\', 'f']
    } else if c == '\r' {
        seq!['\\', 'r']
    } else if (c as u32) < 0x20 {
        seq!['\\', 'u', '0', '0', lower_hex_digit(c as u32 as int / 16), lower_hex_digit(c as u32 as int % 16)]
    } else {
        seq![c]
    }
}

/// How a run of characters stands inside a JSON string.
pub open spec fn json_chars(text: Seq<char>) -> Seq<char>
    decreases text.len(),
{
    if text.len() == 0 {
        Seq::empty()
    } else {
        json_chars(text.drop_last()) + json_char(text.last())
    }
}

/// The JSON string for a text: its characters between quotes.
pub open spec fn json_string_text(text: Seq<char>) -> Seq<char> {
    seq!['"'] + json_chars(text) + seq!['"']
}

/// Pieces of text with a comma between each two.
pub open spec fn comma_separated(items: Seq<Seq<char>>) -> Seq<char>
    decreases items.len(),
{
    if items.len() == 0 {
        Seq::empty()
    } else if items.len() == 1 {
        items[0]
    } else {
        comma_separated(items.drop_last()) + seq![','] + items.last()
    }
}

/// The JSON array of elements that are JSON texts already.
pub open spec fn json_array(elements: Seq<Seq<char>>) -> Seq<char> {
    seq!['['] + comma_separated(elements) + seq![']']
}

/// The JSON array of the strings for some texts.
pub open spec fn json_string_array(texts: Seq<Seq<char>>) -> Seq<char> {
    json_array(texts.map_values(|text: Seq<char>| json_string_text(text)))
}

/// One member of a JSON object: a name that needs no escaping, and a value
/// that is JSON text already.
pub type Member = (Seq<char>, Seq<char>);

/// A member as it stands in an object: the quoted name, a colon, the value.
pub open spec fn json_member(member: Member) -> Seq<char> {
    seq!['"'] + member.0 + seq!['"', ':'] + member.1
}

/// The JSON object with the given members, in their order.
pub open spec fn json_object(members: Seq<Member>) -> Seq<char> {
    seq!['{'] + comma_separated(members.map_values(|member: Member| json_member(member)))
        + seq!['}']
}

/// Calls `serde_json::to_string` on a string slice. The call fails only
/// where a value refuses to be serialized or a map has keys that are no
/// strings; a string slice is neither, and it is written into memory, so the
/// call succeeds. What comes back is the text between quotes, with `"` and
/// `\` escaped by a backslash, the control characters below U+0020 written as
/// `\b`, `\t`, `\n`, `\f`, `\r` or `\u00` and two lower-case hexadecimal
/// digits, and everything else unchanged.
#[verifier::external_body]
pub(crate) fn json_string(text: &str) -> (r: Result<String, serde_json::Error>)
    ensures
        r is Ok,
        r matches Ok(json) ==> json@ == json_string_text(text@),
{
    serde_json::to_string(text)
}

/// Text in the making: an opening, then pieces with commas between them.
struct Separated {
    text: String,
    first: bool,
    opening: Ghost<Seq<char>>,
    pieces: Ghost<Seq<Seq<char>>>,
}

impl Separated {
    spec fn wf(&self) -> bool {
        &&& self.text@ == self.opening@ + comma_separated(self.pieces@)
        &&& self.first == (self.pieces@.len() == 0)
    }

    fn new(opening: &str) -> (r: Separated)
        ensures
            r.wf(),
            r.opening@ == opening@,
            r.pieces@ == Seq::<Seq<char>>::empty(),
    {
        Separated {
            text: String::from_str(opening),
            first: true,
            opening: Ghost(opening@),
            pieces: Ghost(Seq::empty()),
        }
    }

    fn push(&mut self, piece: &str)
        requires
            old(self).wf(),
        ensures
            final(self).wf(),
            final(self).opening@ == old(self).opening@,
            final(self).pieces@ == old(self).pieces@.push(piece@),
    {
        proof {
            reveal_strlit(",");
        }
        let ghost before = self.pieces@;
        let ghost after = before.push(piece@);
        assert(after.drop_last() =~= before);
        if !self.first {
            self.text.append(",");
        }
        self.text.append(piece);
        self.first = false;
        proof {
            self.pieces@ = after;
        }
        assert(self.text@ =~= self.opening@ + comma_separated(after));
    }

    fn finish(self, closing: &str) -> (r: String)
        requires
            self.wf(),
        ensures
            r@ == self.opening@ + comma_separated(self.pieces@) + closing@,
    {
        let mut text = self.text;
        text.append(closing);
        text
    }
}

/// Calls `serde_json::to_string` on a vector of strings. A vector is
/// written as `[`, its elements with a `,` between each two, and `]`; each
/// element is written as a string slice is. Nothing in it can refuse to be
/// serialized and there is no map in it, so the call succeeds.
#[verifier::external_body]
pub(crate) fn json_strings(texts: &Vec<String>) -> (r: Result<String, serde_json::Error>)
    ensures
        r is Ok,
        r matches Ok(json) ==> json@ == json_string_array(
            texts@.map_values(|text: String| text@),
        ),
{
    serde_json::to_string(texts)
}

/// A JSON object in the making.
pub(crate) struct JsonObject {
    list: Separated,
    members: Ghost<Seq<Member>>,
}

impl JsonObject {
    /// The members written so far, in order.
    pub(crate) closed spec fn members(&self) -> Seq<Member> {
        self.members@
    }

    /// The text written is the opening brace and the members.
    pub(crate) closed spec fn wf(&self) -> bool {
        &&& self.list.wf()
        &&& self.list.opening@ == seq!['{']
        &&& self.list.pieces@ == self.members@.map_values(|member: Member| json_member(member))
    }

    /// An object without members.
    pub(crate) fn new() -> (r: JsonObject)
        ensures
            r.wf(),
            r.members() == Seq::<Member>::empty(),
    {
        proof {
            reveal_strlit("{");
        }
        let list = Separated::new("{");
        let r = JsonObject { list, members: Ghost(Seq::empty()) };
        assert(r.list.opening@ =~= seq!['{']);
        assert(r.list.pieces@ =~= r.members@.map_values(|member: Member| json_member(member)));
        r
    }

    /// Adds a member whose value is JSON text already. The name is written
    /// as it is: the names of this crate need no escaping.
    pub(crate) fn member(&mut self, name: &str, value: &str)
        requires
            old(self).wf(),
        ensures
            final(self).wf(),
            final(self).members() == old(self).members().push((name@, value@)),
    {
        proof {
            reveal_strlit("\"");
            reveal_strlit("\":");
        }
        let mut piece = String::from_str("\"");
        piece.append(name);
        piece.append("\":");
        piece.append(value);
        assert(piece@ =~= json_member((name@, value@)));
        self.list.push(piece.as_str());
        proof {
            self.members@ = self.members@.push((name@, value@));
        }
        assert(self.list.pieces@ =~= self.members@.map_values(
            |member: Member| json_member(member),
        ));
    }

    /// Closes the object and returns its text.
    pub(crate) fn finish(self) -> (json: String)
        requires
            self.wf(),
        ensures
            json@ == json_object(self.members()),
    {
        proof {
            reveal_strlit("}");
        }
        let json = self.list.finish("}");
        json
    }
}

} // verus!
