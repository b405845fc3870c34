//! The JSON that travels between the library and the playground.
//!
//! Requests are flat JSON objects whose members hold strings and booleans.
//! The library lays an object out itself and leaves the quoting of strings
//! to `serde_json`. Replies are parsed by `serde_json`; the library reads
//! the members it needs from the parsed document.

use vstd::prelude::*;
use crate::json::{flag_at, flag_member, members, quote, quoted, text_at, text_member, Item};

verus! {

/// The value of a request member, as it is known to contracts.
pub enum DatumView {
    /// A string.
    Text(Seq<char>),
    /// A boolean.
    Flag(bool),
}

/// A request member, as it is known to contracts.
pub struct MemberView {
    /// The member's name.
    pub name: Seq<char>,
    /// The member's value.
    pub value: DatumView,
}

/// The value of a request member.
pub enum Datum<'a> {
    /// A string.
    Text(&'a str),
    /// A boolean.
    Flag(bool),
}

/// A request member: a name and what goes under it.
pub struct Member<'a> {
    /// The member's name.
    pub name: &'static str,
    /// The member's value.
    pub value: Datum<'a>,
}

impl<'a> View for Datum<'a> {
    type V = DatumView;

    open spec fn view(&self) -> DatumView {
        match *self {
            Datum::Text(text) => DatumView::Text(text@),
            Datum::Flag(flag) => DatumView::Flag(flag),
        }
    }
}

impl<'a> View for Member<'a> {
    type V = MemberView;

    open spec fn view(&self) -> MemberView {
        MemberView { name: self.name@, value: self.value@ }
    }
}

/// The byte `{`, which opens a JSON object.
pub const OPEN: u8 = 0x7b;

/// The byte `}`, which closes a JSON object.
pub const CLOSE: u8 = 0x7d;

/// The byte `,`, which parts the members of a JSON object.
pub const COMMA: u8 = 0x2c;

/// The byte `:`, which parts a member's name from its value.
pub const COLON: u8 = 0x3a;

/// The members of a list, each as contracts know it.
pub open spec fn member_views(list: Seq<Member<'_>>) -> Seq<MemberView> {
    Seq::new(list.len(), |i: int| list[i]@)
}

/// The bytes of each part of a list.
pub open spec fn part_views(parts: Seq<Vec<u8>>) -> Seq<Seq<u8>> {
    Seq::new(parts.len(), |i: int| parts[i]@)
}

/// The JSON text `true`.
pub open spec fn true_text() -> Seq<u8> {
    seq![0x74u8, 0x72u8, 0x75u8, 0x65u8]
}

/// The JSON text `false`.
pub open spec fn false_text() -> Seq<u8> {
    seq![0x66u8, 0x61u8, 0x6cu8, 0x73u8, 0x65u8]
}

/// The JSON text of a member's value.
pub open spec fn datum_text(value: DatumView) -> Option<Seq<u8>> {
    match value {
        DatumView::Text(text) => quoted(text),
        DatumView::Flag(flag) => Some(
            if flag {
                true_text()
            } else {
                false_text()
            },
        ),
    }
}

/// The JSON text of a member: its quoted name, a colon, its value.
pub open spec fn member_text(member: MemberView) -> Option<Seq<u8>> {
    match (quoted(member.name), datum_text(member.value)) {
        (Some(name), Some(value)) => Some(name + seq![COLON] + value),
        _ => None,
    }
}

/// The parts of a list, with a comma between each two neighbours.
pub open spec fn joined(parts: Seq<Seq<u8>>) -> Seq<u8>
    decreases parts.len(),
{
    if parts.len() == 0 {
        Seq::empty()
    } else if parts.len() == 1 {
        parts[0]
    } else {
        joined(parts.drop_last()) + seq![COMMA] + parts.last()
    }
}

/// A JSON object made of the given parts: the parts joined by commas,
/// between braces.
pub open spec fn framed(parts: Seq<Seq<u8>>) -> Seq<u8> {
    seq![OPEN] + joined(parts) + seq![CLOSE]
}

/// The JSON text of each member of a list, where every member has one.
pub open spec fn member_texts(list: Seq<MemberView>) -> Option<Seq<Seq<u8>>> {
    if forall|i: int| 0 <= i < list.len() ==> (#[trigger] member_text(list[i])) is Some {
        Some(Seq::new(list.len(), |i: int| member_text(list[i])->Some_0))
    } else {
        None
    }
}

/// The JSON object that holds the given members, in their order.
pub open spec fn object_text(list: Seq<MemberView>) -> Option<Seq<u8>> {
    match member_texts(list) {
        Some(parts) => Some(framed(parts)),
        None => None,
    }
}

/// A request: something that goes out as a flat JSON object.
pub trait Payload {
    /// The members of the object, in the order in which they are written.
    spec fn wire(&self) -> Seq<MemberView>;

    /// Lists the members of the object, in the order in which they are
    /// written.
    fn members(&self) -> (list: Vec<Member<'_>>)
        ensures
            member_views(list@) == self.wire(),
    ;
}

/// A reply: something that is read from the members of a JSON object.
pub trait Answer: View + Sized {
    /// What the members of a document amount to: the reply, or the name of
    /// the first member that is missing or holds the wrong kind of value.
    spec fn read(doc: Map<Seq<char>, Item>) -> Result<Self::V, Seq<char>>;

    /// Reads the reply from a parsed document.
    fn decode(doc: &serde_json::Value) -> (read: Result<Self, &'static str>)
        ensures
            match read {
                Ok(reply) => Self::read(members(*doc)) == Ok::<Self::V, Seq<char>>(reply@),
                Err(field) => Self::read(members(*doc)) == Err::<Self::V, Seq<char>>(field@),
            },
    ;
}

/// Reads the string that a reply must hold under a name, or answers with
/// the name.
pub fn required_text(doc: &serde_json::Value, name: &'static str) -> (read: Result<
    String,
    &'static str,
>)
    ensures
        match read {
            Ok(text) => text_at(members(*doc), name@) == Some(text@),
            Err(field) => text_at(members(*doc), name@) is None && field == name,
        },
{
    match text_member(doc, name) {
        Some(text) => Ok(text),
        None => Err(name),
    }
}

/// Reads the boolean that a reply must hold under a name, or answers with
/// the name.
pub fn required_flag(doc: &serde_json::Value, name: &'static str) -> (read: Result<
    bool,
    &'static str,
>)
    ensures
        match read {
            Ok(flag) => flag_at(members(*doc), name@) == Some(flag),
            Err(field) => flag_at(members(*doc), name@) is None && field == name,
        },
{
    match flag_member(doc, name) {
        Some(flag) => Ok(flag),
        None => Err(name),
    }
}

/// Appends bytes to a buffer.
fn push_all(out: &mut Vec<u8>, bytes: &[u8])
    ensures
        final(out)@ == old(out)@ + bytes@,
{
    let mut i: usize = 0;
    while i < bytes.len()
        invariant
            i <= bytes@.len(),
            out@ == old(out)@ + bytes@.take(i as int),
        decreases bytes@.len() - i,
    {
        out.push(bytes[i]);
        i += 1;
    }
}

/// Lays out a JSON object from the texts of its members.
pub fn assemble(parts: &Vec<Vec<u8>>) -> (text: Vec<u8>)
    ensures
        text@ == framed(part_views(parts@)),
{
    let mut out: Vec<u8> = Vec::new();
    out.push(OPEN);
    let mut i: usize = 0;
    while i < parts.len()
        invariant
            i <= parts@.len(),
            out@ == seq![OPEN] + joined(part_views(parts@).take(i as int)),
        decreases parts@.len() - i,
    {
        assert(part_views(parts@).take(i + 1).drop_last() == part_views(parts@).take(i as int));
        if i > 0 {
            out.push(COMMA);
        }
        push_all(&mut out, parts[i].as_slice());
        i += 1;
    }
    assert(part_views(parts@).take(i as int) == part_views(parts@));
    out.push(CLOSE);
    out
}

/// Writes the JSON text of one member.
fn write_member(member: &Member<'_>) -> (written: Result<Vec<u8>, serde_json::Error>)
    ensures
        match written {
            Ok(bytes) => member_text(member@) == Some(bytes@),
            Err(_) => member_text(member@) is None,
        },
{
    let mut out = match quote(member.name) {
        Ok(name) => name,
        Err(cause) => {
            return Err(cause);
        },
    };
    out.push(COLON);
    match member.value {
        Datum::Text(text) => match quote(text) {
            Ok(value) => {
                push_all(&mut out, value.as_slice());
            },
            Err(cause) => {
                return Err(cause);
            },
        },
        Datum::Flag(true) => {
            let word: [u8; 4] = [0x74u8, 0x72u8, 0x75u8, 0x65u8];
            push_all(&mut out, word.as_slice());
        },
        Datum::Flag(false) => {
            let word: [u8; 5] = [0x66u8, 0x61u8, 0x6cu8, 0x73u8, 0x65u8];
            push_all(&mut out, word.as_slice());
        },
    }
    Ok(out)
}

/// Writes the JSON object that holds the given members, in their order.
///
/// Quoting is left to `serde_json`: where it fails for a name or a string,
/// its error is handed back and no object is written.
pub fn encode(list: &Vec<Member<'_>>) -> (written: Result<Vec<u8>, serde_json::Error>)
    ensures
        match written {
            Ok(bytes) => object_text(member_views(list@)) == Some(bytes@),
            Err(_) => object_text(member_views(list@)) is None,
        },
{
    let mut parts: Vec<Vec<u8>> = Vec::new();
    let mut i: usize = 0;
    while i < list.len()
        invariant
            i <= list@.len(),
            parts@.len() == i,
            forall|j: int|
                0 <= j < i ==> member_text(#[trigger] member_views(list@)[j]) == Some(
                    parts@[j]@,
                ),
        decreases list@.len() - i,
    {
        match write_member(&list[i]) {
            Ok(part) => {
                parts.push(part);
            },
            Err(cause) => {
                assert(member_text(member_views(list@)[i as int]) is None);
                return Err(cause);
            },
        }
        i += 1;
    }
    let text = assemble(&parts);
    assert(member_texts(member_views(list@))->Some_0 == part_views(parts@));
    Ok(text)
}

} // verus!
