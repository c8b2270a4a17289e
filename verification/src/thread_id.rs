//! The ids of threads and their text form.
use crate::collections::Duplicate;
use vstd::prelude::*;
use vstd::string::{StrSliceExecFns, StringExecFns};

verus! {

/// What names a thread.
#[derive(Debug, Clone, Copy, PartialEq, Eq, Structural)]
pub struct ThreadId {
    pub value: u128,
}

impl DeepView for ThreadId {
    type V = ThreadId;

    open spec fn deep_view(&self) -> ThreadId {
        *self
    }
}

/// The character that writes the hexadecimal digit `d`.
pub open spec fn hex_digit(d: nat) -> char {
    if d < 10 {
        ('0' as u32 + d) as char
    } else {
        ('a' as u32 + d - 10) as char
    }
}

/// The last `len` hexadecimal digits of `n`.
pub open spec fn hex_digits(n: nat, len: nat) -> Seq<char>
    decreases len,
{
    if len == 0 {
        Seq::empty()
    } else {
        hex_digits(n / 16, (len - 1) as nat).push(hex_digit(n % 16))
    }
}

/// The text of an id: its 32 hexadecimal digits in groups of 8, 4, 4, 4 and 12.
pub open spec fn id_text(id: ThreadId) -> Seq<char> {
    let digits = hex_digits(id.value as nat, 32);
    digits.subrange(0, 8).push('-') + digits.subrange(8, 12).push('-') + digits.subrange(
        12,
        16,
    ).push('-') + digits.subrange(16, 20).push('-') + digits.subrange(20, 32)
}

/// The first eight digits of an id, which is how labels show it.
pub open spec fn short_id_text(id: ThreadId) -> Seq<char> {
    id_text(id).take(8)
}

/// Whether `a` comes before `b` in a dictionary of texts of one length.
pub open spec fn text_before(a: Seq<char>, b: Seq<char>) -> bool {
    exists|i: int|
        0 <= i < a.len() && i < b.len() && a.take(i) == b.take(i) && (#[trigger] a[i] as u32) < (
        b[i] as u32)
}

fn hex_digit_text(d: u128) -> (text: &'static str)
    requires
        d < 16,
    ensures
        text@ == seq![hex_digit(d as nat)],
{
    proof {
        reveal_strlit("0");
        reveal_strlit("1");
        reveal_strlit("2");
        reveal_strlit("3");
        reveal_strlit("4");
        reveal_strlit("5");
        reveal_strlit("6");
        reveal_strlit("7");
        reveal_strlit("8");
        reveal_strlit("9");
        reveal_strlit("a");
        reveal_strlit("b");
        reveal_strlit("c");
        reveal_strlit("d");
        reveal_strlit("e");
        reveal_strlit("f");
    }
    match d {
        0 => "0",
        1 => "1",
        2 => "2",
        3 => "3",
        4 => "4",
        5 => "5",
        6 => "6",
        7 => "7",
        8 => "8",
        9 => "9",
        10 => "a",
        11 => "b",
        12 => "c",
        13 => "d",
        14 => "e",
        _ => "f",
    }
}

fn hex_text(n: u128, len: u8) -> (text: String)
    ensures
        text@ == hex_digits(n as nat, len as nat),
    decreases len,
{
    if len == 0 {
        String::new()
    } else {
        let text = hex_text(n / 16, len - 1).concat(hex_digit_text(n % 16));
        assert(text@ == hex_digits(n as nat, len as nat));
        text
    }
}

proof fn lemma_hex_len(n: nat, len: nat)
    ensures
        hex_digits(n, len).len() == len,
    decreases len,
{
    if len > 0 {
        lemma_hex_len(n / 16, (len - 1) as nat);
    }
}

/// What the text of a universally unique identifier stands for, where it is one.
pub uninterp spec fn uuid_of(text: Seq<char>) -> Option<u128>;

/// `uuid::Uuid::parse_str`, with the identifier as a number. What it gives is a function of the
/// text alone. Five groups of hexadecimal digits with hyphens between them, as [`id_text`] writes
/// them, give the number that they write; of the other accepted forms nothing is claimed.
#[verifier::external_body]
fn parse_uuid(text: &str) -> (value: Option<u128>)
    ensures
        value == uuid_of(text@),
        forall|id: ThreadId| text@ == #[trigger] id_text(id) ==> value == Some(id.value),
{
    match uuid::Uuid::parse_str(text) {
        Ok(id) => Some(id.as_u128()),
        Err(_) => None,
    }
}

/// Whether a number is marked as an identifier that was drawn at random: version 4, in the
/// layout that versions have.
pub open spec fn is_random_uuid(value: u128) -> bool {
    (value / 0x1000_0000_0000_0000_0000) % 16 == 4 && (value / 0x4000_0000_0000_0000) % 4 == 2
}

/// `uuid::Uuid::new_v4`, with the identifier as a number. Which one comes is chance; claimed is
/// only how it is marked.
#[verifier::external_body]
fn random_uuid() -> (value: u128)
    ensures
        is_random_uuid(value),
{
    uuid::Uuid::new_v4().as_u128()
}

/// A text that names one call and no other: the text of an identifier drawn at random.
pub fn new_call_id() -> (call_id: String)
    ensures
        exists|value: u128| #[trigger] is_random_uuid(value) && call_id@ == id_text(ThreadId { value }),
{
    let value: u128 = random_uuid();
    ThreadId { value }.to_text()
}

impl Duplicate for ThreadId {
    fn duplicate(&self) -> ThreadId {
        *self
    }
}

impl ThreadId {
    /// The id that `text` stands for, where it stands for one. The text of an id stands for that
    /// id.
    pub fn from_string(text: &str) -> (id: Option<ThreadId>)
        ensures
            id == (match uuid_of(text@) {
                Some(value) => Some(ThreadId { value }),
                None => None,
            }),
            forall|written: ThreadId| text@ == #[trigger] id_text(written) ==> id == Some(written),
    {
        match parse_uuid(text) {
            Some(value) => Some(ThreadId { value }),
            None => None,
        }
    }

    /// The text of this id.
    pub fn to_text(&self) -> (text: String)
        ensures
            text@ == id_text(*self),
    {
        let digits = hex_text(self.value, 32);
        proof {
            lemma_hex_len(self.value as nat, 32);
            reveal_strlit("-");
        }
        let digits = digits.as_str();
        let text = digits.substring_char(0, 8).to_owned().concat("-").concat(
            digits.substring_char(8, 12),
        ).concat("-").concat(digits.substring_char(12, 16)).concat("-").concat(
            digits.substring_char(16, 20),
        ).concat("-").concat(digits.substring_char(20, 32));
        assert(text@ == id_text(*self));
        text
    }

    /// The first eight digits of this id.
    pub fn to_short_text(&self) -> (text: String)
        ensures
            text@ == short_id_text(*self),
    {
        let text = self.to_text();
        proof {
            lemma_hex_len(self.value as nat, 32);
        }
        let short = text.as_str().substring_char(0, 8);
        assert(short@ == text@.take(8));
        short.to_owned()
    }
}

spec fn sixteen_to(len: nat) -> nat
    decreases len,
{
    if len == 0 {
        1
    } else {
        16 * sixteen_to((len - 1) as nat)
    }
}

proof fn lemma_hex_order(n: nat, m: nat, len: nat) -> (i: int)
    requires
        n < m < sixteen_to(len),
    ensures
        0 <= i < len,
        hex_digits(n, len).len() == len,
        hex_digits(m, len).len() == len,
        hex_digits(n, len).take(i) == hex_digits(m, len).take(i),
        (hex_digits(n, len)[i] as u32) < (hex_digits(m, len)[i] as u32),
    decreases len,
{
    lemma_hex_len(n, len);
    lemma_hex_len(m, len);
    let shorter = (len - 1) as nat;
    lemma_hex_len(n / 16, shorter);
    lemma_hex_len(m / 16, shorter);
    if n / 16 < m / 16 {
        let i = lemma_hex_order(n / 16, m / 16, shorter);
        assert(hex_digits(n, len).take(i) == hex_digits(n / 16, shorter).take(i));
        assert(hex_digits(m, len).take(i) == hex_digits(m / 16, shorter).take(i));
        i
    } else {
        assert(hex_digits(n, len).take(len - 1) == hex_digits(n / 16, shorter));
        assert(hex_digits(m, len).take(len - 1) == hex_digits(m / 16, shorter));
        len - 1
    }
}

/// Where the `i`th digit stands in the text of an id.
spec fn digit_position(i: int) -> int {
    if i < 8 {
        i
    } else if i < 12 {
        i + 1
    } else if i < 16 {
        i + 2
    } else if i < 20 {
        i + 3
    } else {
        i + 4
    }
}

/// Ids and their texts have one order: the smaller id is the one whose text comes first.
pub proof fn law_id_text_keeps_order(a: ThreadId, b: ThreadId)
    requires
        a.value < b.value,
    ensures
        text_before(id_text(a), id_text(b)),
{
    assert(sixteen_to(32) > u128::MAX) by {
        reveal_with_fuel(sixteen_to, 33);
    }
    let i = lemma_hex_order(a.value as nat, b.value as nat, 32);
    let da = hex_digits(a.value as nat, 32);
    let db = hex_digits(b.value as nat, 32);
    let ta = id_text(a);
    let tb = id_text(b);
    let j = digit_position(i);
    assert(forall|k: int| 0 <= k < i ==> da[k] == da.take(i)[k] && db[k] == db.take(i)[k]);
    assert(ta[j] == da[i] && tb[j] == db[i]);
    assert(ta.take(j) =~= tb.take(j));
}

/// No two ids have one text.
pub proof fn law_id_text_tells_ids_apart(a: ThreadId, b: ThreadId)
    requires
        a != b,
    ensures
        id_text(a) != id_text(b),
{
    if a.value < b.value {
        law_id_text_keeps_order(a, b);
    } else {
        law_id_text_keeps_order(b, a);
    }
}

} // verus!
