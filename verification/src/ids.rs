//! Commit ids and change ids, their hexadecimal renderings, and the split of a
//! rendering into a disambiguating prefix and the rest.

use vstd::prelude::*;
use jj_lib::object_id::ObjectId;
use crate::text::{lower_of, upper_of};

verus! {

/// The identity of a commit: the bytes of its hash.
#[derive(Clone, Debug, PartialEq, Eq, Hash)]
pub struct CommitId {
    pub bytes: Vec<u8>,
}

/// The identity of a change, which stays the same when the commit is rewritten.
#[derive(Clone, Debug, PartialEq, Eq, Hash)]
pub struct ChangeId {
    pub bytes: Vec<u8>,
}

impl View for CommitId {
    type V = Seq<u8>;

    open spec fn view(&self) -> Seq<u8> {
        self.bytes@
    }
}

impl View for ChangeId {
    type V = Seq<u8>;

    open spec fn view(&self) -> Seq<u8> {
        self.bytes@
    }
}

/// Whether two byte strings are the same.
pub fn same_bytes(a: &Vec<u8>, b: &Vec<u8>) -> (r: bool)
    ensures
        r == (a@ == b@),
{
    if a.len() != b.len() {
        return false;
    }
    let mut i: usize = 0;
    while i < a.len()
        invariant
            a.len() == b.len(),
            i <= a.len(),
            a@.take(i as int) == b@.take(i as int),
        decreases a.len() - i,
    {
        if a[i] != b[i] {
            return false;
        }
        assert(a@.take(i + 1) =~= a@.take(i as int).push(a@[i as int]));
        assert(b@.take(i + 1) =~= b@.take(i as int).push(b@[i as int]));
        i += 1;
    }
    assert(a@ =~= a@.take(a.len() as int));
    assert(b@ =~= b@.take(b.len() as int));
    true
}

impl CommitId {
    pub fn new(bytes: Vec<u8>) -> (r: CommitId)
        ensures
            r@ == bytes@,
    {
        CommitId { bytes }
    }

    /// Whether this is the same id as `other`.
    pub fn same(&self, other: &CommitId) -> (r: bool)
        ensures
            r == (self@ == other@),
    {
        same_bytes(&self.bytes, &other.bytes)
    }

    /// A copy of this id.
    pub fn duplicate(&self) -> (r: CommitId)
        ensures
            r@ == self@,
    {
        CommitId { bytes: self.bytes.clone() }
    }
}

impl ChangeId {
    pub fn new(bytes: Vec<u8>) -> (r: ChangeId)
        ensures
            r@ == bytes@,
    {
        ChangeId { bytes }
    }

    /// A copy of this id.
    pub fn duplicate(&self) -> (r: ChangeId)
        ensures
            r@ == self@,
    {
        ChangeId { bytes: self.bytes.clone() }
    }
}

/// The lower-case hexadecimal digit for a value below 16.
pub open spec fn hex_digit(value: int) -> char {
    if value < 10 {
        ((48 + value) as u8) as char
    } else {
        ((87 + value) as u8) as char
    }
}

/// The digit that stands for a value below 16 in the reversed alphabet, which
/// runs from 'z' for 0 down to 'k' for 15.
pub open spec fn reverse_hex_digit(value: int) -> char {
    ((122 - value) as u8) as char
}

/// The value of a hexadecimal digit of either case, and -1 for any other character.
pub open spec fn hex_value(c: char) -> int {
    if '0' <= c && c <= '9' {
        c as u8 - 48
    } else if 'a' <= c && c <= 'f' {
        c as u8 - 87
    } else if 'A' <= c && c <= 'F' {
        c as u8 - 55
    } else {
        -1
    }
}

/// The half byte at position `i` of a byte string read as hexadecimal digits,
/// the high half of each byte first.
pub open spec fn half_byte(bytes: Seq<u8>, i: int) -> int {
    if i % 2 == 0 {
        bytes[i / 2] as int / 16
    } else {
        bytes[i / 2] as int % 16
    }
}

/// The hexadecimal rendering of a byte string: two lower-case digits per byte.
pub open spec fn hex_of(bytes: Seq<u8>) -> Seq<char> {
    Seq::new(2 * bytes.len(), |i: int| hex_digit(half_byte(bytes, i)))
}

/// The rendering of a byte string in the reversed alphabet, digit for digit.
pub open spec fn reverse_hex_of(bytes: Seq<u8>) -> Seq<char> {
    Seq::new(2 * bytes.len(), |i: int| reverse_hex_digit(half_byte(bytes, i)))
}

/// Whether every character of a text is a hexadecimal digit.
pub open spec fn all_hex(s: Seq<char>) -> bool {
    forall|i: int| 0 <= i < s.len() ==> hex_value(#[trigger] s[i]) >= 0
}

/// A text of hexadecimal digits with each digit replaced by the one of the same
/// value in the reversed alphabet.
pub open spec fn reversed(s: Seq<char>) -> Seq<char> {
    s.map_values(|c: char| reverse_hex_digit(hex_value(c)))
}

/// `ObjectId::hex` of a `jj_lib` commit id with these bytes: the `hex` crate's
/// lower-case encoding, two digits per byte with the high half first.
#[verifier::external_body]
fn commit_id_hex(bytes: &Vec<u8>) -> (r: String)
    ensures
        r@ == hex_of(bytes@),
{
    jj_lib::backend::CommitId::from_bytes(bytes).hex()
}

/// `ObjectId::hex` of a `jj_lib` change id with these bytes: the same encoding
/// as for a commit id.
#[verifier::external_body]
fn change_id_hex(bytes: &Vec<u8>) -> (r: String)
    ensures
        r@ == hex_of(bytes@),
{
    jj_lib::backend::ChangeId::from_bytes(bytes).hex()
}

/// `jj_lib::hex_util::to_reverse_hex`: it gives a text exactly when every
/// character is a hexadecimal digit of either case, and then replaces each by
/// the letter that lies its value below 'z'.
#[verifier::external_body]
fn reverse_hex(forward_hex: &str) -> (r: Option<String>)
    ensures
        r is Some <==> all_hex(forward_hex@),
        r matches Some(s) ==> s@ == reversed(forward_hex@),
{
    jj_lib::hex_util::to_reverse_hex(forward_hex)
}

/// The hexadecimal rendering holds digits only, and reversing it digit by digit
/// gives the rendering in the reversed alphabet.
pub proof fn lemma_hex_reverses(bytes: Seq<u8>)
    ensures
        all_hex(hex_of(bytes)),
        reversed(hex_of(bytes)) == reverse_hex_of(bytes),
{
    assert forall|i: int| 0 <= i < 2 * bytes.len() implies hex_value(
        #[trigger] hex_of(bytes)[i],
    ) == half_byte(bytes, i) by {
        let v = half_byte(bytes, i);
        assert(0 <= i / 2 < bytes.len());
        assert(0 <= v < 16);
    }
    assert(reversed(hex_of(bytes)) =~= reverse_hex_of(bytes));
}

/// An id in one of the two spaces a commit is known by.
#[derive(Clone, Debug, PartialEq, Eq)]
pub enum CommitOrChangeId {
    Commit(CommitId),
    Change(ChangeId),
}

/// What a `CommitOrChangeId` holds, as mathematical values.
pub enum IdView {
    Commit(Seq<u8>),
    Change(Seq<u8>),
}

impl View for CommitOrChangeId {
    type V = IdView;

    open spec fn view(&self) -> IdView {
        match self {
            CommitOrChangeId::Commit(id) => IdView::Commit(id@),
            CommitOrChangeId::Change(id) => IdView::Change(id@),
        }
    }
}

impl IdView {
    /// The rendering of the id: plain hexadecimal for a commit id, the reversed
    /// alphabet for a change id.
    pub open spec fn hex(self) -> Seq<char> {
        match self {
            IdView::Commit(bytes) => hex_of(bytes),
            IdView::Change(bytes) => reverse_hex_of(bytes),
        }
    }

    /// Where the rendering is split: at the longer of the two lengths, and at
    /// the end of the rendering if that lies beyond it.
    pub open spec fn split_point(self, unique_len: usize, min_len: usize) -> int {
        self::min_len(max_len(unique_len as int, min_len as int), self.hex().len() as int)
    }
}

/// A rendering split in two: the part that tells the id apart, and what follows.
#[derive(Clone, Debug, PartialEq, Eq)]
pub struct ShortestIdPrefix {
    pub prefix: String,
    pub rest: String,
}

/// The smaller of two lengths.
pub open spec fn min_len(a: int, b: int) -> int {
    if a <= b {
        a
    } else {
        b
    }
}

/// The larger of two lengths.
pub open spec fn max_len(a: int, b: int) -> int {
    if a >= b {
        a
    } else {
        b
    }
}

impl CommitOrChangeId {
    /// The rendering of the id: plain hexadecimal for a commit id, the reversed
    /// alphabet for a change id.
    pub open spec fn hex_spec(&self) -> Seq<char> {
        self@.hex()
    }

    /// Where `shortest` splits the rendering.
    pub open spec fn split_point(&self, unique_len: usize, min_len: usize) -> int {
        self@.split_point(unique_len, min_len)
    }

    pub fn hex(&self) -> (r: String)
        ensures
            r@ == self.hex_spec(),
    {
        match self {
            CommitOrChangeId::Commit(id) => commit_id_hex(&id.bytes),
            CommitOrChangeId::Change(id) => {
                let forward = change_id_hex(&id.bytes);
                proof {
                    lemma_hex_reverses(id@);
                }
                reverse_hex(forward.as_str()).unwrap()
            },
        }
    }

    /// The first `total_len` characters of the rendering, or all of it if it is
    /// no longer than that.
    pub fn short(&self, total_len: usize) -> (r: String)
        ensures
            r@ == self.hex_spec().take(self::min_len(total_len as int, self.hex_spec().len() as int)),
            total_len >= self.hex_spec().len() ==> r@ == self.hex_spec(),
    {
        let hex = self.hex();
        let n = hex.as_str().unicode_len();
        if total_len >= n {
            assert(hex@.take(n as int) =~= hex@);
            hex
        } else {
            hex.as_str().substring_char(0, total_len).to_owned()
        }
    }

    /// Splits the rendering where `unique_len`, the length of the shortest prefix
    /// that no other id of the same space shares, and `min_len`, the least
    /// length asked for, are both covered.
    pub fn shortest(&self, unique_len: usize, min_len: usize) -> (r: ShortestIdPrefix)
        ensures
            r.prefix@ == self.hex_spec().take(self.split_point(unique_len, min_len)),
            r.rest@ == self.hex_spec().skip(self.split_point(unique_len, min_len)),
            r.prefix@ + r.rest@ == self.hex_spec(),
    {
        let hex = self.hex();
        let n = hex.as_str().unicode_len();
        let longer = if unique_len >= min_len {
            unique_len
        } else {
            min_len
        };
        let split = if longer <= n {
            longer
        } else {
            n
        };
        let prefix = hex.as_str().substring_char(0, split).to_owned();
        let rest = hex.as_str().substring_char(split, n).to_owned();
        assert(hex@.subrange(0, split as int) =~= hex@.take(split as int));
        assert(hex@.subrange(split as int, n as int) =~= hex@.skip(split as int));
        assert(hex@.take(split as int) + hex@.skip(split as int) =~= hex@);
        ShortestIdPrefix { prefix, rest }
    }
}

impl ShortestIdPrefix {
    /// Both parts in ASCII upper case.
    pub fn to_upper(&self) -> (r: ShortestIdPrefix)
        ensures
            r.prefix@ == upper_of(self.prefix@),
            r.rest@ == upper_of(self.rest@),
    {
        ShortestIdPrefix {
            prefix: self.prefix.as_str().to_ascii_uppercase(),
            rest: self.rest.as_str().to_ascii_uppercase(),
        }
    }

    /// Both parts in ASCII lower case.
    pub fn to_lower(&self) -> (r: ShortestIdPrefix)
        ensures
            r.prefix@ == lower_of(self.prefix@),
            r.rest@ == lower_of(self.rest@),
    {
        ShortestIdPrefix {
            prefix: self.prefix.as_str().to_ascii_lowercase(),
            rest: self.rest.as_str().to_ascii_lowercase(),
        }
    }
}

} // verus!
