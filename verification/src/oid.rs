//! Object identities: twenty bytes, held as five big-endian words so that
//! equality is plain equality of integers.

use vstd::prelude::*;
use vstd::string::StringExecFns;

verus! {

/// Byte `k` (0 is the most significant) of a word.
pub open spec fn word_byte(w: u32, k: int) -> u8 {
    ((w >> ((8 * (3 - k)) as u32)) & 0xff) as u8
}

/// The word whose four bytes, most significant first, are `b0..b3`.
pub open spec fn pack(b0: u8, b1: u8, b2: u8, b3: u8) -> u32 {
    (b0 as u32) << 24 | (b1 as u32) << 16 | (b2 as u32) << 8 | (b3 as u32)
}

/// The identity of an object in the store.
#[derive(Clone, Copy, Debug, PartialEq, Eq, Hash, Structural)]
pub struct ObjectId {
    pub w0: u32,
    pub w1: u32,
    pub w2: u32,
    pub w3: u32,
    pub w4: u32,
}

/// The identity of a commit.
#[derive(Clone, Copy, Debug, PartialEq, Eq, Hash, Structural)]
pub struct CommitId(pub ObjectId);

/// The identity of a snapshot tree.
#[derive(Clone, Copy, Debug, PartialEq, Eq, Hash, Structural)]
pub struct TreeId(pub ObjectId);

/// The bytes of a packed word are the bytes that were packed.
pub proof fn lemma_pack_bytes(b0: u8, b1: u8, b2: u8, b3: u8)
    ensures
        word_byte(pack(b0, b1, b2, b3), 0) == b0,
        word_byte(pack(b0, b1, b2, b3), 1) == b1,
        word_byte(pack(b0, b1, b2, b3), 2) == b2,
        word_byte(pack(b0, b1, b2, b3), 3) == b3,
{
    assert(((((b0 as u32) << 24 | (b1 as u32) << 16 | (b2 as u32) << 8 | (b3 as u32)) >> 24u32)
        & 0xff) as u8 == b0) by (bit_vector);
    assert(((((b0 as u32) << 24 | (b1 as u32) << 16 | (b2 as u32) << 8 | (b3 as u32)) >> 16u32)
        & 0xff) as u8 == b1) by (bit_vector);
    assert(((((b0 as u32) << 24 | (b1 as u32) << 16 | (b2 as u32) << 8 | (b3 as u32)) >> 8u32)
        & 0xff) as u8 == b2) by (bit_vector);
    assert(((((b0 as u32) << 24 | (b1 as u32) << 16 | (b2 as u32) << 8 | (b3 as u32)) >> 0u32)
        & 0xff) as u8 == b3) by (bit_vector);
}

/// The bytes of a word, packed again, are the word.
pub proof fn lemma_bytes_pack(w: u32)
    ensures
        pack(word_byte(w, 0), word_byte(w, 1), word_byte(w, 2), word_byte(w, 3)) == w,
{
    assert(((((w >> 24u32) & 0xff) as u8) as u32) << 24 | ((((w >> 16u32) & 0xff) as u8) as u32)
        << 16 | ((((w >> 8u32) & 0xff) as u8) as u32) << 8 | ((((w >> 0u32) & 0xff) as u8) as u32)
        == w) by (bit_vector);
}

impl ObjectId {
    /// Word `i` of the identity.
    pub open spec fn word(self, i: int) -> u32 {
        if i == 0 {
            self.w0
        } else if i == 1 {
            self.w1
        } else if i == 2 {
            self.w2
        } else if i == 3 {
            self.w3
        } else {
            self.w4
        }
    }

    /// The identity that twenty bytes spell.
    pub open spec fn of_bytes(bytes: Seq<u8>) -> ObjectId {
        ObjectId {
            w0: pack(bytes[0], bytes[1], bytes[2], bytes[3]),
            w1: pack(bytes[4], bytes[5], bytes[6], bytes[7]),
            w2: pack(bytes[8], bytes[9], bytes[10], bytes[11]),
            w3: pack(bytes[12], bytes[13], bytes[14], bytes[15]),
            w4: pack(bytes[16], bytes[17], bytes[18], bytes[19]),
        }
    }

    /// Reads an identity from its twenty bytes.
    pub fn from_bytes(bytes: &[u8; 20]) -> (id: ObjectId)
        ensures
            id == ObjectId::of_bytes(bytes@),
            id@ == bytes@,
    {
        let id = ObjectId {
            w0: join(bytes[0], bytes[1], bytes[2], bytes[3]),
            w1: join(bytes[4], bytes[5], bytes[6], bytes[7]),
            w2: join(bytes[8], bytes[9], bytes[10], bytes[11]),
            w3: join(bytes[12], bytes[13], bytes[14], bytes[15]),
            w4: join(bytes[16], bytes[17], bytes[18], bytes[19]),
        };
        assert(id@ =~= bytes@);
        id
    }

    /// Reads an identity from a run of bytes: there is one exactly where the
    /// bytes are twenty.
    pub fn from_slice(bytes: &[u8]) -> (id: Option<ObjectId>)
        ensures
            bytes@.len() == 20 ==> id == Some(ObjectId::of_bytes(bytes@)) && id->0@ == bytes@,
            bytes@.len() != 20 ==> id is None,
    {
        if bytes.len() != 20 {
            return None;
        }
        let id = ObjectId {
            w0: join(bytes[0], bytes[1], bytes[2], bytes[3]),
            w1: join(bytes[4], bytes[5], bytes[6], bytes[7]),
            w2: join(bytes[8], bytes[9], bytes[10], bytes[11]),
            w3: join(bytes[12], bytes[13], bytes[14], bytes[15]),
            w4: join(bytes[16], bytes[17], bytes[18], bytes[19]),
        };
        assert(id@ =~= bytes@);
        Some(id)
    }

    /// The twenty bytes of the identity.
    pub fn to_bytes(&self) -> (bytes: [u8; 20])
        ensures
            bytes@ == self@,
            ObjectId::of_bytes(bytes@) == *self,
    {
        let bytes = [
            split(self.w0, 0),
            split(self.w0, 1),
            split(self.w0, 2),
            split(self.w0, 3),
            split(self.w1, 0),
            split(self.w1, 1),
            split(self.w1, 2),
            split(self.w1, 3),
            split(self.w2, 0),
            split(self.w2, 1),
            split(self.w2, 2),
            split(self.w2, 3),
            split(self.w3, 0),
            split(self.w3, 1),
            split(self.w3, 2),
            split(self.w3, 3),
            split(self.w4, 0),
            split(self.w4, 1),
            split(self.w4, 2),
            split(self.w4, 3),
        ];
        assert(bytes@ =~= self@);
        proof {
            bytes_spell_identity(*self);
        }
        bytes
    }
}

impl View for ObjectId {
    type V = Seq<u8>;

    /// The twenty bytes, most significant byte of the first word first.
    open spec fn view(&self) -> Seq<u8> {
        Seq::new(20, |i: int| word_byte(self.word(i / 4), i % 4))
    }
}

/// Packs four bytes into a word, most significant first.
fn join(b0: u8, b1: u8, b2: u8, b3: u8) -> (w: u32)
    ensures
        w == pack(b0, b1, b2, b3),
        word_byte(w, 0) == b0,
        word_byte(w, 1) == b1,
        word_byte(w, 2) == b2,
        word_byte(w, 3) == b3,
{
    proof {
        lemma_pack_bytes(b0, b1, b2, b3);
    }
    (b0 as u32) << 24 | (b1 as u32) << 16 | (b2 as u32) << 8 | (b3 as u32)
}

/// Byte `k` of a word, counted from the most significant.
fn split(w: u32, k: u32) -> (b: u8)
    requires
        k < 4,
    ensures
        b == word_byte(w, k as int),
{
    let shift: u32 = 8 * (3 - k);
    let low: u32 = (w >> shift) & 0xff;
    assert(low < 256) by (bit_vector)
        requires
            low == (w >> shift) & 0xff,
    ;
    low as u8
}

/// The bytes of an identity spell that identity.
pub proof fn bytes_spell_identity(id: ObjectId)
    ensures
        ObjectId::of_bytes(id@) == id,
{
    lemma_bytes_pack(id.w0);
    lemma_bytes_pack(id.w1);
    lemma_bytes_pack(id.w2);
    lemma_bytes_pack(id.w3);
    lemma_bytes_pack(id.w4);
    assert(id@[0] == word_byte(id.w0, 0) && id@[1] == word_byte(id.w0, 1));
    assert(id@[2] == word_byte(id.w0, 2) && id@[3] == word_byte(id.w0, 3));
    assert(id@[4] == word_byte(id.w1, 0) && id@[5] == word_byte(id.w1, 1));
    assert(id@[6] == word_byte(id.w1, 2) && id@[7] == word_byte(id.w1, 3));
    assert(id@[8] == word_byte(id.w2, 0) && id@[9] == word_byte(id.w2, 1));
    assert(id@[10] == word_byte(id.w2, 2) && id@[11] == word_byte(id.w2, 3));
    assert(id@[12] == word_byte(id.w3, 0) && id@[13] == word_byte(id.w3, 1));
    assert(id@[14] == word_byte(id.w3, 2) && id@[15] == word_byte(id.w3, 3));
    assert(id@[16] == word_byte(id.w4, 0) && id@[17] == word_byte(id.w4, 1));
    assert(id@[18] == word_byte(id.w4, 2) && id@[19] == word_byte(id.w4, 3));
}

/// Two identities with the same bytes are the same identity.
pub proof fn same_bytes_same_identity(a: ObjectId, b: ObjectId)
    requires
        a@ == b@,
    ensures
        a == b,
{
    bytes_spell_identity(a);
    bytes_spell_identity(b);
}

/// The lowercase hexadecimal digit of a value below sixteen.
pub open spec fn hex_digit(n: int) -> char {
    if n == 0 {
        '0'
    } else if n == 1 {
        '1'
    } else if n == 2 {
        '2'
    } else if n == 3 {
        '3'
    } else if n == 4 {
        '4'
    } else if n == 5 {
        '5'
    } else if n == 6 {
        '6'
    } else if n == 7 {
        '7'
    } else if n == 8 {
        '8'
    } else if n == 9 {
        '9'
    } else if n == 10 {
        'a'
    } else if n == 11 {
        'b'
    } else if n == 12 {
        'c'
    } else if n == 13 {
        'd'
    } else if n == 14 {
        'e'
    } else {
        'f'
    }
}

/// Two lowercase hexadecimal digits for each byte, high digit first.
pub open spec fn hex_of(bytes: Seq<u8>) -> Seq<char> {
    Seq::new(
        2 * bytes.len(),
        |i: int|
            if i % 2 == 0 {
                hex_digit(bytes[i / 2] as int / 16)
            } else {
                hex_digit(bytes[i / 2] as int % 16)
            },
    )
}

/// The one-character text of a hexadecimal digit.
fn digit_text(n: u8) -> (text: &'static str)
    requires
        n < 16,
    ensures
        text@ == seq![hex_digit(n as int)],
{
    proof {
        reveal_strlit("0");
        reveal_strlit("1");
        reveal_strlit("2");
        reveal_strlit("3");
        reveal_strlit("4");
        reveal_strlit("5");
        reveal_strlit("6");
        reveal_strlit("7");
        reveal_strlit("8");
        reveal_strlit("9");
        reveal_strlit("a");
        reveal_strlit("b");
        reveal_strlit("c");
        reveal_strlit("d");
        reveal_strlit("e");
        reveal_strlit("f");
    }
    let text = if n == 0 {
        "0"
    } else if n == 1 {
        "1"
    } else if n == 2 {
        "2"
    } else if n == 3 {
        "3"
    } else if n == 4 {
        "4"
    } else if n == 5 {
        "5"
    } else if n == 6 {
        "6"
    } else if n == 7 {
        "7"
    } else if n == 8 {
        "8"
    } else if n == 9 {
        "9"
    } else if n == 10 {
        "a"
    } else if n == 11 {
        "b"
    } else if n == 12 {
        "c"
    } else if n == 13 {
        "d"
    } else if n == 14 {
        "e"
    } else {
        "f"
    };
    assert(text@ =~= seq![hex_digit(n as int)]);
    text
}

impl ObjectId {
    /// The identity as forty lowercase hexadecimal digits.
    pub fn to_hex(&self) -> (text: String)
        ensures
            text@ == hex_of(self@),
    {
        let bytes = self.to_bytes();
        let mut text = String::from_str("");
        proof {
            reveal_strlit("");
        }
        let mut i: usize = 0;
        while i < 20
            invariant
                i <= 20,
                bytes@ == self@,
                text@ == hex_of(self@).subrange(0, 2 * i as int),
            decreases 20 - i,
        {
            let b: u8 = bytes[i];
            let ghost before = text@;
            text.append(digit_text(b / 16));
            text.append(digit_text(b % 16));
            assert(text@ =~= hex_of(self@).subrange(0, 2 * (i + 1) as int)) by {
                assert(hex_of(self@)[2 * i as int] == hex_digit(b as int / 16));
                assert(hex_of(self@)[2 * i as int + 1] == hex_digit(b as int % 16));
            }
            i = i + 1;
        }
        assert(text@ =~= hex_of(self@));
        text
    }
}

impl View for CommitId {
    type V = Seq<u8>;

    /// The twenty bytes of the identity.
    open spec fn view(&self) -> Seq<u8> {
        self.0@
    }
}

impl View for TreeId {
    type V = Seq<u8>;

    /// The twenty bytes of the identity.
    open spec fn view(&self) -> Seq<u8> {
        self.0@
    }
}

impl CommitId {
    /// Reads a commit's identity from a run of bytes: there is one exactly
    /// where the bytes are twenty.
    pub fn from_slice(bytes: &[u8]) -> (id: Option<CommitId>)
        ensures
            bytes@.len() == 20 ==> id == Some(CommitId(ObjectId::of_bytes(bytes@))) && id->0@
                == bytes@,
            bytes@.len() != 20 ==> id is None,
    {
        match ObjectId::from_slice(bytes) {
            Some(id) => Some(CommitId(id)),
            None => None,
        }
    }

    /// The commit's identity as forty lowercase hexadecimal digits.
    pub fn to_hex(&self) -> (text: String)
        ensures
            text@ == hex_of(self@),
    {
        self.0.to_hex()
    }
}

impl TreeId {
    /// Reads a tree's identity from a run of bytes: there is one exactly
    /// where the bytes are twenty.
    pub fn from_slice(bytes: &[u8]) -> (id: Option<TreeId>)
        ensures
            bytes@.len() == 20 ==> id == Some(TreeId(ObjectId::of_bytes(bytes@))) && id->0@
                == bytes@,
            bytes@.len() != 20 ==> id is None,
    {
        match ObjectId::from_slice(bytes) {
            Some(id) => Some(TreeId(id)),
            None => None,
        }
    }

    /// The tree's identity as forty lowercase hexadecimal digits.
    pub fn to_hex(&self) -> (text: String)
        ensures
            text@ == hex_of(self@),
    {
        self.0.to_hex()
    }
}

} // verus!
