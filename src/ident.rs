//! Workspace identifiers: 128 random bits, rendered as 32 lowercase hex digits.

use vstd::prelude::*;
use vstd::string::StringExecFns;

verus! {

/// The lowercase hex digit of a value below 16.
pub open spec fn hex_char(n: u8) -> char {
    if n < 10 {
        (n + 48) as u32 as char
    } else {
        (n + 87) as u32 as char
    }
}

/// The lowercase hex rendering of a byte sequence, two digits per byte,
/// most significant first, with no separators.
pub open spec fn hex_of(b: Seq<u8>) -> Seq<char>
    decreases b.len(),
{
    if b.len() == 0 {
        Seq::empty()
    } else {
        hex_of(b.drop_last()) + seq![hex_char(b.last() / 16), hex_char(b.last() % 16)]
    }
}

pub proof fn lemma_hex_of_len(b: Seq<u8>)
    ensures
        hex_of(b).len() == 2 * b.len(),
    decreases b.len(),
{
    if b.len() > 0 {
        lemma_hex_of_len(b.drop_last());
    }
}

proof fn lemma_hex_char_injective(m: u8, n: u8)
    requires
        m < 16,
        n < 16,
        hex_char(m) == hex_char(n),
    ensures
        m == n,
{
}

/// Rendering is injective on byte sequences of one length: distinct
/// identifiers never share a rendering.
pub proof fn lemma_hex_of_injective(a: Seq<u8>, b: Seq<u8>)
    requires
        a.len() == b.len(),
        hex_of(a) == hex_of(b),
    ensures
        a == b,
    decreases a.len(),
{
    if a.len() > 0 {
        let (pa, pb) = (a.drop_last(), b.drop_last());
        lemma_hex_of_len(pa);
        lemma_hex_of_len(pb);
        let n: int = 2 * pa.len() as int;
        assert(hex_of(a)[n] == hex_char(a.last() / 16));
        assert(hex_of(b)[n] == hex_char(b.last() / 16));
        assert(hex_of(a)[n + 1] == hex_char(a.last() % 16));
        assert(hex_of(b)[n + 1] == hex_char(b.last() % 16));
        lemma_hex_char_injective(a.last() / 16, b.last() / 16);
        lemma_hex_char_injective(a.last() % 16, b.last() % 16);
        assert(hex_of(pa) =~= hex_of(a).subrange(0, n as int));
        assert(hex_of(pb) =~= hex_of(b).subrange(0, n as int));
        lemma_hex_of_injective(pa, pb);
        assert(a.last() == 16 * (a.last() / 16) + a.last() % 16);
        assert(b.last() == 16 * (b.last() / 16) + b.last() % 16);
        assert(a =~= pa.push(a.last()));
        assert(b =~= pb.push(b.last()));
    }
}

/// The one-character string of the hex digit of `n`.
fn hex_digit(n: u8) -> (r: &'static str)
    requires
        n < 16,
    ensures
        r@ == seq![hex_char(n)],
{
    match n {
        0 => {
            proof {
                reveal_strlit("0");
            }
            "0"
        }
        1 => {
            proof {
                reveal_strlit("1");
            }
            "1"
        }
        2 => {
            proof {
                reveal_strlit("2");
            }
            "2"
        }
        3 => {
            proof {
                reveal_strlit("3");
            }
            "3"
        }
        4 => {
            proof {
                reveal_strlit("4");
            }
            "4"
        }
        5 => {
            proof {
                reveal_strlit("5");
            }
            "5"
        }
        6 => {
            proof {
                reveal_strlit("6");
            }
            "6"
        }
        7 => {
            proof {
                reveal_strlit("7");
            }
            "7"
        }
        8 => {
            proof {
                reveal_strlit("8");
            }
            "8"
        }
        9 => {
            proof {
                reveal_strlit("9");
            }
            "9"
        }
        10 => {
            proof {
                reveal_strlit("a");
            }
            "a"
        }
        11 => {
            proof {
                reveal_strlit("b");
            }
            "b"
        }
        12 => {
            proof {
                reveal_strlit("c");
            }
            "c"
        }
        13 => {
            proof {
                reveal_strlit("d");
            }
            "d"
        }
        14 => {
            proof {
                reveal_strlit("e");
            }
            "e"
        }
        _ => {
            proof {
                reveal_strlit("f");
            }
            "f"
        }
    }
}

/// The identifier that names one workspace: sixteen bytes, most significant first.
#[derive(Clone, Copy, Debug, PartialEq, Eq, Hash)]
pub struct WorkspaceId {
    bytes: [u8; 16],
}

impl View for WorkspaceId {
    type V = Seq<u8>;

    closed spec fn view(&self) -> Seq<u8> {
        self.bytes@
    }
}

/// The bytes of a random (version 4) UUID: the high nibble of byte 6 is 4
/// and the two high bits of byte 8 are `10`.
pub open spec fn is_random_v4(b: Seq<u8>) -> bool {
    b.len() == 16 && b[6] / 16 == 4 && b[8] / 64 == 2
}

/// Relies on surrealdb's `sql::Uuid::new_v4` (uuid's `Uuid::new_v4`): random
/// bits, masked to carry the version nibble 4 and the variant bits `10`.
#[verifier::external_body]
fn random_v4_bytes() -> (r: [u8; 16])
    ensures
        r@[6] / 16 == 4,
        r@[8] / 64 == 2,
{
    *surrealdb::sql::Uuid::new_v4().as_bytes()
}

impl WorkspaceId {
    /// An identifier with the given bytes.
    pub fn from_bytes(bytes: [u8; 16]) -> (r: WorkspaceId)
        ensures
            r@ == bytes@,
    {
        WorkspaceId { bytes }
    }

    /// A fresh identifier drawn from 122 random bits.
    pub fn generate() -> (r: WorkspaceId)
        ensures
            is_random_v4(r@),
    {
        let bytes = random_v4_bytes();
        proof {
            broadcast use vstd::array::group_array_axioms;
        }
        WorkspaceId { bytes }
    }

    /// The identifier's bytes.
    pub fn bytes(&self) -> (r: [u8; 16])
        ensures
            r@ == self@,
    {
        self.bytes
    }

    /// The identifier as 32 lowercase hex digits with no separators.
    pub fn simple(&self) -> (r: String)
        ensures
            r@ == hex_of(self@),
            r@.len() == 32,
    {
        proof {
            broadcast use vstd::array::group_array_axioms;
        }
        let mut s = String::new();
        let mut i: usize = 0;
        while i < 16
            invariant
                i <= 16,
                self@.len() == 16,
                s@ == hex_of(self@.subrange(0, i as int)),
            decreases 16 - i,
        {
            let b = self.bytes[i];
            s.append(hex_digit(b / 16));
            s.append(hex_digit(b % 16));
            proof {
                assert(self@.subrange(0, i + 1).drop_last() =~= self@.subrange(0, i as int));
            }
            i = i + 1;
        }
        proof {
            assert(self@.subrange(0, 16) =~= self@);
            lemma_hex_of_len(self@);
        }
        s
    }
}

/// Every identifier renders as 32 digits.
pub proof fn lemma_simple_len(a: WorkspaceId)
    ensures
        hex_of(a@).len() == 32,
{
    broadcast use vstd::array::group_array_axioms;
    lemma_hex_of_len(a@);
}

/// Two identifiers share a rendering exactly when they are equal, so
/// distinct identifiers name distinct workspaces.
pub proof fn lemma_simple_injective(a: WorkspaceId, b: WorkspaceId)
    ensures
        hex_of(a@) == hex_of(b@) <==> a@ == b@,
{
    broadcast use vstd::array::group_array_axioms;
    if hex_of(a@) == hex_of(b@) {
        lemma_hex_of_injective(a@, b@);
    }
}

} // verus!
