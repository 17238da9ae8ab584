use vstd::prelude::*;

verus! {

/// A party that may authorize an action: either a raw public key, or the
/// identifier of another contract that performs its own authorization check.
#[derive(Debug)]
pub enum Identifier {
    KeyHolder(Vec<u8>),
    Contract(Vec<u8>),
}

/// An identifier together with the proof needed to authenticate it: raw
/// signature bytes for a key holder, nothing extra for a contract (whose
/// "signature" is a nested authorization check performed by that contract).
#[derive(Debug)]
pub enum Signature {
    KeyHolder { identifier: Vec<u8>, signature: Vec<u8> },
    Contract { identifier: Vec<u8> },
}

/// An argument value covered by an authorization payload.
#[derive(Debug)]
pub enum ArgVal {
    Int(i64),
    Bytes(Vec<u8>),
    Ident(Identifier),
}

/// The mathematical identity of an `Identifier`: a variant tag and the bytes
/// it carries. Two identifiers name the same party exactly when their keys
/// are equal.
pub open spec fn id_key(i: Identifier) -> (int, Seq<u8>) {
    match i {
        Identifier::KeyHolder(k) => (0int, k@),
        Identifier::Contract(c) => (1int, c@),
    }
}

/// The mathematical identity of an argument value.
pub open spec fn arg_key(a: ArgVal) -> (int, int, Seq<u8>) {
    match a {
        ArgVal::Int(i) => (0int, i as int, Seq::<u8>::empty()),
        ArgVal::Bytes(b) => (1int, 0int, b@),
        ArgVal::Ident(i) => (2int + id_key(i).0, 0int, id_key(i).1),
    }
}

impl Signature {
    /// The identity this signature claims, as a mathematical key.
    pub open spec fn claimed_key(&self) -> (int, Seq<u8>) {
        match self {
            Signature::KeyHolder { identifier, .. } => (0int, identifier@),
            Signature::Contract { identifier } => (1int, identifier@),
        }
    }

    /// Extracts the claimed identity without verifying anything: pure, never
    /// fails, and performs no authorization.
    pub fn identifier(&self) -> (r: Identifier)
        ensures
            id_key(r) == self.claimed_key(),
    {
        match self {
            Signature::KeyHolder { identifier, .. } => {
                Identifier::KeyHolder(clone_bytes(identifier))
            }
            Signature::Contract { identifier } => Identifier::Contract(clone_bytes(identifier)),
        }
    }
}

/// Byte-for-byte equality of two byte vectors.
pub fn bytes_eq(a: &Vec<u8>, b: &Vec<u8>) -> (r: bool)
    ensures
        r == (a@ == b@),
{
    if a.len() != b.len() {
        return false;
    }
    let mut i: usize = 0;
    while i < a.len()
        invariant
            i <= a@.len(),
            a@.len() == b@.len(),
            forall|j: int| 0 <= j < i ==> a@[j] == b@[j],
        decreases a@.len() - i,
    {
        if a[i] != b[i] {
            return false;
        }
        i += 1;
    }
    proof {
        assert(a@ =~= b@);
    }
    true
}

/// A verified copy of a byte vector.
pub fn clone_bytes(v: &Vec<u8>) -> (r: Vec<u8>)
    ensures
        r@ == v@,
{
    let mut out: Vec<u8> = Vec::new();
    let mut i: usize = 0;
    while i < v.len()
        invariant
            i <= v@.len(),
            out@ =~= v@.subrange(0, i as int),
        decreases v@.len() - i,
    {
        out.push(v[i]);
        i += 1;
    }
    proof {
        assert(out@ =~= v@);
    }
    out
}

/// Structural equality of two identifiers: same variant, same bytes.
pub fn id_eq(a: &Identifier, b: &Identifier) -> (r: bool)
    ensures
        r == (id_key(*a) == id_key(*b)),
{
    match (a, b) {
        (Identifier::KeyHolder(x), Identifier::KeyHolder(y)) => bytes_eq(x, y),
        (Identifier::Contract(x), Identifier::Contract(y)) => bytes_eq(x, y),
        _ => false,
    }
}

} // verus!
