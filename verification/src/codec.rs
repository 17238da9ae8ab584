use vstd::prelude::*;

use crate::identity::{arg_key, id_key, ArgVal, Identifier};

verus! {

// The authorization payload is encoded by a total, deterministic and
// injective function: every variable-length field carries an explicit
// length prefix, and every tagged value carries its tag, so two distinct
// logical payloads can never encode to the same bytes.

/// The eight little-endian bytes of a 64-bit integer.
pub open spec fn u64_le(n: u64) -> Seq<u8> {
    seq![
        (n & 0xff) as u8,
        ((n >> 8) & 0xff) as u8,
        ((n >> 16) & 0xff) as u8,
        ((n >> 24) & 0xff) as u8,
        ((n >> 32) & 0xff) as u8,
        ((n >> 40) & 0xff) as u8,
        ((n >> 48) & 0xff) as u8,
        ((n >> 56) & 0xff) as u8,
    ]
}

/// A byte string with its length prefixed, so that it is self-delimiting.
pub open spec fn lp(s: Seq<u8>) -> Seq<u8> {
    u64_le(s.len() as u64) + s
}

/// The tag byte of an identifier.
pub open spec fn id_tag(i: Identifier) -> u8 {
    id_key(i).0 as u8
}

/// Encoding of an identifier: its tag, then its length-prefixed bytes.
pub open spec fn enc_ident(i: Identifier) -> Seq<u8> {
    seq![id_tag(i)] + lp(id_key(i).1)
}

/// The tag byte of an argument value.
pub open spec fn arg_tag(a: ArgVal) -> u8 {
    match a {
        ArgVal::Int(_) => 0u8,
        ArgVal::Bytes(_) => 1u8,
        ArgVal::Ident(_) => 2u8,
    }
}

/// The body bytes of an argument value, before length prefixing.
pub open spec fn arg_body(a: ArgVal) -> Seq<u8> {
    match a {
        ArgVal::Int(i) => u64_le(i as u64),
        ArgVal::Bytes(b) => b@,
        ArgVal::Ident(i) => enc_ident(i),
    }
}

/// Encoding of one argument value: its tag, then its length-prefixed body.
pub open spec fn enc_arg(a: ArgVal) -> Seq<u8> {
    seq![arg_tag(a)] + lp(arg_body(a))
}

/// Encoding of an argument tuple, argument by argument.
pub open spec fn enc_args(s: Seq<ArgVal>) -> Seq<u8>
    decreases s.len(),
{
    if s.len() == 0 {
        Seq::<u8>::empty()
    } else {
        enc_arg(s[0]) + enc_args(s.subrange(1, s.len() as int))
    }
}

/// The domain separator binds a payload to one contract instance on one
/// network: both identifiers are folded in, each length-prefixed.
pub open spec fn domain_of(contract: Seq<u8>, network: Seq<u8>) -> Seq<u8> {
    lp(contract) + lp(network)
}

/// The canonical authorization payload: domain separator, nonce, function
/// selector and argument tuple, in that order, each field delimited.
pub open spec fn payload_enc(domain: Seq<u8>, nonce: u64, selector: Seq<u8>, args: Seq<ArgVal>) -> Seq<
    u8,
> {
    lp(domain) + u64_le(nonce) + lp(selector) + u64_le(args.len() as u64) + enc_args(args)
}

/// Size bound under which an argument's encoding is meaningful on this
/// machine.
pub open spec fn arg_wf(a: ArgVal) -> bool {
    arg_key(a).2.len() + 32 <= u64::MAX
}

/// Size bounds for a whole argument tuple.
pub open spec fn args_wf(s: Seq<ArgVal>) -> bool {
    forall|i: int| 0 <= i < s.len() ==> arg_wf(#[trigger] s[i])
}

// ---------------------------------------------------------------------------
// Injectivity
// ---------------------------------------------------------------------------

proof fn lemma_u64_le_inj(a: u64, b: u64)
    requires
        u64_le(a) == u64_le(b),
    ensures
        a == b,
{
    assert((a & 0xff) as u8 == (b & 0xff) as u8) by {
        assert(u64_le(a)[0] == u64_le(b)[0]);
    }
    assert(((a >> 8) & 0xff) as u8 == ((b >> 8) & 0xff) as u8) by {
        assert(u64_le(a)[1] == u64_le(b)[1]);
    }
    assert(((a >> 16) & 0xff) as u8 == ((b >> 16) & 0xff) as u8) by {
        assert(u64_le(a)[2] == u64_le(b)[2]);
    }
    assert(((a >> 24) & 0xff) as u8 == ((b >> 24) & 0xff) as u8) by {
        assert(u64_le(a)[3] == u64_le(b)[3]);
    }
    assert(((a >> 32) & 0xff) as u8 == ((b >> 32) & 0xff) as u8) by {
        assert(u64_le(a)[4] == u64_le(b)[4]);
    }
    assert(((a >> 40) & 0xff) as u8 == ((b >> 40) & 0xff) as u8) by {
        assert(u64_le(a)[5] == u64_le(b)[5]);
    }
    assert(((a >> 48) & 0xff) as u8 == ((b >> 48) & 0xff) as u8) by {
        assert(u64_le(a)[6] == u64_le(b)[6]);
    }
    assert(((a >> 56) & 0xff) as u8 == ((b >> 56) & 0xff) as u8) by {
        assert(u64_le(a)[7] == u64_le(b)[7]);
    }
    assert(a == b) by (bit_vector)
        requires
            (a & 0xff) as u8 == (b & 0xff) as u8,
            ((a >> 8) & 0xff) as u8 == ((b >> 8) & 0xff) as u8,
            ((a >> 16) & 0xff) as u8 == ((b >> 16) & 0xff) as u8,
            ((a >> 24) & 0xff) as u8 == ((b >> 24) & 0xff) as u8,
            ((a >> 32) & 0xff) as u8 == ((b >> 32) & 0xff) as u8,
            ((a >> 40) & 0xff) as u8 == ((b >> 40) & 0xff) as u8,
            ((a >> 48) & 0xff) as u8 == ((b >> 48) & 0xff) as u8,
            ((a >> 56) & 0xff) as u8 == ((b >> 56) & 0xff) as u8,
    ;
}

/// A length-prefixed field determines itself and whatever follows it.
proof fn lemma_lp_prefix(a: Seq<u8>, x: Seq<u8>, b: Seq<u8>, y: Seq<u8>)
    requires
        lp(a) + x == lp(b) + y,
        a.len() <= u64::MAX,
        b.len() <= u64::MAX,
    ensures
        a == b,
        x == y,
{
    let la = lp(a) + x;
    let lb = lp(b) + y;
    assert(u64_le(a.len() as u64) =~= u64_le(b.len() as u64)) by {
        assert forall|i: int| 0 <= i < 8 implies #[trigger] u64_le(a.len() as u64)[i] == u64_le(
            b.len() as u64,
        )[i] by {
            assert(la[i] == lb[i]);
        }
    }
    lemma_u64_le_inj(a.len() as u64, b.len() as u64);
    assert(a.len() == b.len());
    assert(a =~= b) by {
        assert forall|i: int| 0 <= i < a.len() implies a[i] == b[i] by {
            assert(la[8 + i] == lb[8 + i]);
        }
    }
    assert(x =~= y) by {
        assert(la.len() == lb.len());
        assert forall|i: int| 0 <= i < x.len() implies x[i] == y[i] by {
            assert(la[8 + a.len() + i] == lb[8 + b.len() + i]);
        }
    }
}

/// A fixed-width integer field determines itself and whatever follows it.
proof fn lemma_u64_prefix(a: u64, x: Seq<u8>, b: u64, y: Seq<u8>)
    requires
        u64_le(a) + x == u64_le(b) + y,
    ensures
        a == b,
        x == y,
{
    let la = u64_le(a) + x;
    let lb = u64_le(b) + y;
    assert(u64_le(a) =~= u64_le(b)) by {
        assert forall|i: int| 0 <= i < 8 implies u64_le(a)[i] == u64_le(b)[i] by {
            assert(la[i] == lb[i]);
        }
    }
    lemma_u64_le_inj(a, b);
    assert(x =~= y) by {
        assert(la.len() == lb.len());
        assert forall|i: int| 0 <= i < x.len() implies x[i] == y[i] by {
            assert(la[8 + i] == lb[8 + i]);
        }
    }
}

/// A tagged field determines its tag and the rest of the byte stream.
proof fn lemma_strip_head(t1: u8, s1: Seq<u8>, t2: u8, s2: Seq<u8>)
    requires
        seq![t1] + s1 == seq![t2] + s2,
    ensures
        t1 == t2,
        s1 == s2,
{
    let a = seq![t1] + s1;
    let b = seq![t2] + s2;
    assert(a[0] == t1);
    assert(b[0] == t2);
    assert(s1 =~= s2) by {
        assert(a.len() == b.len());
        assert forall|i: int| 0 <= i < s1.len() implies s1[i] == s2[i] by {
            assert(a[1 + i] == s1[i]);
            assert(b[1 + i] == s2[i]);
        }
    }
}

/// Equal identifier encodings come from the same identity.
proof fn lemma_enc_ident_inj(a: Identifier, b: Identifier)
    requires
        enc_ident(a) == enc_ident(b),
        id_key(a).1.len() <= u64::MAX,
        id_key(b).1.len() <= u64::MAX,
    ensures
        id_key(a) == id_key(b),
{
    lemma_strip_head(id_tag(a), lp(id_key(a).1), id_tag(b), lp(id_key(b).1));
    assert(id_key(a).0 == id_key(b).0) by {
        assert(id_tag(a) == id_tag(b));
        assert(0 <= id_key(a).0 <= 1 && 0 <= id_key(b).0 <= 1);
    }
    assert(lp(id_key(a).1) + Seq::<u8>::empty() =~= lp(id_key(b).1) + Seq::<u8>::empty());
    lemma_lp_prefix(id_key(a).1, Seq::<u8>::empty(), id_key(b).1, Seq::<u8>::empty());
}

/// An argument encoding determines the argument's identity and whatever
/// follows it in the byte stream.
proof fn lemma_enc_arg_prefix(a: ArgVal, x: Seq<u8>, b: ArgVal, y: Seq<u8>)
    requires
        enc_arg(a) + x == enc_arg(b) + y,
        arg_wf(a),
        arg_wf(b),
    ensures
        arg_key(a) == arg_key(b),
        x == y,
{
    assert(enc_arg(a) + x =~= seq![arg_tag(a)] + (lp(arg_body(a)) + x));
    assert(enc_arg(b) + y =~= seq![arg_tag(b)] + (lp(arg_body(b)) + y));
    lemma_strip_head(arg_tag(a), lp(arg_body(a)) + x, arg_tag(b), lp(arg_body(b)) + y);
    assert(arg_body(a).len() <= u64::MAX) by {
        match a {
            ArgVal::Ident(i) => {
                assert(arg_body(a).len() == 9 + id_key(i).1.len());
            }
            _ => {},
        }
    }
    assert(arg_body(b).len() <= u64::MAX) by {
        match b {
            ArgVal::Ident(i) => {
                assert(arg_body(b).len() == 9 + id_key(i).1.len());
            }
            _ => {},
        }
    }
    lemma_lp_prefix(arg_body(a), x, arg_body(b), y);
    match (a, b) {
        (ArgVal::Int(i1), ArgVal::Int(i2)) => {
            lemma_u64_le_inj(i1 as u64, i2 as u64);
            assert(i1 == i2) by (bit_vector)
                requires
                    i1 as u64 == i2 as u64,
            ;
        }
        (ArgVal::Bytes(_), ArgVal::Bytes(_)) => {},
        (ArgVal::Ident(i1), ArgVal::Ident(i2)) => {
            lemma_enc_ident_inj(i1, i2);
        }
        _ => {
            assert(false);
        },
    }
}

/// Equal tuple encodings of equally many arguments carry the same
/// arguments, position by position.
proof fn lemma_enc_args_inj(s1: Seq<ArgVal>, s2: Seq<ArgVal>)
    requires
        enc_args(s1) == enc_args(s2),
        s1.len() == s2.len(),
        args_wf(s1),
        args_wf(s2),
    ensures
        forall|i: int| 0 <= i < s1.len() ==> arg_key(#[trigger] s1[i]) == arg_key(s2[i]),
    decreases s1.len(),
{
    if s1.len() > 0 {
        let t1 = s1.subrange(1, s1.len() as int);
        let t2 = s2.subrange(1, s2.len() as int);
        assert(enc_arg(s1[0]) + enc_args(t1) == enc_arg(s2[0]) + enc_args(t2));
        lemma_enc_arg_prefix(s1[0], enc_args(t1), s2[0], enc_args(t2));
        assert(args_wf(t1) && args_wf(t2)) by {
            assert(forall|i: int| 0 <= i < t1.len() ==> t1[i] == s1[i + 1]);
            assert(forall|i: int| 0 <= i < t2.len() ==> t2[i] == s2[i + 1]);
        }
        lemma_enc_args_inj(t1, t2);
        assert forall|i: int| 0 <= i < s1.len() implies arg_key(#[trigger] s1[i]) == arg_key(
            s2[i],
        ) by {
            if i > 0 {
                assert(s1[i] == t1[i - 1] && s2[i] == t2[i - 1]);
            }
        }
    }
}

/// Binding completeness of the canonical encoding: two payloads that encode
/// to the same bytes agree on the domain separator, the nonce, the function
/// selector, and every argument. Changing any element of the tuple changes
/// the encoded (and hence the signed) message.
pub proof fn lemma_payload_binding(
    d1: Seq<u8>,
    n1: u64,
    s1: Seq<u8>,
    a1: Seq<ArgVal>,
    d2: Seq<u8>,
    n2: u64,
    s2: Seq<u8>,
    a2: Seq<ArgVal>,
)
    requires
        payload_enc(d1, n1, s1, a1) == payload_enc(d2, n2, s2, a2),
        d1.len() <= u64::MAX,
        d2.len() <= u64::MAX,
        s1.len() <= u64::MAX,
        s2.len() <= u64::MAX,
        a1.len() <= u64::MAX,
        a2.len() <= u64::MAX,
        args_wf(a1),
        args_wf(a2),
    ensures
        d1 == d2,
        n1 == n2,
        s1 == s2,
        a1.len() == a2.len(),
        forall|i: int| 0 <= i < a1.len() ==> arg_key(#[trigger] a1[i]) == arg_key(a2[i]),
{
    let r1 = u64_le(n1) + (lp(s1) + (u64_le(a1.len() as u64) + enc_args(a1)));
    let r2 = u64_le(n2) + (lp(s2) + (u64_le(a2.len() as u64) + enc_args(a2)));
    assert(lp(d1) + r1 =~= payload_enc(d1, n1, s1, a1));
    assert(lp(d2) + r2 =~= payload_enc(d2, n2, s2, a2));
    lemma_lp_prefix(d1, r1, d2, r2);
    lemma_u64_prefix(
        n1,
        lp(s1) + (u64_le(a1.len() as u64) + enc_args(a1)),
        n2,
        lp(s2) + (u64_le(a2.len() as u64) + enc_args(a2)),
    );
    lemma_lp_prefix(
        s1,
        u64_le(a1.len() as u64) + enc_args(a1),
        s2,
        u64_le(a2.len() as u64) + enc_args(a2),
    );
    lemma_u64_prefix(a1.len() as u64, enc_args(a1), a2.len() as u64, enc_args(a2));
    assert(a1.len() == a2.len());
    lemma_enc_args_inj(a1, a2);
}

/// The domain separator determines the contract and network identifiers
/// that were folded into it.
pub proof fn lemma_domain_binding(c1: Seq<u8>, w1: Seq<u8>, c2: Seq<u8>, w2: Seq<u8>)
    requires
        domain_of(c1, w1) == domain_of(c2, w2),
        c1.len() <= u64::MAX,
        c2.len() <= u64::MAX,
    ensures
        c1 == c2,
        w1 == w2,
{
    lemma_lp_prefix(c1, lp(w1), c2, lp(w2));
    assert(u64_le(w1.len() as u64) + w1 == u64_le(w2.len() as u64) + w2);
    lemma_u64_prefix(w1.len() as u64, w1, w2.len() as u64, w2);
}

/// An argument's encoding is a function of its identity alone.
proof fn lemma_enc_arg_congruent(a: ArgVal, b: ArgVal)
    requires
        arg_key(a) == arg_key(b),
    ensures
        enc_arg(a) == enc_arg(b),
{
    match (a, b) {
        (ArgVal::Int(i1), ArgVal::Int(i2)) => {
            assert(i1 == i2);
        }
        (ArgVal::Bytes(b1), ArgVal::Bytes(b2)) => {
            assert(b1@ == b2@);
        }
        (ArgVal::Ident(x), ArgVal::Ident(y)) => {
            assert(id_key(x) == id_key(y)) by {
                assert(0 <= id_key(x).0 <= 1 && 0 <= id_key(y).0 <= 1);
            }
            assert(enc_ident(x) == enc_ident(y));
        }
        _ => {
            assert(false);
        },
    }
}

/// A tuple's encoding is a function of its arguments' identities alone.
pub proof fn lemma_enc_args_congruent(s1: Seq<ArgVal>, s2: Seq<ArgVal>)
    requires
        s1.len() == s2.len(),
        forall|i: int| 0 <= i < s1.len() ==> arg_key(#[trigger] s1[i]) == arg_key(s2[i]),
    ensures
        enc_args(s1) == enc_args(s2),
    decreases s1.len(),
{
    if s1.len() > 0 {
        lemma_enc_arg_congruent(s1[0], s2[0]);
        let t1 = s1.subrange(1, s1.len() as int);
        let t2 = s2.subrange(1, s2.len() as int);
        assert(forall|i: int| 0 <= i < t1.len() ==> t1[i] == s1[i + 1] && t2[i] == s2[i + 1]);
        lemma_enc_args_congruent(t1, t2);
    }
}

// ---------------------------------------------------------------------------
// Executable encoder
// ---------------------------------------------------------------------------

/// Appends the eight little-endian bytes of `n`.
pub fn push_u64_le(out: &mut Vec<u8>, n: u64)
    ensures
        final(out)@ == old(out)@ + u64_le(n),
{
    out.push((n & 0xff) as u8);
    out.push(((n >> 8) & 0xff) as u8);
    out.push(((n >> 16) & 0xff) as u8);
    out.push(((n >> 24) & 0xff) as u8);
    out.push(((n >> 32) & 0xff) as u8);
    out.push(((n >> 40) & 0xff) as u8);
    out.push(((n >> 48) & 0xff) as u8);
    out.push(((n >> 56) & 0xff) as u8);
    proof {
        assert(out@ =~= old(out)@ + u64_le(n));
    }
}

/// Appends the bytes of `s`.
pub fn push_bytes(out: &mut Vec<u8>, s: &Vec<u8>)
    ensures
        final(out)@ == old(out)@ + s@,
{
    let mut i: usize = 0;
    while i < s.len()
        invariant
            i <= s@.len(),
            out@ =~= old(out)@ + s@.subrange(0, i as int),
        decreases s@.len() - i,
    {
        out.push(s[i]);
        i += 1;
        proof {
            assert(out@ =~= old(out)@ + s@.subrange(0, i as int));
        }
    }
    proof {
        assert(out@ =~= old(out)@ + s@);
    }
}

/// Appends `s` with its length prefix.
pub fn push_lp(out: &mut Vec<u8>, s: &Vec<u8>)
    ensures
        final(out)@ == old(out)@ + lp(s@),
{
    push_u64_le(out, s.len() as u64);
    push_bytes(out, s);
    proof {
        assert(out@ =~= old(out)@ + lp(s@));
    }
}

/// Appends the encoding of an identifier.
pub fn push_ident(out: &mut Vec<u8>, i: &Identifier)
    ensures
        final(out)@ == old(out)@ + enc_ident(*i),
{
    match i {
        Identifier::KeyHolder(k) => {
            out.push(0u8);
            push_lp(out, k);
        }
        Identifier::Contract(c) => {
            out.push(1u8);
            push_lp(out, c);
        }
    }
    proof {
        assert(out@ =~= old(out)@ + enc_ident(*i));
    }
}

/// Appends the encoding of one argument value.
pub fn push_arg(out: &mut Vec<u8>, a: &ArgVal)
    ensures
        final(out)@ == old(out)@ + enc_arg(*a),
{
    match a {
        ArgVal::Int(i) => {
            out.push(0u8);
            push_u64_le(out, 8u64);
            push_u64_le(out, *i as u64);
            proof {
                assert(lp(arg_body(*a)) =~= u64_le(8u64) + u64_le(*i as u64));
            }
        }
        ArgVal::Bytes(b) => {
            out.push(1u8);
            push_lp(out, b);
        }
        ArgVal::Ident(i) => {
            out.push(2u8);
            let mut tmp: Vec<u8> = Vec::new();
            push_ident(&mut tmp, i);
            push_lp(out, &tmp);
        }
    }
    proof {
        assert(out@ =~= old(out)@ + enc_arg(*a));
    }
}

/// Appending one more argument extends the tuple encoding by that
/// argument's encoding.
proof fn lemma_enc_args_snoc(s: Seq<ArgVal>, i: int)
    requires
        0 <= i < s.len(),
    ensures
        enc_args(s.subrange(0, i + 1)) == enc_args(s.subrange(0, i)) + enc_arg(s[i]),
    decreases i,
{
    let p1 = s.subrange(0, i + 1);
    let p0 = s.subrange(0, i);
    if i == 0 {
        assert(p1.len() == 1 && p1[0] == s[0]);
        assert(p1.subrange(1, p1.len() as int) =~= Seq::<ArgVal>::empty());
        assert(enc_args(p1.subrange(1, p1.len() as int)) == Seq::<u8>::empty());
        assert(enc_args(p1) == enc_arg(s[0]) + Seq::<u8>::empty());
        assert(p0 =~= Seq::<ArgVal>::empty());
        assert(enc_args(p0) == Seq::<u8>::empty());
        assert(enc_args(p1) =~= enc_args(p0) + enc_arg(s[i]));
    } else {
        let t = s.subrange(1, s.len() as int);
        lemma_enc_args_snoc(t, i - 1);
        assert(p1.subrange(1, p1.len() as int) =~= t.subrange(0, i));
        assert(p0.subrange(1, p0.len() as int) =~= t.subrange(0, i - 1));
        assert(t.subrange(0, i - 1 + 1) =~= t.subrange(0, i));
        assert(t[i - 1] == s[i]);
        assert(enc_args(p1) == enc_arg(s[0]) + enc_args(t.subrange(0, i)));
        assert(enc_args(p1) =~= (enc_arg(s[0]) + enc_args(t.subrange(0, i - 1))) + enc_arg(s[i]));
        assert(enc_args(p0) == enc_arg(s[0]) + enc_args(t.subrange(0, i - 1)));
    }
}

/// Builds the canonical payload bytes for the given domain separator,
/// nonce, function selector and argument tuple.
pub fn encode_payload(domain: &Vec<u8>, nonce: u64, selector: &Vec<u8>, args: &Vec<ArgVal>) -> (r:
    Vec<u8>)
    ensures
        r@ == payload_enc(domain@, nonce, selector@, args@),
{
    let mut out: Vec<u8> = Vec::new();
    push_lp(&mut out, domain);
    push_u64_le(&mut out, nonce);
    push_lp(&mut out, selector);
    push_u64_le(&mut out, args.len() as u64);
    let ghost head: Seq<u8> = out@;
    let mut i: usize = 0;
    while i < args.len()
        invariant
            i <= args@.len(),
            out@ =~= head + enc_args(args@.subrange(0, i as int)),
        decreases args@.len() - i,
    {
        push_arg(&mut out, &args[i]);
        proof {
            lemma_enc_args_snoc(args@, i as int);
        }
        i += 1;
    }
    proof {
        assert(args@.subrange(0, args@.len() as int) =~= args@);
        assert(out@ =~= payload_enc(domain@, nonce, selector@, args@));
    }
    out
}

} // verus!
