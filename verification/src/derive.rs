use vstd::prelude::*;

use crate::bytes::{be4, bytes_eq, extend_from, lemma_be4_injective, u32_to_be};
use crate::crypto::{sha256, sha256_of};
use crate::error::Error;

verus! {

/// Record-kind tags, one per kind of derived record, so that seed lists
/// for different kinds can never collide.
pub const TAG_BRIDGE: u8 = 1;

pub const TAG_GUARDIAN_SET: u8 = 2;

pub const TAG_CLAIM: u8 = 3;

pub const TAG_TRANSFER: u8 = 4;

pub const TAG_WRAPPED_ASSET: u8 = 5;

pub const TAG_WRAPPED_META: u8 = 6;

pub const TAG_CUSTODY: u8 = 7;

/// Every seed, and the seed count, must fit its four-byte length prefix.
pub open spec fn seeds_wf(seeds: Seq<Seq<u8>>) -> bool {
    &&& seeds.len() <= u32::MAX
    &&& forall|i: int| 0 <= i < seeds.len() ==> #[trigger] seeds[i].len() <= u32::MAX
}

/// Each seed laid out behind its own length prefix.
pub open spec fn encode_seeds(seeds: Seq<Seq<u8>>) -> Seq<u8>
    decreases seeds.len(),
{
    if seeds.len() == 0 {
        Seq::empty()
    } else {
        be4(seeds[0].len() as u32) + seeds[0] + encode_seeds(seeds.drop_first())
    }
}

/// The full material an identifier is derived from: the program identity,
/// the seed count, and the length-prefixed seeds.
pub open spec fn seed_material(program_id: Seq<u8>, seeds: Seq<Seq<u8>>) -> Seq<u8> {
    program_id + be4(seeds.len() as u32) + encode_seeds(seeds)
}

/// The canonical identifier of the record addressed by a seed list: a pure
/// function of the seeds and the program identity.
pub open spec fn derive_spec(program_id: Seq<u8>, seeds: Seq<Seq<u8>>) -> Seq<u8> {
    sha256_of(seed_material(program_id, seeds))
}

proof fn lemma_encode_seeds_snoc(s: Seq<Seq<u8>>, x: Seq<u8>)
    ensures
        encode_seeds(s.push(x)) == encode_seeds(s) + be4(x.len() as u32) + x,
    decreases s.len(),
{
    let p = s.push(x);
    assert(encode_seeds(p) == be4(p[0].len() as u32) + p[0] + encode_seeds(p.drop_first()));
    if s.len() == 0 {
        assert(p[0] == x);
        assert(p.drop_first() =~= Seq::<Seq<u8>>::empty());
        assert(encode_seeds(p.drop_first()) == Seq::<u8>::empty());
        assert(encode_seeds(p) =~= encode_seeds(s) + be4(x.len() as u32) + x);
    } else {
        assert(p[0] == s[0]);
        assert(p.drop_first() =~= s.drop_first().push(x));
        lemma_encode_seeds_snoc(s.drop_first(), x);
        assert(encode_seeds(s) == be4(s[0].len() as u32) + s[0] + encode_seeds(s.drop_first()));
        assert(encode_seeds(p) =~= encode_seeds(s) + be4(x.len() as u32) + x);
    }
}

/// Two well-formed seed lists of the same length with the same encoding
/// are the same list: the length prefixes make the layout unambiguous.
pub proof fn lemma_encode_seeds_injective(s1: Seq<Seq<u8>>, s2: Seq<Seq<u8>>)
    requires
        seeds_wf(s1),
        seeds_wf(s2),
        s1.len() == s2.len(),
        encode_seeds(s1) == encode_seeds(s2),
    ensures
        s1 == s2,
    decreases s1.len(),
{
    if s1.len() == 0 {
        assert(s1 =~= s2);
    } else {
        let e1 = encode_seeds(s1);
        let e2 = encode_seeds(s2);
        let n1 = s1[0].len() as int;
        let n2 = s2[0].len() as int;
        assert(e1.subrange(0, 4) =~= be4(s1[0].len() as u32));
        assert(e2.subrange(0, 4) =~= be4(s2[0].len() as u32));
        lemma_be4_injective(s1[0].len() as u32, s2[0].len() as u32);
        assert(s1[0].len() as u32 == s2[0].len() as u32);
        assert(n1 == n2);
        assert(e1.subrange(4, 4 + n1) =~= s1[0]);
        assert(e2.subrange(4, 4 + n1) =~= s2[0]);
        assert(s1[0] == s2[0]);
        assert(e1.subrange(4 + n1, e1.len() as int) =~= encode_seeds(s1.drop_first()));
        assert(e2.subrange(4 + n1, e2.len() as int) =~= encode_seeds(s2.drop_first()));
        lemma_encode_seeds_injective(s1.drop_first(), s2.drop_first());
        assert forall|i: int| 0 <= i < s1.len() implies s1[i] == s2[i] by {
            if i > 0 {
                assert(s1.drop_first()[i - 1] == s1[i]);
                assert(s2.drop_first()[i - 1] == s2[i]);
            }
        }
        assert(s1 =~= s2);
    }
}

/// Distinct seed material never collides before hashing: the identifier
/// derivation is injective in the seeds up to hash collisions.
pub proof fn lemma_seed_material_injective(
    p1: Seq<u8>,
    s1: Seq<Seq<u8>>,
    p2: Seq<u8>,
    s2: Seq<Seq<u8>>,
)
    requires
        p1.len() == 32,
        p2.len() == 32,
        seeds_wf(s1),
        seeds_wf(s2),
        seed_material(p1, s1) == seed_material(p2, s2),
    ensures
        p1 == p2,
        s1 == s2,
{
    let m1 = seed_material(p1, s1);
    let m2 = seed_material(p2, s2);
    assert(m1.subrange(0, 32) =~= p1);
    assert(m2.subrange(0, 32) =~= p2);
    assert(p1 == p2);
    assert(m1.subrange(32, 36) =~= be4(s1.len() as u32));
    assert(m2.subrange(32, 36) =~= be4(s2.len() as u32));
    lemma_be4_injective(s1.len() as u32, s2.len() as u32);
    assert(s1.len() == s2.len());
    assert(m1.subrange(36, m1.len() as int) =~= encode_seeds(s1));
    assert(m2.subrange(36, m2.len() as int) =~= encode_seeds(s2));
    lemma_encode_seeds_injective(s1, s2);
}

/// Derives the canonical identifier for a seed list under a program
/// identity; re-deriving with identical inputs always yields the same
/// identifier.
pub fn derive_key(program_id: &Vec<u8>, seeds: &Vec<Vec<u8>>) -> (r: Vec<u8>)
    requires
        program_id@.len() == 32,
        seeds_wf(seeds.deep_view()),
    ensures
        r@ == derive_spec(program_id@, seeds.deep_view()),
        r@.len() == 32,
{
    let ghost dv = seeds.deep_view();
    let mut m: Vec<u8> = Vec::new();
    extend_from(&mut m, program_id);
    let cnt = u32_to_be(seeds.len() as u32);
    extend_from(&mut m, &cnt);
    let mut i: usize = 0;
    proof {
        assert(dv.subrange(0, 0) =~= Seq::<Seq<u8>>::empty());
        assert(m@ =~= program_id@ + be4(dv.len() as u32) + encode_seeds(dv.subrange(0, 0)));
    }
    while i < seeds.len()
        invariant
            i <= seeds@.len(),
            dv == seeds.deep_view(),
            dv.len() == seeds@.len(),
            program_id@.len() == 32,
            seeds_wf(dv),
            m@ == program_id@ + be4(dv.len() as u32) + encode_seeds(dv.subrange(0, i as int)),
        decreases seeds@.len() - i,
    {
        proof {
            assert(dv[i as int] == seeds@[i as int].deep_view());
            assert(dv[i as int].len() <= u32::MAX);
        }
        let len_bytes = u32_to_be(seeds[i].len() as u32);
        extend_from(&mut m, &len_bytes);
        extend_from(&mut m, &seeds[i]);
        proof {
            assert(dv.subrange(0, i as int).push(dv[i as int]) =~= dv.subrange(0, i as int + 1));
            lemma_encode_seeds_snoc(dv.subrange(0, i as int), dv[i as int]);
            assert(m@ =~= program_id@ + be4(dv.len() as u32) + encode_seeds(
                dv.subrange(0, i as int + 1)));
        }
        i += 1;
    }
    proof {
        assert(dv.subrange(0, dv.len() as int) =~= dv);
    }
    sha256(&m)
}

/// Re-derives the identifier from the seeds and compares it with the
/// caller-supplied one: the sole authorization primitive for record
/// ownership. No record is touched here; a mismatch is the caller's
/// whole failure.
pub fn check_and_create_account(program_id: &Vec<u8>, new_account: &Vec<u8>, seeds: &Vec<Vec<u8>>)
    -> (r: Result<(), Error>)
    requires
        program_id@.len() == 32,
        seeds_wf(seeds.deep_view()),
    ensures
        r is Ok <==> new_account@ == derive_spec(program_id@, seeds.deep_view()),
        r is Err ==> r == Result::<(), Error>::Err(Error::InvalidDerivedAccount),
{
    let expected = derive_key(program_id, seeds);
    if bytes_eq(&expected, new_account) {
        Ok(())
    } else {
        Err(Error::InvalidDerivedAccount)
    }
}

} // verus!
