//! Null-terminated record streams. The request's argument and option lists
//! are written into the container as each entry followed by a single null
//! byte, and the per-image environment file is read back from the same
//! format. `parse_nul_records` is the exact inverse of `join_nul` on record
//! lists that are free of null bytes.

use vstd::prelude::*;

verus! {

/// The byte stream for a record list: each record followed by a null byte.
pub open spec fn join_nul(args: Seq<Seq<u8>>) -> Seq<u8>
    decreases args.len(),
{
    if args.len() == 0 {
        Seq::empty()
    } else {
        args[0] + seq![0u8] + join_nul(args.drop_first())
    }
}

/// The views of a list of byte vectors.
pub open spec fn views_of(args: Seq<Vec<u8>>) -> Seq<Seq<u8>> {
    args.map_values(|v: Vec<u8>| v@)
}

/// Index of the first null byte, or -1 if there is none.
pub open spec fn first_nul(bytes: Seq<u8>) -> int
    decreases bytes.len(),
{
    if bytes.len() == 0 {
        -1
    } else if bytes[0] == 0u8 {
        0
    } else {
        let r = first_nul(bytes.drop_first());
        if r < 0 {
            -1
        } else {
            r + 1
        }
    }
}

/// Splits a byte stream into its null-terminated records: `None` unless the
/// stream is a concatenation of records each followed by a null byte.
pub open spec fn parse_nul_records(bytes: Seq<u8>) -> Option<Seq<Seq<u8>>>
    decreases bytes.len(),
{
    if bytes.len() == 0 {
        Some(Seq::empty())
    } else {
        let k = first_nul(bytes);
        if k < 0 || k >= bytes.len() {
            None
        } else {
            match parse_nul_records(bytes.skip(k + 1)) {
                Some(rest) => Some(seq![bytes.take(k)] + rest),
                None => None,
            }
        }
    }
}

pub proof fn lemma_first_nul(bytes: Seq<u8>)
    ensures
        first_nul(bytes) < 0 ==> !bytes.contains(0u8),
        first_nul(bytes) >= 0 ==> {
            &&& first_nul(bytes) < bytes.len()
            &&& bytes[first_nul(bytes)] == 0u8
            &&& forall|j: int| 0 <= j < first_nul(bytes) ==> bytes[j] != 0u8
        },
    decreases bytes.len(),
{
    if bytes.len() == 0 {
        assert(!bytes.contains(0u8));
    } else if bytes[0] == 0u8 {
    } else {
        lemma_first_nul(bytes.drop_first());
        let r = first_nul(bytes.drop_first());
        if r < 0 {
            assert forall|j: int| 0 <= j < bytes.len() implies bytes[j] != 0u8 by {
                if j > 0 {
                    assert(bytes.drop_first()[j - 1] == bytes[j]);
                    assert(!bytes.drop_first().contains(0u8));
                }
            }
            assert(!bytes.contains(0u8));
        } else {
            assert forall|j: int| 0 <= j < first_nul(bytes) implies bytes[j] != 0u8 by {
                if j > 0 {
                    assert(bytes.drop_first()[j - 1] == bytes[j]);
                }
            }
        }
    }
}

/// A record followed by a null byte parses off the front of a stream.
pub proof fn lemma_parse_prefix(c: Seq<u8>, rest: Seq<u8>)
    requires
        !c.contains(0u8),
    ensures
        parse_nul_records(c + seq![0u8] + rest) == match parse_nul_records(rest) {
            Some(v) => Some(seq![c] + v),
            None => None::<Seq<Seq<u8>>>,
        },
{
    let s = c + seq![0u8] + rest;
    assert(s.len() > 0);
    lemma_first_nul(s);
    let k = first_nul(s);
    assert(forall|j: int| 0 <= j < c.len() ==> s[j] == c[j] && s[j] != 0u8);
    assert(s[c.len() as int] == 0u8);
    if k < 0 {
        assert(s.contains(0u8)) by {
            assert(s[c.len() as int] == 0u8);
        }
        assert(false);
    }
    if k < c.len() {
        assert(s[k] != 0u8);
        assert(false);
    }
    if k > c.len() {
        assert(s[c.len() as int] != 0u8);
        assert(false);
    }
    assert(k == c.len());
    assert(s.take(k) =~= c);
    assert(s.skip(k + 1) =~= rest);
}

/// Joining records and splitting them again is the identity, for records
/// free of null bytes.
pub proof fn lemma_records_round_trip(args: Seq<Seq<u8>>)
    requires
        forall|i: int| 0 <= i < args.len() ==> !(#[trigger] args[i]).contains(0u8),
    ensures
        parse_nul_records(join_nul(args)) == Some(args),
    decreases args.len(),
{
    if args.len() == 0 {
        assert(join_nul(args).len() == 0);
        assert(parse_nul_records(join_nul(args)) == Some(Seq::<Seq<u8>>::empty()));
        assert(args =~= Seq::<Seq<u8>>::empty());
    } else {
        lemma_records_round_trip(args.drop_first());
        lemma_parse_prefix(args[0], join_nul(args.drop_first()));
        assert(seq![args[0]] + args.drop_first() =~= args);
    }
}

/// Concatenates the arguments, each followed by a single null byte, into the
/// byte stream written to the container's argument and option files.
pub fn join_args(args: &Vec<Vec<u8>>) -> (r: Vec<u8>)
    ensures
        r@ == join_nul(views_of(args@)),
{
    let mut r: Vec<u8> = Vec::new();
    let mut i: usize = 0;
    proof {
        assert(views_of(args@.take(0)) =~= Seq::<Seq<u8>>::empty());
    }
    while i < args.len()
        invariant
            i <= args@.len(),
            r@ == join_nul(views_of(args@.take(i as int))),
        decreases args@.len() - i,
    {
        let ghost pre = views_of(args@.take(i as int));
        let arg = &args[i];
        let mut j: usize = 0;
        while j < arg.len()
            invariant
                j <= arg@.len(),
                r@ == join_nul(pre) + arg@.take(j as int),
            decreases arg@.len() - j,
        {
            let b = arg[j];
            r.push(b);
            j = j + 1;
            assert(r@ =~= join_nul(pre) + arg@.take(j as int));
        }
        assert(arg@.take(arg@.len() as int) =~= arg@);
        r.push(0);
        i = i + 1;
        proof {
            let post = views_of(args@.take(i as int));
            lemma_join_push(pre, arg@);
            assert(post =~= pre.push(arg@));
            assert(r@ =~= join_nul(pre) + arg@ + seq![0u8]);
        }
    }
    assert(args@.take(args@.len() as int) =~= args@);
    r
}

/// Appending one record extends the joined stream by the record and its
/// terminator.
pub proof fn lemma_join_push(args: Seq<Seq<u8>>, x: Seq<u8>)
    ensures
        join_nul(args.push(x)) == join_nul(args) + x + seq![0u8],
    decreases args.len(),
{
    let p = args.push(x);
    if args.len() == 0 {
        assert(p[0] == x);
        assert(p.drop_first() =~= Seq::<Seq<u8>>::empty());
        assert(join_nul(p.drop_first()) == Seq::<u8>::empty());
        assert(join_nul(p) == p[0] + seq![0u8] + join_nul(p.drop_first()));
        assert(join_nul(p) =~= join_nul(args) + x + seq![0u8]);
    } else {
        lemma_join_push(args.drop_first(), x);
        assert(p.drop_first() =~= args.drop_first().push(x));
        assert(p[0] == args[0]);
        assert(join_nul(p) == p[0] + seq![0u8] + join_nul(p.drop_first()));
        assert(join_nul(args) == args[0] + seq![0u8] + join_nul(args.drop_first()));
        assert(join_nul(p) =~= join_nul(args) + x + seq![0u8]);
    }
}

/// Splits a byte stream into its null-terminated records: the environment
/// block of an image is a sequence of such records. Returns `None` when the
/// stream does not end its last record with a null byte.
pub fn parse_records(bytes: &Vec<u8>) -> (r: Option<Vec<Vec<u8>>>)
    ensures
        match r {
            Some(v) => parse_nul_records(bytes@) == Some(views_of(v@)),
            None => parse_nul_records(bytes@) is None,
        },
{
    let mut recs: Vec<Vec<u8>> = Vec::new();
    let mut cur: Vec<u8> = Vec::new();
    let mut i: usize = 0;
    let mut start: usize = 0;
    proof {
        assert(bytes@.skip(0) =~= bytes@);
        assert(views_of(recs@) =~= Seq::<Seq<u8>>::empty());
    }
    while i < bytes.len()
        invariant
            start <= i <= bytes@.len(),
            cur@ == bytes@.subrange(start as int, i as int),
            !cur@.contains(0u8),
            parse_nul_records(bytes@) == match parse_nul_records(bytes@.skip(start as int)) {
                Some(v) => Some(views_of(recs@) + v),
                None => None::<Seq<Seq<u8>>>,
            },
        decreases bytes@.len() - i,
    {
        let b = bytes[i];
        if b == 0 {
            proof {
                let rest = bytes@.skip(i + 1);
                assert(bytes@.skip(start as int) =~= cur@ + seq![0u8] + rest);
                lemma_parse_prefix(cur@, rest);
            }
            let ghost old_recs = recs@;
            let ghost old_cur = cur@;
            recs.push(cur);
            proof {
                assert(views_of(recs@) =~= views_of(old_recs).push(old_cur));
                assert(views_of(old_recs) + (seq![old_cur] + (match parse_nul_records(
                    bytes@.skip(i + 1),
                ) {
                    Some(v) => v,
                    None => Seq::empty(),
                })) =~= views_of(recs@) + (match parse_nul_records(bytes@.skip(i + 1)) {
                    Some(v) => v,
                    None => Seq::empty(),
                }));
            }
            cur = Vec::new();
            start = i + 1;
            i = i + 1;
            assert(cur@ =~= bytes@.subrange(start as int, i as int));
        } else {
            cur.push(b);
            i = i + 1;
            assert(cur@ =~= bytes@.subrange(start as int, i as int));
        }
    }
    if cur.len() == 0 {
        proof {
            assert(bytes@.skip(start as int) =~= Seq::<u8>::empty());
            assert(parse_nul_records(bytes@.skip(start as int)) == Some(Seq::<Seq<u8>>::empty()));
            assert(views_of(recs@) + Seq::<Seq<u8>>::empty() =~= views_of(recs@));
        }
        Some(recs)
    } else {
        proof {
            let tail = bytes@.skip(start as int);
            assert(tail =~= cur@);
            lemma_first_nul(tail);
            if first_nul(tail) >= 0 {
                assert(tail[first_nul(tail)] == 0u8);
                assert(cur@.contains(0u8));
            }
            assert(parse_nul_records(tail) is None);
        }
        None
    }
}

} // verus!
