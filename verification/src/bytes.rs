use vstd::prelude::*;

verus! {

/// The view of an optional byte vector.
pub open spec fn opt_view(o: Option<Vec<u8>>) -> Option<Seq<u8>> {
    match o {
        Some(v) => Some(v@),
        None => None,
    }
}

/// Copies `v[start .. end]` into a fresh vector.
pub(crate) fn vec_slice(v: &Vec<u8>, start: usize, end: usize) -> (r: Vec<u8>)
    requires
        start <= end <= v@.len(),
    ensures
        r@ == v@.subrange(start as int, end as int),
{
    let mut r: Vec<u8> = Vec::new();
    let mut i: usize = start;
    while i < end
        invariant
            start <= i <= end <= v@.len(),
            r@ == v@.subrange(start as int, i as int),
        decreases end - i,
    {
        r.push(v[i]);
        proof {
            assert(v@.subrange(start as int, i as int).push(v@[i as int]) =~= v@.subrange(
                start as int,
                i + 1 as int,
            ));
        }
        i = i + 1;
    }
    r
}

/// Appends all of `src` to `dst`.
pub(crate) fn push_all(dst: &mut Vec<u8>, src: &Vec<u8>)
    ensures
        final(dst)@ == old(dst)@ + src@,
{
    let mut i: usize = 0;
    while i < src.len()
        invariant
            i <= src@.len(),
            dst@ == old(dst)@ + src@.subrange(0, i as int),
        decreases src@.len() - i,
    {
        dst.push(src[i]);
        proof {
            assert(old(dst)@ + src@.subrange(0, i as int).push(src@[i as int]) =~= old(dst)@
                + src@.subrange(0, i + 1 as int));
        }
        i = i + 1;
    }
    proof {
        assert(src@.subrange(0, src@.len() as int) =~= src@);
    }
}

/// Whether `prefix` stands at the start of `text`.
pub fn starts_with_bytes(text: &Vec<u8>, prefix: &Vec<u8>) -> (r: bool)
    ensures
        r <==> prefix@.is_prefix_of(text@),
{
    if prefix.len() > text.len() {
        return false;
    }
    let mut i: usize = 0;
    while i < prefix.len()
        invariant
            i <= prefix@.len() <= text@.len(),
            forall|j: int| 0 <= j < i ==> text@[j] == prefix@[j],
        decreases prefix@.len() - i,
    {
        if text[i] != prefix[i] {
            proof {
                assert(!prefix@.is_prefix_of(text@)) by {
                    if prefix@.is_prefix_of(text@) {
                        assert(prefix@[i as int] == text@.subrange(
                            0,
                            prefix@.len() as int,
                        )[i as int]);
                    }
                }
            }
            return false;
        }
        i = i + 1;
    }
    proof {
        assert(prefix@ =~= text@.subrange(0, prefix@.len() as int));
    }
    true
}

/// The index of the first line break in `v`, or its length where it has none.
pub(crate) fn find_newline(v: &Vec<u8>) -> (r: usize)
    ensures
        match v@.index_of_first(10u8) {
            Some(i) => r == i,
            None => r == v@.len(),
        },
{
    let mut i: usize = 0;
    while i < v.len()
        invariant
            i <= v@.len(),
            forall|j: int| 0 <= j < i ==> v@[j] != 10u8,
        decreases v@.len() - i,
    {
        if v[i] == 10u8 {
            proof {
                v@.index_of_first_ensures(10u8);
                assert(v@.contains(10u8)) by {
                    assert(v@[i as int] == 10u8);
                }
            }
            return i;
        }
        i = i + 1;
    }
    proof {
        v@.index_of_first_ensures(10u8);
        match v@.index_of_first(10u8) {
            Some(k) => {
                assert(v@[k] != 10u8);
            },
            None => {},
        }
    }
    v.len()
}

} // verus!
