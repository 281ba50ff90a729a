use vstd::prelude::*;
use vstd::string::StrSliceExecFns;

verus! {

/// Whether the blank-line separator (carriage return and line feed,
/// twice) starts at position `i` of `s`.
pub open spec fn sep_at(s: Seq<char>, i: int) -> bool {
    &&& 0 <= i
    &&& i + 4 <= s.len()
    &&& s[i] == '\r'
    &&& s[i + 1] == '\n'
    &&& s[i + 2] == '\r'
    &&& s[i + 3] == '\n'
}

/// What follows the first blank-line separator of `s`; empty when `s`
/// holds none.
pub open spec fn long_about_spec(s: Seq<char>) -> Seq<char>
    decreases s.len(),
{
    if s.len() < 4 {
        Seq::empty()
    } else if sep_at(s, 0) {
        s.skip(4)
    } else {
        long_about_spec(s.skip(1))
    }
}

/// Skipping a prefix that holds no separator start does not change what
/// follows the first separator.
proof fn lemma_long_about_skip(s: Seq<char>, k: int)
    requires
        0 <= k <= s.len(),
        forall|j: int| 0 <= j < k ==> !sep_at(s, j),
    ensures
        long_about_spec(s) == long_about_spec(s.skip(k)),
    decreases k,
{
    if k == 0 {
        assert(s.skip(0) =~= s);
    } else {
        assert(!sep_at(s, 0));
        if s.len() < 4 {
            assert(s.skip(k).len() < 4);
        } else {
            assert(long_about_spec(s) == long_about_spec(s.skip(1)));
            assert forall|j: int| 0 <= j < k - 1 implies !sep_at(s.skip(1), j) by {
                assert(!sep_at(s, j + 1));
            }
            lemma_long_about_skip(s.skip(1), k - 1);
            assert(s.skip(1).skip(k - 1) =~= s.skip(k));
        }
    }
}

/// The tail of the accompanying documentation: everything after its
/// first blank line, or nothing when it has none. The documentation text
/// is handed in by the surrounding process.
pub fn long_about(doc: &str) -> (r: &str)
    ensures
        r@ == long_about_spec(doc@),
{
    let n = doc.unicode_len();
    if n < 4 {
        proof {
            reveal_strlit("");
        }
        return "";
    }
    let mut i: usize = 0;
    while i <= n - 4
        invariant
            n == doc@.len(),
            4 <= n,
            i <= n - 3,
            forall|j: int| 0 <= j < i ==> !sep_at(doc@, j),
        decreases n - i,
    {
        if doc.get_char(i) == '\r' && doc.get_char(i + 1) == '\n' && doc.get_char(i + 2) == '\r'
            && doc.get_char(i + 3) == '\n' {
            proof {
                assert(sep_at(doc@, i as int));
                lemma_long_about_skip(doc@, i as int);
                assert(sep_at(doc@.skip(i as int), 0)) by {
                    assert(doc@.skip(i as int)[0] == doc@[i as int]);
                    assert(doc@.skip(i as int)[1] == doc@[i as int + 1]);
                    assert(doc@.skip(i as int)[2] == doc@[i as int + 2]);
                    assert(doc@.skip(i as int)[3] == doc@[i as int + 3]);
                }
                assert(doc@.skip(i as int).skip(4) =~= doc@.skip(i as int + 4));
                assert(doc@.skip(i as int + 4) =~= doc@.subrange(i as int + 4, n as int));
            }
            return doc.substring_char(i + 4, n);
        }
        i += 1;
    }
    proof {
        assert forall|j: int| 0 <= j < n implies !sep_at(doc@, j) by {
            if j + 4 > n {
                assert(!sep_at(doc@, j));
            }
        }
        lemma_long_about_skip(doc@, n as int);
        assert(doc@.skip(n as int).len() < 4);
        reveal_strlit("");
        assert(""@ =~= long_about_spec(doc@));
    }
    ""
}

} // verus!
