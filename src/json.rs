use vstd::prelude::*;

verus! {

/// `s` as the body of a JSON string: each `"` preceded by a backslash.
pub open spec fn json_escaped(s: Seq<char>) -> Seq<char>
    decreases s.len(),
{
    if s.len() == 0 {
        Seq::empty()
    } else if s.last() == '"' {
        json_escaped(s.drop_last()) + seq!['\\', '"']
    } else {
        json_escaped(s.drop_last()).push(s.last())
    }
}

proof fn lemma_escape_plain_tail(a: Seq<char>, b: Seq<char>)
    requires
        forall|k: int| 0 <= k < b.len() ==> b[k] != '"',
    ensures
        json_escaped(a + b) == json_escaped(a) + b,
    decreases b.len(),
{
    if b.len() == 0 {
        assert(a + b =~= a);
        assert(json_escaped(a) + b =~= json_escaped(a));
    } else {
        let c = b.last();
        let p = b.drop_last();
        lemma_escape_plain_tail(a, p);
        assert((a + b).drop_last() =~= a + p);
        assert((a + b).last() == c);
        assert(json_escaped(a) + b =~= (json_escaped(a) + p).push(c));
    }
}

/// Appends `s` to `out` with each `"` preceded by a backslash.
pub fn push_json_escaped(out: &mut String, s: &str)
    ensures
        final(out)@ == old(out)@ + json_escaped(s@),
{
    let n = s.unicode_len();
    let mut seg: usize = 0;
    let mut i: usize = 0;
    proof {
        assert(s@.subrange(0, 0) =~= Seq::<char>::empty());
        assert(old(out)@ + json_escaped(Seq::<char>::empty()) =~= old(out)@);
    }
    for c in it: s.chars()
        invariant
            it.seq() == s@,
            i == it.index(),
            seg <= i <= n,
            n == s@.len(),
            out@ == old(out)@ + json_escaped(s@.subrange(0, seg as int)),
            forall|k: int| seg <= k < i ==> s@[k] != '"',
    {
        if c == '"' {
            proof {
                reveal_strlit("\\\"");
                let a = s@.subrange(0, seg as int);
                let b = s@.subrange(seg as int, i as int);
                lemma_escape_plain_tail(a, b);
                let t = s@.subrange(0, i + 1);
                assert(t.drop_last() =~= a + b);
                assert(t.last() == '"');
            }
            out.append(s.substring_char(seg, i));
            out.append("\\\"");
            assert(out@ =~= old(out)@ + json_escaped(s@.subrange(0, i + 1)));
            seg = i + 1;
        }
        i = i + 1;
    }
    proof {
        let a = s@.subrange(0, seg as int);
        let b = s@.subrange(seg as int, n as int);
        lemma_escape_plain_tail(a, b);
        assert(a + b =~= s@);
    }
    out.append(s.substring_char(seg, n));
    assert(final(out)@ =~= old(out)@ + json_escaped(s@));
}

} // verus!
