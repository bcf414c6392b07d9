//! Dot-separated labels of a name: splitting and joining.
use vstd::prelude::*;

verus! {

/// The dot-separated labels of `s`; an empty text has one empty label.
pub open spec fn split_dots(s: Seq<char>) -> Seq<Seq<char>>
    decreases s.len(),
{
    if s.len() == 0 {
        seq![seq![]]
    } else {
        let l = split_dots(s.drop_last());
        if s.last() == '.' {
            l.push(seq![])
        } else {
            l.update(l.len() - 1, l.last().push(s.last()))
        }
    }
}

/// The labels joined by dots.
pub open spec fn join_dots(ls: Seq<Seq<char>>) -> Seq<char>
    decreases ls.len(),
{
    if ls.len() == 0 {
        seq![]
    } else if ls.len() == 1 {
        ls[0]
    } else {
        join_dots(ls.drop_last()) + seq!['.'] + ls.last()
    }
}

/// The views of a list of labels.
pub open spec fn labels_view(v: Seq<Vec<char>>) -> Seq<Seq<char>> {
    v.map_values(|x: Vec<char>| x@)
}

proof fn lemma_split_nonempty(s: Seq<char>)
    ensures
        split_dots(s).len() >= 1,
    decreases s.len(),
{
    if s.len() > 0 {
        lemma_split_nonempty(s.drop_last());
    }
}

/// Split the characters at every dot.
pub fn split_labels(s: &[char]) -> (r: Vec<Vec<char>>)
    ensures
        labels_view(r@) == split_dots(s@),
{
    let mut labels: Vec<Vec<char>> = Vec::new();
    let mut cur: Vec<char> = Vec::new();
    let mut i: usize = 0;
    while i < s.len()
        invariant
            i <= s@.len(),
            split_dots(s@.subrange(0, i as int)) == labels_view(labels@).push(cur@),
        decreases s@.len() - i,
    {
        let c = s[i];
        proof {
            let p = s@.subrange(0, i as int + 1);
            assert(p.drop_last() =~= s@.subrange(0, i as int));
            lemma_split_nonempty(p.drop_last());
        }
        let ghost before_labels = labels@;
        let ghost before_cur = cur@;
        if c == '.' {
            let done = cur;
            labels.push(done);
            cur = Vec::new();
            proof {
                assert(labels_view(labels@) =~= labels_view(before_labels).push(before_cur));
                assert(split_dots(s@.subrange(0, i as int + 1)) =~= labels_view(labels@).push(cur@));
            }
        } else {
            cur.push(c);
            proof {
                assert(split_dots(s@.subrange(0, i as int + 1)) =~= labels_view(labels@).push(cur@));
            }
        }
        i += 1;
    }
    assert(s@.subrange(0, s@.len() as int) =~= s@);
    let ghost before_labels = labels@;
    labels.push(cur);
    assert(labels_view(labels@) =~= labels_view(before_labels).push(labels@.last()@));
    labels
}

/// Join labels with dots.
pub fn join_labels(ls: &Vec<Vec<char>>) -> (r: Vec<char>)
    ensures
        r@ == join_dots(labels_view(ls@)),
{
    let mut out: Vec<char> = Vec::new();
    let mut i: usize = 0;
    while i < ls.len()
        invariant
            i <= ls@.len(),
            out@ == join_dots(labels_view(ls@.subrange(0, i as int))),
        decreases ls@.len() - i,
    {
        let ghost before = out@;
        if i > 0 {
            out.push('.');
        }
        let mut j: usize = 0;
        let ghost mid = out@;
        while j < ls[i].len()
            invariant
                i < ls@.len(),
                j <= ls@[i as int]@.len(),
                out@ == mid + ls@[i as int]@.subrange(0, j as int),
            decreases ls@[i as int]@.len() - j,
        {
            out.push(ls[i][j]);
            j += 1;
        }
        proof {
            assert(ls@[i as int]@.subrange(0, ls@[i as int]@.len() as int) =~= ls@[i as int]@);
            let p = labels_view(ls@.subrange(0, i as int + 1));
            assert(p.drop_last() =~= labels_view(ls@.subrange(0, i as int)));
            assert(p.last() == ls@[i as int]@);
            if i == 0 {
                assert(out@ =~= join_dots(p));
            } else {
                assert(out@ =~= join_dots(p));
            }
        }
        i += 1;
    }
    assert(ls@.subrange(0, ls@.len() as int) =~= ls@);
    out
}

} // verus!
