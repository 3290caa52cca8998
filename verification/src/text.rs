use vstd::prelude::*;
use vstd::string::*;

verus! {

/// The pieces of `s` between occurrences of `sep`, in order.  An empty text
/// has one empty piece, and every separator starts a new piece.
pub open spec fn split_on(s: Seq<char>, sep: char) -> Seq<Seq<char>>
    decreases s.len(),
{
    if s.len() == 0 {
        seq![Seq::<char>::empty()]
    } else {
        let rest = split_on(s.drop_last(), sep);
        if s.last() == sep {
            rest.push(Seq::<char>::empty())
        } else {
            rest.update(rest.len() - 1, rest.last().push(s.last()))
        }
    }
}

/// The pieces written one after another, with `sep` between neighbours.
pub open spec fn join_with(parts: Seq<Seq<char>>, sep: Seq<char>) -> Seq<char>
    decreases parts.len(),
{
    if parts.len() == 0 {
        Seq::<char>::empty()
    } else if parts.len() == 1 {
        parts[0]
    } else {
        join_with(parts.drop_last(), sep) + sep + parts.last()
    }
}

/// `s` holds no occurrence of `c`.
pub open spec fn free_of(s: Seq<char>, c: char) -> bool {
    forall|i: int| 0 <= i < s.len() ==> s[i] != c
}

/// The texts of a list of strings.
pub open spec fn texts(v: Seq<String>) -> Seq<Seq<char>> {
    v.map_values(|p: String| p@)
}

/// Splitting always yields at least one piece.
pub proof fn lemma_split_nonempty(s: Seq<char>, sep: char)
    ensures
        split_on(s, sep).len() >= 1,
    decreases s.len(),
{
    if s.len() > 0 {
        lemma_split_nonempty(s.drop_last(), sep);
    }
}

/// No piece of a split holds the separator.
pub proof fn lemma_split_pieces_free(s: Seq<char>, sep: char)
    ensures
        forall|k: int| 0 <= k < split_on(s, sep).len() ==> free_of(#[trigger] split_on(s, sep)[k], sep),
    decreases s.len(),
{
    if s.len() > 0 {
        lemma_split_pieces_free(s.drop_last(), sep);
        lemma_split_nonempty(s.drop_last(), sep);
        let rest = split_on(s.drop_last(), sep);
        if s.last() != sep {
            assert forall|k: int| 0 <= k < split_on(s, sep).len() implies free_of(
                #[trigger] split_on(s, sep)[k],
                sep,
            ) by {
                if k == rest.len() - 1 {
                    assert(free_of(rest[k], sep));
                    let p = rest.last().push(s.last());
                    assert forall|i: int| 0 <= i < p.len() implies p[i] != sep by {
                        if i < rest.last().len() {
                            assert(p[i] == rest.last()[i]);
                        }
                    }
                }
            }
        }
    }
}

/// Extending the last piece by one character extends the joined text by it.
proof fn lemma_join_extend_last(parts: Seq<Seq<char>>, sep: Seq<char>, c: char)
    requires
        parts.len() >= 1,
    ensures
        join_with(parts.update(parts.len() - 1, parts.last().push(c)), sep) == join_with(
            parts,
            sep,
        ).push(c),
{
    let q = parts.update(parts.len() - 1, parts.last().push(c));
    if parts.len() == 1 {
        assert(q[0] == parts[0].push(c));
    } else {
        assert(q.drop_last() =~= parts.drop_last());
        assert(q.last() == parts.last().push(c));
        assert(join_with(parts.drop_last(), sep) + sep + parts.last().push(c) =~= (join_with(
            parts.drop_last(),
            sep,
        ) + sep + parts.last()).push(c));
    }
}

/// Joining the pieces of a split with the separator gives back the text.
pub proof fn lemma_join_split(s: Seq<char>, sep: char)
    ensures
        join_with(split_on(s, sep), seq![sep]) == s,
    decreases s.len(),
{
    if s.len() == 0 {
        assert(split_on(s, sep) =~= seq![Seq::<char>::empty()]);
        assert(s =~= Seq::<char>::empty());
    } else {
        let init = s.drop_last();
        lemma_join_split(init, sep);
        lemma_split_nonempty(init, sep);
        let rest = split_on(init, sep);
        if s.last() == sep {
            let parts = rest.push(Seq::<char>::empty());
            assert(parts.drop_last() =~= rest);
            assert(join_with(rest, seq![sep]) + seq![sep] + Seq::<char>::empty() =~= s);
        } else {
            lemma_join_extend_last(rest, seq![sep], s.last());
            assert(init.push(s.last()) =~= s);
        }
    }
}


/// A text free of the separator is a single piece.
pub proof fn lemma_split_free(s: Seq<char>, sep: char)
    requires
        free_of(s, sep),
    ensures
        split_on(s, sep) == seq![s],
    decreases s.len(),
{
    if s.len() == 0 {
        assert(s =~= Seq::<char>::empty());
    } else {
        let init = s.drop_last();
        assert(free_of(init, sep));
        lemma_split_free(init, sep);
        assert(s.last() == s[s.len() - 1]);
        assert(init.push(s.last()) =~= s);
        assert(split_on(s, sep) =~= seq![s]);
    }
}

/// Splitting a text made of two parts and a separator between them gives the
/// pieces of the first part followed by the pieces of the second.
pub proof fn lemma_split_concat(x: Seq<char>, y: Seq<char>, sep: char)
    ensures
        split_on(x + seq![sep] + y, sep) == split_on(x, sep) + split_on(y, sep),
    decreases y.len(),
{
    let whole = x + seq![sep] + y;
    lemma_split_nonempty(x, sep);
    if y.len() == 0 {
        assert(whole.drop_last() =~= x);
        assert(whole.last() == sep);
        assert(split_on(y, sep) =~= seq![Seq::<char>::empty()]);
        assert(split_on(x, sep).push(Seq::<char>::empty()) =~= split_on(x, sep) + split_on(y, sep));
    } else {
        let y0 = y.drop_last();
        lemma_split_concat(x, y0, sep);
        lemma_split_nonempty(y0, sep);
        assert(whole.drop_last() =~= x + seq![sep] + y0);
        assert(whole.last() == y.last());
        let a = split_on(x, sep);
        let b = split_on(y0, sep);
        if y.last() == sep {
            assert((a + b).push(Seq::<char>::empty()) =~= a + b.push(Seq::<char>::empty()));
        } else {
            let ab = a + b;
            assert(ab.last() == b.last());
            assert(ab.update(ab.len() - 1, ab.last().push(y.last())) =~= a + b.update(
                b.len() - 1,
                b.last().push(y.last()),
            ));
        }
    }
}

/// Pieces free of the separator are exactly what splitting their join gives.
pub proof fn lemma_split_join(parts: Seq<Seq<char>>, sep: char)
    requires
        parts.len() >= 1,
        forall|k: int| 0 <= k < parts.len() ==> free_of(#[trigger] parts[k], sep),
    ensures
        split_on(join_with(parts, seq![sep]), sep) == parts,
    decreases parts.len(),
{
    if parts.len() == 1 {
        assert(free_of(parts[0], sep));
        lemma_split_free(parts[0], sep);
        assert(parts =~= seq![parts[0]]);
    } else {
        let init = parts.drop_last();
        assert forall|k: int| 0 <= k < init.len() implies free_of(#[trigger] init[k], sep) by {
            assert(init[k] == parts[k]);
        }
        lemma_split_join(init, sep);
        assert(free_of(parts[parts.len() - 1], sep));
        lemma_split_free(parts.last(), sep);
        lemma_split_concat(join_with(init, seq![sep]), parts.last(), sep);
        assert(init + seq![parts.last()] =~= parts);
    }
}


/// The pieces of `s` between occurrences of `sep`, as owned strings.
pub fn split_text(s: &str, sep: char) -> (parts: Vec<String>)
    ensures
        texts(parts@) == split_on(s@, sep),
{
    let n = s.unicode_len();
    let mut parts: Vec<String> = Vec::new();
    let mut start: usize = 0;
    let mut i: usize = 0;
    assert(texts(parts@) =~= Seq::<Seq<char>>::empty());
    assert(s@.subrange(0, 0) =~= Seq::<char>::empty());
    assert(texts(parts@).push(s@.subrange(0, 0)) =~= seq![Seq::<char>::empty()]);
    while i < n
        invariant
            n == s@.len(),
            start <= i <= n,
            texts(parts@).push(s@.subrange(start as int, i as int)) == split_on(
                s@.subrange(0, i as int),
                sep,
            ),
        decreases n - i,
    {
        let c = s.get_char(i);
        let ghost prefix = s@.subrange(0, i as int + 1);
        assert(prefix.drop_last() =~= s@.subrange(0, i as int));
        assert(prefix.last() == c);
        if c == sep {
            let piece = String::from_str(s.substring_char(start, i));
            let ghost before = texts(parts@);
            parts.push(piece);
            assert(texts(parts@) =~= before.push(piece@));
            assert(s@.subrange(i as int + 1, i as int + 1) =~= Seq::<char>::empty());
            start = i + 1;
        } else {
            let ghost before = texts(parts@);
            let ghost seg = s@.subrange(start as int, i as int);
            assert(seg.push(c) =~= s@.subrange(start as int, i as int + 1));
            assert(before.push(seg).update(before.len() as int, seg.push(c)) =~= before.push(
                s@.subrange(start as int, i as int + 1),
            ));
        }
        i = i + 1;
    }
    let last = String::from_str(s.substring_char(start, n));
    let ghost before = texts(parts@);
    parts.push(last);
    assert(texts(parts@) =~= before.push(last@));
    assert(s@.subrange(0, n as int) =~= s@);
    parts
}


/// The first `count` strings of `parts`, with `sep` between neighbours.
pub fn join_texts(parts: &Vec<String>, count: usize, sep: &str) -> (joined: String)
    requires
        count <= parts@.len(),
    ensures
        joined@ == join_with(texts(parts@).take(count as int), sep@),
{
    let mut joined = String::new();
    let mut i: usize = 0;
    assert(texts(parts@).take(0) =~= Seq::<Seq<char>>::empty());
    while i < count
        invariant
            count <= parts@.len(),
            i <= count,
            joined@ == join_with(texts(parts@).take(i as int), sep@),
        decreases count - i,
    {
        let ghost done = texts(parts@).take(i as int);
        let ghost next = texts(parts@).take(i as int + 1);
        assert(next.drop_last() =~= done);
        assert(next.last() == parts@[i as int]@);
        if i == 0 {
            assert(next =~= seq![parts@[0]@]);
            joined.append(parts[i].as_str());
            assert(joined@ =~= next[0]);
        } else {
            joined.append(sep);
            joined.append(parts[i].as_str());
            assert(joined@ =~= join_with(done, sep@) + sep@ + next.last());
        }
        i = i + 1;
    }
    joined
}

} // verus!
