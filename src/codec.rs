//! Encoding of the preserve list into a single text column, and back.
//!
//! The encoder concatenates the tokens with no separator while the decoder
//! splits on commas, so the two are not inverses: `["a", "b"]` and `["ab"]`
//! encode to the same text. This asymmetry is kept on purpose and flagged
//! for the maintainers.
use vstd::prelude::*;
use vstd::string::*;

verus! {

/// The character views of a list of strings.
pub open spec fn views(v: Seq<String>) -> Seq<Seq<char>> {
    v.map_values(|s: String| s@)
}

/// All tokens written one after the other.
pub open spec fn concat_all(parts: Seq<Seq<char>>) -> Seq<char>
    decreases parts.len(),
{
    if parts.len() == 0 {
        Seq::empty()
    } else {
        concat_all(parts.drop_last()) + parts.last()
    }
}

/// The tokens written one after the other with a comma between neighbours.
pub open spec fn join_commas(parts: Seq<Seq<char>>) -> Seq<char>
    decreases parts.len(),
{
    if parts.len() == 0 {
        Seq::empty()
    } else if parts.len() == 1 {
        parts[0]
    } else {
        join_commas(parts.drop_last()) + seq![','] + parts.last()
    }
}

/// No token holds a comma.
pub open spec fn comma_free(parts: Seq<Seq<char>>) -> bool {
    forall|k: int| 0 <= k < parts.len() ==> !(#[trigger] parts[k]).contains(',')
}

/// Encodes the preserve list by concatenating its tokens.
pub fn compress_vec(v: &Vec<String>) -> (r: String)
    ensures
        r@ == concat_all(views(v@)),
{
    let mut acc = String::new();
    let mut i: usize = 0;
    while i < v.len()
        invariant
            i <= v.len(),
            acc@ == concat_all(views(v@.subrange(0, i as int))),
        decreases v.len() - i,
    {
        let ghost before = v@.subrange(0, i as int);
        acc.append(v[i].as_str());
        assert(views(v@.subrange(0, i + 1)).drop_last() =~= views(before));
        i = i + 1;
    }
    assert(v@.subrange(0, v.len() as int) =~= v@);
    acc
}

/// Decodes a stored column by splitting it on every comma.
pub fn decompress_to_vec(v: String) -> (r: Vec<String>)
    ensures
        r@.len() >= 1,
        join_commas(views(r@)) == v@,
        comma_free(views(r@)),
{
    let s = v.as_str();
    let n = s.unicode_len();
    let mut out: Vec<String> = Vec::new();
    let mut start: usize = 0;
    let mut i: usize = 0;
    while i < n
        invariant
            n == s@.len(),
            s@ == v@,
            start <= i <= n,
            join_commas(views(out@).push(s@.subrange(start as int, i as int))) == s@.subrange(
                0,
                i as int,
            ),
            comma_free(views(out@)),
            out@.len() == 0 ==> start == 0,
            !s@.subrange(start as int, i as int).contains(','),
        decreases n - i,
    {
        let c = s.get_char(i);
        let ghost cur = s@.subrange(start as int, i as int);
        let ghost done = views(out@);
        if c == ',' {
            let piece = String::from_str(s.substring_char(start, i));
            out.push(piece);
            assert(views(out@) =~= done.push(cur));
            let ghost next = views(out@).push(Seq::empty());
            assert(next.drop_last() =~= done.push(cur));
            assert(join_commas(next) =~= s@.subrange(0, i + 1));
            assert(s@.subrange(i + 1, i + 1) =~= Seq::<char>::empty());
            start = i + 1;
        } else {
            let ghost ext = s@.subrange(start as int, i + 1);
            proof {
                assert(ext =~= cur.push(c));
                if done.len() == 0 {
                    assert(done.push(ext) =~= seq![ext]);
                    assert(done.push(cur) =~= seq![cur]);
                    assert(join_commas(seq![ext]) == ext);
                    assert(join_commas(seq![cur]) == cur);
                    assert(ext =~= s@.subrange(0, i + 1));
                } else {
                    assert(done.push(ext).drop_last() =~= done);
                    assert(done.push(cur).drop_last() =~= done);
                    assert(join_commas(done.push(ext)) == join_commas(done) + seq![','] + ext);
                    assert(join_commas(done.push(cur)) == join_commas(done) + seq![','] + cur);
                    assert(join_commas(done) + seq![','] + ext =~= (join_commas(done) + seq![',']
                        + cur).push(c));
                    assert(s@.subrange(0, i + 1) =~= s@.subrange(0, i as int).push(c));
                }
                assert(join_commas(done.push(ext)) =~= s@.subrange(0, i + 1));
            }
            assert forall|x: int| 0 <= x < ext.len() implies ext[x] != ',' by {
                if x < cur.len() {
                    assert(ext[x] == cur[x]);
                }
            }
        }
        i = i + 1;
    }
    let last = String::from_str(s.substring_char(start, n));
    let ghost done = views(out@);
    out.push(last);
    assert(views(out@) =~= done.push(last@));
    assert(s@.subrange(0, n as int) =~= s@);
    out
}

/// Encoding forgets where one token ended and the next began: two adjacent
/// tokens encode to the same text as the single token made of both.
pub proof fn lemma_encode_forgets_boundaries(prefix: Seq<Seq<char>>, x: Seq<char>, y: Seq<char>)
    ensures
        concat_all(prefix.push(x).push(y)) == concat_all(prefix.push(x + y)),
{
    assert(prefix.push(x).push(y).drop_last() =~= prefix.push(x));
    assert(prefix.push(x).drop_last() =~= prefix);
    assert(prefix.push(x + y).drop_last() =~= prefix);
    assert(concat_all(prefix.push(x)) == concat_all(prefix) + x);
    assert(concat_all(prefix.push(x).push(y)) == concat_all(prefix.push(x)) + y);
    assert(concat_all(prefix.push(x + y)) == concat_all(prefix) + (x + y));
    assert(concat_all(prefix) + x + y =~= concat_all(prefix) + (x + y));
}

/// A comma-free list has no comma in its last token.
proof fn lemma_last_comma_free(parts: Seq<Seq<char>>, k: int)
    requires
        comma_free(parts),
        parts.len() >= 1,
        0 <= k < parts.last().len(),
    ensures
        parts.last()[k] != ',',
{
    let last = parts[parts.len() - 1];
    if last[k] == ',' {
        assert(last.contains(','));
    }
}

/// Decoding is determined: two comma-free token lists with the same
/// comma-joined text are the same list, so the contract of
/// `decompress_to_vec` fixes its result.
pub proof fn lemma_split_determined(a: Seq<Seq<char>>, b: Seq<Seq<char>>)
    requires
        a.len() >= 1,
        b.len() >= 1,
        comma_free(a),
        comma_free(b),
        join_commas(a) == join_commas(b),
    ensures
        a == b,
    decreases a.len() + b.len(),
{
    let t = join_commas(a);
    if a.len() == 1 && b.len() == 1 {
        assert(a =~= b);
    } else if a.len() == 1 {
        let jb = join_commas(b.drop_last());
        assert(t == jb + seq![','] + b.last());
        assert(a[0][jb.len() as int] == ',');
        assert(a[0].contains(','));
    } else if b.len() == 1 {
        let ja = join_commas(a.drop_last());
        assert(t == ja + seq![','] + a.last());
        assert(b[0][ja.len() as int] == ',');
        assert(b[0].contains(','));
    } else {
        let ja = join_commas(a.drop_last());
        let jb = join_commas(b.drop_last());
        let la = a.last();
        let lb = b.last();
        assert(t == ja + seq![','] + la);
        assert(t == jb + seq![','] + lb);
        if la.len() < lb.len() {
            let k = lb.len() - la.len() - 1;
            assert(t[ja.len() as int] == ',');
            assert(lb[k] == t[ja.len() as int]);
            lemma_last_comma_free(b, k);
        } else if lb.len() < la.len() {
            let k = la.len() - lb.len() - 1;
            assert(t[jb.len() as int] == ',');
            assert(la[k] == t[jb.len() as int]);
            lemma_last_comma_free(a, k);
        } else {
            assert(la =~= t.subrange(ja.len() + 1int, t.len() as int));
            assert(lb =~= t.subrange(jb.len() + 1int, t.len() as int));
            assert(ja =~= t.subrange(0, ja.len() as int));
            assert(jb =~= t.subrange(0, jb.len() as int));
            assert forall|k: int| 0 <= k < a.drop_last().len() implies !(
            #[trigger] a.drop_last()[k]).contains(',') by {
                assert(a.drop_last()[k] == a[k]);
            }
            assert forall|k: int| 0 <= k < b.drop_last().len() implies !(
            #[trigger] b.drop_last()[k]).contains(',') by {
                assert(b.drop_last()[k] == b[k]);
            }
            lemma_split_determined(a.drop_last(), b.drop_last());
            assert(a =~= a.drop_last().push(la));
            assert(b =~= b.drop_last().push(lb));
        }
    }
}

} // verus!
