use vstd::prelude::*;
use vstd::string::StringExecFns;
use crate::text::{decimal, decimal_string, is_white_space, string_of, white_space, chars_of};

verus! {

/// A blank line: two newlines in a row.
pub open spec fn starts_with_break(s: Seq<char>) -> bool {
    s.len() >= 2 && s[0] == '\n' && s[1] == '\n'
}

/// `s` cut at every blank line, scanning left to right with matches that do not
/// overlap; the pieces between the cuts, empty ones included.
pub open spec fn split_pieces(s: Seq<char>) -> Seq<Seq<char>>
    decreases s.len(),
{
    if s.len() == 0 {
        seq![Seq::empty()]
    } else if starts_with_break(s) {
        seq![Seq::<char>::empty()] + split_pieces(s.skip(2))
    } else {
        let r = split_pieces(s.skip(1));
        r.update(0, seq![s[0]] + r[0])
    }
}

/// Every character of `p` is white space.
pub open spec fn blank(p: Seq<char>) -> bool {
    forall|j: int| 0 <= j < p.len() ==> white_space(#[trigger] p[j])
}

/// The pieces of `ps` that are not blank, in order.
pub open spec fn keep_non_blank(ps: Seq<Seq<char>>) -> Seq<Seq<char>>
    decreases ps.len(),
{
    if ps.len() == 0 {
        Seq::empty()
    } else if blank(ps.last()) {
        keep_non_blank(ps.drop_last())
    } else {
        keep_non_blank(ps.drop_last()).push(ps.last())
    }
}

/// The paragraphs of `text`: its blank-line separated pieces that hold more
/// than white space.
pub open spec fn paragraphs(text: Seq<char>) -> Seq<Seq<char>> {
    keep_non_blank(split_pieces(text))
}

/// The identifier of chunk `index` of a document: `{document_id}_{index}`.
pub open spec fn chunk_id(document_id: Seq<char>, index: nat) -> Seq<char> {
    document_id + seq!['_'] + decimal(index)
}

/// One paragraph of a document, as the vector store receives it.
#[derive(Debug, Clone, PartialEq, Eq)]
pub struct Chunk {
    pub id: String,
    pub index: usize,
    pub text: String,
}

pub proof fn lemma_split_pieces_nonempty(s: Seq<char>)
    ensures
        split_pieces(s).len() >= 1,
    decreases s.len(),
{
    if s.len() > 0 {
        if starts_with_break(s) {
            lemma_split_pieces_nonempty(s.skip(2));
        } else {
            lemma_split_pieces_nonempty(s.skip(1));
        }
    }
}

/// The pieces found so far, the piece under way, and what the rest yields.
pub open spec fn glue(done: Seq<Seq<char>>, cur: Seq<char>, rest: Seq<Seq<char>>) -> Seq<Seq<char>> {
    done + seq![cur + rest[0]] + rest.drop_first()
}

pub open spec fn views(v: Seq<Vec<char>>) -> Seq<Seq<char>> {
    v.map_values(|p: Vec<char>| p@)
}

/// Cuts `s` at every blank line.
pub fn split_at_blank_lines(s: &Vec<char>) -> (r: Vec<Vec<char>>)
    ensures
        views(r@) == split_pieces(s@),
{
    let mut done: Vec<Vec<char>> = Vec::new();
    let mut cur: Vec<char> = Vec::new();
    let mut i: usize = 0;
    assert(s@.skip(0) =~= s@);
    proof {
        lemma_split_pieces_nonempty(s@);
        assert(glue(views(done@), cur@, split_pieces(s@)) =~= split_pieces(s@));
    }
    while i < s.len()
        invariant
            i <= s@.len(),
            split_pieces(s@) == glue(views(done@), cur@, split_pieces(s@.skip(i as int))),
        decreases s@.len() - i,
    {
        let ghost rest = s@.skip(i as int);
        let ghost d0 = views(done@);
        let ghost c0 = cur@;
        proof { lemma_split_pieces_nonempty(rest); }
        if i + 1 < s.len() && s[i] == '\n' && s[i + 1] == '\n' {
            assert(starts_with_break(rest));
            assert(rest.skip(2) =~= s@.skip(i as int + 2));
            let ghost p2 = split_pieces(s@.skip(i as int + 2));
            proof { lemma_split_pieces_nonempty(s@.skip(i as int + 2)); }
            let piece = cur;
            cur = Vec::new();
            done.push(piece);
            i = i + 2;
            assert(views(done@) =~= d0.push(c0));
            assert(c0 + split_pieces(rest)[0] =~= c0);
            assert(cur@ + p2[0] =~= p2[0]);
            assert(glue(views(done@), cur@, p2) =~~= glue(d0, c0, split_pieces(rest)));
        } else {
            assert(!starts_with_break(rest));
            assert(rest.skip(1) =~= s@.skip(i as int + 1));
            let ghost r1 = split_pieces(s@.skip(i as int + 1));
            proof { lemma_split_pieces_nonempty(s@.skip(i as int + 1)); }
            let c = s[i];
            cur.push(c);
            i = i + 1;
            assert(cur@ + r1[0] =~= c0 + (seq![c] + r1[0]));
            assert(glue(views(done@), cur@, r1) =~~= glue(d0, c0, split_pieces(rest)));
        }
    }
    assert(s@.skip(i as int).len() == 0);
    let ghost d0 = views(done@);
    let ghost c0 = cur@;
    done.push(cur);
    assert(views(done@) =~= d0.push(c0));
    assert(c0 + Seq::<char>::empty() =~= c0);
    assert(views(done@) =~~= split_pieces(s@));
    done
}

/// Whether every character of `p` is white space.
pub fn is_blank(p: &Vec<char>) -> (r: bool)
    ensures
        r == blank(p@),
{
    let mut j: usize = 0;
    while j < p.len()
        invariant
            j <= p@.len(),
            forall|k: int| 0 <= k < j ==> white_space(#[trigger] p@[k]),
        decreases p@.len() - j,
    {
        if !is_white_space(p[j]) {
            return false;
        }
        j = j + 1;
    }
    true
}

/// The identifier of chunk `index` of document `document_id`.
pub fn make_chunk_id(document_id: &str, index: usize) -> (r: String)
    ensures
        r@ == chunk_id(document_id@, index as nat),
{
    let mut id = String::new();
    id.append(document_id);
    id.append("_");
    let digits = decimal_string(index);
    id.append(digits.as_str());
    proof {
        reveal_strlit("_");
        assert(id@ =~= chunk_id(document_id@, index as nat));
    }
    id
}

/// Splits `text` into its paragraphs, in order, and names each
/// `{document_id}_{index}` with indexes counted from 0.
pub fn chunk_document(document_id: &str, text: &str) -> (r: Vec<Chunk>)
    ensures
        r@.len() == paragraphs(text@).len(),
        forall|i: int| 0 <= i < r@.len() ==> {
            &&& (#[trigger] r@[i]).index == i
            &&& r@[i].text@ == paragraphs(text@)[i]
            &&& r@[i].id@ == chunk_id(document_id@, i as nat)
        },
{
    let cs = chars_of(text);
    let pieces = split_at_blank_lines(&cs);
    let ghost ps = views(pieces@);
    let mut chunks: Vec<Chunk> = Vec::new();
    let mut i: usize = 0;
    while i < pieces.len()
        invariant
            i <= pieces@.len(),
            ps == views(pieces@),
            ps == split_pieces(text@),
            chunks@.len() == keep_non_blank(ps.take(i as int)).len(),
            forall|k: int| 0 <= k < chunks@.len() ==> {
                &&& (#[trigger] chunks@[k]).index == k
                &&& chunks@[k].text@ == keep_non_blank(ps.take(i as int))[k]
                &&& chunks@[k].id@ == chunk_id(document_id@, k as nat)
            },
        decreases pieces@.len() - i,
    {
        let ghost before = keep_non_blank(ps.take(i as int));
        assert(ps.take(i as int + 1).drop_last() =~= ps.take(i as int));
        assert(ps.take(i as int + 1).last() == pieces@[i as int]@);
        if !is_blank(&pieces[i]) {
            let index = chunks.len();
            let chunk = Chunk {
                id: make_chunk_id(document_id, index),
                index,
                text: string_of(&pieces[i]),
            };
            chunks.push(chunk);
        }
        i = i + 1;
        assert(forall|k: int| 0 <= k < before.len() ==> keep_non_blank(ps.take(i as int))[k] == before[k]);
    }
    assert(ps.take(pieces@.len() as int) =~= ps);
    chunks
}

/// What the caller's metadata is, as far as tagging chunks reads it.
#[derive(Debug, Clone, Copy, PartialEq, Eq, Structural)]
pub enum MetadataShape {
    /// No metadata was given; it counts as an empty object.
    Absent,
    /// An object, which takes the chunk's fields.
    Object,
    /// Any other value, which is attached as it is.
    Other,
}

/// The value of a field added to a chunk's metadata.
#[derive(Debug, Clone, PartialEq, Eq)]
pub enum TagValue {
    Number(usize),
    Text(String),
}

/// A field added to a chunk's copy of the caller's metadata.
#[derive(Debug, Clone, PartialEq, Eq)]
pub struct ChunkTag {
    pub key: String,
    pub value: TagValue,
}

/// The fields that a chunk's metadata gets on top of the caller's: its index
/// under `chunk_index` and its document under `document_id`, unless the
/// caller's metadata is not an object, in which case it is attached unchanged.
pub fn chunk_tags(shape: MetadataShape, chunk_index: usize, document_id: &str) -> (r: Vec<ChunkTag>)
    ensures
        shape is Other ==> r@.len() == 0,
        !(shape is Other) ==> {
            &&& r@.len() == 2
            &&& r@[0].key@ == "chunk_index"@
            &&& r@[0].value == TagValue::Number(chunk_index)
            &&& r@[1].key@ == "document_id"@
            &&& r@[1].value matches TagValue::Text(d) && d@ == document_id@
        },
{
    let mut tags: Vec<ChunkTag> = Vec::new();
    match shape {
        MetadataShape::Other => {},
        _ => {
            tags.push(ChunkTag { key: String::from_str("chunk_index"), value: TagValue::Number(chunk_index) });
            tags.push(ChunkTag {
                key: String::from_str("document_id"),
                value: TagValue::Text(String::from_str(document_id)),
            });
        },
    }
    tags
}

/// `p` holds a blank line.
pub open spec fn has_break(p: Seq<char>) -> bool {
    exists|j: int| 0 <= j && j + 1 < p.len() && p[j] == '\n' && #[trigger] p[j + 1] == '\n'
}

/// A paragraph that survives a round through blank-line separation: not blank,
/// holding no blank line, not ending with a newline.
pub open spec fn plain_paragraph(p: Seq<char>) -> bool {
    !blank(p) && !has_break(p) && p.last() != '\n'
}

/// The paragraphs of `ps` joined by blank lines.
pub open spec fn join_paragraphs(ps: Seq<Seq<char>>) -> Seq<char>
    decreases ps.len(),
{
    if ps.len() == 0 {
        Seq::empty()
    } else if ps.len() == 1 {
        ps[0]
    } else {
        ps[0] + seq!['\n', '\n'] + join_paragraphs(ps.drop_first())
    }
}

proof fn lemma_split_after_paragraph(p: Seq<char>, rest: Seq<char>)
    requires
        !has_break(p),
        p.len() > 0 ==> p.last() != '\n',
    ensures
        split_pieces(p + seq!['\n', '\n'] + rest) == seq![p] + split_pieces(rest),
    decreases p.len(),
{
    let s = p + seq!['\n', '\n'] + rest;
    if p.len() == 0 {
        assert(starts_with_break(s));
        assert(s.skip(2) =~= rest);
        assert(p =~= Seq::<char>::empty());
    } else {
        if p.len() >= 2 {
            if p[0] == '\n' && p[1] == '\n' {
                assert(p[0int + 1] == '\n');
                assert(has_break(p));
            }
        }
        assert(!starts_with_break(s));
        let q = p.skip(1);
        assert(s.skip(1) =~= q + seq!['\n', '\n'] + rest);
        assert(!has_break(q)) by {
            if has_break(q) {
                let j = choose|j: int| 0 <= j && j + 1 < q.len() && q[j] == '\n' && #[trigger] q[j + 1] == '\n';
                assert(p[j + 1] == '\n' && p[j + 2] == '\n');
            }
        };
        lemma_split_after_paragraph(q, rest);
        assert(seq![s[0]] + q =~= p);
        assert(split_pieces(s) =~= seq![p] + split_pieces(rest));
    }
}

proof fn lemma_split_single(p: Seq<char>)
    requires
        !has_break(p),
    ensures
        split_pieces(p) == seq![p],
    decreases p.len(),
{
    if p.len() > 0 {
        if p.len() >= 2 {
            if p[0] == '\n' && p[1] == '\n' {
                assert(p[0int + 1] == '\n');
                assert(has_break(p));
            }
        }
        let q = p.skip(1);
        assert(!has_break(q)) by {
            if has_break(q) {
                let j = choose|j: int| 0 <= j && j + 1 < q.len() && q[j] == '\n' && #[trigger] q[j + 1] == '\n';
                assert(p[j + 1] == '\n' && p[j + 2] == '\n');
            }
        };
        lemma_split_single(q);
        assert(seq![p[0]] + q =~= p);
        assert(split_pieces(p) =~= seq![p]);
    } else {
        assert(p =~= Seq::<char>::empty());
    }
}

proof fn lemma_split_joined(ps: Seq<Seq<char>>)
    requires
        ps.len() >= 1,
        forall|i: int| 0 <= i < ps.len() ==> plain_paragraph(#[trigger] ps[i]),
    ensures
        split_pieces(join_paragraphs(ps)) == ps,
    decreases ps.len(),
{
    assert(plain_paragraph(ps[0]));
    if ps.len() == 1 {
        lemma_split_single(ps[0]);
        assert(seq![ps[0]] =~= ps);
    } else {
        let tail = ps.drop_first();
        assert forall|i: int| 0 <= i < tail.len() implies plain_paragraph(#[trigger] tail[i]) by {
            assert(tail[i] == ps[i + 1]);
        };
        lemma_split_joined(tail);
        lemma_split_after_paragraph(ps[0], join_paragraphs(tail));
        assert(seq![ps[0]] + tail =~= ps);
    }
}

proof fn lemma_keep_all(ps: Seq<Seq<char>>)
    requires
        forall|i: int| 0 <= i < ps.len() ==> !blank(#[trigger] ps[i]),
    ensures
        keep_non_blank(ps) == ps,
    decreases ps.len(),
{
    if ps.len() > 0 {
        let init = ps.drop_last();
        assert forall|i: int| 0 <= i < init.len() implies !blank(#[trigger] init[i]) by {
            assert(init[i] == ps[i]);
        };
        lemma_keep_all(init);
        assert(!blank(ps[ps.len() - 1]));
        assert(init.push(ps.last()) =~= ps);
    }
}

/// Joining the pieces of a text with blank lines gives the text back: cutting
/// at blank lines loses nothing but the blank lines themselves.
pub proof fn pieces_join_to_text(s: Seq<char>)
    ensures
        join_paragraphs(split_pieces(s)) == s,
    decreases s.len(),
{
    if s.len() == 0 {
        assert(join_paragraphs(split_pieces(s)) =~= s);
    } else if starts_with_break(s) {
        let p = split_pieces(s.skip(2));
        lemma_split_pieces_nonempty(s.skip(2));
        pieces_join_to_text(s.skip(2));
        let whole = seq![Seq::<char>::empty()] + p;
        assert(whole.drop_first() =~= p);
        assert(join_paragraphs(whole) =~= s);
    } else {
        let p = split_pieces(s.skip(1));
        lemma_split_pieces_nonempty(s.skip(1));
        pieces_join_to_text(s.skip(1));
        let r = p.update(0, seq![s[0]] + p[0]);
        if p.len() == 1 {
            assert(seq![s[0]] + s.skip(1) =~= s);
            assert(join_paragraphs(r) =~= s);
        } else {
            assert(r.drop_first() =~= p.drop_first());
            let tail = join_paragraphs(p.drop_first());
            assert(join_paragraphs(p) == p[0] + seq!['\n', '\n'] + tail);
            assert(join_paragraphs(r) == r[0] + seq!['\n', '\n'] + tail);
            assert(join_paragraphs(r) =~= seq![s[0]] + join_paragraphs(p));
            assert(seq![s[0]] + s.skip(1) =~= s);
        }
    }
}

/// Chunking a text of N paragraphs joined by blank lines yields those N
/// paragraphs, in order, so `chunk_document` makes exactly N chunks, named
/// `{document_id}_0` to `{document_id}_{N-1}`.
pub proof fn paragraphs_of_joined_text(ps: Seq<Seq<char>>)
    requires
        forall|i: int| 0 <= i < ps.len() ==> plain_paragraph(#[trigger] ps[i]),
    ensures
        paragraphs(join_paragraphs(ps)) == ps,
        paragraphs(join_paragraphs(ps)).len() == ps.len(),
{
    if ps.len() == 0 {
        let e = Seq::<char>::empty();
        assert(split_pieces(e) == seq![e]);
        assert(blank(e));
        assert(seq![e].drop_last() =~= Seq::<Seq<char>>::empty());
        assert(seq![e].last() == e);
        assert(keep_non_blank(Seq::<Seq<char>>::empty()) == Seq::<Seq<char>>::empty());
        assert(keep_non_blank(seq![e]) == Seq::<Seq<char>>::empty());
        assert(ps =~= Seq::<Seq<char>>::empty());
    } else {
        lemma_split_joined(ps);
        assert forall|i: int| 0 <= i < ps.len() implies !blank(#[trigger] ps[i]) by {
            assert(plain_paragraph(ps[i]));
        };
        lemma_keep_all(ps);
    }
}

} // verus!
