//! Insertion-ordered store of recognized text fragments.
//!
//! Fragments arrive from the transcriber in recognition order and are
//! never reordered or removed except by an explicit clear. Reading the
//! buffer yields the fragments joined by a single space.

use vstd::prelude::*;

verus! {

/// The fragments joined by a single space character.
pub open spec fn join_frags(frags: Seq<Seq<char>>) -> Seq<char>
    decreases frags.len(),
{
    if frags.len() == 0 {
        Seq::empty()
    } else if frags.len() == 1 {
        frags[0]
    } else {
        frags[0] + seq![' '] + join_frags(frags.drop_first())
    }
}

/// Appending one fragment extends the joined text at its end:
/// the text of the earlier fragments is untouched.
pub proof fn lemma_join_frags_push(frags: Seq<Seq<char>>, f: Seq<char>)
    ensures
        join_frags(frags.push(f)) == if frags.len() == 0 {
            f
        } else {
            join_frags(frags) + seq![' '] + f
        },
    decreases frags.len(),
{
    if frags.len() == 0 {
        assert(frags.push(f).len() == 1);
        assert(frags.push(f)[0] == f);
    } else {
        assert(frags.push(f).drop_first() =~= frags.drop_first().push(f));
        lemma_join_frags_push(frags.drop_first(), f);
        if frags.len() == 1 {
            assert(frags.push(f)[0] == frags[0]);
        } else {
            assert(join_frags(frags.push(f)) == frags[0] + seq![' '] + (join_frags(
                frags.drop_first(),
            ) + seq![' '] + f));
            assert(frags[0] + seq![' '] + (join_frags(frags.drop_first()) + seq![' '] + f) =~= (
            frags[0] + seq![' '] + join_frags(frags.drop_first())) + seq![' '] + f);
        }
    }
}

/// Ordered buffer of transcript fragments. Its view is the sequence of
/// fragments, each as its sequence of characters, in arrival order.
pub struct TranscriptBuffer {
    fragments: Vec<String>,
}

impl View for TranscriptBuffer {
    type V = Seq<Seq<char>>;

    closed spec fn view(&self) -> Seq<Seq<char>> {
        self.fragments.deep_view()
    }
}

impl TranscriptBuffer {
    /// A new buffer holds no fragments.
    pub fn new() -> (r: Self)
        ensures
            r@ == Seq::<Seq<char>>::empty(),
    {
        let r = TranscriptBuffer { fragments: Vec::new() };
        proof {
            assert(r.fragments.deep_view() =~= Seq::<Seq<char>>::empty());
        }
        r
    }

    /// Appends one fragment at the end; earlier fragments keep their
    /// positions.
    pub fn push(&mut self, text: String)
        ensures
            final(self)@ == old(self)@.push(text@),
    {
        let ghost pre = self.fragments.deep_view();
        let ghost t = text@;
        self.fragments.push(text);
        proof {
            assert(self.fragments.deep_view() =~= pre.push(t));
        }
    }

    /// Appends the given fragments in order, the model of the driver
    /// loop that feeds the buffer one recognizer result at a time:
    /// the buffer afterwards lists the old fragments and then exactly
    /// the submitted ones, in submission order.
    pub fn push_all(&mut self, texts: Vec<String>)
        ensures
            final(self)@ == old(self)@ + texts.deep_view(),
    {
        let ghost submitted = texts.deep_view();
        let mut texts = texts;
        let n = texts.len();
        let mut i: usize = 0;
        while i < n
            invariant
                n == texts.len(),
                i <= n,
                texts.deep_view() == submitted,
                self@ == old(self)@ + submitted.subrange(0, i as int),
            decreases n - i,
        {
            let t = texts[i].clone();
            proof {
                assert(t@ == submitted[i as int]);
                assert((old(self)@ + submitted.subrange(0, i as int)).push(t@) =~= old(self)@
                    + submitted.subrange(0, i as int + 1));
            }
            self.push(t);
            i += 1;
        }
        proof {
            assert(submitted.subrange(0, n as int) =~= submitted);
        }
    }

    /// Returns the fragments joined by a single space, a snapshot of
    /// the whole transcript so far.
    pub fn get_full_text(&self) -> (r: String)
        ensures
            r@ == join_frags(self@),
    {
        let mut r = String::new();
        let n = self.fragments.len();
        let mut i: usize = 0;
        while i < n
            invariant
                n == self.fragments.len(),
                i <= n,
                r@ == join_frags(self@.subrange(0, i as int)),
            decreases n - i,
        {
            let ghost pre = self@.subrange(0, i as int);
            let ghost before = r@;
            if i > 0 {
                r.append(" ");
            }
            r.append(self.fragments[i].as_str());
            proof {
                reveal_strlit(" ");
                assert(" "@ =~= seq![' ']);
                assert(self@[i as int] == self.fragments@[i as int]@);
                assert(self@.subrange(0, i as int + 1) =~= pre.push(self@[i as int]));
                lemma_join_frags_push(pre, self@[i as int]);
                if i == 0 {
                    assert(r@ =~= self@[0]);
                } else {
                    assert(r@ == (before + " "@) + self@[i as int]);
                    assert(r@ =~= join_frags(pre) + seq![' '] + self@[i as int]);
                }
            }
            i += 1;
        }
        proof {
            assert(self@.subrange(0, n as int) =~= self@);
        }
        r
    }

    /// Removes every fragment.
    pub fn clear(&mut self)
        ensures
            final(self)@ == Seq::<Seq<char>>::empty(),
    {
        self.fragments.clear();
        proof {
            assert(self.fragments.deep_view() =~= Seq::<Seq<char>>::empty());
        }
    }
}

/// A buffer fed by the driver loop lists fragments in submission
/// order, each exactly once: when pairwise-distinct fragments (such as
/// a stub transcriber's chunk indices) are pushed in order into an
/// empty buffer, every fragment stands at its own submission position
/// and at no other.
pub proof fn lemma_buffer_lists_each_fragment_once(
    frags: Seq<Seq<char>>,
    b: TranscriptBuffer,
    k: int,
)
    requires
        b@ == frags,
        forall|i: int, j: int| 0 <= i < j < frags.len() ==> frags[i] != frags[j],
        0 <= k < frags.len(),
    ensures
        b@[k] == frags[k],
        forall|i: int| 0 <= i < b@.len() && b@[i] == frags[k] ==> i == k,
{
    assert forall|i: int| 0 <= i < b@.len() && b@[i] == frags[k] implies i == k by {
        if i < k {
            assert(frags[i] != frags[k]);
        } else if i > k {
            assert(frags[k] != frags[i]);
        }
    }
}

/// A cleared buffer reads back as the empty text: clearing and then
/// taking a snapshot yields the empty string.
pub proof fn lemma_cleared_buffer_reads_empty(b: TranscriptBuffer)
    requires
        b@ == Seq::<Seq<char>>::empty(),
    ensures
        join_frags(b@) == Seq::<char>::empty(),
{
}

/// The snapshot read by the periodic persister depends on the buffer
/// contents alone: two reads with no fragment pushed or cleared in
/// between yield identical text, so repeated flushes overwrite the
/// target file with the same content.
pub proof fn lemma_snapshot_deterministic(a: TranscriptBuffer, b: TranscriptBuffer)
    requires
        a@ == b@,
    ensures
        join_frags(a@) == join_frags(b@),
{
}

} // verus!
