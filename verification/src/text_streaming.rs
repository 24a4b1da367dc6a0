use vstd::prelude::*;
use vstd::string::StrSliceExecFns;
use core::time::Duration;

verus! {

/// A character after which the progressive reveal pauses: a sentence or
/// clause boundary, or a line break.
pub open spec fn is_pause_char(c: char) -> bool {
    c == '。' || c == '！' || c == '？' || c == '；' || c == '：' || c == '，' || c == '\n'
}

/// The character sequences of a list of chunks.
pub open spec fn views_of(chunks: Seq<String>) -> Seq<Seq<char>> {
    chunks.map_values(|s: String| s@)
}

/// Splits narrative text into timed chunks for the cosmetic progressive
/// reveal. The reveal carries no game state: the full text stays derivable
/// from the passage it was cut from.
pub struct TextStreamer {
    pub delay_ms: u64,
}

impl TextStreamer {
    pub fn new(delay_ms: u64) -> (r: Self)
        ensures
            r.delay_ms == delay_ms,
    {
        Self { delay_ms }
    }

    pub fn default() -> (r: Self)
        ensures
            r.delay_ms == 50,
    {
        Self::new(50)
    }

    /// Splits text into chunks: a cut after every pause character, with the
    /// remainder, if any, as a final chunk. The chunks concatenate back to
    /// the text, none is empty, a pause character stands only at the end of
    /// a chunk, and every chunk but possibly the last ends with one. These
    /// four facts pin the split down completely.
    pub fn smart_chunks(&self, text: &str) -> (r: Vec<String>)
        ensures
            views_of(r@).flatten() == text@,
            forall|k: int| 0 <= k < r@.len() ==> (#[trigger] r@[k])@.len() > 0,
            forall|k: int| 0 <= k < r@.len() - 1 ==> is_pause_char((#[trigger] r@[k])@.last()),
            forall|k: int, j: int|
                #![trigger r@[k]@[j]]
                0 <= k < r@.len() && 0 <= j < r@[k]@.len() - 1 ==> !is_pause_char(r@[k]@[j]),
    {
        let n = text.unicode_len();
        let mut chunks: Vec<String> = Vec::new();
        let mut start: usize = 0;
        let mut i: usize = 0;
        proof {
            assert(views_of(chunks@) =~= Seq::<Seq<char>>::empty());
            assert(views_of(chunks@).flatten() =~= text@.subrange(0, 0));
        }
        while i < n
            invariant
                start <= i <= n,
                n == text@.len(),
                views_of(chunks@).flatten() == text@.subrange(0, start as int),
                forall|j: int| start <= j < i ==> !is_pause_char(#[trigger] text@[j]),
                forall|k: int| 0 <= k < chunks@.len() ==> (#[trigger] chunks@[k])@.len() > 0,
                forall|k: int|
                    0 <= k < chunks@.len() ==> is_pause_char((#[trigger] chunks@[k])@.last()),
                forall|k: int, j: int|
                    #![trigger chunks@[k]@[j]]
                    0 <= k < chunks@.len() && 0 <= j < chunks@[k]@.len() - 1 ==> !is_pause_char(
                        chunks@[k]@[j],
                    ),
            decreases n - i,
        {
            let c = text.get_char(i);
            if c == '。' || c == '！' || c == '？' || c == '；' || c == '：' || c == '，'
                || c == '\n' {
                let chunk = text.substring_char(start, i + 1).to_owned();
                let ghost before = chunks@;
                chunks.push(chunk);
                proof {
                    assert(views_of(chunks@) =~= views_of(before).push(chunk@));
                    Seq::lemma_flatten_push(views_of(before), chunk@);
                    assert(views_of(chunks@).flatten() =~= text@.subrange(0, i + 1 as int));
                }
                start = i + 1;
            }
            i += 1;
        }
        if start < n {
            let chunk = text.substring_char(start, n).to_owned();
            let ghost before = chunks@;
            chunks.push(chunk);
            proof {
                assert(views_of(chunks@) =~= views_of(before).push(chunk@));
                Seq::lemma_flatten_push(views_of(before), chunk@);
                assert(views_of(chunks@).flatten() =~= text@);
            }
        } else {
            proof {
                assert(text@.subrange(0, start as int) =~= text@);
            }
        }
        chunks
    }

    /// The delay between two reveal steps.
    /// Relies on core::time::Duration::from_millis for the conversion of
    /// the configured milliseconds into a duration value.
    #[verifier::external_body]
    pub fn get_delay(&self) -> Duration {
        Duration::from_millis(self.delay_ms)
    }
}

} // verus!
