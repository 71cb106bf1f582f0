//! Random generation of target lines from the word bank.
//!
//! A line is built by uniform sampling from the bank until the words,
//! joined with single spaces, span the configured width. Immediate
//! repetition is excluded: a draw after the first is taken uniformly from
//! the bank minus the word just placed, which distributes exactly as the
//! classic draw-and-reject scheme over a bank of distinct words, while
//! taking one draw per word.

use vstd::prelude::*;
use vstd::string::StrSliceExecFns;

verus! {

/// The character count of `ws` joined with single spaces, plus one: each
/// word costs its length plus one separator.
pub open spec fn spec_line_size(ws: Seq<String>) -> int
    decreases ws.len(),
{
    if ws.len() == 0 {
        0
    } else {
        spec_line_size(ws.drop_last()) + ws.last()@.len() + 1
    }
}

/// The character count of `ws` joined with single spaces.
pub open spec fn spec_joined_len(ws: Seq<String>) -> int {
    if ws.len() == 0 {
        0
    } else {
        spec_line_size(ws) - 1
    }
}

/// No two neighbouring words of the line are the same text.
pub open spec fn no_adjacent_repeat(ws: Seq<String>) -> bool {
    forall|i: int| 1 <= i < ws.len() ==> (#[trigger] ws[i])@ != ws[i - 1]@
}

/// Every word of the line is a word of the bank.
pub open spec fn words_from_bank(ws: Seq<String>, bank: Seq<String>) -> bool {
    forall|i: int|
        0 <= i < ws.len() ==> exists|j: int| 0 <= j < bank.len() && (#[trigger] ws[i])@ == (
        #[trigger] bank[j])@
}

/// The word bank a session runs on: non-empty, pairwise distinct words, a
/// lone word long enough to fill a line by itself (with a single word there
/// is no different word to follow it), and word lengths small enough that
/// any line's character offsets fit a `usize`.
pub open spec fn bank_ok(bank: Seq<String>, max_width: int) -> bool {
    &&& bank.len() >= 1
    &&& forall|i: int, j: int| 0 <= i < j < bank.len() ==> bank[i]@ != bank[j]@
    &&& bank.len() == 1 ==> bank[0]@.len() >= max_width
    &&& forall|i: int| 0 <= i < bank.len() ==> bank[i]@.len() + max_width + 1 <= usize::MAX
}

/// What every generated line guarantees: at least one word, a joined length
/// that spans the configured width, no immediate repetition, all words from
/// the bank, and offsets that fit a `usize`.
pub open spec fn line_ok(ws: Seq<String>, bank: Seq<String>, max_width: int) -> bool {
    &&& ws.len() >= 1
    &&& spec_joined_len(ws) >= max_width
    &&& spec_line_size(ws) <= usize::MAX
    &&& no_adjacent_repeat(ws)
    &&& words_from_bank(ws, bank)
}

/// A line of `n` words has size at least `n`: every word costs at least one.
pub proof fn lemma_line_size_ge_len(ws: Seq<String>)
    ensures
        spec_line_size(ws) >= ws.len(),
    decreases ws.len(),
{
    if ws.len() > 0 {
        lemma_line_size_ge_len(ws.drop_last());
    }
}

/// A line's size is never negative.
pub proof fn lemma_line_size_nonneg(ws: Seq<String>)
    ensures
        spec_line_size(ws) >= 0,
    decreases ws.len(),
{
    if ws.len() > 0 {
        lemma_line_size_nonneg(ws.drop_last());
    }
}

/// Relies on rand's `RngExt::random_range` over `0..n`, with the
/// thread-local generator from `rand::rng()`: a sample of that range is a
/// uniformly distributed index below `n`. The call panics only on an empty
/// range, which `n > 0` rules out.
#[verifier::external_body]
fn random_index(n: usize) -> (r: usize)
    requires
        n > 0,
    ensures
        r < n,
{
    rand::RngExt::random_range(&mut rand::rng(), 0..n)
}

/// Generates one target line by uniform sampling from the bank, never
/// placing the same word twice in a row, until the joined text spans
/// `max_width` characters.
pub fn get_random_line(word_bank: &Vec<String>, max_width: usize) -> (line: Vec<String>)
    requires
        max_width >= 1,
        bank_ok(word_bank@, max_width as int),
    ensures
        line_ok(line@, word_bank@, max_width as int),
{
    let n: usize = word_bank.len();
    let mut line: Vec<String> = Vec::new();
    let mut line_size: usize = 0;
    let mut last_idx: usize = 0;

    while line_size <= max_width
        invariant
            max_width >= 1,
            bank_ok(word_bank@, max_width as int),
            n == word_bank@.len(),
            line_size == spec_line_size(line@),
            no_adjacent_repeat(line@),
            words_from_bank(line@, word_bank@),
            line@.len() == 0 ==> line_size == 0,
            line@.len() >= 1 ==> last_idx < n && line@.last()@ == word_bank@[last_idx as int]@,
        decreases (if line_size <= max_width { max_width + 1 - line_size } else { 0 }),
    {
        let idx: usize;
        if line.len() == 0 {
            idx = random_index(n);
        } else {
            // A single-word bank fills the width with its first word, so a
            // second draw only ever happens with at least two words to pick from.
            proof {
                if n == 1 {
                    lemma_line_size_nonneg(line@.drop_last());
                    assert(line@.last()@ == word_bank@[0]@);
                    assert(spec_line_size(line@) >= word_bank@[0]@.len() + 1);
                    assert(false);
                }
            }
            let r = random_index(n - 1);
            idx = if r >= last_idx {
                r + 1
            } else {
                r
            };
            proof {
                if idx as int != last_idx as int {
                    if (idx as int) < (last_idx as int) {
                        assert(word_bank@[idx as int]@ != word_bank@[last_idx as int]@);
                    } else {
                        assert(word_bank@[last_idx as int]@ != word_bank@[idx as int]@);
                    }
                }
            }
        }
        let word = &word_bank[idx];
        let wlen = word.as_str().unicode_len();
        proof {
            lemma_line_size_nonneg(line@);
        }
        let ghost old_line = line@;
        line.push(word.clone());
        proof {
            assert(line@.drop_last() =~= old_line);
        }
        line_size = line_size + wlen + 1;
        last_idx = idx;
    }
    proof {
        lemma_line_size_nonneg(line@);
    }
    line
}

} // verus!
