//! The typing session: a rolling window of target lines, a cursor and error
//! marks within the current line, and the incremental correctness check for
//! each keystroke.
//!
//! Every transition is specified against [`SessionView`], the mathematical
//! state of a session. One keystroke either steps the state by
//! [`spec_step_char`] or, when it steps past the last word, additionally
//! rotates the window; one backspace steps it by [`spec_step_backspace`].

use std::collections::VecDeque;
use vstd::prelude::*;
use vstd::string::StrSliceExecFns;

use crate::types::DrawCmd;
use crate::types::GameState;
use crate::types::Key;
use crate::types::Style;
use crate::types::TypingTestReturn;
use crate::words::bank_ok;
use crate::words::get_random_line;
use crate::words::lemma_line_size_ge_len;
use crate::words::lemma_line_size_nonneg;
use crate::words::line_ok;
use crate::words::spec_line_size;

verus! {

broadcast use vstd::std_specs::vecdeque::group_vec_dequeue_axioms;

/// How many lines beyond the finished one the window holds.
pub const Q_SIZE: usize = 5;

/// The width, in characters, every generated line must span.
pub const MAX_WIDTH: usize = 80;

/// How many seconds one typing session lasts.
pub const TIME_SECS: u64 = 30;

/// The mathematical state of a typing session.
pub struct SessionView {
    /// The words lines are generated from.
    pub word_bank: Seq<String>,
    /// The window of lines: the most recently finished line first, then the
    /// line being typed, then the lookahead.
    pub lines: Seq<Vec<String>>,
    /// Which word of the current line the cursor stands in.
    pub cursor_word: usize,
    /// Which character of that word the cursor expects next; one past the
    /// word's end means the separating space.
    pub cursor_char: usize,
    /// The cursor as a flat character offset from the current line's start.
    pub cursor_offset: usize,
    /// Offsets of the current line whose most recent keystroke missed, in
    /// the order the marks were made (always increasing).
    pub marks: Seq<usize>,
    /// Keystrokes taken, shared with the metrics clock.
    pub typed: u16,
    /// Keystrokes that missed, shared with the metrics clock.
    pub errors: u16,
    /// The cooperative flag both loops poll; false ends the session.
    pub active: bool,
    /// The width lines are generated for.
    pub max_width: usize,
}

impl SessionView {
    /// The words of the line currently being typed.
    pub open spec fn cur_line(self) -> Seq<String> {
        self.lines[1]@
    }

    /// The characters of the word the cursor stands in.
    pub open spec fn cur_word(self) -> Seq<char> {
        self.cur_line()[self.cursor_word as int]@
    }

    /// The window and bank part of well-formedness: this much survives the
    /// moment a keystroke steps past the current line's last word, just
    /// before the window rotates.
    pub open spec fn frame_wf(self) -> bool {
        &&& self.lines.len() >= 3
        &&& self.max_width >= 1
        &&& bank_ok(self.word_bank, self.max_width as int)
        &&& forall|i: int|
            1 <= i < self.lines.len() ==> line_ok(
                (#[trigger] self.lines[i])@,
                self.word_bank,
                self.max_width as int,
            )
    }

    /// Full well-formedness: the frame, a cursor inside the current line
    /// with its flat offset in step, and increasing marks behind the cursor.
    pub open spec fn wf(self) -> bool {
        &&& self.frame_wf()
        &&& self.cursor_word < self.cur_line().len()
        &&& self.cursor_char <= self.cur_word().len()
        &&& self.cursor_offset == spec_offset(
            self.cur_line(),
            self.cursor_word as int,
            self.cursor_char as int,
        )
        &&& forall|i: int| 0 <= i < self.marks.len() ==> (#[trigger] self.marks[i]) < self.cursor_offset
        &&& forall|i: int, j: int|
            0 <= i < j < self.marks.len() ==> self.marks[i] < self.marks[j]
    }
}

/// The flat character offset of cursor position (`w`, `c`) in a line: the
/// joined length of the first `w` words with their separators, plus `c`.
pub open spec fn spec_offset(line: Seq<String>, w: int, c: int) -> int {
    spec_line_size(line.subrange(0, w)) + c
}

/// A prefix one word longer costs that word's length plus a separator.
pub proof fn lemma_line_size_take_succ(ws: Seq<String>, k: int)
    requires
        0 <= k < ws.len(),
    ensures
        spec_line_size(ws.subrange(0, k + 1)) == spec_line_size(ws.subrange(0, k)) + ws[k]@.len()
            + 1,
{
    assert(ws.subrange(0, k + 1).drop_last() =~= ws.subrange(0, k));
    assert(ws.subrange(0, k + 1).last() == ws[k]);
}

/// A longer prefix never has a smaller size.
pub proof fn lemma_line_size_prefix_le(ws: Seq<String>, k1: int, k2: int)
    requires
        0 <= k1 <= k2 <= ws.len(),
    ensures
        spec_line_size(ws.subrange(0, k1)) <= spec_line_size(ws.subrange(0, k2)),
    decreases k2 - k1,
{
    if k1 < k2 {
        lemma_line_size_prefix_le(ws, k1, k2 - 1);
        lemma_line_size_take_succ(ws, k2 - 1);
    }
}

/// A cursor position inside the line has a non-negative flat offset, and
/// stepping it once more still lands within the line's size.
pub proof fn lemma_offset_bounds(line: Seq<String>, w: int, c: int)
    requires
        0 <= w < line.len(),
        0 <= c <= line[w]@.len(),
    ensures
        0 <= spec_offset(line, w, c),
        spec_offset(line, w, c) + 1 <= spec_line_size(line),
{
    lemma_line_size_nonneg(line.subrange(0, w));
    lemma_line_size_take_succ(line, w);
    lemma_line_size_prefix_le(line, w + 1, line.len() as int);
    assert(line.subrange(0, line.len() as int) =~= line);
}

/// The character the cursor expects: the current word's character, or the
/// separating space one past the word's end.
pub open spec fn spec_expected_char(s: SessionView) -> char {
    if s.cursor_char < s.cur_word().len() {
        s.cur_word()[s.cursor_char as int]
    } else {
        ' '
    }
}

/// The character a keystroke echo shows: the expected character, with an
/// underscore standing in for the space when the keystroke missed.
pub open spec fn spec_drawn_char(s: SessionView, ch: char) -> char {
    let expected = spec_expected_char(s);
    if ch == expected {
        expected
    } else if expected == ' ' {
        '_'
    } else {
        expected
    }
}

/// This keystroke steps the cursor one past the last word: it completes the
/// current line, and the window will rotate.
pub open spec fn spec_completes_line(s: SessionView) -> bool {
    s.cursor_char == s.cur_word().len() && s.cursor_word + 1 == s.cur_line().len()
}

/// The counters wrap like the fixed-width atomics they are shared through.
pub open spec fn wrap_inc(x: u16) -> u16 {
    if x == u16::MAX {
        0
    } else {
        (x + 1) as u16
    }
}

/// See [`wrap_inc`].
pub open spec fn wrap_dec(x: u16) -> u16 {
    if x == 0 {
        u16::MAX
    } else {
        (x - 1) as u16
    }
}

/// The session state after one keystroke, not counting the window rotation
/// that follows when the keystroke completes the line.
pub open spec fn spec_step_char(s: SessionView, ch: char) -> SessionView {
    let hit = ch == spec_expected_char(s);
    let at_word_end = s.cursor_char == s.cur_word().len();
    SessionView {
        typed: wrap_inc(s.typed),
        errors: if hit {
            s.errors
        } else {
            wrap_inc(s.errors)
        },
        marks: if hit {
            s.marks
        } else {
            s.marks.push(s.cursor_offset)
        },
        cursor_word: if at_word_end {
            (s.cursor_word + 1) as usize
        } else {
            s.cursor_word
        },
        cursor_char: if at_word_end {
            0
        } else {
            (s.cursor_char + 1) as usize
        },
        cursor_offset: (s.cursor_offset + 1) as usize,
        ..s
    }
}

/// The session state after one backspace: a no-op at the line's start;
/// otherwise the cursor steps back one offset, the typed counter gives one
/// keystroke back, and exactly the most recent error mark is reconciled if
/// it sits on the offset stepped back onto.
pub open spec fn spec_step_backspace(s: SessionView) -> SessionView {
    if s.cursor_word == 0 && s.cursor_char == 0 {
        s
    } else {
        let back_off = (s.cursor_offset - 1) as usize;
        let pop = s.marks.len() > 0 && s.marks.last() == back_off;
        SessionView {
            typed: wrap_dec(s.typed),
            errors: if pop {
                wrap_dec(s.errors)
            } else {
                s.errors
            },
            marks: if pop {
                s.marks.drop_last()
            } else {
                s.marks
            },
            cursor_word: if s.cursor_char == 0 {
                (s.cursor_word - 1) as usize
            } else {
                s.cursor_word
            },
            cursor_char: if s.cursor_char == 0 {
                s.cur_line()[s.cursor_word - 1]@.len() as usize
            } else {
                (s.cursor_char - 1) as usize
            },
            cursor_offset: back_off,
            ..s
        }
    }
}

/// The character a backspace restores in neutral style: the separating
/// space when the cursor crosses a word boundary, else the character of the
/// cell stepped back onto.
pub open spec fn spec_restored_char(s: SessionView) -> char {
    if s.cursor_char == 0 {
        ' '
    } else {
        s.cur_word()[s.cursor_char - 1]
    }
}

/// Relates the state after the window rotated to the state just before:
/// the window shifts by one line with a fresh line at the back, cursor and
/// marks reset for the new current line, and everything else — counters
/// included — is untouched by the rotation itself.
pub open spec fn spec_line_change(pre: SessionView, post: SessionView) -> bool {
    &&& post.word_bank == pre.word_bank
    &&& post.max_width == pre.max_width
    &&& post.active == pre.active
    &&& post.typed == pre.typed
    &&& post.errors == pre.errors
    &&& post.lines.len() == pre.lines.len()
    &&& forall|i: int| 0 <= i < pre.lines.len() - 1 ==> post.lines[i] == pre.lines[i + 1]
    &&& line_ok(
        post.lines[post.lines.len() - 1]@,
        pre.word_bank,
        pre.max_width as int,
    )
    &&& post.cursor_word == 0
    &&& post.cursor_char == 0
    &&& post.cursor_offset == 0
    &&& post.marks.len() == 0
}

/// A keystroke that does not complete the line preserves well-formedness.
pub proof fn lemma_step_char_wf(s: SessionView, ch: char)
    requires
        s.wf(),
        !spec_completes_line(s),
    ensures
        spec_step_char(s, ch).wf(),
{
    let post = spec_step_char(s, ch);
    lemma_line_size_ge_len(s.cur_line());
    lemma_offset_bounds(s.cur_line(), s.cursor_word as int, s.cursor_char as int);
    if s.cursor_char == s.cur_word().len() {
        lemma_line_size_take_succ(s.cur_line(), s.cursor_word as int);
    }
    assert(post.cursor_offset == spec_offset(
        post.cur_line(),
        post.cursor_word as int,
        post.cursor_char as int,
    ));
    assert forall|i: int| 0 <= i < post.marks.len() implies (#[trigger] post.marks[i])
        < post.cursor_offset by {
        if i < s.marks.len() {
            assert(s.marks[i] < s.cursor_offset);
        }
    }
    assert forall|i: int, j: int| 0 <= i < j < post.marks.len() implies post.marks[i]
        < post.marks[j] by {
        if j < s.marks.len() {
            assert(s.marks[i] < s.marks[j]);
        } else {
            assert(s.marks[i] < s.cursor_offset);
        }
    }
    assert(post.wf());
}

/// What one keystroke asks the renderer to do.
pub struct CharResult {
    /// Echo of the keystroke at the cursor's cell.
    pub draw: DrawCmd,
    /// When the keystroke completed the line: the error marks of the line
    /// just finished, for its stale re-rendering, after which the caller
    /// redraws the rotated window.
    pub finished_marks: Option<Vec<usize>>,
}

/// Full description of one keystroke: its echo, and either the plain step
/// or the step followed by the window rotation.
pub open spec fn spec_char_post(pre: SessionView, post: SessionView, ch: char, r: CharResult) -> bool {
    &&& r.draw.offset == pre.cursor_offset
    &&& r.draw.ch == spec_drawn_char(pre, ch)
    &&& r.draw.style == (if ch == spec_expected_char(pre) {
        Style::Correct
    } else {
        Style::Incorrect
    })
    &&& if spec_completes_line(pre) {
        &&& spec_line_change(spec_step_char(pre, ch), post)
        &&& r.finished_marks matches Some(m) && m@ == spec_step_char(pre, ch).marks
    } else {
        &&& post == spec_step_char(pre, ch)
        &&& r.finished_marks is None
    }
}

/// Full description of one backspace: the step, and a neutral restoring
/// echo exactly when the cursor was not at the line's start.
pub open spec fn spec_backspace_post(pre: SessionView, post: SessionView, r: Option<DrawCmd>) -> bool {
    &&& post == spec_step_backspace(pre)
    &&& (r is Some <==> !(pre.cursor_word == 0 && pre.cursor_char == 0))
    &&& (r matches Some(cmd) ==> cmd.offset == post.cursor_offset && cmd.style == Style::Neutral
        && cmd.ch == spec_restored_char(pre))
}

/// One typing session: the window of lines, the cursor, the error marks of
/// the current line, and the keystroke counters the metrics clock samples.
pub struct TypingTest {
    word_bank: Vec<String>,
    lines_deque: VecDeque<Vec<String>>,
    cursor_word: usize,
    cursor_char: usize,
    cursor_index: usize,
    line_errors: Vec<usize>,
    chars_typed: u16,
    errors_typed: u16,
    active: bool,
    max_width: usize,
}

impl View for TypingTest {
    type V = SessionView;

    closed spec fn view(&self) -> SessionView {
        SessionView {
            word_bank: self.word_bank@,
            lines: self.lines_deque@,
            cursor_word: self.cursor_word,
            cursor_char: self.cursor_char,
            cursor_offset: self.cursor_index,
            marks: self.line_errors@,
            typed: self.chars_typed,
            errors: self.errors_typed,
            active: self.active,
            max_width: self.max_width,
        }
    }
}

/// A fresh copy of the word bank for a session to own.
fn clone_bank(bank: &Vec<String>) -> (r: Vec<String>)
    ensures
        r@ == bank@,
{
    let mut r: Vec<String> = Vec::new();
    let mut i: usize = 0;
    while i < bank.len()
        invariant
            i <= bank@.len(),
            r@.len() == i,
            forall|j: int| 0 <= j < i ==> r@[j] == bank@[j],
        decreases bank@.len() - i,
    {
        r.push(bank[i].clone());
        i = i + 1;
    }
    proof {
        assert(r@ =~= bank@);
    }
    r
}

impl TypingTest {
    /// Starts a session: an empty slot for the not-yet-existing previous
    /// line, `window_size - 1` freshly generated lines, the cursor at the
    /// start of the first of them, no marks, counters at zero, active.
    pub fn new(word_bank: &Vec<String>, window_size: usize, max_width: usize) -> (t: TypingTest)
        requires
            window_size >= 3,
            max_width >= 1,
            bank_ok(word_bank@, max_width as int),
        ensures
            t@.wf(),
            t@.word_bank == word_bank@,
            t@.lines.len() == window_size,
            t@.lines[0]@.len() == 0,
            t@.cursor_word == 0,
            t@.cursor_char == 0,
            t@.cursor_offset == 0,
            t@.marks.len() == 0,
            t@.typed == 0,
            t@.errors == 0,
            t@.active,
            t@.max_width == max_width,
    {
        let bank = clone_bank(word_bank);
        let mut lines_deque: VecDeque<Vec<String>> = VecDeque::new();
        lines_deque.push_back(Vec::new());
        let mut k: usize = 1;
        while k < window_size
            invariant
                1 <= k <= window_size,
                max_width >= 1,
                bank_ok(bank@, max_width as int),
                bank@ == word_bank@,
                lines_deque@.len() == k,
                lines_deque@[0]@.len() == 0,
                forall|i: int|
                    1 <= i < k ==> line_ok(
                        (#[trigger] lines_deque@[i])@,
                        bank@,
                        max_width as int,
                    ),
            decreases window_size - k,
        {
            let line = get_random_line(&bank, max_width);
            lines_deque.push_back(line);
            k = k + 1;
        }
        TypingTest {
            word_bank: bank,
            lines_deque,
            cursor_word: 0,
            cursor_char: 0,
            cursor_index: 0,
            line_errors: Vec::new(),
            chars_typed: 0,
            errors_typed: 0,
            active: true,
            max_width,
        }
    }

    /// Rotates the window when the current line has been completed: the
    /// front line leaves, a fresh line joins at the back, and cursor and
    /// marks reset for the new current line. Returns the finished line's
    /// error marks for their stale re-rendering.
    pub fn process_line_change(&mut self) -> (marks: Vec<usize>)
        requires
            old(self)@.frame_wf(),
        ensures
            final(self)@.wf(),
            spec_line_change(old(self)@, final(self)@),
            marks@ == old(self)@.marks,
    {
        let new_line = get_random_line(&self.word_bank, self.max_width);
        self.lines_deque.push_back(new_line);
        self.lines_deque.pop_front();

        let mut marks: Vec<usize> = Vec::new();
        std::mem::swap(&mut self.line_errors, &mut marks);

        self.cursor_word = 0;
        self.cursor_char = 0;
        self.cursor_index = 0;
        proof {
            assert(self@.cur_line().subrange(0, 0) =~= Seq::<String>::empty());
        }
        marks
    }

    /// The keystroke alone: counters, mark, echo and cursor advance, without
    /// the window rotation a completing keystroke triggers afterwards.
    fn step_keystroke(&mut self, ch: char) -> (draw: DrawCmd)
        requires
            old(self)@.wf(),
        ensures
            final(self)@ == spec_step_char(old(self)@, ch),
            draw.offset == old(self)@.cursor_offset,
            draw.ch == spec_drawn_char(old(self)@, ch),
            draw.style == (if ch == spec_expected_char(old(self)@) {
                Style::Correct
            } else {
                Style::Incorrect
            }),
            !spec_completes_line(old(self)@) ==> final(self)@.wf(),
            spec_completes_line(old(self)@) ==> final(self)@.frame_wf(),
    {
        proof {
            lemma_line_size_ge_len(old(self)@.cur_line());
            lemma_offset_bounds(
                old(self)@.cur_line(),
                old(self)@.cursor_word as int,
                old(self)@.cursor_char as int,
            );
        }
        let word_len = self.lines_deque[1][self.cursor_word].as_str().unicode_len();
        let expected: char = if self.cursor_char < word_len {
            self.lines_deque[1][self.cursor_word].as_str().get_char(self.cursor_char)
        } else {
            ' '
        };
        self.chars_typed = if self.chars_typed == u16::MAX {
            0
        } else {
            self.chars_typed + 1
        };
        let hit = ch == expected;
        let drawn: char;
        let style: Style;
        if hit {
            drawn = expected;
            style = Style::Correct;
        } else {
            self.errors_typed = if self.errors_typed == u16::MAX {
                0
            } else {
                self.errors_typed + 1
            };
            self.line_errors.push(self.cursor_index);
            drawn = if expected == ' ' {
                '_'
            } else {
                expected
            };
            style = Style::Incorrect;
        }
        let draw = DrawCmd { ch: drawn, offset: self.cursor_index, style };
        self.cursor_index = self.cursor_index + 1;
        if self.cursor_char < word_len {
            self.cursor_char = self.cursor_char + 1;
        } else {
            self.cursor_word = self.cursor_word + 1;
            self.cursor_char = 0;
        }
        proof {
            if old(self)@.cursor_char == old(self)@.cur_word().len() {
                lemma_line_size_take_succ(old(self)@.cur_line(), old(self)@.cursor_word as int);
            }
            assert(self@ == spec_step_char(old(self)@, ch));
            if !spec_completes_line(old(self)@) {
                lemma_step_char_wf(old(self)@, ch);
            }
        }
        draw
    }

    /// Applies one typed character: counts the keystroke, checks it against
    /// the expected character, marks and counts a miss, echoes the cell,
    /// advances the cursor, and rotates the window when the keystroke
    /// stepped past the line's last word.
    pub fn process_char(&mut self, ch: char) -> (r: CharResult)
        requires
            old(self)@.wf(),
        ensures
            final(self)@.wf(),
            spec_char_post(old(self)@, final(self)@, ch, r),
    {
        let draw = self.step_keystroke(ch);
        let finished: Option<Vec<usize>> = if self.cursor_word == self.lines_deque[1].len() {
            Some(self.process_line_change())
        } else {
            None
        };
        CharResult { draw, finished_marks: finished }
    }

    /// Applies one backspace: a no-op at the line's start; otherwise steps
    /// the cursor back one offset, restores the vacated cell in neutral
    /// style, gives back one typed keystroke, and reconciles exactly the
    /// most recent error mark if it sits on the offset stepped back onto.
    pub fn process_backspace(&mut self) -> (r: Option<DrawCmd>)
        requires
            old(self)@.wf(),
        ensures
            final(self)@.wf(),
            spec_backspace_post(old(self)@, final(self)@, r),
    {
        if self.cursor_word == 0 && self.cursor_char == 0 {
            return None;
        }
        proof {
            lemma_line_size_nonneg(
                old(self)@.cur_line().subrange(0, old(self)@.cursor_word as int),
            );
            if old(self)@.cursor_char == 0 {
                lemma_line_size_take_succ(
                    old(self)@.cur_line(),
                    old(self)@.cursor_word - 1,
                );
                lemma_line_size_nonneg(
                    old(self)@.cur_line().subrange(0, old(self)@.cursor_word - 1),
                );
            }
        }
        self.chars_typed = if self.chars_typed == 0 {
            u16::MAX
        } else {
            self.chars_typed - 1
        };
        let ch: char;
        if self.cursor_char == 0 {
            self.cursor_word = self.cursor_word - 1;
            self.cursor_char = self.lines_deque[1][self.cursor_word].as_str().unicode_len();
            self.cursor_index = self.cursor_index - 1;
            ch = ' ';
        } else {
            self.cursor_char = self.cursor_char - 1;
            self.cursor_index = self.cursor_index - 1;
            ch = self.lines_deque[1][self.cursor_word].as_str().get_char(self.cursor_char);
        }
        if self.line_errors.len() > 0 {
            let last = self.line_errors[self.line_errors.len() - 1];
            if last == self.cursor_index {
                self.errors_typed = if self.errors_typed == 0 {
                    u16::MAX
                } else {
                    self.errors_typed - 1
                };
                self.line_errors.pop();
            }
        }
        proof {
            let pre = old(self)@;
            let post = self@;
            assert(post == spec_step_backspace(pre));
            assert(post.cursor_word < post.cur_line().len());
            assert(post.cursor_char <= post.cur_word().len());
            assert(post.cursor_offset == spec_offset(
                post.cur_line(),
                post.cursor_word as int,
                post.cursor_char as int,
            ));
            assert forall|i: int| 0 <= i < post.marks.len() implies (#[trigger] post.marks[i])
                < post.cursor_offset by {
                assert(pre.marks[i] < pre.cursor_offset);
                if i < pre.marks.len() - 1 {
                    assert(pre.marks[i] < pre.marks[pre.marks.len() - 1]);
                }
            }
            assert(post.wf());
        }
        Some(DrawCmd { ch, offset: self.cursor_index, style: Style::Neutral })
    }

    /// Dispatches one key event of the input loop: characters and backspace
    /// step the session, escape ends it towards the menu, tab ends it
    /// towards a restart, anything else is ignored.
    pub fn handle_key(&mut self, key: Key) -> (r: StepResult)
        requires
            old(self)@.wf(),
        ensures
            final(self)@.wf(),
            match key {
                Key::Char(ch) => r matches StepResult::Typed(cr) && spec_char_post(
                    old(self)@,
                    final(self)@,
                    ch,
                    cr,
                ),
                Key::Backspace => r matches StepResult::Erased(cmd) && spec_backspace_post(
                    old(self)@,
                    final(self)@,
                    cmd,
                ),
                Key::Esc => r == StepResult::Finished(TypingTestReturn::Back) && final(self)@ == (
                SessionView { active: false, ..old(self)@ }),
                Key::Tab => r == StepResult::Finished(TypingTestReturn::Restart) && final(self)@
                    == (SessionView { active: false, ..old(self)@ }),
                _ => r == StepResult::Ignored && final(self)@ == old(self)@,
            },
    {
        match key {
            Key::Char(ch) => StepResult::Typed(self.process_char(ch)),
            Key::Backspace => StepResult::Erased(self.process_backspace()),
            Key::Esc => {
                self.active = false;
                StepResult::Finished(TypingTestReturn::Back)
            },
            Key::Tab => {
                self.active = false;
                StepResult::Finished(TypingTestReturn::Restart)
            },
            _ => StepResult::Ignored,
        }
    }

    /// How many keystrokes the session has taken, for the shared counter.
    pub fn chars_typed(&self) -> (n: u16)
        ensures
            n == self@.typed,
    {
        self.chars_typed
    }

    /// How many keystrokes missed, for the shared counter.
    pub fn errors_typed(&self) -> (n: u16)
        ensures
            n == self@.errors,
    {
        self.errors_typed
    }

    /// The cursor as (word index, character index) in the current line.
    pub fn cursor(&self) -> (c: (usize, usize))
        ensures
            c.0 == self@.cursor_word,
            c.1 == self@.cursor_char,
    {
        (self.cursor_word, self.cursor_char)
    }

    /// The cursor as a flat character offset from the current line's start.
    pub fn cursor_index(&self) -> (i: usize)
        ensures
            i == self@.cursor_offset,
    {
        self.cursor_index
    }

    /// The error marks of the current line, oldest first.
    pub fn line_errors(&self) -> (m: &Vec<usize>)
        ensures
            m@ == self@.marks,
    {
        &self.line_errors
    }

    /// The window of lines: the finished line, the current one, the lookahead.
    pub fn lines(&self) -> (l: &VecDeque<Vec<String>>)
        ensures
            l@ == self@.lines,
    {
        &self.lines_deque
    }

    /// Whether the session still accepts input.
    pub fn is_active(&self) -> (a: bool)
        ensures
            a == self@.active,
    {
        self.active
    }
}

/// What one key event produced: a keystroke echo, a restored cell, the end
/// of the session, or nothing.
pub enum StepResult {
    /// A character was typed; render its echo, and on a completed line the
    /// stale marks and the rotated window.
    Typed(CharResult),
    /// A backspace was taken; render the restored cell, if any.
    Erased(Option<DrawCmd>),
    /// The session ended by explicit request.
    Finished(TypingTestReturn),
    /// The key means nothing to the session.
    Ignored,
}

/// Runs typing sessions over a sequence of key events, restarting on
/// request, until a back-to-menu request or the events run out; the
/// session flow always hands control back to the main menu.
pub fn run(word_bank: &Vec<String>, keys: &Vec<Key>) -> (g: GameState)
    requires
        bank_ok(word_bank@, MAX_WIDTH as int),
    ensures
        g == GameState::MainMenu,
{
    let mut test = TypingTest::new(word_bank, Q_SIZE + 1, MAX_WIDTH);
    let mut i: usize = 0;
    while i < keys.len()
        invariant
            i <= keys@.len(),
            test@.wf(),
            bank_ok(word_bank@, MAX_WIDTH as int),
        decreases keys@.len() - i,
    {
        let r = test.handle_key(keys[i]);
        i = i + 1;
        match r {
            StepResult::Finished(TypingTestReturn::Back) => {
                return GameState::MainMenu;
            },
            StepResult::Finished(TypingTestReturn::Restart) => {
                test = TypingTest::new(word_bank, Q_SIZE + 1, MAX_WIDTH);
            },
            _ => {},
        }
    }
    GameState::MainMenu
}

/// One keystroke makes at most one new error mark: the marks either stay,
/// or grow by exactly the cursor's offset.
pub proof fn lemma_char_adds_at_most_one_mark(s: SessionView, ch: char)
    ensures
        spec_step_char(s, ch).marks.len() <= s.marks.len() + 1,
        spec_step_char(s, ch).marks == s.marks || spec_step_char(s, ch).marks == s.marks.push(
            s.cursor_offset,
        ),
{
}

/// One keystroke that does not complete the line is undone exactly by one
/// backspace: cursor, marks and counters return to their precise values.
#[verifier::rlimit(50)]
pub proof fn lemma_backspace_undoes_char(s: SessionView, ch: char)
    requires
        s.wf(),
        !spec_completes_line(s),
    ensures
        spec_step_backspace(spec_step_char(s, ch)) == s,
{
    lemma_line_size_ge_len(s.cur_line());
    lemma_offset_bounds(s.cur_line(), s.cursor_word as int, s.cursor_char as int);
    if s.cursor_char == s.cur_word().len() {
        lemma_line_size_take_succ(s.cur_line(), s.cursor_word as int);
    }
    let mid = spec_step_char(s, ch);
    let back = spec_step_backspace(mid);
    assert(!(mid.cursor_word == 0 && mid.cursor_char == 0));
    if ch == spec_expected_char(s) {
        if s.marks.len() > 0 {
            assert(s.marks[s.marks.len() - 1] < s.cursor_offset);
        }
        assert(back.marks == s.marks);
    } else {
        assert(mid.marks.last() == s.cursor_offset);
        assert(back.marks =~= s.marks);
    }
    assert(back == s);
}

/// The state after `chars` keystrokes, taken in order.
pub open spec fn spec_steps_chars(s: SessionView, chars: Seq<char>) -> SessionView
    decreases chars.len(),
{
    if chars.len() == 0 {
        s
    } else {
        spec_steps_chars(spec_step_char(s, chars[0]), chars.drop_first())
    }
}

/// The state after `n` backspaces, taken in order.
pub open spec fn spec_steps_backspaces(s: SessionView, n: nat) -> SessionView
    decreases n,
{
    if n == 0 {
        s
    } else {
        spec_steps_backspaces(spec_step_backspace(s), (n - 1) as nat)
    }
}

/// No keystroke of the sequence, applied in order, completes the line.
pub open spec fn spec_no_line_change(s: SessionView, chars: Seq<char>) -> bool
    decreases chars.len(),
{
    chars.len() == 0 || (!spec_completes_line(s) && spec_no_line_change(
        spec_step_char(s, chars[0]),
        chars.drop_first(),
    ))
}

/// The last of `n + 1` backspaces is one more backspace after the first `n`.
proof fn lemma_backspaces_snoc(s: SessionView, n: nat)
    ensures
        spec_steps_backspaces(s, n + 1) == spec_step_backspace(spec_steps_backspaces(s, n)),
    decreases n,
{
    if n == 0 {
        assert(spec_steps_backspaces(s, 1) == spec_steps_backspaces(spec_step_backspace(s), 0));
    } else {
        lemma_backspaces_snoc(spec_step_backspace(s), (n - 1) as nat);
        assert(spec_steps_backspaces(s, n + 1) == spec_steps_backspaces(
            spec_step_backspace(s),
            n,
        ));
        assert(spec_steps_backspaces(s, n) == spec_steps_backspaces(
            spec_step_backspace(s),
            (n - 1) as nat,
        ));
    }
}

/// The round-trip law: any sequence of keystrokes during which the line
/// never completes, followed by as many backspaces, returns the cursor, the
/// error marks and both counters exactly to where they began.
pub proof fn lemma_round_trip(s: SessionView, chars: Seq<char>)
    requires
        s.wf(),
        spec_no_line_change(s, chars),
    ensures
        spec_steps_backspaces(spec_steps_chars(s, chars), chars.len()) == s,
    decreases chars.len(),
{
    if chars.len() > 0 {
        let s1 = spec_step_char(s, chars[0]);
        lemma_step_char_wf(s, chars[0]);
        lemma_round_trip(s1, chars.drop_first());
        lemma_backspaces_snoc(spec_steps_chars(s, chars), (chars.len() - 1) as nat);
        lemma_backspace_undoes_char(s, chars[0]);
    }
}

} // verus!
