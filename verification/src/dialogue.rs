use vstd::prelude::*;
use crate::menu::GameState;

verus! {

/// An open dialogue: the lines, the line shown and how many of its
/// characters the typewriter has revealed. (The fractional typewriter
/// clock is kept by the application.)
#[derive(Debug, Clone)]
pub struct DialogueUiState {
    pub npc_id: String,
    pub lines: Vec<String>,
    pub current_line: usize,
    pub portrait_index: Option<u32>,
    pub chars_revealed: usize,
}

/// Characters in line `i` of a dialogue; a line past the end has none.
pub open spec fn line_len(lines: Seq<String>, i: int) -> nat {
    if 0 <= i < lines.len() { lines[i]@.len() } else { 0 }
}

/// What pressing the interact key did to a dialogue.
#[derive(Debug, Clone, Copy, PartialEq, Eq, Structural)]
pub enum DialogueStep {
    /// The key was not pressed.
    Idle,
    /// The rest of the current line was revealed at once.
    RevealedLine,
    /// The next line started; `true` when it is the last one.
    NextLine(bool),
    /// The dialogue ended; the game goes to the given state.
    Ended(GameState),
}

impl DialogueUiState {
    pub fn open(npc_id: String, lines: Vec<String>, portrait_index: Option<u32>) -> (s: Self)
        ensures
            s.npc_id == npc_id,
            s.lines@ == lines@,
            s.current_line == 0,
            s.portrait_index == portrait_index,
            s.chars_revealed == 0,
    {
        DialogueUiState { npc_id, lines, current_line: 0, portrait_index, chars_revealed: 0 }
    }

    fn current_line_len(&self) -> (n: usize)
        ensures
            n == line_len(self.lines@, self.current_line as int),
    {
        if self.current_line < self.lines.len() {
            self.lines[self.current_line].as_str().unicode_len()
        } else {
            0
        }
    }

    /// Typewriter progress: `new_chars` more characters of the current line
    /// are revealed, never more than the line has.
    pub fn reveal_chars(&mut self, new_chars: usize)
        requires
            old(self).chars_revealed + new_chars <= usize::MAX,
        ensures
            final(self).chars_revealed == if old(self).chars_revealed + new_chars <= line_len(old(self).lines@, old(self).current_line as int) {
                (old(self).chars_revealed + new_chars) as nat
            } else {
                line_len(old(self).lines@, old(self).current_line as int)
            },
            final(self).lines@ == old(self).lines@,
            final(self).current_line == old(self).current_line,
    {
        let total = self.current_line_len();
        let n = self.chars_revealed + new_chars;
        self.chars_revealed = if n <= total { n } else { total };
    }

    /// The part of the current line the typewriter has revealed so far.
    pub fn revealed_text(&self) -> (t: String)
        ensures
            t@ == if self.current_line < self.lines.len() {
                let line = self.lines@[self.current_line as int]@;
                if self.chars_revealed <= line.len() { line.take(self.chars_revealed as int) } else { line }
            } else {
                Seq::<char>::empty()
            },
    {
        if self.current_line >= self.lines.len() {
            return String::new();
        }
        let line = self.lines[self.current_line].as_str();
        let total = line.unicode_len();
        let k = if self.chars_revealed <= total { self.chars_revealed } else { total };
        let part = line.substring_char(0, k);
        proof {
            if self.chars_revealed > total {
                assert(line@.subrange(0, k as int) =~= line@);
            }
        }
        crate::text::string_of(part)
    }

    /// Whether the line shown is the dialogue's last.
    pub fn is_last_line(&self) -> (r: bool)
        requires
            self.lines.len() >= 1,
        ensures
            r == (self.current_line >= self.lines.len() - 1),
    {
        self.current_line >= self.lines.len() - 1
    }

    /// The interact key: a line still typing is revealed in full; a shown
    /// line gives way to the next, and after the last line the dialogue
    /// ends, back to the cutscene that opened it or to play.
    pub fn advance(&mut self, interact: bool, cutscene_active: bool) -> (step: DialogueStep)
        requires
            old(self).current_line < usize::MAX,
        ensures
            ({
                let total = line_len(old(self).lines@, old(self).current_line as int);
                let n = old(self).lines@.len();
                &&& final(self).lines@ == old(self).lines@
                &&& !interact ==> step == DialogueStep::Idle && *final(self) == *old(self)
                &&& interact && old(self).chars_revealed < total ==> {
                        &&& step == DialogueStep::RevealedLine
                        &&& final(self).chars_revealed == total
                        &&& final(self).current_line == old(self).current_line
                    }
                &&& interact && old(self).chars_revealed >= total ==> {
                        &&& final(self).current_line == old(self).current_line + 1
                        &&& step == if old(self).current_line + 1 >= n {
                                DialogueStep::Ended(if cutscene_active { GameState::Cutscene } else { GameState::Playing })
                            } else {
                                DialogueStep::NextLine(old(self).current_line + 1 >= n - 1)
                            }
                        &&& old(self).current_line + 1 < n ==> final(self).chars_revealed == 0
                    }
            }),
    {
        if !interact {
            return DialogueStep::Idle;
        }
        let total = self.current_line_len();
        if self.chars_revealed < total {
            self.chars_revealed = total;
            return DialogueStep::RevealedLine;
        }
        self.current_line += 1;
        if self.current_line >= self.lines.len() {
            return DialogueStep::Ended(if cutscene_active { GameState::Cutscene } else { GameState::Playing });
        }
        self.chars_revealed = 0;
        DialogueStep::NextLine(self.current_line >= self.lines.len() - 1)
    }
}

/// The prompt under the dialogue text: an ellipsis while the line types,
/// then "Continue", or "Close" on the last line.
pub fn dialogue_prompt(revealed: usize, total: usize, is_last: bool) -> (r: &'static str)
    ensures
        r == if revealed < total { "..." } else if is_last { "[F / Space] Close" } else { "[F / Space] Continue" },
{
    if revealed < total {
        "..."
    } else if is_last {
        "[F / Space] Close"
    } else {
        "[F / Space] Continue"
    }
}

} // verus!
