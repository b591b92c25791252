use vstd::prelude::*;

use crate::text::{chars_of, push_char, push_chars, string_of};

verus! {

broadcast use vstd::string::group_string_axioms;

/// Height in pixels of one line of console text (the font size).
pub const LINE_HEIGHT: u32 = 18;

/// Pixels scrolled for each unit of mouse-wheel movement.
pub const SCROLL_STEP: i32 = 6;

/// Milliseconds after opening during which typed text is ignored.
pub const DEBOUNCE_MS: u32 = 50;

/// Text that starts every echoed command line.
pub open spec fn leader() -> Seq<char> {
    seq!['h', 'a', 'k', 'k', 'a', '>', ' ']
}

/// `s` with one trailing carriage return removed, if it has one.
pub open spec fn strip_cr(s: Seq<char>) -> Seq<char> {
    if s.len() > 0 && s.last() == '\r' {
        s.drop_last()
    } else {
        s
    }
}

/// Reads `s` left to right: the lines already ended by a line feed, and the
/// characters of the line still being read.
pub open spec fn scan_lines(s: Seq<char>) -> (Seq<Seq<char>>, Seq<char>)
    decreases s.len(),
{
    if s.len() == 0 {
        (seq![], seq![])
    } else {
        let (done, cur) = scan_lines(s.drop_last());
        if s.last() == '\n' {
            (done.push(strip_cr(cur)), seq![])
        } else {
            (done, cur.push(s.last()))
        }
    }
}

/// The lines of `s`: split at `\n` or `\r\n`, the last line ending optional.
pub open spec fn text_lines(s: Seq<char>) -> Seq<Seq<char>> {
    let (done, cur) = scan_lines(s);
    if cur.len() > 0 {
        done.push(cur)
    } else {
        done
    }
}

/// `v` held to `0 ..= i32::MAX`.
pub open spec fn clamp_offset(v: int) -> int {
    if v < 0 {
        0
    } else if v > i32::MAX {
        i32::MAX as int
    } else {
        v
    }
}

/// The state of the console, as plain values.
pub struct ConsoleModel {
    pub visible: bool,
    pub visible_start_time: u32,
    pub input: Seq<char>,
    pub cursor: nat,
    pub pending: Seq<char>,
    pub history: Seq<Seq<char>>,
    pub history_position: nat,
    pub lines: Seq<Seq<char>>,
    pub line_open: bool,
    pub scroll_y: int,
    pub width: u32,
    pub height: u32,
    pub ctrl: bool,
    pub shift: bool,
}

impl ConsoleModel {
    pub open spec fn wf(self) -> bool {
        &&& self.cursor <= self.input.len()
        &&& self.input.len() <= usize::MAX
        &&& self.history_position <= self.history.len()
        &&& 0 <= self.scroll_y <= i32::MAX
    }

    pub open spec fn toggle(self, time: u32) -> ConsoleModel {
        if self.visible {
            ConsoleModel { visible: false, ..self }
        } else {
            ConsoleModel { visible: true, visible_start_time: time, ..self }
        }
    }

    /// Inserts `c` at the cursor and moves the cursor past it.
    pub open spec fn add_char(self, c: char) -> ConsoleModel {
        ConsoleModel { input: self.input.insert(self.cursor as int, c), cursor: self.cursor + 1, ..self }
    }

    /// Inserts the first character of `text`, if any; a buffer that already
    /// holds `usize::MAX` characters takes no more.
    pub open spec fn add_text(self, text: Seq<char>) -> ConsoleModel {
        if text.len() > 0 && self.input.len() < usize::MAX {
            self.add_char(text[0])
        } else {
            self
        }
    }

    pub open spec fn cursor_left(self) -> ConsoleModel {
        if self.cursor > 0 {
            ConsoleModel { cursor: (self.cursor - 1) as nat, ..self }
        } else {
            self
        }
    }

    pub open spec fn cursor_right(self) -> ConsoleModel {
        if self.cursor < self.input.len() {
            ConsoleModel { cursor: self.cursor + 1, ..self }
        } else {
            self
        }
    }

    pub open spec fn cursor_home(self) -> ConsoleModel {
        ConsoleModel { cursor: 0, ..self }
    }

    pub open spec fn cursor_end(self) -> ConsoleModel {
        ConsoleModel { cursor: self.input.len(), ..self }
    }

    /// Removes the character before the cursor, when visible.
    pub open spec fn backspace(self) -> ConsoleModel {
        if self.visible && self.cursor > 0 {
            ConsoleModel {
                input: self.input.remove(self.cursor - 1),
                cursor: (self.cursor - 1) as nat,
                ..self
            }
        } else {
            self
        }
    }

    /// Moves right and then deletes backwards, unless at the end of the input.
    pub open spec fn delete_forward(self) -> ConsoleModel {
        if self.cursor < self.input.len() {
            self.cursor_right().backspace()
        } else {
            self
        }
    }

    /// Records a non-empty input in the history and as the pending command.
    pub open spec fn process_command(self) -> ConsoleModel {
        if self.input.len() > 0 {
            ConsoleModel { history: self.history.push(self.input), pending: self.input, ..self }
        } else {
            self
        }
    }

    pub open spec fn commit(self) -> ConsoleModel {
        let echoed = ConsoleModel { lines: self.lines.push(leader() + self.input), ..self };
        let p = echoed.process_command();
        ConsoleModel { input: seq![], cursor: 0, history_position: p.history.len(), ..p }
    }

    /// The state after taking the pending command, and the command taken.
    pub open spec fn take_command(self) -> (ConsoleModel, Option<Seq<char>>) {
        if self.pending.len() > 0 {
            (ConsoleModel { pending: seq![], ..self }, Some(self.pending))
        } else {
            (self, None)
        }
    }

    /// Recalls `history[i]` into the input, cursor at its end.
    pub open spec fn recall(self, i: nat) -> ConsoleModel {
        ConsoleModel {
            input: self.history[i as int],
            cursor: self.history[i as int].len(),
            history_position: i,
            ..self
        }
    }

    pub open spec fn history_back(self) -> ConsoleModel {
        if self.history_position > 0 {
            self.recall((self.history_position - 1) as nat)
        } else {
            self
        }
    }

    pub open spec fn history_forward(self) -> ConsoleModel {
        if self.history_position + 1 < self.history.len() {
            self.recall(self.history_position + 1)
        } else if self.history_position < self.history.len() {
            ConsoleModel {
                input: seq![],
                cursor: 0,
                history_position: self.history.len(),
                ..self
            }
        } else {
            self
        }
    }

    /// Height of the area that shows the log.
    pub open spec fn log_area(self) -> int {
        if self.height >= 2 * LINE_HEIGHT {
            self.height - 2 * LINE_HEIGHT
        } else {
            0
        }
    }

    /// The log is taller than the area that shows it.
    pub open spec fn scrollable(self) -> bool {
        self.lines.len() * LINE_HEIGHT > self.log_area()
    }

    pub open spec fn scroll(self, delta: i32) -> ConsoleModel {
        if self.scrollable() {
            ConsoleModel { scroll_y: clamp_offset(self.scroll_y + SCROLL_STEP * delta), ..self }
        } else {
            self
        }
    }

    /// Appends to the open line, or starts a new open line.
    pub open spec fn print(self, text: Seq<char>) -> ConsoleModel {
        if self.line_open && self.lines.len() > 0 {
            ConsoleModel {
                lines: self.lines.update(self.lines.len() - 1, self.lines.last() + text),
                ..self
            }
        } else {
            ConsoleModel { lines: self.lines.push(text), line_open: true, ..self }
        }
    }

    /// Adds `text` as a closed line.
    pub open spec fn println(self, text: Seq<char>) -> ConsoleModel {
        ConsoleModel { lines: self.lines.push(text), line_open: false, ..self }
    }

    pub open spec fn print_lines(self, text: Seq<char>) -> ConsoleModel {
        let ls = text_lines(text);
        if ls.len() > 0 {
            ConsoleModel { lines: self.lines + ls, line_open: false, ..self }
        } else {
            self
        }
    }

    /// Starts a new, empty open line.
    pub open spec fn wrap_line(self) -> ConsoleModel {
        ConsoleModel { lines: self.lines.push(seq![]), line_open: true, ..self }
    }

    pub open spec fn clear(self) -> ConsoleModel {
        ConsoleModel { lines: seq![], ..self }
    }
}

/// The keys the console reacts to.
#[derive(Clone, Copy, Debug, PartialEq, Eq, Structural)]
pub enum Key {
    LCtrl,
    RCtrl,
    LShift,
    RShift,
    C,
    Left,
    Right,
    Backspace,
    Delete,
    Up,
    Down,
    Return,
    End,
    Home,
    Other,
}

/// An input event, reduced to what the console reads of it.
#[derive(Debug)]
pub enum ConsoleEvent {
    /// Text typed, at `timestamp` milliseconds.
    TextInput { text: String, timestamp: u32 },
    /// A vertical mouse-wheel movement.
    MouseWheel { y: i32 },
    /// A key pressed. `toggle_key` is the key that opens and closes the
    /// console; `modified` is whether Alt, Ctrl or Shift is held.
    KeyDown { key: Key, toggle_key: bool, modified: bool, timestamp: u32 },
    /// A key released.
    KeyUp { key: Key, timestamp: u32 },
    /// Any other event.
    Other,
}

impl ConsoleModel {
    /// Typed text is taken only once the debounce window after opening is over.
    pub open spec fn accepts_text(self, timestamp: u32) -> bool {
        self.visible && timestamp > self.visible_start_time + DEBOUNCE_MS
    }

    /// Ctrl+C: marks the input as interrupted and commits it.
    pub open spec fn interrupt(self) -> ConsoleModel {
        ConsoleModel { input: self.input + seq!['^', 'C'], ..self }.commit()
    }

    pub open spec fn key_down(self, key: Key) -> ConsoleModel {
        match key {
            Key::LCtrl | Key::RCtrl => ConsoleModel { ctrl: true, ..self },
            Key::LShift | Key::RShift => ConsoleModel { shift: true, ..self },
            Key::C => if self.ctrl {
                self.interrupt()
            } else {
                self
            },
            Key::Left => self.cursor_left(),
            Key::Right => self.cursor_right(),
            Key::Backspace => self.backspace(),
            Key::Delete => self.delete_forward(),
            _ => self,
        }
    }

    pub open spec fn key_up(self, key: Key, timestamp: u32) -> ConsoleModel {
        match key {
            Key::LCtrl | Key::RCtrl => ConsoleModel { ctrl: false, ..self },
            Key::LShift | Key::RShift => ConsoleModel { shift: false, ..self },
            Key::Up => if self.visible_start_time > 0 {
                self.history_back()
            } else {
                ConsoleModel { visible_start_time: timestamp, ..self }
            },
            Key::Down => if self.visible_start_time > 0 {
                self.history_forward()
            } else {
                ConsoleModel { visible_start_time: timestamp, ..self }
            },
            Key::Return => self.commit(),
            Key::End => self.cursor_end(),
            Key::Home => self.cursor_home(),
            _ => self,
        }
    }

    /// The state after `e`; a hidden console ignores every event.
    pub open spec fn step(self, e: ConsoleEvent) -> ConsoleModel {
        if !self.visible {
            self
        } else {
            match e {
                ConsoleEvent::TextInput { text, timestamp } => if self.accepts_text(timestamp) {
                    self.add_text(text@)
                } else {
                    self
                },
                ConsoleEvent::MouseWheel { y } => self.scroll(y),
                ConsoleEvent::KeyDown { key, toggle_key, modified, timestamp } => if !modified
                    && toggle_key {
                    self.toggle(timestamp)
                } else {
                    self.key_down(key)
                },
                ConsoleEvent::KeyUp { key, timestamp } => self.key_up(key, timestamp),
                ConsoleEvent::Other => self,
            }
        }
    }
}

/// Views of a list of strings.
pub open spec fn views_of(v: Seq<String>) -> Seq<Seq<char>> {
    v.map_values(|s: String| s@)
}

/// A text console: an input line with a cursor, a command history and a
/// scroll-back log of printed lines.
pub struct Console {
    pub visible: bool,
    visible_start_time: u32,
    input_buffer: Vec<char>,
    last_command: String,
    command_history: Vec<String>,
    history_position: usize,
    cursor_position: usize,
    buffer: Vec<String>,
    backbuffer_y: i32,
    size: (u32, u32),
    line_ending: bool,
    ctrl: bool,
    shift: bool,
}

impl View for Console {
    type V = ConsoleModel;

    closed spec fn view(&self) -> ConsoleModel {
        ConsoleModel {
            visible: self.visible,
            visible_start_time: self.visible_start_time,
            input: self.input_buffer@,
            cursor: self.cursor_position as nat,
            pending: self.last_command@,
            history: views_of(self.command_history@),
            history_position: self.history_position as nat,
            lines: views_of(self.buffer@),
            line_open: !self.line_ending,
            scroll_y: self.backbuffer_y as int,
            width: self.size.0,
            height: self.size.1,
            ctrl: self.ctrl,
            shift: self.shift,
        }
    }
}

impl Console {
    pub open spec fn wf(&self) -> bool {
        self@.wf()
    }

    /// A hidden, empty console for a window of `width` by `height` pixels; the
    /// console takes half the width and the full height.
    pub fn new(width: u32, height: u32) -> (r: Console)
        ensures
            r.wf(),
            r@ == (ConsoleModel {
                visible: false,
                visible_start_time: 0,
                input: seq![],
                cursor: 0,
                pending: seq![],
                history: seq![],
                history_position: 0,
                lines: seq![],
                line_open: false,
                scroll_y: 0,
                width: width / 2,
                height,
                ctrl: false,
                shift: false,
            }),
    {
        let r = Console {
            visible: false,
            visible_start_time: 0,
            input_buffer: Vec::new(),
            last_command: String::new(),
            command_history: Vec::new(),
            history_position: 0,
            cursor_position: 0,
            buffer: Vec::new(),
            backbuffer_y: 0,
            size: (width / 2, height),
            line_ending: true,
            ctrl: false,
            shift: false,
        };
        proof {
            assert(views_of(r.command_history@) =~= seq![]);
            assert(views_of(r.buffer@) =~= seq![]);
        }
        r
    }

    /// Toggles the visibility; opening records `time` as the start of the
    /// debounce window.
    pub fn toggle(&mut self, time: u32)
        requires
            old(self).wf(),
        ensures
            final(self).wf(),
            final(self)@ == old(self)@.toggle(time),
    {
        self.visible = !self.visible;
        if self.visible {
            self.visible_start_time = time;
        }
    }

    /// Inserts the first character of `input` at the cursor.
    pub fn add_text(&mut self, input: &str)
        requires
            old(self).wf(),
        ensures
            final(self).wf(),
            final(self)@ == old(self)@.add_text(input@),
    {
        if input.unicode_len() > 0 && self.input_buffer.len() < usize::MAX {
            self.input_buffer.insert(self.cursor_position, input.get_char(0));
            self.cursor_position = self.cursor_position + 1;
        }
    }

    pub fn cursor_left(&mut self)
        requires
            old(self).wf(),
        ensures
            final(self).wf(),
            final(self)@ == old(self)@.cursor_left(),
    {
        if self.cursor_position > 0 {
            self.cursor_position = self.cursor_position - 1;
        }
    }

    pub fn cursor_right(&mut self)
        requires
            old(self).wf(),
        ensures
            final(self).wf(),
            final(self)@ == old(self)@.cursor_right(),
    {
        if self.cursor_position < self.input_buffer.len() {
            self.cursor_position = self.cursor_position + 1;
        }
    }

    /// Removes the character before the cursor, when visible.
    pub fn backspace(&mut self)
        requires
            old(self).wf(),
        ensures
            final(self).wf(),
            final(self)@ == old(self)@.backspace(),
    {
        if self.visible && self.cursor_position > 0 {
            self.cursor_position = self.cursor_position - 1;
            self.input_buffer.remove(self.cursor_position);
        }
    }

    /// Removes the character after the cursor, unless at the end of the input.
    pub fn delete_forward(&mut self)
        requires
            old(self).wf(),
        ensures
            final(self).wf(),
            final(self)@ == old(self)@.delete_forward(),
    {
        if self.cursor_position < self.input_buffer.len() {
            self.cursor_right();
            self.backspace();
        }
    }

    /// Records a non-empty input in the history and as the pending command.
    pub fn process_command(&mut self)
        requires
            old(self).wf(),
        ensures
            final(self).wf(),
            final(self)@ == old(self)@.process_command(),
    {
        if self.input_buffer.len() > 0 {
            let command = string_of(&self.input_buffer);
            self.command_history.push(command.clone());
            self.last_command = command;
            proof {
                assert(views_of(self.command_history@) =~= views_of(
                    old(self).command_history@,
                ).push(command@));
            }
        }
    }

    /// Echoes the input to the log, records it as a command and empties the
    /// input.
    pub fn commit(&mut self)
        requires
            old(self).wf(),
        ensures
            final(self).wf(),
            final(self)@ == old(self)@.commit(),
    {
        let mut line = leader_string();
        push_chars(&mut line, &self.input_buffer);
        self.buffer.push(line);
        proof {
            assert(views_of(self.buffer@) =~= views_of(old(self).buffer@).push(
                leader() + old(self).input_buffer@,
            ));
        }
        self.process_command();
        self.input_buffer = Vec::new();
        self.cursor_position = 0;
        self.history_position = self.command_history.len();
        proof {
            assert(self@ == old(self)@.commit());
        }
    }

    /// Hands out the pending command once.
    pub fn try_process_command(&mut self) -> (r: Option<String>)
        requires
            old(self).wf(),
        ensures
            final(self).wf(),
            final(self)@ == old(self)@.take_command().0,
            r matches Some(c) ==> old(self)@.take_command().1 == Some(c@),
            r is None <==> old(self)@.take_command().1 is None,
    {
        if self.last_command.as_str().is_empty() {
            None
        } else {
            let cmd = self.last_command.clone();
            self.last_command = String::new();
            Some(cmd)
        }
    }

    fn recall(&mut self, i: usize)
        requires
            old(self).wf(),
            i < old(self).command_history@.len(),
        ensures
            final(self).wf(),
            final(self)@ == old(self)@.recall(i as nat),
    {
        self.input_buffer = chars_of(self.command_history[i].as_str());
        self.cursor_position = self.input_buffer.len();
        self.history_position = i;
    }

    /// Recalls the previous history entry.
    pub fn history_navigate_back(&mut self)
        requires
            old(self).wf(),
        ensures
            final(self).wf(),
            final(self)@ == old(self)@.history_back(),
    {
        if self.history_position > 0 {
            self.recall(self.history_position - 1);
        }
    }

    /// Recalls the next history entry, or empties the input past the newest.
    pub fn history_navigate_forward(&mut self)
        requires
            old(self).wf(),
        ensures
            final(self).wf(),
            final(self)@ == old(self)@.history_forward(),
    {
        let n = self.command_history.len();
        if self.history_position < n {
            if self.history_position + 1 < n {
                self.recall(self.history_position + 1);
            } else {
                self.input_buffer = Vec::new();
                self.cursor_position = 0;
                self.history_position = n;
            }
        }
    }

    /// Whether the log is taller than the area that shows it.
    pub fn scrollable(&self) -> (r: bool)
        ensures
            r == self@.scrollable(),
    {
        let area: u32 = if self.size.1 >= 2 * LINE_HEIGHT {
            self.size.1 - 2 * LINE_HEIGHT
        } else {
            0
        };
        (self.buffer.len() as u128) * (LINE_HEIGHT as u128) > area as u128
    }

    /// Moves the view of the log by `delta` wheel steps, never below zero.
    pub fn scroll(&mut self, delta: i32)
        requires
            old(self).wf(),
        ensures
            final(self).wf(),
            final(self)@ == old(self)@.scroll(delta),
    {
        if self.scrollable() {
            let v: i64 = self.backbuffer_y as i64 + (SCROLL_STEP as i64) * (delta as i64);
            self.backbuffer_y = if v < 0 {
                0
            } else if v > i32::MAX as i64 {
                i32::MAX
            } else {
                v as i32
            };
        }
    }

    /// Appends `text` to the open line, or starts a new open line with it.
    pub fn print(&mut self, text: &str)
        requires
            old(self).wf(),
        ensures
            final(self).wf(),
            final(self)@ == old(self)@.print(text@),
    {
        if !self.line_ending && self.buffer.len() > 0 {
            let mut last = self.buffer.pop().unwrap();
            last.append(text);
            self.buffer.push(last);
            proof {
                assert(views_of(self.buffer@) =~= views_of(old(self).buffer@).update(
                    old(self).buffer@.len() - 1,
                    views_of(old(self).buffer@).last() + text@,
                ));
            }
        } else {
            self.buffer.push(text.to_owned());
            proof {
                assert(views_of(self.buffer@) =~= views_of(old(self).buffer@).push(text@));
            }
        }
        self.line_ending = false;
    }

    /// Adds `text` to the log as a closed line.
    pub fn println(&mut self, text: &str)
        requires
            old(self).wf(),
        ensures
            final(self).wf(),
            final(self)@ == old(self)@.println(text@),
    {
        self.buffer.push(text.to_owned());
        proof {
            assert(views_of(self.buffer@) =~= views_of(old(self).buffer@).push(text@));
        }
        self.line_ending = true;
    }

    fn key_down(&mut self, key: Key)
        requires
            old(self).wf(),
            old(self).visible,
        ensures
            final(self).wf(),
            final(self)@ == old(self)@.key_down(key),
    {
        match key {
            Key::LCtrl | Key::RCtrl => self.ctrl = true,
            Key::LShift | Key::RShift => self.shift = true,
            Key::C => {
                if self.ctrl {
                    self.input_buffer.push('^');
                    self.input_buffer.push('C');
                    proof {
                        assert(self.input_buffer@ =~= old(self).input_buffer@ + seq!['^', 'C']);
                        assert(self.input_buffer@.len() == self.input_buffer.len());
                    }
                    self.commit();
                }
            },
            Key::Left => self.cursor_left(),
            Key::Right => self.cursor_right(),
            Key::Backspace => self.backspace(),
            Key::Delete => self.delete_forward(),
            _ => {},
        }
    }

    fn key_up(&mut self, key: Key, timestamp: u32)
        requires
            old(self).wf(),
        ensures
            final(self).wf(),
            final(self)@ == old(self)@.key_up(key, timestamp),
    {
        match key {
            Key::LCtrl | Key::RCtrl => self.ctrl = false,
            Key::LShift | Key::RShift => self.shift = false,
            Key::Up => {
                if self.visible_start_time > 0 {
                    self.history_navigate_back();
                } else {
                    self.visible_start_time = timestamp;
                }
            },
            Key::Down => {
                if self.visible_start_time > 0 {
                    self.history_navigate_forward();
                } else {
                    self.visible_start_time = timestamp;
                }
            },
            Key::Return => self.commit(),
            Key::End => self.cursor_position = self.input_buffer.len(),
            Key::Home => self.cursor_position = 0,
            _ => {},
        }
    }

    pub fn is_visible(&self) -> (r: bool)
        ensures
            r == self@.visible,
    {
        self.visible
    }

    /// The text being typed.
    pub fn input(&self) -> (r: String)
        ensures
            r@ == self@.input,
    {
        string_of(&self.input_buffer)
    }

    /// The text being typed, up to the cursor.
    pub fn input_before_cursor(&self) -> (r: String)
        requires
            self.wf(),
        ensures
            r@ == self@.input.subrange(0, self@.cursor as int),
    {
        let mut s = String::new();
        let mut i: usize = 0;
        while i < self.cursor_position
            invariant
                self.wf(),
                i <= self.cursor_position,
                s@ == self.input_buffer@.subrange(0, i as int),
            decreases self.cursor_position - i,
        {
            push_char(&mut s, self.input_buffer[i]);
            i = i + 1;
            proof {
                assert(s@ =~= self.input_buffer@.subrange(0, i as int));
            }
        }
        s
    }

    /// The cursor, as a character index into the input.
    pub fn cursor_position(&self) -> (r: usize)
        ensures
            r == self@.cursor,
    {
        self.cursor_position
    }

    /// The committed commands, oldest first.
    pub fn history(&self) -> (r: &Vec<String>)
        ensures
            views_of(r@) == self@.history,
    {
        &self.command_history
    }

    /// Which history entry is recalled; the history's length when none is.
    pub fn history_position(&self) -> (r: usize)
        ensures
            r == self@.history_position,
    {
        self.history_position
    }

    /// The command committed and not yet taken; empty when there is none.
    pub fn pending_command(&self) -> (r: &String)
        ensures
            r@ == self@.pending,
    {
        &self.last_command
    }

    /// The printed lines, oldest first.
    pub fn scroll_back(&self) -> (r: &Vec<String>)
        ensures
            views_of(r@) == self@.lines,
    {
        &self.buffer
    }

    /// How far the view of the log is scrolled, in pixels.
    pub fn scroll_offset(&self) -> (r: i32)
        ensures
            r == self@.scroll_y,
    {
        self.backbuffer_y
    }

    /// Width and height of the console in pixels.
    pub fn size(&self) -> (r: (u32, u32))
        ensures
            r == (self@.width, self@.height),
    {
        self.size
    }

    /// Handles one input event; a hidden console ignores every event.
    pub fn process(&mut self, event: &ConsoleEvent)
        requires
            old(self).wf(),
        ensures
            final(self).wf(),
            final(self)@ == old(self)@.step(*event),
    {
        if self.visible {
            match event {
                ConsoleEvent::TextInput { text, timestamp } => {
                    if (*timestamp as u64) > (self.visible_start_time as u64) + (DEBOUNCE_MS as u64) {
                        self.add_text(text.as_str());
                    }
                },
                ConsoleEvent::MouseWheel { y } => self.scroll(*y),
                ConsoleEvent::KeyDown { key, toggle_key, modified, timestamp } => {
                    if !*modified && *toggle_key {
                        self.toggle(*timestamp);
                    } else {
                        self.key_down(*key);
                    }
                },
                ConsoleEvent::KeyUp { key, timestamp } => self.key_up(*key, *timestamp),
                ConsoleEvent::Other => {},
            }
        }
    }

    /// Adds each line of `text` as a closed line.
    pub fn print_lines(&mut self, text: &str)
        requires
            old(self).wf(),
        ensures
            final(self).wf(),
            final(self)@ == old(self)@.print_lines(text@),
    {
        let chars = chars_of(text);
        let mut cur: Vec<char> = Vec::new();
        let mut i: usize = 0;
        while i < chars.len()
            invariant
                i <= chars@.len(),
                chars@ == text@,
                self.wf(),
                cur@ == scan_lines(chars@.subrange(0, i as int)).1,
                ({
                    let done = scan_lines(chars@.subrange(0, i as int)).0;
                    self@ == if done.len() > 0 {
                        ConsoleModel { lines: old(self)@.lines + done, line_open: false, ..old(self)@ }
                    } else {
                        old(self)@
                    }
                }),
            decreases chars@.len() - i,
        {
            let ghost before = chars@.subrange(0, i as int);
            let ghost done = scan_lines(before).0;
            let c = chars[i];
            i = i + 1;
            proof {
                assert(chars@.subrange(0, i as int).drop_last() =~= before);
            }
            if c == '\n' {
                if cur.len() > 0 && cur[cur.len() - 1] == '\r' {
                    cur.pop();
                    proof {
                        assert(cur@ =~= strip_cr(scan_lines(before).1));
                    }
                }
                let line = string_of(&cur);
                self.println(line.as_str());
                proof {
                    assert(old(self)@.lines + done.push(line@) =~= (old(self)@.lines + done).push(line@));
                }
                cur = Vec::new();
            } else {
                cur.push(c);
            }
        }
        proof {
            assert(chars@.subrange(0, chars@.len() as int) =~= text@);
        }
        if cur.len() > 0 {
            let ghost done = scan_lines(text@).0;
            let line = string_of(&cur);
            self.println(line.as_str());
            proof {
                assert(old(self)@.lines + done.push(line@) =~= (old(self)@.lines + done).push(line@));
            }
        }
    }

    /// Starts a new, empty open line.
    pub fn wrap_line(&mut self)
        requires
            old(self).wf(),
        ensures
            final(self).wf(),
            final(self)@ == old(self)@.wrap_line(),
    {
        self.buffer.push(String::new());
        proof {
            assert(views_of(self.buffer@) =~= views_of(old(self).buffer@).push(seq![]));
        }
        self.line_ending = false;
    }

    /// Empties the log.
    pub fn clear(&mut self)
        requires
            old(self).wf(),
        ensures
            final(self).wf(),
            final(self)@ == old(self)@.clear(),
    {
        self.buffer = Vec::new();
        proof {
            assert(views_of(self.buffer@) =~= seq![]);
        }
    }
}

/// A string holding the leader text.
fn leader_string() -> (r: String)
    ensures
        r@ == leader(),
{
    let mut s = String::new();
    push_char(&mut s, 'h');
    push_char(&mut s, 'a');
    push_char(&mut s, 'k');
    push_char(&mut s, 'k');
    push_char(&mut s, 'a');
    push_char(&mut s, '>');
    push_char(&mut s, ' ');
    proof {
        assert(s@ =~= leader());
    }
    s
}

} // verus!
