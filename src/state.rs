use vstd::prelude::*;

use crate::label::{label_of, message_label};

verus! {

/// A key as the application distinguishes it.
#[derive(Clone, Copy, Debug, PartialEq, Eq, Structural)]
pub enum Key {
    Left,
    Right,
    Enter,
    Char(char),
    Other,
}

/// What happened to a key: only presses change the state.
#[derive(Clone, Copy, Debug, PartialEq, Eq, Structural)]
pub enum KeyKind {
    Press,
    Repeat,
    Release,
}

/// Mathematical model of the application state.
pub struct AppModel {
    pub counter: u8,
    pub exit: bool,
    pub messages: Seq<Seq<char>>,
}

/// The texts of a sequence of strings.
pub open spec fn texts(v: Seq<String>) -> Seq<Seq<char>> {
    v.map_values(|m: String| m@)
}

/// The state at start-up: counter 0, running, no messages.
pub open spec fn initial_model() -> AppModel {
    AppModel { counter: 0, exit: false, messages: Seq::empty() }
}

pub open spec fn is_quit(k: Key) -> bool {
    k == Key::Char('q') || k == Key::Char('Q')
}

/// Enter, whether the terminal reports it as its own key or as a newline.
pub open spec fn is_enter(k: Key) -> bool {
    k == Key::Enter || k == Key::Char('\n')
}

/// The counter after a Left press: one less, never below zero.
pub open spec fn counter_down(c: u8) -> u8 {
    if c == 0 {
        0
    } else {
        (c - 1) as u8
    }
}

/// The counter after a Right press: one more, never above `u8::MAX`.
pub open spec fn counter_up(c: u8) -> u8 {
    if c == u8::MAX {
        u8::MAX
    } else {
        (c + 1) as u8
    }
}

/// The state after one key press.
pub open spec fn press(s: AppModel, k: Key) -> AppModel {
    if k == Key::Left {
        AppModel { counter: counter_down(s.counter), ..s }
    } else if k == Key::Right {
        AppModel { counter: counter_up(s.counter), ..s }
    } else if is_quit(k) {
        AppModel { exit: true, ..s }
    } else if is_enter(k) {
        AppModel { messages: s.messages.push(label_of(s.messages.len() + 1)), ..s }
    } else {
        s
    }
}

/// The state after pressing each key of `keys` in order.
pub open spec fn press_all(s: AppModel, keys: Seq<Key>) -> AppModel
    decreases keys.len(),
{
    if keys.len() == 0 {
        s
    } else {
        press_all(press(s, keys[0]), keys.drop_first())
    }
}

/// The state in which the main loop stops when `keys` arrive one per
/// iteration: the exit flag is checked before each key is read, so the keys
/// after a quit are never read.
pub open spec fn session(s: AppModel, keys: Seq<Key>) -> AppModel
    decreases keys.len(),
{
    if s.exit || keys.len() == 0 {
        s
    } else {
        session(press(s, keys[0]), keys.drop_first())
    }
}

/// How many keys of `keys` the main loop reads before it stops.
pub open spec fn keys_read(s: AppModel, keys: Seq<Key>) -> nat
    decreases keys.len(),
{
    if s.exit || keys.len() == 0 {
        0
    } else {
        1 + keys_read(press(s, keys[0]), keys.drop_first())
    }
}

/// Application state: a saturating counter, the quit flag and the chat
/// messages in the order they were added.
#[derive(Debug)]
pub struct App {
    counter: u8,
    exit: bool,
    chat_messages: Vec<String>,
}

impl View for App {
    type V = AppModel;

    closed spec fn view(&self) -> AppModel {
        AppModel {
            counter: self.counter,
            exit: self.exit,
            messages: texts(self.chat_messages@),
        }
    }
}

impl Default for App {
    fn default() -> (r: App)
        ensures
            r@ == initial_model(),
    {
        App::new()
    }
}

impl App {
    /// A fresh state: counter 0, running, no messages.
    pub fn new() -> (r: App)
        ensures
            r@ == initial_model(),
    {
        let r = App { counter: 0, exit: false, chat_messages: Vec::new() };
        assert(r@.messages =~= Seq::<Seq<char>>::empty());
        r
    }

    /// Applies one key press.
    pub fn handle_key(&mut self, key: Key)
        requires
            old(self)@.messages.len() < usize::MAX,
        ensures
            final(self)@ == press(old(self)@, key),
    {
        match key {
            Key::Left => {
                self.counter = if self.counter == 0 {
                    0
                } else {
                    self.counter - 1
                };
            },
            Key::Right => {
                self.counter = if self.counter == u8::MAX {
                    u8::MAX
                } else {
                    self.counter + 1
                };
            },
            Key::Char('q') | Key::Char('Q') => {
                self.exit = true;
            },
            Key::Enter | Key::Char('\n') => {
                let label = message_label(self.chat_messages.len() + 1);
                self.chat_messages.push(label);
                assert(self@.messages =~= old(self)@.messages.push(label_of(
                    old(self)@.messages.len() + 1,
                )));
            },
            _ => {},
        }
    }

    /// Applies a key event: presses act as `handle_key` does, repeats and
    /// releases change nothing.
    pub fn handle_key_event(&mut self, key: Key, kind: KeyKind)
        requires
            old(self)@.messages.len() < usize::MAX,
        ensures
            kind == KeyKind::Press ==> final(self)@ == press(old(self)@, key),
            kind != KeyKind::Press ==> final(self)@ == old(self)@,
    {
        if kind == KeyKind::Press {
            self.handle_key(key);
        }
    }

    /// Whether the main loop goes on: false once quit was pressed.
    pub fn is_running(&self) -> (r: bool)
        ensures
            r == !self@.exit,
    {
        !self.exit
    }

    pub fn counter(&self) -> (r: u8)
        ensures
            r == self@.counter,
    {
        self.counter
    }

    pub fn exit(&self) -> (r: bool)
        ensures
            r == self@.exit,
    {
        self.exit
    }

    /// The chat messages, oldest first.
    pub fn messages(&self) -> (r: &Vec<String>)
        ensures
            texts(r@) == self@.messages,
    {
        &self.chat_messages
    }
}

} // verus!
