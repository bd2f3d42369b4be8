use vstd::prelude::*;

use crate::label::label_of;
use crate::screen::shown;
use crate::state::{
    counter_down, counter_up, is_enter, is_quit, keys_read, press, press_all, session, AppModel,
    Key,
};

verus! {

/// Pressing `keys` and then `k` is pressing `keys.push(k)`.
proof fn press_all_push(s: AppModel, keys: Seq<Key>, k: Key)
    ensures
        press_all(s, keys.push(k)) == press(press_all(s, keys), k),
    decreases keys.len(),
{
    if keys.len() == 0 {
        assert(keys.push(k).drop_first() =~= Seq::<Key>::empty());
        assert(press_all(press(s, k), Seq::<Key>::empty()) == press(s, k));
        assert(press_all(s, keys) == s);
    } else {
        assert(keys.push(k).drop_first() =~= keys.drop_first().push(k));
        press_all_push(press(s, keys[0]), keys.drop_first(), k);
    }
}

/// Presses never remove or alter a message, and never clear the exit flag.
pub proof fn messages_only_grow(s: AppModel, keys: Seq<Key>)
    ensures
        press_all(s, keys).messages.len() >= s.messages.len(),
        press_all(s, keys).messages.subrange(0, s.messages.len() as int) == s.messages,
        s.exit ==> press_all(s, keys).exit,
    decreases keys.len(),
{
    if keys.len() == 0 {
        assert(s.messages.subrange(0, s.messages.len() as int) =~= s.messages);
    } else {
        let t = press(s, keys[0]);
        messages_only_grow(t, keys.drop_first());
        assert(t.messages.subrange(0, s.messages.len() as int) =~= s.messages);
        let u = press_all(s, keys);
        assert(u.messages.subrange(0, s.messages.len() as int) =~= u.messages.subrange(
            0,
            t.messages.len() as int,
        ).subrange(0, s.messages.len() as int));
    }
}

/// Left and Right presses change neither the exit flag nor the messages.
proof fn arrows_keep_rest(s: AppModel, keys: Seq<Key>)
    requires
        forall|i: int| 0 <= i < keys.len() ==> keys[i] == Key::Left || keys[i] == Key::Right,
    ensures
        press_all(s, keys).exit == s.exit,
        press_all(s, keys).messages == s.messages,
    decreases keys.len(),
{
    if keys.len() > 0 {
        arrows_keep_rest(press(s, keys[0]), keys.drop_first());
    }
}

/// Along any run of Left and Right presses the counter stays within
/// `0..=u8::MAX` and each press moves it by exactly one, down for Left and up
/// for Right, except that it stays put at the bound it would cross; the exit
/// flag and the messages are left as they were.
pub proof fn arrows_saturate(s: AppModel, keys: Seq<Key>)
    requires
        forall|i: int| 0 <= i < keys.len() ==> keys[i] == Key::Left || keys[i] == Key::Right,
    ensures
        forall|i: int|
            0 <= i < keys.len() ==> {
                let a = press_all(s, #[trigger] keys.take(i)).counter as int;
                let b = press_all(s, keys.take(i + 1)).counter as int;
                &&& 0 <= b <= u8::MAX
                &&& keys[i] == Key::Left ==> b == (if a > 0 {
                    a - 1
                } else {
                    0
                })
                &&& keys[i] == Key::Right ==> b == (if a < u8::MAX {
                    a + 1
                } else {
                    u8::MAX as int
                })
            },
        press_all(s, keys).exit == s.exit,
        press_all(s, keys).messages == s.messages,
{
    assert forall|i: int| 0 <= i < keys.len() implies {
        let a = press_all(s, #[trigger] keys.take(i)).counter as int;
        let b = press_all(s, keys.take(i + 1)).counter as int;
        &&& 0 <= b <= u8::MAX
        &&& keys[i] == Key::Left ==> b == (if a > 0 {
            a - 1
        } else {
            0
        })
        &&& keys[i] == Key::Right ==> b == (if a < u8::MAX {
            a + 1
        } else {
            u8::MAX as int
        })
    } by {
        assert(keys.take(i + 1) =~= keys.take(i).push(keys[i]));
        press_all_push(s, keys.take(i), keys[i]);
    }
    arrows_keep_rest(s, keys);
}

/// Pressing Enter `n` times after `m` messages appends exactly `n`
/// messages, `"User: Message m+1"` to `"User: Message m+n"` in that order,
/// and changes nothing else.
pub proof fn enters_append_labels(s: AppModel, n: nat)
    ensures
        ({
            let t = press_all(s, Seq::new(n, |i: int| Key::Enter));
            let m = s.messages.len();
            &&& t.messages.len() == m + n
            &&& t.messages.subrange(0, m as int) == s.messages
            &&& forall|j: int| 0 <= j < n ==> #[trigger] t.messages[m + j] == label_of(
                (m + j + 1) as nat,
            )
            &&& t.counter == s.counter
            &&& t.exit == s.exit
        }),
    decreases n,
{
    let m = s.messages.len();
    if n == 0 {
        assert(Seq::new(0, |i: int| Key::Enter) =~= Seq::<Key>::empty());
        assert(s.messages.subrange(0, m as int) =~= s.messages);
    } else {
        let keys = Seq::new(n, |i: int| Key::Enter);
        let prev = Seq::new((n - 1) as nat, |i: int| Key::Enter);
        enters_append_labels(s, (n - 1) as nat);
        assert(keys =~= prev.push(Key::Enter));
        press_all_push(s, prev, Key::Enter);
        let u = press_all(s, prev);
        let t = press_all(s, keys);
        assert(is_enter(Key::Enter));
        assert(t.messages == u.messages.push(label_of(u.messages.len() + 1)));
        assert(t.messages.subrange(0, m as int) =~= u.messages.subrange(0, m as int));
        assert forall|j: int| 0 <= j < n implies #[trigger] t.messages[m + j] == label_of(
            (m + j + 1) as nat,
        ) by {
            if j < n - 1 {
                assert(t.messages[m + j] == u.messages[m + j]);
            }
        }
    }
}

/// Once `q` or `Q` is pressed the main loop stops: whatever the state and
/// however many keys are still waiting, if the key at position `i` is a quit
/// key then the loop reads at most the first `i + 1` keys and ends with the
/// exit flag set; and a state whose exit flag is set reads no key at all.
pub proof fn quit_stops_loop(s: AppModel, keys: Seq<Key>, i: int)
    requires
        0 <= i < keys.len(),
        is_quit(keys[i]),
    ensures
        keys_read(s, keys) <= i + 1,
        session(s, keys).exit,
        session(s, keys) == press_all(s, keys.take(keys_read(s, keys) as int)),
        s.exit ==> keys_read(s, keys) == 0 && session(s, keys) == s,
    decreases keys.len(),
{
    if s.exit {
        assert(keys.take(0) =~= Seq::<Key>::empty());
    } else {
        let t = press(s, keys[0]);
        let rest = keys.drop_first();
        assert(session(s, keys) == session(t, rest));
        assert(keys_read(s, keys) == 1 + keys_read(t, rest));
        if i == 0 {
            assert(t.exit);
            assert(session(t, rest) == t);
            assert(keys_read(t, rest) == 0);
            assert(keys.take(1) =~= Seq::<Key>::empty().push(keys[0]));
            press_all_push(s, Seq::<Key>::empty(), keys[0]);
            assert(press_all(s, Seq::<Key>::empty()) == s);
        } else {
            quit_stops_loop(t, rest, i - 1);
            let k = keys_read(t, rest) as int;
            assert(keys.take(k + 1).drop_first() =~= rest.take(k));
            assert(keys.take(k + 1)[0] == keys[0]);
            assert(press_all(s, keys.take(k + 1)) == press_all(t, rest.take(k)));
        }
    }
}

/// Any key other than Left, Right, Enter, `q` and `Q` leaves the counter,
/// the exit flag and the messages unchanged.
pub proof fn other_keys_change_nothing(s: AppModel, k: Key)
    requires
        k != Key::Left,
        k != Key::Right,
        !is_quit(k),
        !is_enter(k),
    ensures
        press(s, k) == s,
{
}

/// Whether message `j` (from 0) reads `"User: Message j+1"`, for every `j`.
pub open spec fn numbered(messages: Seq<Seq<char>>) -> bool {
    forall|j: int| 0 <= j < messages.len() ==> #[trigger] messages[j] == label_of((j + 1) as nat)
}

/// How many keys of `keys` are Enter.
pub open spec fn enter_count(keys: Seq<Key>) -> nat
    decreases keys.len(),
{
    if keys.len() == 0 {
        0
    } else {
        (if is_enter(keys[0]) {
            1nat
        } else {
            0nat
        }) + enter_count(keys.drop_first())
    }
}

/// Whatever other keys are pressed in between, `n` Enter presses append
/// exactly `n` messages, each numbered after the one before it: starting
/// from no messages, they read `"User: Message 1"` to `"User: Message n"`.
pub proof fn enters_number_messages(s: AppModel, keys: Seq<Key>)
    requires
        numbered(s.messages),
    ensures
        numbered(press_all(s, keys).messages),
        press_all(s, keys).messages.len() == s.messages.len() + enter_count(keys),
    decreases keys.len(),
{
    if keys.len() > 0 {
        let t = press(s, keys[0]);
        if is_enter(keys[0]) {
            assert forall|j: int| 0 <= j < t.messages.len() implies #[trigger] t.messages[j]
                == label_of((j + 1) as nat) by {
                if j < s.messages.len() {
                    assert(t.messages[j] == s.messages[j]);
                }
            }
        }
        enters_number_messages(t, keys.drop_first());
    }
}

/// However many messages there are, the chat pane shows the most recently
/// appended one on its last line, and never more lines than it has rows.
pub proof fn newest_message_shown(messages: Seq<Seq<char>>, rows: nat)
    requires
        messages.len() > 0,
        rows > 0,
    ensures
        shown(messages, rows).len() > 0,
        shown(messages, rows).len() <= rows,
        shown(messages, rows).last() == messages.last(),
        messages.len() <= rows ==> shown(messages, rows) == messages,
{
    if messages.len() <= rows {
        assert(shown(messages, rows) =~= messages);
    }
}

/// Once the chat pane is full, appending a message slides its lines up by
/// one: the oldest shown line leaves at the top and the new message takes
/// the last row.
pub proof fn append_slides_window(messages: Seq<Seq<char>>, m: Seq<char>, rows: nat)
    requires
        rows > 0,
        messages.len() >= rows,
    ensures
        shown(messages.push(m), rows) == shown(messages, rows).drop_first().push(m),
        shown(messages.push(m), rows).len() == rows,
        shown(messages.push(m), rows).last() == m,
{
    assert(shown(messages.push(m), rows) =~= shown(messages, rows).drop_first().push(m));
}

} // verus!
