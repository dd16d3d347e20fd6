use vstd::prelude::*;
use vstd::std_specs::iter::IteratorSpec;

use crate::keys::InputKey;

verus! {

/// A widget signal that an observer can wait for.
#[derive(Clone, Copy, Debug, PartialEq, Eq, Structural)]
pub enum Signal {
    /// A tool button was clicked.
    Clicked,
    ButtonPress,
    ButtonRelease,
    KeyPress,
    KeyRelease,
}

/// One step of driving a widget, in the order in which the steps are run.
#[derive(Clone, Copy, Debug, PartialEq, Eq, Structural)]
pub enum Action {
    /// Connects a fresh observer to the signal on the widget.
    Observe(Signal),
    /// Moves the pointer to this point of the widget.
    MoveTo(i32, i32),
    /// Gives the widget the keyboard focus.
    Focus,
    /// Clicks the left mouse button.
    MouseClick,
    KeyDown(InputKey),
    KeyUp(InputKey),
    /// Presses and releases the key.
    KeyClick(InputKey),
    /// Types the character.
    TypeChar(char),
    /// Runs the event loop until the latest observer has seen its signal.
    AwaitObserver,
    /// Lets the event loop run for this many milliseconds.
    Pause(u32),
    /// Runs the pending iterations of the event loop.
    RunLoop,
}

/// Half of `n`, rounded toward zero as integer division does.
pub open spec fn half(n: int) -> int {
    if n >= 0 {
        n / 2
    } else {
        -((-n) / 2)
    }
}

/// The middle of a widget of the given size, relative to its top left corner.
pub fn center(width: i32, height: i32) -> (r: (i32, i32))
    ensures
        r.0 == half(width as int),
        r.1 == half(height as int),
{
    (halve(width), halve(height))
}

fn halve(n: i32) -> (r: i32)
    ensures
        r == half(n as int),
{
    if n >= 0 {
        n / 2
    } else {
        let m: i64 = -(n as i64);
        -(m / 2) as i32
    }
}

/// The signal that tells that a click reached the widget.
pub open spec fn click_signal(is_tool_button: bool) -> Signal {
    if is_tool_button {
        Signal::Clicked
    } else {
        Signal::ButtonPress
    }
}

/// Steps of a single click in the middle of a widget of the given size:
/// the click is awaited through the tool button's `clicked` signal, or else
/// through the button press.
pub fn click_actions(is_tool_button: bool, width: i32, height: i32) -> (r: Vec<Action>)
    ensures
        r@ == seq![
            Action::Observe(click_signal(is_tool_button)),
            Action::MoveTo(half(width as int) as i32, half(height as int) as i32),
            Action::MouseClick,
            Action::AwaitObserver,
            Action::Pause(0),
            Action::RunLoop,
        ],
{
    let signal = if is_tool_button {
        Signal::Clicked
    } else {
        Signal::ButtonPress
    };
    let (x, y) = center(width, height);
    vec![
        Action::Observe(signal),
        Action::MoveTo(x, y),
        Action::MouseClick,
        Action::AwaitObserver,
        Action::Pause(0),
        Action::RunLoop,
    ]
}

/// Steps that move the pointer to the middle of a widget of the given size.
pub fn mouse_move_actions(width: i32, height: i32) -> (r: Vec<Action>)
    ensures
        r@ == seq![Action::MoveTo(half(width as int) as i32, half(height as int) as i32)],
{
    let (x, y) = center(width, height);
    vec![Action::MoveTo(x, y)]
}

/// Steps of a double click in the middle of a widget of the given size: two
/// clicks with a turn of the event loop between them, awaited through the
/// button release.
pub fn double_click_actions(width: i32, height: i32) -> (r: Vec<Action>)
    ensures
        r@ == seq![
            Action::Observe(Signal::ButtonRelease),
            Action::MoveTo(half(width as int) as i32, half(height as int) as i32),
            Action::MouseClick,
            Action::RunLoop,
            Action::MouseClick,
            Action::AwaitObserver,
            Action::Pause(0),
            Action::RunLoop,
        ],
{
    let (x, y) = center(width, height);
    vec![
        Action::Observe(Signal::ButtonRelease),
        Action::MoveTo(x, y),
        Action::MouseClick,
        Action::RunLoop,
        Action::MouseClick,
        Action::AwaitObserver,
        Action::Pause(0),
        Action::RunLoop,
    ]
}

/// Steps that press `key` on the focused widget and await the key press.
pub fn key_press_actions(key: InputKey) -> (r: Vec<Action>)
    ensures
        r@ == seq![
            Action::Observe(Signal::KeyPress),
            Action::Focus,
            Action::KeyDown(key),
            Action::AwaitObserver,
        ],
{
    vec![Action::Observe(Signal::KeyPress), Action::Focus, Action::KeyDown(key), Action::AwaitObserver]
}

/// Steps that release `key` on the focused widget and await the key release.
pub fn key_release_actions(key: InputKey) -> (r: Vec<Action>)
    ensures
        r@ == seq![
            Action::Observe(Signal::KeyRelease),
            Action::Focus,
            Action::KeyUp(key),
            Action::AwaitObserver,
        ],
{
    vec![Action::Observe(Signal::KeyRelease), Action::Focus, Action::KeyUp(key), Action::AwaitObserver]
}

/// Steps that press and release `key` on the focused widget and await the
/// key release.
pub fn enter_key_actions(key: InputKey) -> (r: Vec<Action>)
    ensures
        r@ == seq![
            Action::Observe(Signal::KeyRelease),
            Action::Focus,
            Action::KeyClick(key),
            Action::AwaitObserver,
        ],
{
    vec![Action::Observe(Signal::KeyRelease), Action::Focus, Action::KeyClick(key), Action::AwaitObserver]
}

/// The steps that type `c` and await its key release.
pub open spec fn key_release_of(c: char) -> Seq<Action> {
    seq![Action::Observe(Signal::KeyRelease), Action::TypeChar(c), Action::AwaitObserver]
}

/// The steps that type `text` one character at a time, each one awaited
/// through its key release.
pub open spec fn typing_actions(text: Seq<char>) -> Seq<Action>
    decreases text.len(),
{
    if text.len() == 0 {
        seq![]
    } else {
        typing_actions(text.drop_last()) + key_release_of(text.last())
    }
}

proof fn lemma_typing_actions_push(text: Seq<char>, c: char)
    ensures
        typing_actions(text.push(c)) == typing_actions(text) + key_release_of(c),
{
    assert(text.push(c).drop_last() =~= text);
}

fn push_typing(actions: &mut Vec<Action>, c: char)
    ensures
        final(actions)@ == old(actions)@ + key_release_of(c),
{
    actions.push(Action::Observe(Signal::KeyRelease));
    actions.push(Action::TypeChar(c));
    actions.push(Action::AwaitObserver);
    assert(actions@ =~= old(actions)@ + key_release_of(c));
}

/// Steps that focus the widget and type `text` into it.
pub fn enter_keys_actions(text: &str) -> (r: Vec<Action>)
    ensures
        r@ == seq![Action::Focus] + typing_actions(text@),
{
    let mut actions: Vec<Action> = Vec::new();
    actions.push(Action::Focus);
    let ghost mut typed: Seq<char> = Seq::empty();
    for c in it: text.chars()
        invariant
            it.seq() == text@,
            typed == it.seq().take(it.index() as int),
            it.index() == it.seq().len() ==> typed == text@,
            actions@ == seq![Action::Focus] + typing_actions(typed),
    {
        let ghost before = typed;
        proof {
            typed = typed.push(c);
            assert(typed =~= it.seq().take(it.index() + 1));
            assert(it.index() + 1 == it.seq().len() ==> typed =~= text@);
            lemma_typing_actions_push(before, c);
        }
        push_typing(&mut actions, c);
        assert(actions@ =~= seq![Action::Focus] + typing_actions(typed));
    }
    actions
}

} // verus!
