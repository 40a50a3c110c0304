use vstd::prelude::*;

verus! {

/// An Enter press released within this many milliseconds, with no other key
/// pressed meanwhile, is replayed as an ordinary Enter keystroke.
pub const TAP_THRESHOLD_MS: u32 = 500;

/// Virtual-key code of the Enter key.
pub const VK_RETURN: u16 = 0x0D;

/// Virtual-key code of the Control key.
pub const VK_CONTROL: u16 = 0x11;

/// Hook code under which an event carries a keyboard message to act on.
pub const HC_ACTION: i32 = 0;

/// Flag of an event that was injected by software rather than typed.
pub const LLKHF_INJECTED: u32 = 0x10;

/// Key-down message.
pub const WM_KEYDOWN: u32 = 0x100;

/// Key-up message.
pub const WM_KEYUP: u32 = 0x101;

/// Key-down message while Alt is held.
pub const WM_SYSKEYDOWN: u32 = 0x104;

/// Key-up message while Alt is held.
pub const WM_SYSKEYUP: u32 = 0x105;

/// Flag of a synthesized keystroke that releases the key.
pub const KEYEVENTF_KEYUP: u32 = 0x2;

/// What the hook remembers between keyboard events.
#[derive(Clone, Copy, Debug, PartialEq, Eq, Structural)]
pub struct KeyboardState {
    /// Enter is physically held.
    pub enter_down: bool,
    /// Time stamp (ms) of the key-down that started the current Enter press.
    pub enter_down_time: u32,
    /// Another key went down while Enter was held, so a Control press was
    /// injected and is still held.
    pub combo_key: bool,
}

/// A keystroke sequence that the hook injects.
#[derive(Clone, Copy, Debug, PartialEq, Eq, Structural)]
pub enum Action {
    /// Press Control.
    ControlDown,
    /// Release Control.
    ControlUp,
    /// Press and release Enter.
    EnterTap,
}

/// One low-level keyboard event as the hook receives it.
#[derive(Clone, Copy, Debug, PartialEq, Eq, Structural)]
pub struct KeyEvent {
    /// The hook code; only `HC_ACTION` carries an event to act on.
    pub code: i32,
    /// The keyboard message (key down, key up, ...).
    pub message: u32,
    /// The virtual-key code.
    pub vk_code: u32,
    /// The event's flags.
    pub flags: u32,
    /// The event's time stamp in milliseconds.
    pub time: u32,
}

/// What the hook does with one event.
#[derive(Clone, Copy, Debug, PartialEq, Eq, Structural)]
pub struct HookDecision {
    /// Swallow the event instead of passing it on.
    pub block: bool,
    /// Keystrokes to inject before the event is passed on or swallowed.
    pub action: Option<Action>,
}

/// One synthesized keystroke, as handed to the system's input queue.
#[derive(Clone, Copy, Debug, PartialEq, Eq, Structural)]
pub struct KeyboardInput {
    /// Virtual-key code.
    pub virtual_key: u16,
    /// Hardware scan code.
    pub scan_code: u16,
    /// Keystroke flags (`KEYEVENTF_KEYUP` for a release).
    pub flags: u32,
    /// Time stamp; zero lets the system supply one.
    pub time: u32,
    /// Extra information attached to the keystroke.
    pub extra_info: usize,
}

/// The state in which no key is tracked.
pub open spec fn idle_state() -> KeyboardState {
    KeyboardState { enter_down: false, enter_down_time: 0, combo_key: false }
}

impl KeyboardState {
    /// Well-formedness: a Control press is only ever held during an Enter press.
    pub open spec fn wf(self) -> bool {
        self.combo_key ==> self.enter_down
    }

    /// The state in which no key is tracked.
    pub fn new() -> (state: Self)
        ensures
            state == idle_state(),
    {
        KeyboardState { enter_down: false, enter_down_time: 0, combo_key: false }
    }
}

impl Default for KeyboardState {
    fn default() -> (state: Self)
        ensures
            state == idle_state(),
    {
        KeyboardState::new()
    }
}

/// The event was injected by software.
pub open spec fn is_injected(flags: u32) -> bool {
    (flags / LLKHF_INJECTED) % 2 == 1
}

/// The event is one the hook acts on: a keyboard message that was typed.
pub open spec fn is_handled(event: KeyEvent) -> bool {
    event.code == HC_ACTION && !is_injected(event.flags)
}

/// The message presses a key.
pub open spec fn is_key_down(message: u32) -> bool {
    message == WM_KEYDOWN || message == WM_SYSKEYDOWN
}

/// The message releases a key.
pub open spec fn is_key_up(message: u32) -> bool {
    message == WM_KEYUP || message == WM_SYSKEYUP
}

/// The key is Enter.
pub open spec fn is_enter(vk_code: u32) -> bool {
    vk_code == VK_RETURN as u32
}

/// Milliseconds from `then` to `now` on a millisecond clock that wraps
/// around at 2^32.
pub open spec fn elapsed_ms(now: u32, then: u32) -> int {
    if now >= then {
        now - then
    } else {
        now - then + 0x1_0000_0000
    }
}

/// Let the event through, inject nothing.
pub open spec fn pass_on() -> HookDecision {
    HookDecision { block: false, action: None }
}

/// The state after one event and what the hook does with it.
pub open spec fn key_step(s: KeyboardState, e: KeyEvent) -> (KeyboardState, HookDecision) {
    if !is_handled(e) {
        (s, pass_on())
    } else if is_key_down(e.message) && is_enter(e.vk_code) {
        // Enter goes down: swallow it; an auto-repeat keeps the first time stamp.
        let next = if s.enter_down {
            s
        } else {
            KeyboardState { enter_down: true, enter_down_time: e.time, combo_key: s.combo_key }
        };
        (next, HookDecision { block: true, action: None })
    } else if is_key_down(e.message) {
        // Another key goes down: the first one during an Enter press turns
        // Enter into Control.
        if s.enter_down && !s.combo_key {
            (
                KeyboardState { enter_down: true, enter_down_time: s.enter_down_time, combo_key: true },
                HookDecision { block: false, action: Some(Action::ControlDown) },
            )
        } else {
            (s, pass_on())
        }
    } else if is_key_up(e.message) && is_enter(e.vk_code) {
        // Enter goes up: release Control, or replay a short press as Enter.
        if s.combo_key {
            (
                KeyboardState { enter_down: false, enter_down_time: s.enter_down_time, combo_key: false },
                HookDecision { block: false, action: Some(Action::ControlUp) },
            )
        } else {
            let next = KeyboardState {
                enter_down: false,
                enter_down_time: s.enter_down_time,
                combo_key: false,
            };
            if elapsed_ms(e.time, s.enter_down_time) < TAP_THRESHOLD_MS {
                (next, HookDecision { block: false, action: Some(Action::EnterTap) })
            } else {
                (next, pass_on())
            }
        }
    } else {
        (s, pass_on())
    }
}

/// Decides what the keyboard hook does with `event` and updates `state`.
pub fn handle_key_event(state: &mut KeyboardState, event: &KeyEvent) -> (decision: HookDecision)
    ensures
        (*final(state), decision) == key_step(*old(state), *event),
{
    if event.code != HC_ACTION {
        return HookDecision { block: false, action: None };
    }
    let flags = event.flags;
    assert((flags & 0x10u32 == 0x10u32) == ((flags / 0x10u32) % 2 == 1)) by (bit_vector);
    if flags & LLKHF_INJECTED == LLKHF_INJECTED {
        return HookDecision { block: false, action: None };
    }
    let enter: u32 = VK_RETURN as u32;
    if event.message == WM_SYSKEYDOWN || event.message == WM_KEYDOWN {
        if event.vk_code == enter {
            if !state.enter_down {
                state.enter_down = true;
                state.enter_down_time = event.time;
            }
            HookDecision { block: true, action: None }
        } else if state.enter_down && !state.combo_key {
            state.combo_key = true;
            HookDecision { block: false, action: Some(Action::ControlDown) }
        } else {
            HookDecision { block: false, action: None }
        }
    } else if (event.message == WM_SYSKEYUP || event.message == WM_KEYUP) && event.vk_code == enter {
        state.enter_down = false;
        if state.combo_key {
            state.combo_key = false;
            HookDecision { block: false, action: Some(Action::ControlUp) }
        } else if event.time.wrapping_sub(state.enter_down_time) < TAP_THRESHOLD_MS {
            HookDecision { block: false, action: Some(Action::EnterTap) }
        } else {
            HookDecision { block: false, action: None }
        }
    } else {
        HookDecision { block: false, action: None }
    }
}

/// The keystrokes that releasing the hook's tracked keys requires: Control
/// goes up exactly when an injected Control press is still held.
pub open spec fn release_action(s: KeyboardState) -> Option<Action> {
    if s.combo_key {
        Some(Action::ControlUp)
    } else {
        None
    }
}

/// Forgets every tracked key and returns the keystroke that releases a
/// Control press still held, if any.
pub fn release_pressed_control(state: &mut KeyboardState) -> (action: Option<Action>)
    ensures
        *final(state) == idle_state(),
        action == release_action(*old(state)),
{
    let previous = *state;
    *state = KeyboardState::new();
    if previous.combo_key {
        Some(Action::ControlUp)
    } else {
        None
    }
}

/// The synthesized keystroke that presses (`key_up == false`) or releases
/// `key`.
pub open spec fn key_input(key: u16, key_up: bool) -> KeyboardInput {
    KeyboardInput {
        virtual_key: key,
        scan_code: 0,
        flags: if key_up { KEYEVENTF_KEYUP } else { 0 },
        time: 0,
        extra_info: 0,
    }
}

/// The synthesized keystroke that presses (`key_up == false`) or releases
/// `key`.
pub fn keyboard_input(key: u16, key_up: bool) -> (input: KeyboardInput)
    ensures
        input == key_input(key, key_up),
{
    KeyboardInput {
        virtual_key: key,
        scan_code: 0,
        flags: if key_up { KEYEVENTF_KEYUP } else { 0 },
        time: 0,
        extra_info: 0,
    }
}

/// The keystrokes that carry out `action`, in order.
pub open spec fn action_keystrokes(action: Action) -> Seq<KeyboardInput> {
    match action {
        Action::ControlDown => seq![key_input(VK_CONTROL, false)],
        Action::ControlUp => seq![key_input(VK_CONTROL, true)],
        Action::EnterTap => seq![key_input(VK_RETURN, false), key_input(VK_RETURN, true)],
    }
}

/// The keystrokes that carry out `action`, in order.
pub fn action_inputs(action: Action) -> (inputs: Vec<KeyboardInput>)
    ensures
        inputs@ == action_keystrokes(action),
{
    let mut inputs: Vec<KeyboardInput> = Vec::new();
    match action {
        Action::ControlDown => {
            inputs.push(keyboard_input(VK_CONTROL, false));
        },
        Action::ControlUp => {
            inputs.push(keyboard_input(VK_CONTROL, true));
        },
        Action::EnterTap => {
            inputs.push(keyboard_input(VK_RETURN, false));
            inputs.push(keyboard_input(VK_RETURN, true));
        },
    }
    inputs
}

/// Every event keeps the state well formed: Control is only held while
/// Enter is.
pub proof fn lemma_step_preserves_wf(s: KeyboardState, e: KeyEvent)
    requires
        s.wf(),
    ensures
        key_step(s, e).0.wf(),
{
}

/// A Control press is injected only when none is held, and a Control release
/// only when one is held; `combo_key` records exactly whether an injected
/// Control press is held.
pub proof fn lemma_control_presses_alternate(s: KeyboardState, e: KeyEvent)
    ensures
        key_step(s, e).1.action == Some(Action::ControlDown) ==> !s.combo_key
            && key_step(s, e).0.combo_key,
        key_step(s, e).1.action == Some(Action::ControlUp) ==> s.combo_key
            && !key_step(s, e).0.combo_key,
        key_step(s, e).1.action != Some(Action::ControlDown) && key_step(s, e).1.action != Some(
            Action::ControlUp,
        ) ==> key_step(s, e).0.combo_key == s.combo_key,
{
}

/// Only a typed Enter key-down is ever swallowed; every other event reaches
/// the rest of the system.
pub proof fn lemma_only_enter_down_is_blocked(s: KeyboardState, e: KeyEvent)
    ensures
        key_step(s, e).1.block <==> (is_handled(e) && is_key_down(e.message) && is_enter(
            e.vk_code,
        )),
{
}

/// Events that the hook does not act on (another hook code, or injected
/// keystrokes, including the hook's own) leave the state as it was.
pub proof fn lemma_unhandled_events_change_nothing(s: KeyboardState, e: KeyEvent)
    requires
        !is_handled(e),
    ensures
        key_step(s, e) == (s, pass_on()),
{
}

/// The state after a sequence of events.
pub open spec fn run_state(s: KeyboardState, events: Seq<KeyEvent>) -> KeyboardState
    decreases events.len(),
{
    if events.len() == 0 {
        s
    } else {
        run_state(key_step(s, events[0]).0, events.drop_first())
    }
}

/// The keystroke sequences injected over a sequence of events, in order.
pub open spec fn run_actions(s: KeyboardState, events: Seq<KeyEvent>) -> Seq<Action>
    decreases events.len(),
{
    if events.len() == 0 {
        Seq::empty()
    } else {
        let step = key_step(s, events[0]);
        let first = match step.1.action {
            Some(a) => seq![a],
            None => Seq::empty(),
        };
        first + run_actions(step.0, events.drop_first())
    }
}

/// How often `a` occurs in `actions`.
pub open spec fn count_action(actions: Seq<Action>, a: Action) -> nat
    decreases actions.len(),
{
    if actions.len() == 0 {
        0
    } else {
        (if actions[0] == a { 1nat } else { 0nat }) + count_action(actions.drop_first(), a)
    }
}

proof fn lemma_count_concat(x: Seq<Action>, y: Seq<Action>, a: Action)
    ensures
        count_action(x + y, a) == count_action(x, a) + count_action(y, a),
    decreases x.len(),
{
    if x.len() > 0 {
        assert((x + y).drop_first() =~= x.drop_first() + y);
        lemma_count_concat(x.drop_first(), y, a);
    } else {
        assert(x + y =~= y);
    }
}

/// Over any sequence of events, the injected Control presses outnumber the
/// injected Control releases by exactly the change in `combo_key`.
pub proof fn lemma_run_control_balance(s: KeyboardState, events: Seq<KeyEvent>)
    ensures
        count_action(run_actions(s, events), Action::ControlDown) + (if s.combo_key { 1int } else { 0int })
            == count_action(run_actions(s, events), Action::ControlUp) + (if run_state(s, events).combo_key { 1int } else { 0int }),
    decreases events.len(),
{
    if events.len() > 0 {
        let step = key_step(s, events[0]);
        let first = match step.1.action {
            Some(a) => seq![a],
            None => Seq::<Action>::empty(),
        };
        lemma_run_control_balance(step.0, events.drop_first());
        lemma_count_concat(first, run_actions(step.0, events.drop_first()), Action::ControlDown);
        lemma_count_concat(first, run_actions(step.0, events.drop_first()), Action::ControlUp);
        lemma_control_presses_alternate(s, events[0]);
        reveal_with_fuel(count_action, 2);
    }
}

/// Control is never left stuck: starting with no Control press held, any
/// sequence of events followed by releasing the hook injects as many Control
/// releases as Control presses.
pub proof fn lemma_control_never_stuck(s: KeyboardState, events: Seq<KeyEvent>)
    requires
        !s.combo_key,
    ensures
        count_action(run_actions(s, events), Action::ControlDown) == count_action(
            run_actions(s, events),
            Action::ControlUp,
        ) + (if release_action(run_state(s, events)) == Some(Action::ControlUp) { 1nat } else { 0nat }),
        run_state(s, events).combo_key ==> release_action(run_state(s, events)) == Some(Action::ControlUp),
{
    lemma_run_control_balance(s, events);
}

/// A short press of Enter alone is replayed as Enter: from a state in which
/// Enter is up, its key-down is swallowed, and its key-up injects an Enter
/// keystroke when it comes less than `TAP_THRESHOLD_MS` later, nothing
/// otherwise; no Control press is left held.
pub proof fn lemma_enter_tap(s: KeyboardState, down: KeyEvent, up: KeyEvent)
    requires
        s.wf(),
        !s.enter_down,
        is_handled(down),
        is_key_down(down.message),
        is_enter(down.vk_code),
        is_handled(up),
        is_key_up(up.message),
        is_enter(up.vk_code),
    ensures
        key_step(s, down).1 == (HookDecision { block: true, action: None }),
        key_step(key_step(s, down).0, up).1.action == (if elapsed_ms(up.time, down.time) < TAP_THRESHOLD_MS {
            Some(Action::EnterTap)
        } else {
            None::<Action>
        }),
        !key_step(key_step(s, down).0, up).1.block,
        key_step(key_step(s, down).0, up).0 == (KeyboardState {
            enter_down: false,
            enter_down_time: down.time,
            combo_key: false,
        }),
{
}

/// Enter held with another key acts as Control: from a state in which Enter
/// is up, pressing Enter, then another key, then releasing Enter injects a
/// Control press before the other key and a Control release at the end, and
/// nothing else; the other key's event is passed on.
pub proof fn lemma_enter_chord_is_control(s: KeyboardState, down: KeyEvent, other: KeyEvent, up: KeyEvent)
    requires
        s.wf(),
        !s.enter_down,
        is_handled(down),
        is_key_down(down.message),
        is_enter(down.vk_code),
        is_handled(other),
        is_key_down(other.message),
        !is_enter(other.vk_code),
        is_handled(up),
        is_key_up(up.message),
        is_enter(up.vk_code),
    ensures
        run_actions(s, seq![down, other, up]) == seq![Action::ControlDown, Action::ControlUp],
        !key_step(key_step(s, down).0, other).1.block,
        run_state(s, seq![down, other, up]) == (KeyboardState {
            enter_down: false,
            enter_down_time: down.time,
            combo_key: false,
        }),
{
    let events = seq![down, other, up];
    assert(events.drop_first() =~= seq![other, up]);
    assert(events.drop_first().drop_first() =~= seq![up]);
    assert(events.drop_first().drop_first().drop_first() =~= Seq::<KeyEvent>::empty());
    reveal_with_fuel(run_actions, 4);
    reveal_with_fuel(run_state, 4);
    assert(run_actions(s, events) =~= seq![Action::ControlDown, Action::ControlUp]);
}

/// One call into the keyboard logic on the hook's thread: a keyboard event
/// handed to `handle_key_event`, or a `release_pressed_control`.
#[derive(Clone, Copy, Debug, PartialEq, Eq, Structural)]
pub enum HookInput {
    /// A keyboard event.
    Key(KeyEvent),
    /// Releasing the hook's tracked keys.
    Release,
}

/// The state after one call and the keystroke sequence it injects.
pub open spec fn input_step(s: KeyboardState, input: HookInput) -> (KeyboardState, Option<Action>) {
    match input {
        HookInput::Key(e) => (key_step(s, e).0, key_step(s, e).1.action),
        HookInput::Release => (idle_state(), release_action(s)),
    }
}

/// The state after a sequence of calls.
pub open spec fn mixed_state(s: KeyboardState, inputs: Seq<HookInput>) -> KeyboardState
    decreases inputs.len(),
{
    if inputs.len() == 0 {
        s
    } else {
        mixed_state(input_step(s, inputs[0]).0, inputs.drop_first())
    }
}

/// The keystroke sequences injected over a sequence of calls, in order.
pub open spec fn mixed_actions(s: KeyboardState, inputs: Seq<HookInput>) -> Seq<Action>
    decreases inputs.len(),
{
    if inputs.len() == 0 {
        Seq::empty()
    } else {
        let step = input_step(s, inputs[0]);
        let first = match step.1 {
            Some(a) => seq![a],
            None => Seq::empty(),
        };
        first + mixed_actions(step.0, inputs.drop_first())
    }
}

/// Over any sequence of keyboard events and releases, the state stays well
/// formed, and the injected Control presses outnumber the injected Control
/// releases by exactly the change in `combo_key`.
pub proof fn lemma_mixed_run_control_balance(s: KeyboardState, inputs: Seq<HookInput>)
    requires
        s.wf(),
    ensures
        mixed_state(s, inputs).wf(),
        count_action(mixed_actions(s, inputs), Action::ControlDown) + (if s.combo_key { 1int } else { 0int })
            == count_action(mixed_actions(s, inputs), Action::ControlUp) + (if mixed_state(s, inputs).combo_key { 1int } else { 0int }),
    decreases inputs.len(),
{
    if inputs.len() > 0 {
        let step = input_step(s, inputs[0]);
        let first = match step.1 {
            Some(a) => seq![a],
            None => Seq::<Action>::empty(),
        };
        match inputs[0] {
            HookInput::Key(e) => {
                lemma_step_preserves_wf(s, e);
                lemma_control_presses_alternate(s, e);
            },
            HookInput::Release => {},
        }
        lemma_mixed_run_control_balance(step.0, inputs.drop_first());
        lemma_count_concat(first, mixed_actions(step.0, inputs.drop_first()), Action::ControlDown);
        lemma_count_concat(first, mixed_actions(step.0, inputs.drop_first()), Action::ControlUp);
        reveal_with_fuel(count_action, 2);
    }
}

/// Injected Control presses and releases alternate, starting with a press:
/// from the idle state, after every prefix of any sequence of keyboard
/// events and releases, the presses sent so far are the releases plus one
/// while a Control press is outstanding and equal to them otherwise; a
/// Control press is outstanding only while Enter is held.
pub proof fn lemma_control_alternates(inputs: Seq<HookInput>)
    ensures
        forall|k: int|
            #![trigger inputs.take(k)]
            0 <= k <= inputs.len() ==> {
                &&& count_action(mixed_actions(idle_state(), inputs.take(k)), Action::ControlDown)
                    == count_action(mixed_actions(idle_state(), inputs.take(k)), Action::ControlUp)
                    + (if mixed_state(idle_state(), inputs.take(k)).combo_key { 1nat } else { 0nat })
                &&& mixed_state(idle_state(), inputs.take(k)).combo_key ==> mixed_state(
                    idle_state(),
                    inputs.take(k),
                ).enter_down
            },
{
    assert forall|k: int| 0 <= k <= inputs.len() implies {
        &&& count_action(mixed_actions(idle_state(), #[trigger] inputs.take(k)), Action::ControlDown)
            == count_action(mixed_actions(idle_state(), inputs.take(k)), Action::ControlUp)
            + (if mixed_state(idle_state(), inputs.take(k)).combo_key { 1nat } else { 0nat })
        &&& mixed_state(idle_state(), inputs.take(k)).combo_key ==> mixed_state(
            idle_state(),
            inputs.take(k),
        ).enter_down
    } by {
        lemma_mixed_run_control_balance(idle_state(), inputs.take(k));
    }
}

/// An outstanding Control press is released by the next Enter key-up that
/// the hook acts on, or by the next release, whichever comes first.
pub proof fn lemma_outstanding_control_is_released(s: KeyboardState, input: HookInput)
    requires
        s.combo_key,
        match input {
            HookInput::Key(e) => is_handled(e) && is_key_up(e.message) && is_enter(e.vk_code),
            HookInput::Release => true,
        },
    ensures
        input_step(s, input).1 == Some(Action::ControlUp),
        !input_step(s, input).0.combo_key,
{
}

/// A key-up of a key other than Enter never acts: it leaves the state as it
/// was, is passed on and injects nothing (even while Enter is held).
pub proof fn lemma_other_key_up_changes_nothing(s: KeyboardState, e: KeyEvent)
    requires
        is_key_up(e.message),
        !is_enter(e.vk_code),
    ensures
        key_step(s, e) == (s, pass_on()),
{
}

/// A message that neither presses nor releases a key changes nothing.
pub proof fn lemma_other_messages_change_nothing(s: KeyboardState, e: KeyEvent)
    requires
        !is_key_down(e.message),
        !is_key_up(e.message),
    ensures
        key_step(s, e) == (s, pass_on()),
{
}

/// Where each injected keystroke sequence comes from: a Control press only
/// from the first typed key-down of another key during an Enter press; a
/// Control release only from a typed Enter key-up ending such a chord; an
/// Enter tap only from a typed Enter key-up without a chord, less than
/// `TAP_THRESHOLD_MS` after the press began.
pub proof fn lemma_action_origins(s: KeyboardState, e: KeyEvent)
    ensures
        key_step(s, e).1.action == Some(Action::ControlDown) <==> (is_handled(e) && is_key_down(
            e.message,
        ) && !is_enter(e.vk_code) && s.enter_down && !s.combo_key),
        key_step(s, e).1.action == Some(Action::ControlUp) <==> (is_handled(e) && is_key_up(
            e.message,
        ) && is_enter(e.vk_code) && s.combo_key),
        key_step(s, e).1.action == Some(Action::EnterTap) <==> (is_handled(e) && is_key_up(
            e.message,
        ) && is_enter(e.vk_code) && !s.combo_key && elapsed_ms(e.time, s.enter_down_time)
            < TAP_THRESHOLD_MS),
{
}

/// How each event moves the Enter state: a typed Enter key-down marks Enter
/// as held (keeping the time of a press already under way), a typed Enter
/// key-up marks it released and ends any chord, and every other event
/// leaves `enter_down` and `enter_down_time` as they were.
pub proof fn lemma_enter_tracking(s: KeyboardState, e: KeyEvent)
    ensures
        is_handled(e) && is_key_down(e.message) && is_enter(e.vk_code) ==> key_step(s, e).0.enter_down
            && key_step(s, e).0.enter_down_time == (if s.enter_down { s.enter_down_time } else { e.time })
            && key_step(s, e).0.combo_key == s.combo_key,
        is_handled(e) && is_key_up(e.message) && is_enter(e.vk_code) ==> !key_step(s, e).0.enter_down
            && !key_step(s, e).0.combo_key && key_step(s, e).0.enter_down_time == s.enter_down_time,
        !(is_handled(e) && is_enter(e.vk_code) && (is_key_down(e.message) || is_key_up(e.message)))
            ==> key_step(s, e).0.enter_down == s.enter_down && key_step(s, e).0.enter_down_time
            == s.enter_down_time,
{
}

/// Every keystroke synthesized for a key names that key and carries the
/// release flag exactly when it releases it; the rest of it is zero.
pub proof fn lemma_keystroke_flags(key: u16, key_up: bool)
    ensures
        key_input(key, key_up).virtual_key == key,
        key_input(key, key_up).flags == KEYEVENTF_KEYUP <==> key_up,
        key_up ==> key_input(key, key_up).flags == KEYEVENTF_KEYUP,
        !key_up ==> key_input(key, key_up).flags == 0,
        key_input(key, key_up).scan_code == 0 && key_input(key, key_up).time == 0
            && key_input(key, key_up).extra_info == 0,
{
}

/// What each action types: a Control press is one key-down of Control, a
/// Control release one key-up of Control, and an Enter tap a key-down of
/// Enter followed by its key-up.
pub proof fn lemma_action_keystrokes(action: Action)
    ensures
        action == Action::ControlDown ==> action_keystrokes(action).len() == 1
            && action_keystrokes(action)[0].virtual_key == VK_CONTROL
            && action_keystrokes(action)[0].flags != KEYEVENTF_KEYUP,
        action == Action::ControlUp ==> action_keystrokes(action).len() == 1
            && action_keystrokes(action)[0].virtual_key == VK_CONTROL
            && action_keystrokes(action)[0].flags == KEYEVENTF_KEYUP,
        action == Action::EnterTap ==> action_keystrokes(action).len() == 2
            && action_keystrokes(action)[0].virtual_key == VK_RETURN
            && action_keystrokes(action)[0].flags != KEYEVENTF_KEYUP
            && action_keystrokes(action)[1].virtual_key == VK_RETURN
            && action_keystrokes(action)[1].flags == KEYEVENTF_KEYUP,
{
}

/// Releasing the hook injects exactly one thing, a Control release, and
/// only when a Control press is outstanding.
pub proof fn lemma_release(s: KeyboardState)
    ensures
        release_action(s) == Some(Action::ControlUp) <==> s.combo_key,
        release_action(s) is None <==> !s.combo_key,
        input_step(s, HookInput::Release).0 == idle_state(),
        !idle_state().enter_down && !idle_state().combo_key,
{
}

} // verus!
