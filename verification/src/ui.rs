use vstd::prelude::*;

use crate::ipc::IPCCommand;
use crate::osc::OSCCommand;

verus! {

/// How many consecutive checks may find the input blank before the periodic check ends.
pub const CLEAR_COUNT: u8 = 3;

/// Seconds between two periodic checks of the input text.
pub const CHECK_INTERVAL_SECS: u64 = 5;

/// The Unicode `White_Space` property (Unicode Character Database, PropList.txt), the
/// whitespace that std's `str::trim` removes: U+0009..U+000D, U+0020, U+0085, U+00A0,
/// U+1680, U+2000..U+200A, U+2028, U+2029, U+202F, U+205F and U+3000.
pub open spec fn is_white_space(c: char) -> bool {
    let v = c as u32;
    ||| 0x9 <= v <= 0xD
    ||| v == 0x20
    ||| v == 0x85
    ||| v == 0xA0
    ||| v == 0x1680
    ||| 0x2000 <= v <= 0x200A
    ||| v == 0x2028
    ||| v == 0x2029
    ||| v == 0x202F
    ||| v == 0x205F
    ||| v == 0x3000
}

/// `r` is `text` with its leading and trailing whitespace removed: a contiguous run of
/// `text` that starts and ends with a non-whitespace character, with only whitespace
/// before and after it.
pub open spec fn is_trim_of(text: Seq<char>, r: Seq<char>) -> bool {
    exists|i: int, j: int|
        {
            &&& 0 <= i <= j <= text.len()
            &&& r == text.subrange(i, j)
            &&& forall|k: int| 0 <= k < i ==> is_white_space(#[trigger] text[k])
            &&& forall|k: int| j <= k < text.len() ==> is_white_space(#[trigger] text[k])
            &&& i < j ==> !is_white_space(text[i]) && !is_white_space(text[j - 1])
        }
}

/// Calls std's `str::trim`. Trusted: as its documentation says, the result is `text` with
/// the leading and trailing characters that have the Unicode `White_Space` property removed.
#[verifier::external_body]
fn trim_text(text: &str) -> (r: &str)
    ensures
        is_trim_of(text@, r@),
{
    text.trim()
}

/// A text is blank when every character of it is whitespace (so the empty text is blank):
/// exactly the texts that `str::trim` leaves empty.
pub open spec fn is_blank(text: Seq<char>) -> bool {
    forall|k: int| 0 <= k < text.len() ==> is_white_space(#[trigger] text[k])
}

/// Trimming leaves nothing exactly when the text is blank.
proof fn lemma_trim_empty_iff_blank(text: Seq<char>, r: Seq<char>)
    requires
        is_trim_of(text, r),
    ensures
        (r.len() == 0) == is_blank(text),
{
    let (i, j) = choose|i: int, j: int|
        {
            &&& 0 <= i <= j <= text.len()
            &&& r == text.subrange(i, j)
            &&& forall|k: int| 0 <= k < i ==> is_white_space(#[trigger] text[k])
            &&& forall|k: int| j <= k < text.len() ==> is_white_space(#[trigger] text[k])
            &&& i < j ==> !is_white_space(text[i]) && !is_white_space(text[j - 1])
        };
    if r.len() == 0 {
        assert forall|k: int| 0 <= k < text.len() implies is_white_space(#[trigger] text[k]) by {
            if k >= i {
                assert(j <= k);
            }
        }
    } else if is_blank(text) {
        assert(is_white_space(text[i]));
    }
}

/// What the window has to do after an IPC command.
#[derive(Debug, Clone, Copy, PartialEq, Eq, Structural)]
pub enum WindowAction {
    /// Show the window and move the keyboard focus to its input field.
    ShowAndFocus,
    /// Hide the window.
    Hide,
}

/// What the periodic check of the input text asks for.
#[derive(Debug, PartialEq, Eq)]
pub enum CheckAction {
    /// Send this command to VRChat.
    Send(OSCCommand),
    /// Send nothing this time.
    Wait,
    /// End the periodic check for good.
    Stop,
}

/// The kind of a `CheckAction`, as the model of the check speaks of it.
#[derive(Debug, Clone, Copy, PartialEq, Eq, Structural)]
pub enum CheckKind {
    SendText,
    Wait,
    Stop,
}

/// The state of the user interface as plain values.
pub struct UiView {
    pub visible: bool,
    pub input_text: Seq<char>,
    pub clear_counter: nat,
}

/// The state after the user closed the window in state `s`: hidden, all else unchanged.
pub open spec fn closed_view(s: UiView) -> UiView {
    UiView { visible: false, ..s }
}

/// Whether the window is visible after `cmd`, when it was `visible` before.
pub open spec fn visibility_after(visible: bool, cmd: IPCCommand) -> bool {
    match cmd {
        IPCCommand::Show => true,
        IPCCommand::Hide => false,
        IPCCommand::Toggle => !visible,
    }
}

/// The window action that brings the window to the visibility `visible`.
pub open spec fn window_action_for(visible: bool) -> WindowAction {
    if visible {
        WindowAction::ShowAndFocus
    } else {
        WindowAction::Hide
    }
}

/// What one periodic check does in state `s`.
pub open spec fn check_kind(s: UiView) -> CheckKind {
    if !is_blank(s.input_text) {
        CheckKind::SendText
    } else if s.clear_counter == CLEAR_COUNT {
        CheckKind::Stop
    } else {
        CheckKind::Wait
    }
}

/// The state after one periodic check in state `s`.
pub open spec fn check_state(s: UiView) -> UiView {
    match check_kind(s) {
        CheckKind::SendText => s,
        CheckKind::Stop => UiView { clear_counter: 0, ..s },
        CheckKind::Wait => UiView { clear_counter: s.clear_counter + 1, ..s },
    }
}

/// The state after `n` periodic checks starting from `s`, with no other event between them.
pub open spec fn checks_state(s: UiView, n: nat) -> UiView
    decreases n,
{
    if n == 0 {
        s
    } else {
        check_state(checks_state(s, (n - 1) as nat))
    }
}

/// Whether the window is visible after the commands `cmds`, applied in order, when it was
/// `visible` before.
pub open spec fn visibility_after_all(visible: bool, cmds: Seq<IPCCommand>) -> bool
    decreases cmds.len(),
{
    if cmds.len() == 0 {
        visible
    } else {
        visibility_after(visibility_after_all(visible, cmds.drop_last()), cmds.last())
    }
}

/// Whether `a` is the action of a check of kind `k` on the input text `text`.
pub open spec fn check_action_is(a: CheckAction, k: CheckKind, text: Seq<char>) -> bool {
    match k {
        CheckKind::SendText => a matches CheckAction::Send(
            OSCCommand::SendChat { contents, immediately },
        ) && contents@ == text && immediately,
        CheckKind::Wait => a is Wait,
        CheckKind::Stop => a is Stop,
    }
}

/// The state of the chat window: whether it is shown, the text in its input field,
/// and how many periodic checks in a row have found that text blank since it was last
/// submitted or the count last ran out.
pub struct Ui {
    visible: bool,
    input_text: String,
    clear_counter: u8,
}

impl View for Ui {
    type V = UiView;

    closed spec fn view(&self) -> UiView {
        UiView {
            visible: self.visible,
            input_text: self.input_text@,
            clear_counter: self.clear_counter as nat,
        }
    }
}

impl Ui {
    #[verifier::type_invariant]
    closed spec fn counter_in_range(self) -> bool {
        self.clear_counter <= CLEAR_COUNT
    }

    /// A hidden window with an empty input field.
    pub fn new() -> (ui: Ui)
        ensures
            !ui@.visible,
            ui@.input_text == Seq::<char>::empty(),
            ui@.clear_counter == 0,
    {
        Ui { visible: false, input_text: String::new(), clear_counter: 0 }
    }

    /// Whether the window is shown.
    pub fn is_visible(&self) -> (r: bool)
        ensures
            r == self@.visible,
    {
        self.visible
    }

    /// The text in the input field.
    pub fn input_text(&self) -> (r: &str)
        ensures
            r@ == self@.input_text,
    {
        self.input_text.as_str()
    }

    /// The number of blank checks counted so far; never more than `CLEAR_COUNT`.
    pub fn clear_counter(&self) -> (r: u8)
        ensures
            r == self@.clear_counter,
            r <= CLEAR_COUNT,
    {
        proof {
            use_type_invariant(self);
        }
        self.clear_counter
    }

    /// Applies an IPC command to the window: `Show` shows it, `Hide` hides it, `Toggle`
    /// flips it; the returned action always brings the window to the new visibility.
    pub fn handle_ipc_command(&mut self, cmd: IPCCommand) -> (a: WindowAction)
        ensures
            final(self)@.visible == visibility_after(old(self)@.visible, cmd),
            a == window_action_for(final(self)@.visible),
            final(self)@.input_text == old(self)@.input_text,
            final(self)@.clear_counter == old(self)@.clear_counter,
    {
        proof {
            use_type_invariant(&*self);
        }
        let next = match cmd {
            IPCCommand::Show => true,
            IPCCommand::Hide => false,
            IPCCommand::Toggle => !self.visible,
        };
        self.visible = next;
        if next {
            WindowAction::ShowAndFocus
        } else {
            WindowAction::Hide
        }
    }

    /// The user closed the window: it is hidden now, and nothing else changes.
    pub fn window_closed(&mut self)
        ensures
            final(self)@ == closed_view(old(self)@),
    {
        proof {
            use_type_invariant(&*self);
        }
        self.visible = false;
    }

    /// The input field now holds `text`.
    pub fn edit(&mut self, text: String)
        ensures
            final(self)@ == (UiView { input_text: text@, ..old(self)@ }),
    {
        proof {
            use_type_invariant(&*self);
        }
        self.input_text = text;
    }

    /// Submits `text`: it is sent unchanged as chat at once, whatever it holds, the input
    /// field is emptied and the blank count starts again from zero.
    pub fn submit(&mut self, text: String) -> (cmd: OSCCommand)
        ensures
            cmd == (OSCCommand::SendChat { contents: text, immediately: true }),
            final(self)@ == (UiView {
                input_text: Seq::<char>::empty(),
                clear_counter: 0,
                ..old(self)@
            }),
    {
        self.clear_counter = 0;
        self.input_text = String::new();
        OSCCommand::SendChat { contents: text, immediately: true }
    }

    /// One periodic check of the input text. Text that is not blank is sent as chat,
    /// unchanged. Blank text is counted; once the count has reached `CLEAR_COUNT`, the
    /// next blank check resets the count and ends the periodic check.
    pub fn check_input(&mut self) -> (a: CheckAction)
        ensures
            final(self)@ == check_state(old(self)@),
            check_action_is(a, check_kind(old(self)@), old(self)@.input_text),
            a is Send ==> !is_blank(old(self)@.input_text),
            final(self)@.clear_counter <= CLEAR_COUNT,
    {
        proof {
            use_type_invariant(&*self);
        }
        let trimmed = trim_text(self.input_text.as_str());
        proof {
            lemma_trim_empty_iff_blank(self.input_text@, trimmed@);
        }
        if !trimmed.is_empty() {
            CheckAction::Send(
                OSCCommand::SendChat { contents: self.input_text.clone(), immediately: true },
            )
        } else if self.clear_counter == CLEAR_COUNT {
            self.clear_counter = 0;
            CheckAction::Stop
        } else {
            self.clear_counter = self.clear_counter + 1;
            CheckAction::Wait
        }
    }
}

/// Toggling twice leaves the window as it was.
pub proof fn lemma_toggle_twice_restores(visible: bool)
    ensures
        visibility_after(visibility_after(visible, IPCCommand::Toggle), IPCCommand::Toggle)
            == visible,
{
}

/// `Show` always leaves the window shown and `Hide` always leaves it hidden, whatever it
/// was before; so repeating either changes nothing.
pub proof fn lemma_show_hide_set_visibility(visible: bool)
    ensures
        visibility_after(visible, IPCCommand::Show),
        !visibility_after(visible, IPCCommand::Hide),
        visibility_after(visibility_after(visible, IPCCommand::Show), IPCCommand::Show)
            == visibility_after(visible, IPCCommand::Show),
        visibility_after(visibility_after(visible, IPCCommand::Hide), IPCCommand::Hide)
            == visibility_after(visible, IPCCommand::Hide),
{
}

/// A run of toggles flips the window once per toggle: it ends as it began exactly when
/// the number of toggles is even.
pub proof fn lemma_toggles_flip_by_parity(visible: bool, cmds: Seq<IPCCommand>)
    requires
        forall|i: int| 0 <= i < cmds.len() ==> cmds[i] == IPCCommand::Toggle,
    ensures
        visibility_after_all(visible, cmds) == (if cmds.len() % 2 == 0 {
            visible
        } else {
            !visible
        }),
    decreases cmds.len(),
{
    if cmds.len() > 0 {
        lemma_toggles_flip_by_parity(visible, cmds.drop_last());
    }
}

/// Everything before a `Show` or a `Hide` is forgotten: after `before + [cmd] + after`
/// the window is as after `[cmd] + after` from any starting visibility.
pub proof fn lemma_setting_forgets_history(
    visible: bool,
    other: bool,
    before: Seq<IPCCommand>,
    cmd: IPCCommand,
    after: Seq<IPCCommand>,
)
    requires
        cmd == IPCCommand::Show || cmd == IPCCommand::Hide,
    ensures
        visibility_after_all(visible, before + seq![cmd] + after) == visibility_after_all(
            other,
            seq![cmd] + after,
        ),
    decreases after.len(),
{
    if after.len() == 0 {
        assert((before + seq![cmd] + after).drop_last() =~= before);
        assert((seq![cmd] + after).drop_last() =~= Seq::<IPCCommand>::empty());
    } else {
        lemma_setting_forgets_history(visible, other, before, cmd, after.drop_last());
        assert((before + seq![cmd] + after).drop_last() =~= before + seq![cmd]
            + after.drop_last());
        assert((seq![cmd] + after).drop_last() =~= seq![cmd] + after.drop_last());
    }
}

/// While the input text is not blank, every check sends it and changes nothing.
pub proof fn lemma_text_keeps_being_sent(s: UiView, n: nat)
    requires
        !is_blank(s.input_text),
    ensures
        checks_state(s, n) == s,
        check_kind(checks_state(s, n)) == CheckKind::SendText,
    decreases n,
{
    if n > 0 {
        lemma_text_keeps_being_sent(s, (n - 1) as nat);
    }
}

/// While the input text stays blank, checks only count up.
proof fn lemma_blank_checks_count(s: UiView, k: nat)
    requires
        s.clear_counter <= CLEAR_COUNT,
        is_blank(s.input_text),
        k <= CLEAR_COUNT - s.clear_counter,
    ensures
        checks_state(s, k) == (UiView { clear_counter: s.clear_counter + k, ..s }),
    decreases k,
{
    if k > 0 {
        lemma_blank_checks_count(s, (k - 1) as nat);
    }
}

/// With a blank input text and the count at `c`, the next `CLEAR_COUNT - c` checks send
/// nothing, the check after them ends the periodic check, and it leaves the count at zero.
pub proof fn lemma_blank_input_ends_check(s: UiView)
    requires
        s.clear_counter <= CLEAR_COUNT,
        is_blank(s.input_text),
    ensures
        forall|k: nat|
            k < CLEAR_COUNT - s.clear_counter ==> check_kind(#[trigger] checks_state(s, k))
                == CheckKind::Wait,
        check_kind(checks_state(s, (CLEAR_COUNT - s.clear_counter) as nat)) == CheckKind::Stop,
        checks_state(s, (CLEAR_COUNT - s.clear_counter + 1) as nat).clear_counter == 0,
{
    assert forall|k: nat| k < CLEAR_COUNT - s.clear_counter implies check_kind(
        #[trigger] checks_state(s, k),
    ) == CheckKind::Wait by {
        lemma_blank_checks_count(s, k);
    }
    let last = (CLEAR_COUNT - s.clear_counter) as nat;
    lemma_blank_checks_count(s, last);
    assert(checks_state(s, last + 1) == check_state(checks_state(s, last)));
}

/// After the user has closed the window, `Toggle` shows it again and `Hide` keeps it hidden,
/// whatever IPC commands came before.
pub proof fn lemma_toggle_after_close_shows(s: UiView)
    ensures
        visibility_after(closed_view(s).visible, IPCCommand::Toggle),
        window_action_for(visibility_after(closed_view(s).visible, IPCCommand::Toggle))
            == WindowAction::ShowAndFocus,
        !visibility_after(closed_view(s).visible, IPCCommand::Hide),
{
}

/// After a submit the input is empty, hence blank: the next `CLEAR_COUNT` checks send
/// nothing, and the one after them ends the periodic check.
pub proof fn lemma_checks_after_submit(s: UiView)
    requires
        s.input_text == Seq::<char>::empty(),
        s.clear_counter == 0,
    ensures
        forall|k: nat| k < CLEAR_COUNT ==> check_kind(#[trigger] checks_state(s, k)) == CheckKind::Wait,
        check_kind(checks_state(s, CLEAR_COUNT as nat)) == CheckKind::Stop,
{
    assert(is_blank(s.input_text));
    lemma_blank_input_ends_check(s);
}

} // verus!
