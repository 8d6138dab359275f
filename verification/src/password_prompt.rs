//! The password prompt: two masked fields (password and confirmation),
//! Tab/BackTab to switch, Enter to submit after validation, Esc to cancel.
//! Validation: at least `MIN_PASSWORD_LEN` characters, and the confirmation must
//! match exactly. A failed Enter leaves an inline error that any edit clears.

use vstd::prelude::*;
use vstd::string::*;
use crate::elm::Message;
use crate::text::{decimal, decimal_string, owned, pop_char, push_char};

verus! {

/// Minimum password length, in characters.
pub const MIN_PASSWORD_LEN: usize = 8;

/// Which of the two inputs receives typing.
#[derive(Debug, Clone, Copy, PartialEq, Eq, Structural)]
pub enum Field {
    Password,
    Confirm,
}

/// The other field.
pub open spec fn next_field(f: Field) -> Field {
    match f {
        Field::Password => Field::Confirm,
        Field::Confirm => Field::Password,
    }
}

impl Field {
    /// The other field: with two fields, next and previous coincide.
    pub fn next(self) -> (r: Field)
        ensures
            r == next_field(self),
    {
        match self {
            Field::Password => Field::Confirm,
            Field::Confirm => Field::Password,
        }
    }
}

/// Keys the prompt distinguishes; every other key is `Other`.
#[derive(Debug, Clone, Copy, PartialEq, Eq)]
pub enum Key {
    Esc,
    Tab,
    BackTab,
    Char(char),
    Backspace,
    Enter,
    Other,
}

/// A key press.
#[derive(Debug, Clone, Copy, PartialEq, Eq)]
pub struct KeyEvent {
    pub code: Key,
}

/// An input event; only keyboard events are acted on.
#[derive(Debug, Clone, Copy, PartialEq, Eq)]
pub enum Event {
    Keyboard(KeyEvent),
    Other,
}

/// Abstract state of the prompt.
pub ghost struct PromptView {
    pub password: Seq<char>,
    pub confirm: Seq<char>,
    pub focused_field: Field,
    pub error: Option<Seq<char>>,
    pub focused: bool,
}

/// What a key press hands back to the application.
pub ghost enum PromptOutput {
    Nothing,
    NavigateBack,
    Submit(Seq<char>),
}

/// The password-prompt component.
#[derive(Debug, Clone)]
pub struct PasswordPromptComponent {
    pub password: String,
    pub confirm: String,
    pub focused_field: Field,
    /// Message of the most recent failed Enter; cleared by any edit.
    pub error: Option<String>,
    pub focused: bool,
}

impl View for PasswordPromptComponent {
    type V = PromptView;

    open spec fn view(&self) -> PromptView {
        PromptView {
            password: self.password@,
            confirm: self.confirm@,
            focused_field: self.focused_field,
            error: match self.error {
                Some(e) => Some(e@),
                None => None,
            },
            focused: self.focused,
        }
    }
}

/// The error shown for a too-short password.
pub open spec fn too_short_message() -> Seq<char> {
    "Password must be at least "@ + decimal(MIN_PASSWORD_LEN as nat) + " characters"@
}

/// The error shown when the confirmation differs.
pub open spec fn mismatch_message() -> Seq<char> {
    "Confirm does not match password"@
}

/// `None` when the pair is acceptable, else the user-visible error.
pub open spec fn validation(password: Seq<char>, confirm: Seq<char>) -> Option<Seq<char>> {
    if password.len() < MIN_PASSWORD_LEN {
        Some(too_short_message())
    } else if password != confirm {
        Some(mismatch_message())
    } else {
        None
    }
}

/// The contents of the focused field.
pub open spec fn focused_text(v: PromptView) -> Seq<char> {
    match v.focused_field {
        Field::Password => v.password,
        Field::Confirm => v.confirm,
    }
}

/// `v` with the focused field replaced by `t`.
pub open spec fn with_focused_text(v: PromptView, t: Seq<char>) -> PromptView {
    match v.focused_field {
        Field::Password => PromptView { password: t, ..v },
        Field::Confirm => PromptView { confirm: t, ..v },
    }
}

/// One key press: the new state and what is handed back.
pub open spec fn prompt_step(v: PromptView, ev: Event) -> (PromptView, PromptOutput) {
    match ev {
        Event::Keyboard(k) => match k.code {
            Key::Esc => (v, PromptOutput::NavigateBack),
            Key::Tab => (PromptView { focused_field: next_field(v.focused_field), ..v }, PromptOutput::Nothing),
            Key::BackTab => (PromptView { focused_field: next_field(v.focused_field), ..v }, PromptOutput::Nothing),
            Key::Char(c) => (
                with_focused_text(PromptView { error: None, ..v }, focused_text(v).push(c)),
                PromptOutput::Nothing,
            ),
            Key::Backspace => (
                with_focused_text(
                    PromptView { error: None, ..v },
                    if focused_text(v).len() > 0 { focused_text(v).drop_last() } else { focused_text(v) },
                ),
                PromptOutput::Nothing,
            ),
            Key::Enter => match validation(v.password, v.confirm) {
                None => (v, PromptOutput::Submit(v.password)),
                Some(msg) => (PromptView { error: Some(msg), ..v }, PromptOutput::Nothing),
            },
            Key::Other => (v, PromptOutput::Nothing),
        },
        Event::Other => (v, PromptOutput::Nothing),
    }
}

/// The message that `on` returns for an output.
pub open spec fn output_matches(out: PromptOutput, r: Option<Message>) -> bool {
    match out {
        PromptOutput::Nothing => r is None,
        PromptOutput::NavigateBack => r == Some(Message::NavigateBack),
        PromptOutput::Submit(p) => r matches Some(Message::SubmitPassword { value }) && value@ == p,
    }
}

impl Default for PasswordPromptComponent {
    fn default() -> (c: Self)
        ensures
            c@.password.len() == 0,
            c@.confirm.len() == 0,
            c@.focused_field == Field::Password,
            c@.error is None,
            !c@.focused,
    {
        Self::new()
    }
}

impl PasswordPromptComponent {
    /// An empty prompt with the password field focused.
    pub fn new() -> (c: Self)
        ensures
            c@.password.len() == 0,
            c@.confirm.len() == 0,
            c@.focused_field == Field::Password,
            c@.error is None,
            !c@.focused,
    {
        PasswordPromptComponent {
            password: String::new(),
            confirm: String::new(),
            focused_field: Field::Password,
            error: None,
            focused: false,
        }
    }

    /// Checks the two fields; on failure returns the user-visible message.
    pub fn validate(&self) -> (r: Result<(), String>)
        ensures
            match validation(self.password@, self.confirm@) {
                None => r is Ok,
                Some(msg) => r matches Err(e) && e@ == msg,
            },
            self.password@.len() >= MIN_PASSWORD_LEN && self.password@ == self.confirm@ ==> r is Ok,
            r is Ok ==> self.password@.len() >= MIN_PASSWORD_LEN && self.password@ == self.confirm@,
    {
        if self.password.as_str().unicode_len() < MIN_PASSWORD_LEN {
            let mut m = owned("Password must be at least ");
            let n = decimal_string(MIN_PASSWORD_LEN as u64);
            m.append(n.as_str());
            m.append(" characters");
            assert(m@ =~= too_short_message());
            return Err(m);
        }
        if self.password != self.confirm {
            return Err(owned("Confirm does not match password"));
        }
        Ok(())
    }

    /// The buffer that typing goes to.
    fn focused_buf_mut(&mut self) -> (buf: &mut String)
        ensures
            *buf == match old(self).focused_field {
                Field::Password => old(self).password,
                Field::Confirm => old(self).confirm,
            },
            match old(self).focused_field {
                Field::Password => *final(self) == PasswordPromptComponent {
                    password: *final(buf),
                    ..*old(self)
                },
                Field::Confirm => *final(self) == PasswordPromptComponent {
                    confirm: *final(buf),
                    ..*old(self)
                },
            },
    {
        match self.focused_field {
            Field::Password => &mut self.password,
            Field::Confirm => &mut self.confirm,
        }
    }

    /// Handles one input event.
    pub fn on(&mut self, event: &Event) -> (r: Option<Message>)
        ensures
            final(self)@ == prompt_step(old(self)@, *event).0,
            output_matches(prompt_step(old(self)@, *event).1, r),
    {
        match event {
            Event::Keyboard(KeyEvent { code }) => match code {
                Key::Esc => Some(Message::NavigateBack),
                Key::Tab | Key::BackTab => {
                    self.focused_field = self.focused_field.next();
                    None
                },
                Key::Char(c) => {
                    self.error = None;
                    let buf = self.focused_buf_mut();
                    push_char(buf, *c);
                    None
                },
                Key::Backspace => {
                    self.error = None;
                    let buf = self.focused_buf_mut();
                    let _ = pop_char(buf);
                    None
                },
                Key::Enter => match self.validate() {
                    Ok(()) => Some(Message::SubmitPassword { value: self.password.clone() }),
                    Err(msg) => {
                        self.error = Some(msg);
                        None
                    },
                },
                Key::Other => None,
            },
            Event::Other => None,
        }
    }
}

/// The masked rendering of a field: one bullet per character, followed by
/// an underscore caret when the field has the focus.
pub open spec fn masked_text(value: Seq<char>, is_focused: bool) -> Seq<char> {
    Seq::new(value.len(), |i: int| '\u{2022}') + if is_focused { "_"@ } else { Seq::empty() }
}

/// Renders a field's content without revealing it.
pub fn masked_field(value: &str, is_focused: bool) -> (m: String)
    ensures
        m@ == masked_text(value@, is_focused),
{
    let n = value.unicode_len();
    let mut m = String::new();
    let mut i: usize = 0;
    while i < n
        invariant
            n == value@.len(),
            i <= n,
            m@ == Seq::new(i as nat, |k: int| '\u{2022}'),
        decreases n - i,
    {
        push_char(&mut m, '\u{2022}');
        assert(m@ =~= Seq::new((i + 1) as nat, |k: int| '\u{2022}'));
        i = i + 1;
    }
    if is_focused {
        push_char(&mut m, '_');
        proof {
            reveal_strlit("_");
        }
        assert(m@ =~= masked_text(value@, is_focused));
    } else {
        assert(m@ =~= masked_text(value@, is_focused));
    }
    m
}

/// How a bordered element is drawn: highlighted or muted.
#[derive(Debug, Clone, Copy, PartialEq, Eq, Structural)]
pub enum Tone {
    Highlight,
    Muted,
}

/// A field's border is highlighted while it has the focus, muted otherwise.
pub fn field_tone(is_focused: bool) -> (t: Tone)
    ensures
        t == if is_focused { Tone::Highlight } else { Tone::Muted },
{
    if is_focused { Tone::Highlight } else { Tone::Muted }
}

/// Switching fields twice returns to the field started from.
pub proof fn law_next_field_is_involution(f: Field)
    ensures
        next_field(next_field(f)) == f,
        next_field(f) != f,
{
}

/// Tab and BackTab act alike; either only moves the focus, and pressing it
/// twice restores the prompt exactly.
pub proof fn law_tab_switches_focus_only(v: PromptView)
    ensures
        ({
            let tab = Event::Keyboard(KeyEvent { code: Key::Tab });
            let back = Event::Keyboard(KeyEvent { code: Key::BackTab });
            let once = prompt_step(v, tab);
            &&& prompt_step(v, back) == once
            &&& once.1 == PromptOutput::Nothing
            &&& once.0.password == v.password
            &&& once.0.confirm == v.confirm
            &&& once.0.error == v.error
            &&& once.0.focused_field == next_field(v.focused_field)
            &&& prompt_step(once.0, tab).0 == v
        }),
{
}

/// Typing a character and deleting it again leaves both fields as they
/// were, with no error shown.
pub proof fn law_type_then_backspace_restores(v: PromptView, c: char)
    ensures
        ({
            let typed = prompt_step(v, Event::Keyboard(KeyEvent { code: Key::Char(c) })).0;
            let erased = prompt_step(typed, Event::Keyboard(KeyEvent { code: Key::Backspace })).0;
            erased == PromptView { error: None, ..v }
        }),
{
    let typed = prompt_step(v, Event::Keyboard(KeyEvent { code: Key::Char(c) })).0;
    assert(focused_text(v).push(c).drop_last() =~= focused_text(v));
}

/// Any edit clears a stale error; Esc and focus changes keep the fields.
pub proof fn law_edits_clear_error(v: PromptView, c: char)
    ensures
        prompt_step(v, Event::Keyboard(KeyEvent { code: Key::Char(c) })).0.error is None,
        prompt_step(v, Event::Keyboard(KeyEvent { code: Key::Backspace })).0.error is None,
        prompt_step(v, Event::Keyboard(KeyEvent { code: Key::Esc })) == (v, PromptOutput::NavigateBack),
{
}

/// Only a password that passes validation is ever submitted, and it is the
/// password field's cleartext; a failed Enter submits nothing and shows the
/// validation message.
pub proof fn law_only_valid_passwords_submitted(v: PromptView, ev: Event)
    ensures
        prompt_step(v, ev).1 matches PromptOutput::Submit(p) ==> {
            &&& p == v.password
            &&& p.len() >= MIN_PASSWORD_LEN
            &&& v.password == v.confirm
            &&& prompt_step(v, ev).0 == v
        },
        ev == Event::Keyboard(KeyEvent { code: Key::Enter }) && validation(v.password, v.confirm) is Some
            ==> prompt_step(v, ev).1 == PromptOutput::Nothing
            && prompt_step(v, ev).0.error == validation(v.password, v.confirm),
{
}

/// A shown error is never stale: it is exactly the message that validating
/// the current fields would give.
pub open spec fn error_is_current(v: PromptView) -> bool {
    v.error matches Some(m) ==> validation(v.password, v.confirm) == Some(m)
}

/// An error on the screen always describes the fields as they are: a fresh
/// prompt has none, every event keeps the error current (edits clear it,
/// a failed Enter sets the message of the current fields), and so an Enter
/// that submits always leaves the prompt without an error.
pub proof fn law_error_never_stale(v: PromptView, ev: Event)
    ensures
        error_is_current(
            PromptView {
                password: Seq::empty(),
                confirm: Seq::empty(),
                focused_field: Field::Password,
                error: None,
                focused: false,
            },
        ),
        error_is_current(v) ==> error_is_current(prompt_step(v, ev).0),
        error_is_current(v) && prompt_step(v, ev).1 is Submit ==> prompt_step(v, ev).0.error is None,
{
}

/// Validation accepts exactly the passwords of at least `MIN_PASSWORD_LEN`
/// characters whose confirmation is identical, whatever characters they
/// hold; and Enter on such a prompt submits the password.
pub proof fn law_validation_is_complete(v: PromptView)
    ensures
        validation(v.password, v.confirm) is None <==> (v.password.len() >= MIN_PASSWORD_LEN && v.password
            == v.confirm),
        v.password.len() >= MIN_PASSWORD_LEN && v.password == v.confirm ==> prompt_step(
            v,
            Event::Keyboard(KeyEvent { code: Key::Enter }),
        ) == (v, PromptOutput::Submit(v.password)),
{
}

} // verus!
