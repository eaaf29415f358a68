//! Keys: what a key means in each view, and what the session does with it.

use crate::app::{Action, ActionView, App, AppView, RenderChoice};
use crate::buffer::Edit;
use vstd::prelude::*;

verus! {

/// The key that was pressed.
#[derive(Debug, Clone, Copy, PartialEq, Eq, Structural)]
pub enum KeyCode {
    Char(char),
    Enter,
    Esc,
    Backspace,
    Left,
    Right,
    Up,
    Down,
    /// Any other key.
    Other,
}

/// A key press: the key, and whether Control or Alt was held with it.
#[derive(Debug, Clone, Copy, PartialEq, Eq, Structural)]
pub struct KeyEvent {
    pub code: KeyCode,
    pub control: bool,
    pub alt: bool,
}

/// What the operator wants.
#[derive(Debug, Clone, Copy, PartialEq, Eq, Structural)]
pub enum Intent {
    /// End the session.
    Quit,
    /// Move the cursor one record down.
    MoveDown,
    /// Move the cursor one record up.
    MoveUp,
    /// Stage the record under the cursor, or unstage it.
    Toggle,
    /// Read branch and status again.
    Refresh,
    /// Open the message box.
    Compose,
    /// Close the message box and throw the message away.
    Cancel,
    /// Edit the message.
    Edit(Edit),
    /// Commit with the message.
    Submit,
    /// Throw away the worktree changes of the record under the cursor.
    /// This intent says that the operator has confirmed it. No key stands
    /// for it: it comes from whoever asks the operator.
    Discard,
    /// Nothing.
    Nothing,
}

/// What a key means while the list is shown. Control and Alt are not
/// looked at.
pub open spec fn main_menu_intent(key: KeyEvent) -> Intent {
    match key.code {
        KeyCode::Char(c) => if c == 'q' {
            Intent::Quit
        } else if c == 'c' {
            Intent::Compose
        } else if c == 'j' {
            Intent::MoveDown
        } else if c == 'k' {
            Intent::MoveUp
        } else if c == 'r' {
            Intent::Refresh
        } else {
            Intent::Nothing
        },
        KeyCode::Down => Intent::MoveDown,
        KeyCode::Up => Intent::MoveUp,
        KeyCode::Enter => Intent::Toggle,
        _ => Intent::Nothing,
    }
}

/// What a key means while the message box is open. Enter alone starts a
/// new line of the message; Enter with Control or Alt submits it.
pub open spec fn commit_menu_intent(key: KeyEvent) -> Intent {
    match key.code {
        KeyCode::Esc => Intent::Cancel,
        KeyCode::Enter => if key.control || key.alt {
            Intent::Submit
        } else {
            Intent::Edit(Edit::Insert('\n'))
        },
        KeyCode::Char(c) => Intent::Edit(Edit::Insert(c)),
        KeyCode::Backspace => Intent::Edit(Edit::Backspace),
        KeyCode::Left => Intent::Edit(Edit::Left),
        KeyCode::Right => Intent::Edit(Edit::Right),
        _ => Intent::Nothing,
    }
}

/// What a key means in a view.
pub open spec fn intent_of(render: RenderChoice, key: KeyEvent) -> Intent {
    match render {
        RenderChoice::MainMenu => main_menu_intent(key),
        RenderChoice::CommitMenu => commit_menu_intent(key),
    }
}

impl AppView {
    /// The session after an intent, and what it asks for. An intent that
    /// belongs to the other view changes nothing, and after the session
    /// was asked to end nothing changes it.
    pub open spec fn act(self, intent: Intent) -> (AppView, ActionView) {
        if self.exit {
            (self, ActionView::Idle)
        } else if intent == Intent::Quit {
            (self.quit(), ActionView::Idle)
        } else if self.fatal {
            (self, ActionView::Idle)
        } else {
            match self.render {
                RenderChoice::MainMenu => match intent {
                    Intent::MoveDown => (self.next(), ActionView::Idle),
                    Intent::MoveUp => (self.previous(), ActionView::Idle),
                    Intent::Toggle => (self, self.toggle()),
                    Intent::Refresh => (self, ActionView::Refresh),
                    Intent::Compose => (self.compose(), ActionView::Idle),
                    Intent::Discard => (self, self.discard(true)),
                    _ => (self, ActionView::Idle),
                },
                RenderChoice::CommitMenu => match intent {
                    Intent::Cancel => (self.browse(), ActionView::Idle),
                    Intent::Edit(edit) => (self.edited(edit), ActionView::Idle),
                    Intent::Submit => (self, self.submit()),
                    _ => (self, ActionView::Idle),
                },
            }
        }
    }

    /// The session after a key, and what it asks for.
    pub open spec fn key(self, key: KeyEvent) -> (AppView, ActionView) {
        self.act(intent_of(self.render, key))
    }
}

/// What a key means while the list is shown.
pub fn main_menu_keys(key: KeyEvent) -> (intent: Intent)
    ensures
        intent == main_menu_intent(key),
{
    match key.code {
        KeyCode::Char('q') => Intent::Quit,
        KeyCode::Char('c') => Intent::Compose,
        KeyCode::Down | KeyCode::Char('j') => Intent::MoveDown,
        KeyCode::Up | KeyCode::Char('k') => Intent::MoveUp,
        KeyCode::Char('r') => Intent::Refresh,
        KeyCode::Enter => Intent::Toggle,
        _ => Intent::Nothing,
    }
}

/// What a key means while the message box is open.
pub fn commit_menu_keys(key: KeyEvent) -> (intent: Intent)
    ensures
        intent == commit_menu_intent(key),
{
    match key.code {
        KeyCode::Esc => Intent::Cancel,
        KeyCode::Enter => if key.control || key.alt {
            Intent::Submit
        } else {
            Intent::Edit(Edit::Insert('\n'))
        },
        KeyCode::Char(c) => Intent::Edit(Edit::Insert(c)),
        KeyCode::Backspace => Intent::Edit(Edit::Backspace),
        KeyCode::Left => Intent::Edit(Edit::Left),
        KeyCode::Right => Intent::Edit(Edit::Right),
        _ => Intent::Nothing,
    }
}

impl App {
    /// Follows one intent of the operator.
    pub fn dispatch(&mut self, intent: Intent) -> (action: Action)
        requires
            old(self)@.wf(),
        ensures
            (final(self)@, action@) == old(self)@.act(intent),
            final(self)@.wf(),
    {
        if self.should_exit() {
            return Action::Idle;
        }
        if let Intent::Quit = intent {
            self.shutdown();
            return Action::Idle;
        }
        if self.is_fatal() {
            return Action::Idle;
        }
        match self.get_render_choice() {
            RenderChoice::MainMenu => match intent {
                Intent::MoveDown => {
                    self.select_next();
                    Action::Idle
                },
                Intent::MoveUp => {
                    self.select_previous();
                    Action::Idle
                },
                Intent::Toggle => self.toggle_stage_selection(),
                Intent::Refresh => Action::Refresh,
                Intent::Compose => {
                    self.go_commit();
                    Action::Idle
                },
                Intent::Discard => self.discard_selection(true),
                _ => Action::Idle,
            },
            RenderChoice::CommitMenu => match intent {
                Intent::Cancel => {
                    self.go_main();
                    Action::Idle
                },
                Intent::Edit(edit) => {
                    self.edit(edit);
                    Action::Idle
                },
                Intent::Submit => self.submit(),
                _ => Action::Idle,
            },
        }
    }
}

/// Follows one key press.
pub fn handle_keys(app: &mut App, key: KeyEvent) -> (action: Action)
    requires
        old(app)@.wf(),
    ensures
        (final(app)@, action@) == old(app)@.key(key),
        final(app)@.wf(),
{
    let intent = match app.get_render_choice() {
        RenderChoice::MainMenu => main_menu_keys(key),
        RenderChoice::CommitMenu => commit_menu_keys(key),
    };
    app.dispatch(intent)
}

/// Every transition leaves a well-formed session well formed. With it the
/// cursor stays on a record of the list whenever the list has one, and is
/// nowhere when the list is empty.
pub proof fn lemma_transitions_keep_wf(
    s: AppView,
    intent: Intent,
    branch: Result<Seq<char>, Seq<char>>,
    status: Result<Seq<char>, Seq<char>>,
    result: Result<(), Seq<char>>,
)
    requires
        s.wf(),
    ensures
        AppView::initial().wf(),
        AppView::started(branch, status).wf(),
        s.refreshed(branch, status).wf(),
        s.settled(result).0.wf(),
        s.committed(result).0.wf(),
        s.act(intent).0.wf(),
{
}

/// After a refresh that worked, the cursor is on a record of the new list:
/// where it was, if the new list is long enough for that. It is nowhere if
/// the new list is empty.
pub proof fn lemma_refresh_clamps_cursor(s: AppView, name: Seq<char>, report: Seq<char>)
    requires
        !s.halted(),
    ensures
        ({
            let t = s.refreshed(Ok(name), Ok(report));
            let n = t.files.len();
            &&& t.files == crate::git::parse(report)
            &&& n == 0 ==> t.cursor is None
            &&& n > 0 ==> t.cursor is Some && t.cursor->0 < n
            &&& (s.cursor matches Some(i) ==> i < n ==> t.cursor == Some(i))
        }),
{
}

/// The session after a run of refreshes, each with its two answers.
pub open spec fn refreshed_all(
    s: AppView,
    answers: Seq<(Result<Seq<char>, Seq<char>>, Result<Seq<char>, Seq<char>>)>,
) -> AppView
    decreases answers.len(),
{
    if answers.len() == 0 {
        s
    } else {
        refreshed_all(s, answers.drop_last()).refreshed(answers.last().0, answers.last().1)
    }
}

/// However many refreshes follow one another, and whatever lists they
/// bring, the cursor ends on a record of the last list, or nowhere if that
/// list is empty.
pub proof fn lemma_refreshes_keep_cursor(
    s: AppView,
    answers: Seq<(Result<Seq<char>, Seq<char>>, Result<Seq<char>, Seq<char>>)>,
)
    requires
        s.wf(),
    ensures
        refreshed_all(s, answers).wf(),
        refreshed_all(s, answers).cursor_in_list(),
    decreases answers.len(),
{
    if answers.len() > 0 {
        lemma_refreshes_keep_cursor(s, answers.drop_last());
    }
}

/// The session after a path was staged and the list read again.
pub open spec fn staged_and_refreshed(
    s: AppView,
    branch: Result<Seq<char>, Seq<char>>,
    status: Result<Seq<char>, Seq<char>>,
) -> AppView {
    s.settled(Ok(())).0.refreshed(branch, status)
}

/// Staging is idempotent for the session: where git answers the second
/// time as it did the first, staging a path twice leaves the session, and
/// with it every record, as staging it once does.
pub proof fn lemma_staging_twice(
    s: AppView,
    branch: Result<Seq<char>, Seq<char>>,
    status: Result<Seq<char>, Seq<char>>,
)
    ensures
        staged_and_refreshed(staged_and_refreshed(s, branch, status), branch, status)
            == staged_and_refreshed(s, branch, status),
{
}

/// With no record staged the message box cannot be opened: asking for it
/// changes nothing, and no intent leaves the list.
pub proof fn lemma_compose_needs_staged(s: AppView, intent: Intent, key: KeyEvent)
    requires
        s.render == RenderChoice::MainMenu,
        !crate::git::any_staged(s.files),
    ensures
        s.compose() == s,
        s.act(Intent::Compose) == (s, ActionView::Idle),
        key.code == KeyCode::Char('c') ==> s.key(key) == (s, ActionView::Idle),
        s.act(intent).0.render == RenderChoice::MainMenu,
{
}

/// A message that was cancelled is not remembered: after Escape, the key
/// that opens the message box finds it empty.
pub proof fn lemma_cancel_forgets_message(s: AppView, escape: KeyEvent, open: KeyEvent)
    requires
        s.wf(),
        !s.exit,
        s.render == RenderChoice::CommitMenu,
        escape.code == KeyCode::Esc,
        open.code == KeyCode::Char('c'),
    ensures
        s.key(escape).0.render == RenderChoice::MainMenu,
        s.key(escape).0.message == crate::buffer::MessageView::empty(),
        s.key(escape).0.key(open).0.message == crate::buffer::MessageView::empty(),
        crate::git::any_staged(s.files) ==> s.key(escape).0.key(open).0.render
            == RenderChoice::CommitMenu,
{
}

/// A commit that failed costs the operator nothing: the message box stays
/// open with the message and its cursor as they were, and the failure is
/// recorded. List and cursor are as they were too.
pub proof fn lemma_failed_commit_keeps_message(s: AppView, failure: Seq<char>)
    requires
        !s.halted(),
    ensures
        s.committed(Err(failure)).1 == ActionView::Idle,
        s.committed(Err(failure)).0 == (AppView { last_error: Some(failure), ..s }),
        s.committed(Err(failure)).0.message == s.message,
        s.committed(Err(failure)).0.render == s.render,
        s.committed(Err(failure)).0.last_error == Some(failure),
{
}

/// A command or a refresh that failed changes nothing but the recorded
/// failure: the view, the list and the cursor are as they were.
pub proof fn lemma_failure_changes_only_the_error(
    s: AppView,
    failure: Seq<char>,
    branch: Result<Seq<char>, Seq<char>>,
    status: Result<Seq<char>, Seq<char>>,
)
    requires
        !s.halted(),
        branch is Err || status is Err,
    ensures
        s.settled(Err(failure)) == (AppView { last_error: Some(failure), ..s }, ActionView::Idle),
        s.refreshed(branch, status) == (AppView {
            last_error: AppView::failure_of(branch, status),
            ..s
        }),
        AppView::failure_of(branch, status) is Some,
{
}

/// After the session was asked to end, nothing changes it. After a failure
/// at the start, nothing but the intent to quit does.
pub proof fn lemma_halted_is_final(
    s: AppView,
    intent: Intent,
    branch: Result<Seq<char>, Seq<char>>,
    status: Result<Seq<char>, Seq<char>>,
    result: Result<(), Seq<char>>,
)
    requires
        s.halted(),
    ensures
        s.act(intent).1 == ActionView::Idle,
        s.exit || intent != Intent::Quit ==> s.act(intent).0 == s,
        !s.exit && intent == Intent::Quit ==> s.act(intent).0 == s.quit(),
        s.refreshed(branch, status) == s,
        s.settled(result) == (s, ActionView::Idle),
        s.committed(result) == (s, ActionView::Idle),
{
}

/// No key throws worktree changes away: only the intent that says the
/// operator confirmed it asks for a discard.
pub proof fn lemma_keys_never_discard(s: AppView, key: KeyEvent, intent: Intent)
    ensures
        !(s.key(key).1 matches ActionView::Run(crate::bridge::RequestView::Discard(_))),
        s.act(intent).1 matches ActionView::Run(crate::bridge::RequestView::Discard(_))
            ==> intent == Intent::Discard,
        s.discard(false) == ActionView::Idle,
{
}

/// A recorded failure lasts until the next success or the next change of
/// view: a command that worked, a refresh that worked, closing the message
/// box and opening it each leave no failure behind.
pub proof fn lemma_success_forgets_failure(s: AppView, name: Seq<char>, report: Seq<char>)
    requires
        !s.halted(),
    ensures
        s.settled(Ok(())).0.last_error is None,
        s.committed(Ok(())).0.last_error is None,
        s.refreshed(Ok(name), Ok(report)).last_error is None,
        s.browse().last_error is None,
        s.may_compose() ==> s.compose().last_error is None,
{
}

} // verus!
