//! The session: which view is shown, the branch, the list of changes with
//! its cursor, the message being written, the last failure, and the
//! transitions between these states.
//!
//! The session runs no command itself. A transition that needs git hands
//! back an [`Action`]; whoever drives the session runs it and reports the
//! outcome to the transition that waits for it.

use crate::bridge::{Request, RequestView};
use crate::buffer::{Edit, MessageBuffer, MessageView};
use crate::git::{any_staged, get_changed_files, get_current_branch, parse, Changed, ChangedView};
use crate::text::trim;
use vstd::prelude::*;

verus! {

/// Which of the two views is shown: the list of changes, or the message
/// box over it.
#[derive(Debug, Clone, Copy, PartialEq, Eq, Structural)]
pub enum RenderChoice {
    MainMenu,
    CommitMenu,
}

/// What the session asks its driver to do next.
#[derive(Debug, Clone, PartialEq, Eq)]
pub enum Action {
    /// Nothing: wait for the next key.
    Idle,
    /// Ask git for the branch and for the status report, and hand both
    /// answers to [`App::refresh`].
    Refresh,
    /// Run one request. The outcome of a commit goes to
    /// [`App::commit_changes`], any other to [`App::staging_done`].
    Run(Request),
}

/// An action, as the contracts see it.
pub enum ActionView {
    Idle,
    Refresh,
    Run(RequestView),
}

impl View for Action {
    type V = ActionView;

    open spec fn view(&self) -> ActionView {
        match self {
            Action::Idle => ActionView::Idle,
            Action::Refresh => ActionView::Refresh,
            Action::Run(request) => ActionView::Run(request@),
        }
    }
}

/// The answer to a query, as the contracts see it: the text that git
/// printed, or the text of the failure.
pub open spec fn answer(r: Result<String, String>) -> Result<Seq<char>, Seq<char>> {
    match r {
        Ok(text) => Ok(text@),
        Err(e) => Err(e@),
    }
}

/// The outcome of a command that prints nothing of interest.
pub open spec fn outcome(r: Result<(), String>) -> Result<(), Seq<char>> {
    match r {
        Ok(_) => Ok(()),
        Err(e) => Err(e@),
    }
}

/// The name that stands for the branch when it could not be asked for.
pub open spec fn unknown_branch() -> Seq<char> {
    "unknown"@
}

/// The cursor after the list was replaced by one of `n` records: where it
/// was, if that place is still there; else on the last record; on the first
/// record if there was no cursor; nowhere in an empty list.
pub open spec fn reclamp(cursor: Option<nat>, n: nat) -> Option<nat> {
    if n == 0 {
        None
    } else {
        match cursor {
            Some(i) => if i < n {
                Some(i)
            } else {
                Some((n - 1) as nat)
            },
            None => Some(0),
        }
    }
}

/// The session, as the contracts see it.
pub struct AppView {
    pub render: RenderChoice,
    pub branch: Seq<char>,
    pub files: Seq<ChangedView>,
    pub cursor: Option<nat>,
    pub message: MessageView,
    pub last_error: Option<Seq<char>>,
    /// The failure is one of the environment, met at the start: nothing
    /// but quitting is left.
    pub fatal: bool,
    pub exit: bool,
}

impl AppView {
    /// The cursor is on a record of the list, and is there whenever the
    /// list has a record.
    pub open spec fn cursor_in_list(self) -> bool {
        match self.cursor {
            Some(i) => i < self.files.len(),
            None => self.files.len() == 0,
        }
    }

    /// What holds of every session: the cursor is in the list, the cursor
    /// of the message is in the message, there is no message while the
    /// list is shown, and a session that failed at its start shows the
    /// list and holds the failure.
    pub open spec fn wf(self) -> bool {
        &&& self.cursor_in_list()
        &&& self.message.wf()
        &&& self.render == RenderChoice::MainMenu ==> self.message == MessageView::empty()
        &&& self.fatal ==> self.last_error is Some && self.render == RenderChoice::MainMenu
    }

    /// No transition but quitting changes a session that was asked to end,
    /// or one that failed at its start.
    pub open spec fn halted(self) -> bool {
        self.exit || self.fatal
    }

    /// The session before anything is known of the repository.
    pub open spec fn initial() -> AppView {
        AppView {
            render: RenderChoice::MainMenu,
            branch: Seq::empty(),
            files: Seq::empty(),
            cursor: None,
            message: MessageView::empty(),
            last_error: None,
            fatal: false,
            exit: false,
        }
    }

    /// The failure that the two first queries leave: that of the status
    /// report, else that of the branch.
    pub open spec fn failure_of(
        branch: Result<Seq<char>, Seq<char>>,
        status: Result<Seq<char>, Seq<char>>,
    ) -> Option<Seq<char>> {
        match status {
            Err(e) => Some(e),
            Ok(_) => match branch {
                Err(e) => Some(e),
                Ok(_) => None,
            },
        }
    }

    /// The session at its start, from the answers to the two queries. A
    /// query that failed leaves a failure of the environment.
    pub open spec fn started(
        branch: Result<Seq<char>, Seq<char>>,
        status: Result<Seq<char>, Seq<char>>,
    ) -> AppView {
        let files = match status {
            Ok(text) => parse(text),
            Err(_) => Seq::empty(),
        };
        AppView {
            render: RenderChoice::MainMenu,
            branch: match branch {
                Ok(text) => trim(text),
                Err(_) => unknown_branch(),
            },
            files,
            cursor: if files.len() == 0 {
                None
            } else {
                Some(0)
            },
            message: MessageView::empty(),
            last_error: Self::failure_of(branch, status),
            fatal: Self::failure_of(branch, status) is Some,
            exit: false,
        }
    }

    /// The session after a refresh. Where both queries succeeded, branch
    /// and list are replaced, the cursor is clamped to the new list, and
    /// the last failure is forgotten. Where one failed, only the failure
    /// is recorded.
    pub open spec fn refreshed(
        self,
        branch: Result<Seq<char>, Seq<char>>,
        status: Result<Seq<char>, Seq<char>>,
    ) -> AppView {
        if self.halted() {
            self
        } else {
            match (branch, status) {
                (Ok(name), Ok(text)) => AppView {
                    branch: trim(name),
                    files: parse(text),
                    cursor: reclamp(self.cursor, parse(text).len()),
                    last_error: None,
                    ..self
                },
                _ => AppView { last_error: Self::failure_of(branch, status), ..self },
            }
        }
    }

    /// The session after it was asked to end.
    pub open spec fn quit(self) -> AppView {
        AppView { exit: true, ..self }
    }

    /// The session back on the list: the message is thrown away and the
    /// last failure forgotten.
    pub open spec fn browse(self) -> AppView {
        if self.halted() {
            self
        } else {
            AppView {
                render: RenderChoice::MainMenu,
                message: MessageView::empty(),
                last_error: None,
                ..self
            }
        }
    }

    /// Whether the message box may be opened: from the list, with at least
    /// one record staged.
    pub open spec fn may_compose(self) -> bool {
        !self.halted() && self.render == RenderChoice::MainMenu && any_staged(self.files)
    }

    /// The session after the message box was asked for: open, with an
    /// empty message, where it may be opened; else unchanged.
    pub open spec fn compose(self) -> AppView {
        if self.may_compose() {
            AppView {
                render: RenderChoice::CommitMenu,
                message: MessageView::empty(),
                last_error: None,
                ..self
            }
        } else {
            self
        }
    }

    /// The session with the cursor one record down, on the first after
    /// the last.
    pub open spec fn next(self) -> AppView {
        if self.halted() || self.files.len() == 0 {
            self
        } else {
            AppView {
                cursor: Some(
                    match self.cursor {
                        Some(i) => if i + 1 >= self.files.len() {
                            0
                        } else {
                            i + 1
                        },
                        None => 0,
                    },
                ),
                ..self
            }
        }
    }

    /// The session with the cursor one record up, on the last before the
    /// first.
    pub open spec fn previous(self) -> AppView {
        if self.halted() || self.files.len() == 0 {
            self
        } else {
            AppView {
                cursor: Some(
                    match self.cursor {
                        Some(i) => if i == 0 {
                            (self.files.len() - 1) as nat
                        } else {
                            (i - 1) as nat
                        },
                        None => 0,
                    },
                ),
                ..self
            }
        }
    }

    /// The record under the cursor, if the cursor is on one.
    pub open spec fn selected(self) -> Option<ChangedView> {
        match self.cursor {
            Some(i) => if i < self.files.len() {
                Some(self.files[i as int])
            } else {
                None
            },
            None => None,
        }
    }

    /// What toggling the record under the cursor asks for: to unstage it
    /// where it is staged, to stage it where it is not.
    pub open spec fn toggle(self) -> ActionView {
        if self.halted() {
            ActionView::Idle
        } else {
            match self.selected() {
                Some(file) => if file.is_staged() {
                    ActionView::Run(RequestView::Unstage(file.path))
                } else {
                    ActionView::Run(RequestView::Stage(file.path))
                },
                None => ActionView::Idle,
            }
        }
    }

    /// What discarding the record under the cursor asks for: nothing,
    /// unless the operator has confirmed it.
    pub open spec fn discard(self, confirmed: bool) -> ActionView {
        if self.halted() || !confirmed {
            ActionView::Idle
        } else {
            match self.selected() {
                Some(file) => ActionView::Run(RequestView::Discard(file.path)),
                None => ActionView::Idle,
            }
        }
    }

    /// The session after staging, unstaging or discarding ended, and what
    /// it asks for then: a refresh after a success; after a failure
    /// nothing, with the failure recorded and all else as it was.
    pub open spec fn settled(self, result: Result<(), Seq<char>>) -> (AppView, ActionView) {
        if self.halted() {
            (self, ActionView::Idle)
        } else {
            match result {
                Ok(_) => (AppView { last_error: None, ..self }, ActionView::Refresh),
                Err(e) => (AppView { last_error: Some(e), ..self }, ActionView::Idle),
            }
        }
    }

    /// What submitting the message asks for: a commit with the message as
    /// it stands, where the box is open and the message is not empty.
    pub open spec fn submit(self) -> ActionView {
        if self.halted() || self.render != RenderChoice::CommitMenu || self.message.text.len()
            == 0 {
            ActionView::Idle
        } else {
            ActionView::Run(RequestView::Commit(self.message.text))
        }
    }

    /// The session after a commit ended, and what it asks for then. After
    /// a success the message is gone, the list is shown, and a refresh is
    /// asked for. After a failure the box stays open with the message as
    /// it was, and the failure is recorded.
    pub open spec fn committed(self, result: Result<(), Seq<char>>) -> (AppView, ActionView) {
        if self.halted() {
            (self, ActionView::Idle)
        } else {
            match result {
                Ok(_) => (
                    AppView {
                        render: RenderChoice::MainMenu,
                        message: MessageView::empty(),
                        last_error: None,
                        ..self
                    },
                    ActionView::Refresh,
                ),
                Err(e) => (AppView { last_error: Some(e), ..self }, ActionView::Idle),
            }
        }
    }

    /// The session after a request was run, and what it asks for then. The
    /// outcome of a commit is taken in as that of a commit, and the outcome
    /// of staging, unstaging or discarding as such. The two queries change
    /// nothing here: their answers are taken in together, by a refresh.
    pub open spec fn finished(
        self,
        request: RequestView,
        result: Result<(), Seq<char>>,
    ) -> (AppView, ActionView) {
        match request {
            RequestView::Commit(_) => self.committed(result),
            RequestView::Stage(_) | RequestView::Unstage(_) | RequestView::Discard(_) => self.settled(
                result,
            ),
            RequestView::Branch | RequestView::Status => (self, ActionView::Idle),
        }
    }

    /// The session after an edit of the message, which is made only while
    /// the box is open.
    pub open spec fn edited(self, edit: Edit) -> AppView {
        if self.halted() || self.render != RenderChoice::CommitMenu {
            self
        } else {
            AppView { message: self.message.apply(edit), ..self }
        }
    }
}

/// A session over one working tree.
#[derive(Debug, Clone, PartialEq, Eq)]
pub struct App {
    render_choice: RenderChoice,
    branch: String,
    changed_files: Vec<Changed>,
    listview: Option<usize>,
    message: MessageBuffer,
    last_error: Option<String>,
    fatal: bool,
    exit: bool,
}

impl View for App {
    type V = AppView;

    closed spec fn view(&self) -> AppView {
        AppView {
            render: self.render_choice,
            branch: self.branch@,
            files: self.changed_files.deep_view(),
            cursor: match self.listview {
                Some(i) => Some(i as nat),
                None => None,
            },
            message: self.message@,
            last_error: match self.last_error {
                Some(e) => Some(e@),
                None => None,
            },
            fatal: self.fatal,
            exit: self.exit,
        }
    }
}

impl App {
    /// A session that knows nothing of the repository yet.
    pub fn new() -> (app: App)
        ensures
            app@ == AppView::initial(),
            app@.wf(),
    {
        let app = App {
            render_choice: RenderChoice::MainMenu,
            branch: String::new(),
            changed_files: Vec::new(),
            listview: None,
            message: MessageBuffer::new(),
            last_error: None,
            fatal: false,
            exit: false,
        };
        assert(app.changed_files.deep_view() == Seq::<ChangedView>::empty());
        app
    }

    /// Whether the session is well formed, as every session is that the
    /// functions of this type have made.
    pub fn is_wf(&self) -> (b: bool)
        ensures
            b == self@.wf(),
    {
        let cursor_in_list = match self.listview {
            Some(i) => i < self.changed_files.len(),
            None => self.changed_files.len() == 0,
        };
        let on_list = match self.render_choice {
            RenderChoice::MainMenu => true,
            RenderChoice::CommitMenu => false,
        };
        let no_message = self.message.is_empty() && self.message.cursor() == 0;
        assert(no_message == (self.message@ == MessageView::empty())) by {
            if no_message {
                assert(self.message@.text == Seq::<char>::empty());
            }
        }
        cursor_in_list && self.message.is_wf() && (!on_list || no_message) && (!self.fatal || (
        self.last_error.is_some() && on_list))
    }

    /// Starts the session from the answers to the two first queries: the
    /// output of `git branch --show-current` and that of
    /// `git status --porcelain=v1`, or the failure of each.
    pub fn init(&mut self, branch: Result<String, String>, status: Result<String, String>)
        ensures
            final(self)@ == AppView::started(answer(branch), answer(status)),
            final(self)@.wf(),
    {
        let mut failure: Option<String> = None;
        let name = match branch {
            Ok(text) => get_current_branch(text.as_str()),
            Err(e) => {
                failure = Some(e);
                "unknown".to_owned()
            },
        };
        let files = match status {
            Ok(text) => get_changed_files(text.as_str()),
            Err(e) => {
                failure = Some(e);
                let none: Vec<Changed> = Vec::new();
                assert(none.deep_view() == Seq::<ChangedView>::empty());
                none
            },
        };
        self.render_choice = RenderChoice::MainMenu;
        self.branch = name;
        self.listview = if files.len() == 0 {
            None
        } else {
            Some(0)
        };
        self.changed_files = files;
        self.message = MessageBuffer::new();
        self.fatal = failure.is_some();
        self.last_error = failure;
        self.exit = false;
    }

    /// Takes in the answers to the two queries of a refresh.
    pub fn refresh(&mut self, branch: Result<String, String>, status: Result<String, String>)
        ensures
            final(self)@ == old(self)@.refreshed(answer(branch), answer(status)),
            old(self)@.wf() ==> final(self)@.wf(),
    {
        if self.exit || self.fatal {
            return ;
        }
        match status {
            Ok(text) => match branch {
                Ok(name) => {
                    let files = get_changed_files(text.as_str());
                    let n = files.len();
                    self.listview = if n == 0 {
                        None
                    } else {
                        match self.listview {
                            Some(i) => if i < n {
                                Some(i)
                            } else {
                                Some(n - 1)
                            },
                            None => Some(0),
                        }
                    };
                    self.changed_files = files;
                    self.branch = get_current_branch(name.as_str());
                    self.last_error = None;
                },
                Err(e) => {
                    self.last_error = Some(e);
                },
            },
            Err(e) => {
                self.last_error = Some(e);
            },
        }
    }

    /// Asks the session to end.
    pub fn shutdown(&mut self)
        ensures
            final(self)@ == old(self)@.quit(),
            old(self)@.wf() ==> final(self)@.wf(),
    {
        self.exit = true;
    }

    /// Goes back to the list and throws the message away.
    pub fn go_main(&mut self)
        ensures
            final(self)@ == old(self)@.browse(),
            old(self)@.wf() ==> final(self)@.wf(),
    {
        if self.exit || self.fatal {
            return ;
        }
        self.render_choice = RenderChoice::MainMenu;
        self.message.clear();
        self.last_error = None;
    }

    /// Whether any record of the list is staged.
    pub fn has_staged(&self) -> (b: bool)
        ensures
            b == any_staged(self@.files),
    {
        let mut i: usize = 0;
        while i < self.changed_files.len()
            invariant
                i <= self.changed_files.len(),
                forall|k: int| 0 <= k < i ==> !(#[trigger] self.changed_files.deep_view()[k]).is_staged(),
            decreases self.changed_files.len() - i,
        {
            if self.changed_files[i].is_staged() {
                assert(self.changed_files.deep_view()[i as int].is_staged());
                return true;
            }
            i += 1;
        }
        false
    }

    /// Opens the message box, with an empty message, if the list is shown
    /// and holds a staged record; else does nothing.
    pub fn go_commit(&mut self)
        ensures
            final(self)@ == old(self)@.compose(),
            old(self)@.wf() ==> final(self)@.wf(),
    {
        if self.exit || self.fatal {
            return ;
        }
        match self.render_choice {
            RenderChoice::CommitMenu => {},
            RenderChoice::MainMenu => {
                if self.has_staged() {
                    self.render_choice = RenderChoice::CommitMenu;
                    self.message.clear();
                    self.last_error = None;
                }
            },
        }
    }

    /// Moves the cursor one record down, to the first after the last.
    pub fn select_next(&mut self)
        ensures
            final(self)@ == old(self)@.next(),
            old(self)@.wf() ==> final(self)@.wf(),
    {
        if self.exit || self.fatal || self.changed_files.len() == 0 {
            return ;
        }
        let i = match self.listview {
            Some(i) => if i >= self.changed_files.len() - 1 {
                0
            } else {
                i + 1
            },
            None => 0,
        };
        self.listview = Some(i);
    }

    /// Moves the cursor one record up, to the last before the first.
    pub fn select_previous(&mut self)
        ensures
            final(self)@ == old(self)@.previous(),
            old(self)@.wf() ==> final(self)@.wf(),
    {
        if self.exit || self.fatal || self.changed_files.len() == 0 {
            return ;
        }
        let i = match self.listview {
            Some(i) => if i == 0 {
                self.changed_files.len() - 1
            } else {
                i - 1
            },
            None => 0,
        };
        self.listview = Some(i);
    }

    /// The record under the cursor.
    pub fn selected(&self) -> (file: Option<&Changed>)
        ensures
            match file {
                Some(f) => self@.selected() == Some(f@),
                None => self@.selected() is None,
            },
    {
        match self.listview {
            Some(i) => if i < self.changed_files.len() {
                Some(&self.changed_files[i])
            } else {
                None
            },
            None => None,
        }
    }

    /// Asks for the record under the cursor to be unstaged if it is
    /// staged, and staged if it is not. The session itself is left as it
    /// is: the list changes with the refresh that follows a success.
    pub fn toggle_stage_selection(&self) -> (action: Action)
        ensures
            action@ == self@.toggle(),
    {
        if self.exit || self.fatal {
            return Action::Idle;
        }
        match self.selected() {
            Some(file) => if file.is_staged() {
                Action::Run(Request::Unstage(file.path.clone()))
            } else {
                Action::Run(Request::Stage(file.path.clone()))
            },
            None => Action::Idle,
        }
    }

    /// Asks for the worktree changes of the record under the cursor to be
    /// thrown away, which cannot be undone: `confirmed` says that the
    /// operator was asked and agreed. Without that nothing is asked for.
    pub fn discard_selection(&self, confirmed: bool) -> (action: Action)
        ensures
            action@ == self@.discard(confirmed),
    {
        if self.exit || self.fatal || !confirmed {
            return Action::Idle;
        }
        match self.selected() {
            Some(file) => Action::Run(Request::Discard(file.path.clone())),
            None => Action::Idle,
        }
    }

    /// Takes in the outcome of staging, unstaging or discarding.
    pub fn staging_done(&mut self, result: Result<(), String>) -> (action: Action)
        ensures
            (final(self)@, action@) == old(self)@.settled(outcome(result)),
            old(self)@.wf() ==> final(self)@.wf(),
    {
        if self.exit || self.fatal {
            return Action::Idle;
        }
        match result {
            Ok(_) => {
                self.last_error = None;
                Action::Refresh
            },
            Err(e) => {
                self.last_error = Some(e);
                Action::Idle
            },
        }
    }

    /// Asks for a commit with the message as it stands, if the message box
    /// is open and the message is not empty.
    pub fn submit(&self) -> (action: Action)
        ensures
            action@ == self@.submit(),
    {
        if self.exit || self.fatal || self.message.is_empty() {
            return Action::Idle;
        }
        match self.render_choice {
            RenderChoice::MainMenu => Action::Idle,
            RenderChoice::CommitMenu => Action::Run(Request::Commit(self.message.text())),
        }
    }

    /// Takes in the outcome of a commit.
    pub fn commit_changes(&mut self, result: Result<(), String>) -> (action: Action)
        ensures
            (final(self)@, action@) == old(self)@.committed(outcome(result)),
            old(self)@.wf() ==> final(self)@.wf(),
    {
        if self.exit || self.fatal {
            return Action::Idle;
        }
        match result {
            Ok(_) => {
                self.render_choice = RenderChoice::MainMenu;
                self.message.clear();
                self.last_error = None;
                Action::Refresh
            },
            Err(e) => {
                self.last_error = Some(e);
                Action::Idle
            },
        }
    }

    /// Takes in the outcome of running `request`.
    pub fn finished(&mut self, request: &Request, result: Result<(), String>) -> (action: Action)
        ensures
            (final(self)@, action@) == old(self)@.finished(request@, outcome(result)),
            old(self)@.wf() ==> final(self)@.wf(),
    {
        match request {
            Request::Commit(_) => self.commit_changes(result),
            Request::Stage(_) | Request::Unstage(_) | Request::Discard(_) => self.staging_done(
                result,
            ),
            Request::Branch | Request::Status => Action::Idle,
        }
    }

    /// Edits the message, if the message box is open.
    pub fn edit(&mut self, edit: Edit)
        requires
            old(self)@.wf(),
        ensures
            final(self)@ == old(self)@.edited(edit),
            final(self)@.wf(),
    {
        if self.exit || self.fatal {
            return ;
        }
        match self.render_choice {
            RenderChoice::MainMenu => {},
            RenderChoice::CommitMenu => {
                self.message.apply(edit);
            },
        }
    }

    /// The view that is shown.
    pub fn get_render_choice(&self) -> (choice: RenderChoice)
        ensures
            choice == self@.render,
    {
        self.render_choice
    }

    /// The name of the branch, empty on a detached head.
    pub fn get_branch(&self) -> (name: &str)
        ensures
            name@ == self@.branch,
    {
        self.branch.as_str()
    }

    /// Whether the head is detached: there is no branch name.
    pub fn is_detached(&self) -> (b: bool)
        ensures
            b == (self@.branch.len() == 0),
    {
        self.branch.as_str().is_empty()
    }

    /// Sets the name of the branch.
    pub fn set_branch(&mut self, b: &str)
        ensures
            final(self)@ == (AppView { branch: b@, ..old(self)@ }),
            old(self)@.wf() ==> final(self)@.wf(),
    {
        self.branch = b.to_owned();
    }

    /// The list of changes, in the order of the report.
    pub fn get_changed_files(&self) -> (files: &[Changed])
        ensures
            files.deep_view() == self@.files,
    {
        self.changed_files.as_slice()
    }

    /// The place of the cursor in the list.
    pub fn get_listview(&self) -> (cursor: Option<usize>)
        ensures
            match cursor {
                Some(i) => self@.cursor == Some(i as nat),
                None => self@.cursor is None,
            },
    {
        self.listview
    }

    /// The message that is being written.
    pub fn get_message(&self) -> (message: &MessageBuffer)
        ensures
            message@ == self@.message,
    {
        &self.message
    }

    /// The text of the last failure, or the empty text if there is none.
    pub fn get_last_error(&self) -> (text: &str)
        ensures
            match self@.last_error {
                Some(e) => text@ == e,
                None => text@.len() == 0,
            },
    {
        match &self.last_error {
            Some(msg) => msg.as_str(),
            None => {
                proof {
                    reveal_strlit("");
                }
                ""
            },
        }
    }

    /// Whether a failure is recorded.
    pub fn has_error(&self) -> (b: bool)
        ensures
            b == self@.last_error is Some,
    {
        self.last_error.is_some()
    }

    /// Whether the session failed at its start, so that only the failure
    /// can be shown and only quitting is left.
    pub fn is_fatal(&self) -> (b: bool)
        ensures
            b == self@.fatal,
    {
        self.fatal
    }

    /// Whether the session was asked to end.
    pub fn should_exit(&self) -> (b: bool)
        ensures
            b == self@.exit,
    {
        self.exit
    }
}

impl Default for App {
    fn default() -> (app: App)
        ensures
            app@ == AppView::initial(),
            app@.wf(),
    {
        App::new()
    }
}

} // verus!
