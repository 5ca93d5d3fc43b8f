//! A standalone client of the components: a workspace editor whose
//! application state stays with the client.
use vstd::prelude::*;
use vstd::string::*;
use crate::text::chars_of;

verus! {

#[derive(Debug, Clone, Copy, PartialEq, Eq, Structural)]
pub enum Page {
    Overview,
    Preferences,
}

#[derive(Debug, Clone, Copy, PartialEq, Eq, Structural)]
pub enum Access {
    Viewer,
    Editor,
}

#[derive(Debug, Clone, Copy, PartialEq, Eq, Structural)]
pub enum Digest {
    Daily,
    Weekly,
}

impl Digest {
    /// The name shown for the digest choice.
    pub fn label(&self) -> (text: String)
        ensures
            text@ == match self {
                Digest::Daily => "Daily digest"@,
                Digest::Weekly => "Weekly digest"@,
            },
    {
        match self {
            Digest::Daily => String::from_str("Daily digest"),
            Digest::Weekly => String::from_str("Weekly digest"),
        }
    }
}

/// Unicode `White_Space`, the characters `char::is_whitespace` accepts.
pub open spec fn is_white_space(c: char) -> bool {
    let n = c as int;
    ||| 9 <= n <= 13
    ||| n == 32
    ||| n == 0x85
    ||| n == 0xa0
    ||| n == 0x1680
    ||| 0x2000 <= n <= 0x200a
    ||| n == 0x2028
    ||| n == 0x2029
    ||| n == 0x202f
    ||| n == 0x205f
    ||| n == 0x3000
}

/// Nothing but white space remains after trimming.
#[verifier::opaque]
pub open spec fn blank(s: Seq<char>) -> bool {
    forall|i: int| 0 <= i < s.len() ==> is_white_space(#[trigger] s[i])
}

/// An address with a nonblank user part before the first `@` and a host part
/// that has a dot and does not end with one.
#[verifier::opaque]
pub open spec fn plausible_email(email: Seq<char>) -> bool {
    exists|at: int| {
        &&& 0 <= at < email.len()
        &&& email[at] == '@'
        &&& forall|j: int| 0 <= j < at ==> email[j] != '@'
        &&& !blank(email.take(at))
        &&& email.skip(at + 1).contains('.')
        &&& email.last() != '.'
    }
}

pub struct WorkspaceView {
    pub name: Seq<char>,
    pub email: Seq<char>,
    pub note: Seq<char>,
    pub access: Access,
    pub digest: Digest,
    pub notifications: bool,
}

impl WorkspaceView {
    /// A nonblank name and a plausible contact address.
    pub open spec fn valid(self) -> bool {
        !blank(self.name) && plausible_email(self.email)
    }
}

#[derive(Debug, PartialEq, Eq)]
pub struct Workspace {
    pub name: String,
    pub email: String,
    pub note: String,
    pub access: Access,
    pub digest: Digest,
    pub notifications: bool,
}

impl View for Workspace {
    type V = WorkspaceView;

    open spec fn view(&self) -> WorkspaceView {
        WorkspaceView {
            name: self.name@,
            email: self.email@,
            note: self.note@,
            access: self.access,
            digest: self.digest,
            notifications: self.notifications,
        }
    }
}

impl Clone for Workspace {
    fn clone(&self) -> (copy: Self)
        ensures
            copy@ == self@,
    {
        Workspace {
            name: self.name.clone(),
            email: self.email.clone(),
            note: self.note.clone(),
            access: self.access,
            digest: self.digest,
            notifications: self.notifications,
        }
    }
}

pub open spec fn default_workspace() -> WorkspaceView {
    WorkspaceView {
        name: "Northstar studio"@,
        email: "studio@example.com"@,
        note: "Weekly planning on Monday"@,
        access: Access::Editor,
        digest: Digest::Weekly,
        notifications: true,
    }
}

impl Default for Workspace {
    fn default() -> (workspace: Self)
        ensures
            workspace@ == default_workspace(),
    {
        Workspace {
            name: String::from_str("Northstar studio"),
            email: String::from_str("studio@example.com"),
            note: String::from_str("Weekly planning on Monday"),
            access: Access::Editor,
            digest: Digest::Weekly,
            notifications: true,
        }
    }
}

pub(crate) fn is_white_space_char(c: char) -> (white: bool)
    ensures
        white == is_white_space(c),
{
    let n = c as u32;
    (9 <= n && n <= 13) || n == 32 || n == 0x85 || n == 0xa0 || n == 0x1680 || (0x2000 <= n && n <= 0x200a)
        || n == 0x2028 || n == 0x2029 || n == 0x202f || n == 0x205f || n == 0x3000
}

/// Whether the characters `chars[from..to]` are all white space.
fn all_white_space(chars: &Vec<char>, from: usize, to: usize) -> (white: bool)
    requires
        from <= to <= chars@.len(),
    ensures
        white == blank(chars@.subrange(from as int, to as int)),
{
    reveal(blank);
    let mut i = from;
    while i < to
        invariant
            from <= i <= to <= chars@.len(),
            forall|j: int| from <= j < i ==> is_white_space(#[trigger] chars@[j]),
        decreases to - i,
    {
        if !is_white_space_char(chars[i]) {
            assert(!blank(chars@.subrange(from as int, to as int))) by {
                reveal(blank);
                assert(!is_white_space(chars@.subrange(from as int, to as int)[i - from]));
            }
            return false;
        }
        i = i + 1;
    }
    assert forall|k: int| 0 <= k < to - from implies is_white_space(#[trigger] chars@.subrange(from as int, to as int)[k]) by {
        assert(chars@.subrange(from as int, to as int)[k] == chars@[from + k]);
    }
    true
}

impl Workspace {
    pub fn valid(&self) -> (valid: bool)
        ensures
            valid == self@.valid(),
    {
        reveal(plausible_email);
        let name = chars_of(self.name.as_str());
        if all_white_space(&name, 0, name.len()) {
            assert(name@.subrange(0, name@.len() as int) =~= name@);
            return false;
        }
        assert(name@.subrange(0, name@.len() as int) =~= name@);
        let email = chars_of(self.email.as_str());
        let mut at: usize = 0;
        while at < email.len() && email[at] != '@'
            invariant
                0 <= at <= email@.len(),
                forall|j: int| 0 <= j < at ==> email@[j] != '@',
            decreases email@.len() - at,
        {
            at = at + 1;
        }
        if at == email.len() {
            return false;
        }
        if all_white_space(&email, 0, at) {
            assert(email@.subrange(0, at as int) =~= email@.take(at as int));
            return false;
        }
        assert(email@.subrange(0, at as int) =~= email@.take(at as int));
        let mut dot = false;
        let mut k = at + 1;
        while k < email.len()
            invariant
                at < k <= email@.len(),
                dot == exists|j: int| at < j < k && email@[j] == '.',
            decreases email@.len() - k,
        {
            if email[k] == '.' {
                dot = true;
            }
            k = k + 1;
        }
        let ghost host = email@.skip(at + 1);
        assert(dot == host.contains('.')) by {
            if dot {
                let j = choose|j: int| at < j < email@.len() && email@[j] == '.';
                assert(host[j - at - 1] == '.');
            }
            if host.contains('.') {
                let j = choose|j: int| 0 <= j < host.len() && host[j] == '.';
                assert(email@[j + at + 1] == '.');
            }
        }
        let last_dot = email[email.len() - 1] == '.';
        dot && !last_dot
    }
}

pub struct Studio {
    pub page: Page,
    pub saved: Workspace,
    pub draft: Workspace,
    pub editing: bool,
    pub confirming_discard: bool,
    pub dark: bool,
    pub reduced_motion: bool,
    pub scratch: String,
    pub refreshes: u32,
    pub save_count: u32,
    pub notice: String,
    pub notice_visible: bool,
    pub notice_id: u64,
}

pub struct StudioView {
    pub page: Page,
    pub saved: WorkspaceView,
    pub draft: WorkspaceView,
    pub editing: bool,
    pub confirming_discard: bool,
    pub dark: bool,
    pub reduced_motion: bool,
    pub scratch: Seq<char>,
    pub refreshes: int,
    pub save_count: int,
    pub notice: Seq<char>,
    pub notice_visible: bool,
    pub notice_id: int,
}

impl View for Studio {
    type V = StudioView;

    open spec fn view(&self) -> StudioView {
        StudioView {
            page: self.page,
            saved: self.saved@,
            draft: self.draft@,
            editing: self.editing,
            confirming_discard: self.confirming_discard,
            dark: self.dark,
            reduced_motion: self.reduced_motion,
            scratch: self.scratch@,
            refreshes: self.refreshes as int,
            save_count: self.save_count as int,
            notice: self.notice@,
            notice_visible: self.notice_visible,
            notice_id: self.notice_id as int,
        }
    }
}

impl Default for Studio {
    fn default() -> (studio: Self)
        ensures
            studio@ == (StudioView {
                page: Page::Overview,
                saved: default_workspace(),
                draft: default_workspace(),
                editing: false,
                confirming_discard: false,
                dark: false,
                reduced_motion: false,
                scratch: "Explore a new direction"@,
                refreshes: 0,
                save_count: 0,
                notice: Seq::empty(),
                notice_visible: false,
                notice_id: 0,
            }),
    {
        Studio {
            page: Page::Overview,
            saved: Workspace::default(),
            draft: Workspace::default(),
            editing: false,
            confirming_discard: false,
            dark: false,
            reduced_motion: false,
            scratch: String::from_str("Explore a new direction"),
            refreshes: 0,
            save_count: 0,
            notice: String::new(),
            notice_visible: false,
            notice_id: 0,
        }
    }
}

#[derive(Debug, Clone)]
pub enum Message {
    Page(Page),
    Edit,
    Name(String),
    Email(String),
    Note(String),
    Access(Access),
    Digest(Digest),
    Notifications(bool),
    TeamDefaults,
    Cancel,
    KeepEditing,
    Discard,
    Save,
    Dark(bool),
    ReducedMotion(bool),
    Scratch(String),
    Refresh,
    HideNotice,
}

impl StudioView {
    /// The state after showing a notice.
    pub open spec fn noticed(self, text: Seq<char>) -> StudioView {
        StudioView { notice: text, notice_visible: true, notice_id: self.notice_id + 1, ..self }
    }

    /// The counters the message advances stay in range.
    pub open spec fn can_take(self, message: Message) -> bool {
        match message {
            Message::Save => self.editing && self.draft.valid() ==> self.save_count < u32::MAX && self.notice_id < u64::MAX,
            Message::Refresh => self.refreshes < u32::MAX && self.notice_id < u64::MAX,
            _ => true,
        }
    }

    /// The state after handling `message`.
    pub open spec fn after(self, message: Message) -> StudioView {
        match message {
            Message::Page(page) => StudioView { page, ..self },
            Message::Edit => StudioView { draft: self.saved, editing: true, confirming_discard: false, ..self },
            Message::Name(value) => StudioView { draft: WorkspaceView { name: value@, ..self.draft }, ..self },
            Message::Email(value) => StudioView { draft: WorkspaceView { email: value@, ..self.draft }, ..self },
            Message::Note(value) => StudioView { draft: WorkspaceView { note: value@, ..self.draft }, ..self },
            Message::Access(value) => StudioView { draft: WorkspaceView { access: value, ..self.draft }, ..self },
            Message::Digest(value) => StudioView { draft: WorkspaceView { digest: value, ..self.draft }, ..self },
            Message::Notifications(value) => StudioView {
                draft: WorkspaceView { notifications: value, ..self.draft },
                ..self
            },
            Message::TeamDefaults => StudioView {
                draft: WorkspaceView { digest: Digest::Weekly, notifications: true, ..self.draft },
                ..self
            },
            Message::Cancel => if self.draft != self.saved {
                StudioView { confirming_discard: true, ..self }
            } else {
                StudioView { editing: false, ..self }
            },
            Message::KeepEditing => StudioView { confirming_discard: false, ..self },
            Message::Discard => StudioView { confirming_discard: false, editing: false, draft: self.saved, ..self },
            Message::Save => if self.editing && self.draft.valid() {
                StudioView { saved: self.draft, save_count: self.save_count + 1, editing: false, ..self }.noticed(
                    "Workspace changes saved"@,
                )
            } else {
                self
            },
            Message::Dark(value) => StudioView { dark: value, ..self },
            Message::ReducedMotion(value) => StudioView { reduced_motion: value, ..self },
            Message::Scratch(value) => StudioView { scratch: value@, ..self },
            Message::Refresh => StudioView { refreshes: self.refreshes + 1, ..self }.noticed("Activity is up to date"@),
            Message::HideNotice => StudioView { notice_visible: false, ..self },
        }
    }
}

impl Workspace {
    fn set_name(&mut self, name: String)
        ensures
            final(self)@ == (WorkspaceView { name: name@, ..old(self)@ }),
    {
        self.name = name;
    }

    fn set_email(&mut self, email: String)
        ensures
            final(self)@ == (WorkspaceView { email: email@, ..old(self)@ }),
    {
        self.email = email;
    }

    fn set_note(&mut self, note: String)
        ensures
            final(self)@ == (WorkspaceView { note: note@, ..old(self)@ }),
    {
        self.note = note;
    }

    /// Whether two workspaces hold the same values.
    pub fn same_as(&self, other: &Workspace) -> (same: bool)
        ensures
            same == (self@ == other@),
    {
        self.name == other.name && self.email == other.email && self.note == other.note
            && self.access == other.access && self.digest == other.digest
            && self.notifications == other.notifications
    }
}

impl Studio {
    pub fn update(&mut self, message: Message)
        requires
            old(self)@.can_take(message),
        ensures
            final(self)@ == old(self)@.after(message),
    {
        match message {
            Message::Page(_) | Message::Edit | Message::Name(_) | Message::Email(_) | Message::Note(_)
            | Message::Access(_) | Message::Digest(_) | Message::Notifications(_) | Message::TeamDefaults => {
                self.update_draft(message)
            },
            _ => self.update_session(message),
        }
    }

    fn update_draft(&mut self, message: Message)
        requires
            message is Page || message is Edit || message is Name || message is Email || message is Note
                || message is Access || message is Digest || message is Notifications || message is TeamDefaults,
        ensures
            final(self)@ == old(self)@.after(message),
    {
        match message {
            Message::Page(page) => self.page = page,
            Message::Edit => self.begin_edit(),
            Message::Name(value) => self.draft.set_name(value),
            Message::Email(value) => self.draft.set_email(value),
            Message::Note(value) => self.draft.set_note(value),
            Message::Access(value) => self.draft.access = value,
            Message::Digest(value) => self.draft.digest = value,
            Message::Notifications(value) => self.draft.notifications = value,
            _ => {
                self.draft.digest = Digest::Weekly;
                self.draft.notifications = true;
            },
        }
    }

    fn update_session(&mut self, message: Message)
        requires
            old(self)@.can_take(message),
            !(message is Page || message is Edit || message is Name || message is Email || message is Note
                || message is Access || message is Digest || message is Notifications || message is TeamDefaults),
        ensures
            final(self)@ == old(self)@.after(message),
    {
        match message {
            Message::Cancel => self.cancel(),
            Message::KeepEditing => self.confirming_discard = false,
            Message::Discard => self.discard(),
            Message::Save => self.save(),
            Message::Dark(value) => self.dark = value,
            Message::ReducedMotion(value) => self.reduced_motion = value,
            Message::Scratch(value) => self.scratch = value,
            Message::Refresh => self.refresh(),
            _ => self.notice_visible = false,
        }
    }

    fn begin_edit(&mut self)
        ensures
            final(self)@ == old(self)@.after(Message::Edit),
    {
        self.draft = self.saved.clone();
        self.editing = true;
        self.confirming_discard = false;
    }

    fn cancel(&mut self)
        ensures
            final(self)@ == old(self)@.after(Message::Cancel),
    {
        if !self.draft.same_as(&self.saved) {
            self.confirming_discard = true;
        } else {
            self.editing = false;
        }
    }

    fn discard(&mut self)
        ensures
            final(self)@ == old(self)@.after(Message::Discard),
    {
        self.confirming_discard = false;
        self.editing = false;
        self.draft = self.saved.clone();
    }

    fn save(&mut self)
        requires
            old(self)@.can_take(Message::Save),
        ensures
            final(self)@ == old(self)@.after(Message::Save),
    {
        if self.editing && self.draft.valid() {
            self.saved = self.draft.clone();
            self.save_count = self.save_count + 1;
            self.editing = false;
            self.show_notice("Workspace changes saved");
        }
    }

    fn refresh(&mut self)
        requires
            old(self)@.can_take(Message::Refresh),
        ensures
            final(self)@ == old(self)@.after(Message::Refresh),
    {
        self.refreshes = self.refreshes + 1;
        self.show_notice("Activity is up to date");
    }

    fn show_notice(&mut self, value: &str)
        requires
            old(self).notice_id < u64::MAX,
        ensures
            final(self)@ == old(self)@.noticed(value@),
    {
        self.notice = String::from_str(value);
        self.notice_visible = true;
        self.notice_id = self.notice_id + 1;
    }
}

/// Saving commits the draft only while editing a valid draft; otherwise it
/// changes nothing.
pub proof fn law_save_commits_only_valid_drafts(s: StudioView)
    ensures
        s.editing && s.draft.valid() ==> {
            let t = s.after(Message::Save);
            &&& t.saved == s.draft
            &&& t.save_count == s.save_count + 1
            &&& !t.editing
            &&& t.notice == "Workspace changes saved"@
            &&& t.notice_visible
        },
        !(s.editing && s.draft.valid()) ==> s.after(Message::Save) == s,
{
}

/// Only saving changes the saved workspace.
pub proof fn law_saved_changes_only_on_save(s: StudioView, message: Message)
    requires
        !(message is Save),
    ensures
        s.after(message).saved == s.saved,
        s.after(message).save_count == s.save_count,
{
}

/// Discarding closes the editor and restores the draft to the saved workspace.
pub proof fn law_discard_restores_saved(s: StudioView)
    ensures
        s.after(Message::Discard).draft == s.saved,
        !s.after(Message::Discard).editing,
        !s.after(Message::Discard).confirming_discard,
        s.after(Message::Discard).saved == s.saved,
{
}

/// Editing starts from the saved workspace.
pub proof fn law_edit_starts_from_saved(s: StudioView)
    ensures
        s.after(Message::Edit).draft == s.saved,
        s.after(Message::Edit).editing,
        !s.after(Message::Edit).confirming_discard,
{
}

/// Cancelling an unchanged draft closes the editor; a changed draft asks for
/// confirmation and is kept.
pub proof fn law_cancel_confirms_only_changes(s: StudioView)
    ensures
        s.draft == s.saved ==> !s.after(Message::Cancel).editing,
        s.draft != s.saved ==> s.after(Message::Cancel).confirming_discard
            && s.after(Message::Cancel).draft == s.draft && s.after(Message::Cancel).editing == s.editing,
{
}

/// Each shown notice gets a new id; ids never go back.
pub proof fn law_notice_ids_advance(s: StudioView, message: Message)
    ensures
        s.after(message).notice_id >= s.notice_id,
        s.after(message).notice_id > s.notice_id <==> (message is Refresh || (message is Save && s.editing
            && s.draft.valid())),
{
}

} // verus!
