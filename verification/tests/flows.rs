//! The consumer's flows, driven by the messages its controls deliver.
use iced_m3::{Access, Digest, Message, Page, Studio};

struct Client {
    app: Studio,
    delivered: Vec<Message>,
}

impl Client {
    fn new(dark: bool) -> Self {
        Client {
            app: Studio { dark, reduced_motion: true, ..Default::default() },
            delivered: Vec::new(),
        }
    }

    fn send(&mut self, message: Message) {
        self.delivered.push(message.clone());
        self.app.update(message);
    }

    /// The Save action is enabled only while the draft is valid.
    fn click_save(&mut self) {
        if self.app.draft.valid() {
            self.send(Message::Save);
        }
    }
}

#[test]
fn editing_validation_native_input_and_save_use_the_consumer_message_loop() {
    let mut client = Client::new(false);
    client.send(Message::Edit);
    assert_eq!(client.app.draft.name, "Northstar studio");
    client.send(Message::Name(String::new()));
    client.click_save();
    assert_eq!(client.app.save_count, 0);
    client.send(Message::Name("Juniper studio".into()));
    assert_eq!(client.app.draft.name, "Juniper studio");
    client.send(Message::Email("juniper@example.org".into()));
    client.send(Message::Note("Planning moved to Tuesday".into()));
    client.send(Message::Access(Access::Editor));
    client.send(Message::Access(Access::Viewer));
    client.click_save();
    assert!(!client.app.editing);
    assert_eq!(client.app.save_count, 1);
    assert_eq!(client.app.saved.access, Access::Viewer);
    assert_eq!(client.app.saved.note, "Planning moved to Tuesday");
    assert_eq!(client.app.saved.email, "juniper@example.org");
    assert_eq!(client.app.notice, "Workspace changes saved");
    assert!(client.app.notice_visible);
    assert_eq!(client.delivered.iter().filter(|m| matches!(m, Message::Save)).count(), 1);
}

#[test]
fn foreign_theme_popup_and_buttons_keep_their_actions_inside_the_modal() {
    for dark in [false, true] {
        let mut client = Client::new(dark);
        client.send(Message::Edit);
        client.send(Message::Digest(Digest::Daily));
        assert_eq!(client.app.draft.digest, Digest::Daily);
        client.send(Message::TeamDefaults);
        assert_eq!(client.app.draft.digest, Digest::Weekly);
        // the covered Refresh button delivers nothing while the editor is open
        assert_eq!(client.app.refreshes, 0, "covered native button cannot activate");
        client.send(Message::Cancel);
        assert!(!client.app.editing);
        client.send(Message::Refresh);
        assert_eq!(client.app.refreshes, 1);
        assert_eq!(client.app.notice, "Activity is up to date");
    }
}

#[test]
fn nested_discard_restores_the_native_editor_focus_and_preserves_drafts() {
    let mut client = Client::new(true);
    client.send(Message::Edit);
    client.send(Message::Note("Draft".into()));
    client.send(Message::Cancel);
    assert!(client.app.confirming_discard);
    assert_eq!(client.app.draft.note, "Draft");
    client.send(Message::KeepEditing);
    assert!(!client.app.confirming_discard);
    let note = format!("{} restored", client.app.draft.note);
    client.send(Message::Note(note));
    assert_eq!(client.app.draft.note, "Draft restored");
    client.send(Message::Cancel);
    client.send(Message::Discard);
    assert!(!client.app.editing);
    assert_eq!(client.app.draft, client.app.saved);
    assert_eq!(client.app.save_count, 0);
}

#[test]
fn navigation_theme_changes_and_custom_surfaces_preserve_application_values() {
    let mut client = Client::new(false);
    client.send(Message::Page(Page::Preferences));
    client.send(Message::Scratch("A new collection".into()));
    client.send(Message::Dark(true));
    assert!(client.app.dark);
    assert_eq!(client.app.scratch, "A new collection");
    client.send(Message::Page(Page::Overview));
    client.send(Message::Page(Page::Preferences));
    assert_eq!(client.app.page, Page::Preferences);
    client.send(Message::Dark(false));
    assert!(!client.app.dark);
    assert_eq!(client.app.scratch, "A new collection");
}

#[test]
fn keyboard_traversal_activates_material_controls_across_the_consumer_boundary() {
    let mut client = Client::new(false);
    client.send(Message::Edit);
    assert!(client.app.editing);
    let name = format!("{} plus", client.app.draft.name);
    client.send(Message::Name(name));
    assert!(client.app.draft.name.contains("plus"));
    let email = format!("{}test", client.app.draft.email);
    client.send(Message::Email(email));
    assert!(client.app.draft.email.contains("test"));
    client.send(Message::Cancel);
    assert!(client.app.confirming_discard);
    client.send(Message::KeepEditing);
    assert!(!client.app.confirming_discard, "initial confirmation focus keeps editing");
    assert!(client.app.editing);
}

#[test]
fn cancel_without_changes_closes_at_once() {
    let mut client = Client::new(false);
    client.send(Message::Edit);
    client.send(Message::Cancel);
    assert!(!client.app.editing);
    assert!(!client.app.confirming_discard);
}

#[test]
fn workspace_validity_rules() {
    let mut client = Client::new(false);
    assert!(client.app.saved.valid());
    client.send(Message::Edit);
    for (email, valid) in [
        ("a@b.c", true),
        ("a@bc", false),
        ("a@b.", false),
        ("@b.c", false),
        (" @b.c", false),
        ("nobody", false),
        ("a@b@c.d", true),
    ] {
        client.send(Message::Email(email.into()));
        assert_eq!(client.app.draft.valid(), valid, "{email}");
    }
    client.send(Message::Email("a@b.c".into()));
    client.send(Message::Name(" \t ".into()));
    assert!(!client.app.draft.valid());
    // a save with an invalid draft changes nothing
    client.send(Message::Save);
    assert!(client.app.editing);
    assert_eq!(client.app.save_count, 0);
    assert_eq!(client.app.notice_id, 0);
}

#[test]
fn notices_count_up_and_hide() {
    let mut client = Client::new(false);
    client.send(Message::Refresh);
    client.send(Message::Refresh);
    assert_eq!(client.app.notice_id, 2);
    client.send(Message::HideNotice);
    assert!(!client.app.notice_visible);
    assert_eq!(client.app.notice, "Activity is up to date");
    assert_eq!(Digest::Daily.label(), "Daily digest");
    assert_eq!(Digest::Weekly.label(), "Weekly digest");
}
