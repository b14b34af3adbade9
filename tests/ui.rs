use keyword_encryptor::ui::{App, Command, Message};

#[test]
fn fresh_app_is_not_ready() {
    let app = App::default();
    assert!(!app.is_ready());
    assert!(app.controls_enabled());
    assert!(!app.can_start());
}

#[test]
fn ready_after_all_inputs() {
    let mut app = App::default();
    assert!(matches!(app.update(Message::InputChanged(String::from("a.txt"))), Command::Nothing));
    assert!(!app.is_ready());
    assert!(matches!(app.update(Message::OutputChanged(String::from("b.txt"))), Command::Nothing));
    assert!(!app.is_ready());
    assert!(matches!(app.update(Message::KeywordChanged(String::from("pw"))), Command::Nothing));
    assert!(app.is_ready());
    assert!(app.can_start());
}

#[test]
fn encrypt_starts_a_run_then_completes() {
    let mut app = App::default();
    app.update(Message::InputChanged(String::from("a.txt")));
    app.update(Message::OutputChanged(String::from("b.txt")));
    app.update(Message::KeywordChanged(String::from("pw")));
    match app.update(Message::Encrypt) {
        Command::RunEncryption(enc) => {
            assert_eq!(enc.input_file, "a.txt");
            assert_eq!(enc.output_file, "b.txt");
            assert_eq!(enc.keyword, "pw");
        }
        _ => panic!("expected a run"),
    }
    assert!(app.is_running);
    assert!(!app.controls_enabled());
    assert!(!app.can_start());
    assert!(matches!(app.update(Message::Completed), Command::Nothing));
    assert!(!app.is_running);
    assert!(app.is_completed);
    assert!(!app.can_start());
}

#[test]
fn dialogs_and_exit() {
    let mut app = App::default();
    assert!(matches!(app.update(Message::OpenFile), Command::PickSourceFile));
    assert!(matches!(app.update(Message::SaveFile), Command::PickDestinationFile));
    assert!(matches!(app.update(Message::FileCancelled), Command::Nothing));
    assert!(matches!(app.update(Message::Exit), Command::CloseWindow));
    assert!(!app.is_running);
    assert!(app.input_file.is_empty());
}
