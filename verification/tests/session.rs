use resume::pdf::{Action, BuildError, Change, Event, Mode, Phase, Session};
use resume::resume::{Contact, Educations, Experiences, Projects, Resume, Skills};

fn sample() -> Resume {
    Resume {
        contact: Contact {
            name: "A&B".to_string(),
            email: "a@b.com".to_string(),
            github: "ab".to_string(),
        },
        education: Educations(vec![]),
        experience: Experiences(vec![]),
        projects: Projects(vec![]),
        skills: Skills(vec![]),
    }
}

fn read(path: &str) -> Action {
    Action::Read { path: path.to_string() }
}

#[test]
fn new_session_is_idle() {
    let s = Session::new("resume.yaml");
    assert_eq!(s.phase(), Phase::Idle);
    assert_eq!(s.mode(), Mode::Once);
}

#[test]
fn build_goes_through_every_step() {
    let mut s = Session::new("cv/resume.yaml");
    assert_eq!(s.build(), read("cv/resume.yaml"));
    assert_eq!(s.phase(), Phase::Reading);
    assert_eq!(
        s.step(Event::Read("contact: x".to_string())),
        Action::Parse { text: "contact: x".to_string() }
    );
    assert_eq!(s.phase(), Phase::Parsing);
    let markup = sample().to_tex();
    assert_eq!(
        s.step(Event::Parsed(sample())),
        Action::WriteMarkup { name: "resume.tex".to_string(), text: markup.clone() }
    );
    assert_eq!(s.phase(), Phase::WritingMarkup);
    assert_eq!(s.step(Event::Written), Action::Compile { markup });
    assert_eq!(s.phase(), Phase::Compiling);
    assert_eq!(
        s.step(Event::Compiled(vec![37, 80, 68, 70])),
        Action::WriteOutput { name: "resume.pdf".to_string(), bytes: vec![37, 80, 68, 70] }
    );
    assert_eq!(s.phase(), Phase::WritingOutput);
    assert_eq!(s.step(Event::Written), Action::Finish);
    assert_eq!(s.phase(), Phase::Idle);
}

#[test]
fn markup_only_build_ends_when_the_markup_is_written() {
    let mut s = Session::new("resume.yaml").markup_only();
    s.build();
    s.step(Event::Read(String::new()));
    let action = s.step(Event::Parsed(sample()));
    assert!(matches!(action, Action::WriteMarkup { .. }));
    assert_eq!(s.step(Event::Written), Action::Finish);
    assert_eq!(s.phase(), Phase::Idle);
}

#[test]
fn failure_aborts_a_single_build_with_its_kind() {
    let mut s = Session::new("resume.yaml");
    s.build();
    assert_eq!(s.step(Event::Failed), Action::Abort { error: BuildError::FileRead });
    assert_eq!(s.phase(), Phase::Idle);

    s.build();
    s.step(Event::Read(String::new()));
    assert_eq!(s.step(Event::Failed), Action::Abort { error: BuildError::Schema });
    assert_eq!(s.phase(), Phase::Idle);

    s.build();
    s.step(Event::Read(String::new()));
    s.step(Event::Parsed(sample()));
    assert_eq!(s.step(Event::Failed), Action::Abort { error: BuildError::FileWrite });

    s.build();
    s.step(Event::Read(String::new()));
    s.step(Event::Parsed(sample()));
    s.step(Event::Written);
    assert_eq!(s.step(Event::Failed), Action::Abort { error: BuildError::Compilation });

    s.build();
    s.step(Event::Read(String::new()));
    s.step(Event::Parsed(sample()));
    s.step(Event::Written);
    s.step(Event::Compiled(vec![]));
    assert_eq!(s.step(Event::Failed), Action::Abort { error: BuildError::FileWrite });
    assert_eq!(s.phase(), Phase::Idle);
}

#[test]
fn source_that_does_not_parse_writes_nothing() {
    for watch in [false, true] {
        let mut s = Session::new("resume.yaml");
        let mut actions = Vec::new();
        if watch {
            actions.push(s.watch());
            actions.push(s.step(Event::Changed(Change::WriteClosed)));
        } else {
            actions.push(s.build());
        }
        actions.push(s.step(Event::Read("contact: {name: x}".to_string())));
        actions.push(s.step(Event::Failed));
        for a in actions.iter() {
            assert!(!matches!(a, Action::WriteMarkup { .. } | Action::WriteOutput { .. }));
        }
        let last = actions.last().unwrap();
        if watch {
            assert_eq!(*last, Action::Report { error: BuildError::Schema });
            assert_eq!(s.phase(), Phase::Waiting);
        } else {
            assert_eq!(*last, Action::Abort { error: BuildError::Schema });
            assert_eq!(s.phase(), Phase::Idle);
        }
    }
}

#[test]
fn watch_rebuilds_on_each_closed_write() {
    let mut s = Session::new("resume.yaml");
    assert_eq!(s.watch(), Action::Watch { path: "resume.yaml".to_string() });
    assert_eq!(s.phase(), Phase::Waiting);
    assert_eq!(s.mode(), Mode::Watch);
    assert_eq!(s.step(Event::Changed(Change::Other)), Action::Wait);
    assert_eq!(s.phase(), Phase::Waiting);
    for _ in 0..2 {
        assert_eq!(s.step(Event::Changed(Change::WriteClosed)), read("resume.yaml"));
        s.step(Event::Read(String::new()));
        s.step(Event::Parsed(sample()));
        s.step(Event::Written);
        s.step(Event::Compiled(vec![1]));
        assert_eq!(s.step(Event::Written), Action::Wait);
        assert_eq!(s.phase(), Phase::Waiting);
    }
    assert_eq!(s.step(Event::Closed), Action::Finish);
    assert_eq!(s.phase(), Phase::Idle);
}

#[test]
fn watch_reports_a_failure_and_goes_on() {
    let mut s = Session::new("resume.yaml");
    s.watch();
    s.step(Event::Changed(Change::WriteClosed));
    assert_eq!(s.step(Event::Failed), Action::Report { error: BuildError::FileRead });
    assert_eq!(s.phase(), Phase::Waiting);
    assert_eq!(s.step(Event::Changed(Change::WriteClosed)), read("resume.yaml"));
    s.step(Event::Read(String::new()));
    s.step(Event::Parsed(sample()));
    s.step(Event::Written);
    assert_eq!(s.step(Event::Failed), Action::Report { error: BuildError::Compilation });
    assert_eq!(s.phase(), Phase::Waiting);
    assert_eq!(s.mode(), Mode::Watch);
}

#[test]
fn event_that_is_not_awaited_changes_nothing() {
    let mut s = Session::new("resume.yaml");
    assert_eq!(s.step(Event::Written), Action::Nothing);
    assert_eq!(s.step(Event::Failed), Action::Nothing);
    assert_eq!(s.step(Event::Changed(Change::WriteClosed)), Action::Nothing);
    assert_eq!(s.phase(), Phase::Idle);
    s.build();
    assert_eq!(s.step(Event::Changed(Change::WriteClosed)), Action::Nothing);
    assert_eq!(s.step(Event::Compiled(vec![])), Action::Nothing);
    assert_eq!(s.step(Event::Parsed(sample())), Action::Nothing);
    assert_eq!(s.phase(), Phase::Reading);
    s.watch();
    assert_eq!(s.step(Event::Read(String::new())), Action::Nothing);
    assert_eq!(s.step(Event::Failed), Action::Nothing);
    assert_eq!(s.phase(), Phase::Waiting);
}

#[test]
fn rendered_markup_of_the_build_escapes_the_name() {
    let mut s = Session::new("resume.yaml");
    s.build();
    s.step(Event::Read(String::new()));
    match s.step(Event::Parsed(sample())) {
        Action::WriteMarkup { name, text } => {
            assert_eq!(name, "resume.tex");
            assert!(text.contains("A\\&B"));
            assert_eq!(text.matches('&').count(), 1);
        }
        other => panic!("{:?}", other),
    }
}
