use cubeos_service::gateway::{
    handle_error, invocation, menu, prepare, render, selection, shown, Invocation, Journal,
    Mode, Outgoing, Session, Step, Turn,
};
use cubeos_service::registry::{CommandID, Registry};
use cubeos_service::{CodecFault, Error};

fn words(list: &[&str]) -> Vec<String> {
    list.iter().map(|s| s.to_string()).collect()
}

fn registry() -> Registry {
    Registry::new(words(&["Ping", "SetPower"])).unwrap()
}

#[test]
fn a_short_command_line_opens_the_menu() {
    assert_eq!(Mode::select(&words(&[])), (Mode::Terminal, None));
    assert_eq!(Mode::select(&words(&["app"])), (Mode::Terminal, None));
    assert_eq!(Mode::select(&words(&["app", "-c", "cfg"])), (Mode::Terminal, None));
    assert_eq!(Mode::select(&words(&["app", "-s", "-p"])), (Mode::Terminal, None));
}

#[test]
fn flags_select_the_mode() {
    assert_eq!(
        Mode::select(&words(&["app", "-c", "cfg", "-s"])),
        (Mode::Terminal, Some("-s".to_string()))
    );
    assert_eq!(
        Mode::select(&words(&["app", "-s", "cfg", "{\"Ping\":", "null}"])),
        (Mode::Terminal, Some("{\"Ping\":null}".to_string()))
    );
    assert_eq!(Mode::select(&words(&["app", "-c", "cfg", "-p"])), (Mode::Input, None));
    assert_eq!(
        Mode::select(&words(&["app", "-c", "cfg", "-p", "-s"])),
        (Mode::Terminal, Some("-p-s".to_string()))
    );
    assert_eq!(
        Mode::select(&words(&["app", "-c", "cfg", "SetPower", "true"])),
        (Mode::Run, Some("SetPowertrue".to_string()))
    );
    assert_eq!(
        Mode::select(&words(&["app", "-c", "cfg", ""])),
        (Mode::Run, Some(String::new()))
    );
}

#[test]
fn words_name_an_operation_and_its_arguments() {
    let registry = registry();
    assert_eq!(
        invocation(&registry, &words(&["SetPower", "true"])),
        Ok(Invocation { id: CommandID { index: 1 }, args: words(&["true"]) })
    );
    assert_eq!(
        invocation(&registry, &words(&["Ping"])),
        Ok(Invocation { id: CommandID { index: 0 }, args: vec![] })
    );
    assert_eq!(
        invocation(&registry, &words(&["Ping", "1", "[2,3]", "\"x\""])),
        Ok(Invocation { id: CommandID { index: 0 }, args: words(&["1", "[2,3]", "\"x\""]) })
    );
}

#[test]
fn words_that_name_no_operation_are_refused() {
    let registry = registry();
    assert_eq!(invocation(&registry, &words(&[])), Err(Error::NoCmd));
    assert_eq!(invocation(&registry, &words(&["Reboot", "now"])), Err(Error::NoCmd));
    assert_eq!(invocation(&registry, &words(&["true", "SetPower"])), Err(Error::NoCmd));
}

#[test]
fn the_menu_lists_the_operations_in_order() {
    let registry = registry();
    assert_eq!(menu(&registry), words(&["Ping", "SetPower"]));
    assert_eq!(selection(&registry, 0), Ok(CommandID { index: 0 }));
    assert_eq!(selection(&registry, 1), Ok(CommandID { index: 1 }));
    assert_eq!(selection(&registry, 2), Err(Error::NoCmd));
    assert_eq!(selection(&registry, usize::MAX), Err(Error::NoCmd));
    for (position, name) in menu(&registry).iter().enumerate() {
        let id = selection(&registry, position).unwrap();
        assert_eq!(registry.try_from_name(name), Ok(id));
        assert_eq!(registry.try_into_code(id), Ok(position as u16 + 1));
    }
}

#[test]
fn errors_are_described_for_display() {
    assert_eq!(handle_error(&Error::NoCmd, "pin stuck"), "No Command with matching CommandID");
    assert_eq!(handle_error(&Error::ServiceError(2), "pin stuck"), "pin stuck");
    assert_eq!(handle_error(&Error::ServiceErrorX(2, 0), "pin stuck"), "Service Error");
    assert_eq!(handle_error(&Error::Io(22), ""), "IO Error");
}

#[test]
fn outcomes_are_rendered_as_text() {
    assert_eq!(render(Ok("{\n  \"volts\": 5\n}".to_string()), "x"), "{\n  \"volts\": 5\n}");
    assert_eq!(render(Err(Error::Other), "x"), "\"Other Error\"");
    assert_eq!(render(Err(Error::ServiceError(1)), "say \"hi\"\n"), "\"say \\\"hi\\\"\\n\"");
    assert_eq!(render(Err(Error::Io(22)), "x"), serde_json::to_string_pretty("IO Error").unwrap());
}

#[test]
fn a_command_is_sent_only_when_its_arguments_were_converted() {
    let registry = registry();
    let set_power = CommandID { index: 1 };
    assert_eq!(
        prepare(&registry, set_power, Ok(Ok(bincode::serialize(&(true,)).unwrap())), "x"),
        Outgoing::Send(vec![0, 2, 1])
    );
    assert_eq!(
        prepare(&registry, set_power, Err(Error::WrongNoArgs), "x"),
        Outgoing::Show("\"Wrong Number of Arguments\"".to_string())
    );
    assert_eq!(
        prepare(&registry, set_power, Err(Error::ServiceError(1)), "out of range"),
        Outgoing::Show("\"out of range\"".to_string())
    );
    assert_eq!(
        prepare(&registry, set_power, Ok(Err(CodecFault::SizeLimit)), "x"),
        Outgoing::Show("\"bincode Error\"".to_string())
    );
    assert_eq!(
        prepare(&registry, CommandID { index: 2 }, Ok(Ok(vec![1])), "x"),
        Outgoing::Show("\"No Command with matching CommandID\"".to_string())
    );
    assert_eq!(
        prepare(&registry, CommandID { index: 2 }, Ok(Err(CodecFault::SizeLimit)), "x"),
        Outgoing::Show("\"No Command with matching CommandID\"".to_string())
    );
}

#[test]
fn what_is_shown_is_the_text_or_the_message() {
    assert_eq!(shown(Ok("\"a\"".to_string())), "\"a\"");
    assert_eq!(shown(Err("key must be a string".to_string())), "key must be a string");
}

#[test]
fn journals_have_their_files() {
    assert_eq!(Journal::Commands.file_name(), "command.txt");
    assert_eq!(Journal::Output.file_name(), "output.txt");
}

#[test]
fn a_session_that_runs_one_command() {
    let session = Session::new("demo".to_string(), &words(&["demo", "-c", "cfg", "{\"Ping\":null}"]));
    assert_eq!(session.mode, Mode::Run);
    assert_eq!(session.start(), Step::Forward("{\"Ping\":null}".to_string()));
    let turn = session.answered("Success".to_string());
    assert_eq!(
        turn,
        Turn {
            print: Some("demo: \"Success\"".to_string()),
            record: Some((Journal::Output, "demo: \"Success\"".to_string())),
            next: Step::Done,
        }
    );
    assert_eq!(
        session.entered(Ok("x".to_string())),
        Turn { print: None, record: None, next: Step::Done }
    );
}

#[test]
fn a_session_that_collects_commands() {
    let session = Session::new("demo".to_string(), &words(&["demo", "-c", "cfg", "-p"]));
    assert_eq!(session.mode, Mode::Input);
    assert_eq!(session.command, None);
    assert_eq!(session.start(), Step::Prompt);
    assert_eq!(
        session.entered(Ok("{\"Ping\":null}".to_string())),
        Turn {
            print: Some("Write to file: demo: {\"Ping\":null}".to_string()),
            record: Some((Journal::Commands, "demo: {\"Ping\":null}".to_string())),
            next: Step::Prompt,
        }
    );
    assert_eq!(
        session.entered(Err(Error::NoCmd)),
        Turn {
            print: Some("No Command with matching CommandID".to_string()),
            record: None,
            next: Step::Prompt,
        }
    );
    assert_eq!(
        session.answered("x".to_string()),
        Turn { print: None, record: None, next: Step::Prompt }
    );
}

#[test]
fn a_session_at_the_menu() {
    let plain = Session::new("demo".to_string(), &words(&["demo"]));
    assert_eq!(plain.mode, Mode::Terminal);
    assert_eq!(plain.start(), Step::Prompt);
    assert_eq!(
        plain.entered(Ok("cmd".to_string())),
        Turn { print: None, record: None, next: Step::Forward("cmd".to_string()) }
    );
    assert_eq!(
        plain.answered("line\n2".to_string()),
        Turn { print: Some("line\n2".to_string()), record: None, next: Step::Prompt }
    );
    assert_eq!(
        plain.entered(Err(Error::Io(13))),
        Turn { print: Some("IO Error".to_string()), record: None, next: Step::Prompt }
    );
    let recording = Session::new("demo".to_string(), &words(&["demo", "-c", "cfg", "-s"]));
    assert_eq!(recording.mode, Mode::Terminal);
    assert_eq!(
        recording.answered("line\n2".to_string()),
        Turn {
            print: Some("line\n2".to_string()),
            record: Some((Journal::Output, "demo: \"line\\n2\"".to_string())),
            next: Step::Prompt,
        }
    );
}
