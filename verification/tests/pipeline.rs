use avrcomp::Config;
use avrcomp::command::Cmd;
use avrcomp::pipeline::{Action, Pipeline};

fn toks(words: &[&str]) -> Vec<String> {
    words.iter().map(|w| w.to_string()).collect()
}

fn config(words: &[&str]) -> Config {
    Config::from_args(toks(words)).unwrap()
}

/// Drives the pipeline, answering success to every action, and returns the
/// actions in order as `(program, args)` pairs; an ensure-directory action
/// is rendered as `("<mkdir>", [path])`.
fn run_all_success(p: &mut Pipeline) -> Vec<(String, Vec<String>)> {
    let mut seen = Vec::new();
    while let Some(action) = p.current_action() {
        match action {
            Action::EnsureDir(path) => seen.push(("<mkdir>".to_string(), vec![path])),
            Action::RunTool(cmd) => seen.push((cmd.program, cmd.args)),
        }
        p.advance(true);
    }
    seen
}

#[test]
fn invalid_linked_filename_rejected_before_any_tool_runs() {
    let c = config(&["prog", "main", "-l", "x"]);
    let e = Pipeline::new(c).unwrap_err();
    assert_eq!(e, "Invalid filename in link arguments!");
}

#[test]
fn one_character_object_entry_also_rejected() {
    let c = config(&["prog", "main", "-l", "lib.c", "o"]);
    let e = Pipeline::new(c).unwrap_err();
    assert_eq!(e, "Invalid filename in link arguments!");
}

#[test]
fn empty_linked_success_invokes_compiler_exactly_once() {
    let c = config(&["prog", "main"]);
    let mut p = Pipeline::new(c).unwrap();
    let seen = run_all_success(&mut p);
    assert_eq!(seen.len(), 4);
    assert_eq!(seen[0], ("<mkdir>".to_string(), vec!["bin".to_string()]));
    assert_eq!(
        seen[1],
        (
            "avr-gcc".to_string(),
            toks(&["-mmcu=atmega644p", "-DF_CPU=12000000", "-Os", "main.c", "-o", "bin/main.elf"])
        )
    );
    assert_eq!(
        seen[2],
        ("avr-objcopy".to_string(), toks(&["-O", "ihex", "bin/main.elf", "bin/main.hex"]))
    );
    assert_eq!(
        seen[3],
        ("avrdude".to_string(), toks(&["-c", "usbasp", "-p", "m644p", "-U", "flash:w:bin/main.hex"]))
    );
    assert_eq!(seen.iter().filter(|(prog, _)| prog == "avr-gcc").count(), 1);
    assert!(p.is_done());
    assert!(!p.has_failed());
    assert!(p.error_message().is_none());
}

#[test]
fn linked_sources_compiled_and_objects_passed_through() {
    let c = config(&["prog", "main", "-l", "lib.c", "util.o"]);
    let mut p = Pipeline::new(c).unwrap();
    let seen = run_all_success(&mut p);
    assert_eq!(seen.len(), 5);
    assert_eq!(seen[0].0, "<mkdir>");
    assert_eq!(
        seen[1],
        (
            "avr-gcc".to_string(),
            toks(&[
                "-c",
                "-mmcu=atmega644p",
                "-DF_CPU=12000000",
                "-Os",
                "lib.c",
                "-o",
                "bin/lib.c.o"
            ])
        )
    );
    assert_eq!(
        seen[2],
        (
            "avr-gcc".to_string(),
            toks(&[
                "-mmcu=atmega644p",
                "-DF_CPU=12000000",
                "-Os",
                "main.c",
                "bin/lib.c.o",
                "util.o",
                "-o",
                "bin/main.elf"
            ])
        )
    );
    assert_eq!(seen[3].0, "avr-objcopy");
    assert_eq!(seen[4].0, "avrdude");
    assert!(p.is_done());
}

#[test]
fn custom_processor_and_frequency_reach_the_commands() {
    let c = config(&["prog", "blinky", "-p", "m328p", "atmega328p", "-f", "8000000", "-c", "usbtiny"]);
    let mut p = Pipeline::new(c).unwrap();
    let seen = run_all_success(&mut p);
    assert_eq!(
        seen[1],
        (
            "avr-gcc".to_string(),
            toks(&["-mmcu=atmega328p", "-DF_CPU=8000000", "-Os", "blinky.c", "-o", "bin/blinky.elf"])
        )
    );
    assert_eq!(
        seen[3],
        (
            "avrdude".to_string(),
            toks(&["-c", "usbtiny", "-p", "m328p", "-U", "flash:w:bin/blinky.hex"])
        )
    );
}

#[test]
fn setup_failure_is_fatal() {
    let c = config(&["prog", "main"]);
    let mut p = Pipeline::new(c).unwrap();
    assert!(matches!(p.current_action(), Some(Action::EnsureDir(_))));
    p.advance(false);
    assert!(p.has_failed());
    assert_eq!(p.error_message(), Some("Failed to create path 'bin'"));
    assert!(p.current_action().is_none());
}

#[test]
fn main_compile_failure_aborts_before_converter_and_uploader() {
    let c = config(&["prog", "main"]);
    let mut p = Pipeline::new(c).unwrap();
    p.advance(true);
    match p.current_action() {
        Some(Action::RunTool(cmd)) => assert_eq!(cmd.program, "avr-gcc"),
        other => panic!("expected the main compile step, got {:?}", other.is_some()),
    }
    p.advance(false);
    assert!(p.has_failed());
    assert!(!p.is_done());
    assert_eq!(p.error_message(), Some("Failed to compile!"));
    assert!(p.current_action().is_none());
    p.advance(true);
    assert!(p.has_failed());
    assert!(p.current_action().is_none());
}

#[test]
fn linked_compile_failure_reported_as_such() {
    let c = config(&["prog", "main", "-l", "lib.c"]);
    let mut p = Pipeline::new(c).unwrap();
    p.advance(true);
    p.advance(false);
    assert_eq!(p.error_message(), Some("Failed to compile linked file!"));
}

#[test]
fn converter_and_uploader_failures_reported_as_such() {
    let c = config(&["prog", "main"]);
    let mut p = Pipeline::new(c).unwrap();
    p.advance(true);
    p.advance(true);
    p.advance(false);
    assert_eq!(p.error_message(), Some("failed to copy objects!"));

    let c = config(&["prog", "main"]);
    let mut p = Pipeline::new(c).unwrap();
    p.advance(true);
    p.advance(true);
    p.advance(true);
    p.advance(false);
    assert_eq!(p.error_message(), Some("failed to upload to microcontroller!"));
}

#[test]
fn verbose_flag_reaches_the_pipeline() {
    let p = Pipeline::new(config(&["prog", "main", "-v"])).unwrap();
    assert!(p.verbose());
    let p = Pipeline::new(config(&["prog", "main"])).unwrap();
    assert!(!p.verbose());
}

#[test]
fn command_line_rendering() {
    let cmd = Cmd { program: "avr-gcc".to_string(), args: toks(&["-c", "lib.c"]) };
    assert_eq!(cmd.command_line(), "avr-gcc -c lib.c");
}
