use avrcomp::Config;

fn toks(words: &[&str]) -> Vec<String> {
    words.iter().map(|w| w.to_string()).collect()
}

#[test]
fn defaults_when_only_file_path() {
    let c = Config::from_args(toks(&["prog", "main"])).unwrap();
    assert_eq!(c.file_path, "main");
    assert_eq!(c.comp_proc, "atmega644p");
    assert_eq!(c.upl_proc, "m644p");
    assert_eq!(c.freq, "12000000");
    assert_eq!(c.prog, "usbasp");
    assert!(c.linked.is_empty());
    assert!(!c.verbose_output);
}

#[test]
fn p_option_values_reversed() {
    let c = Config::from_args(toks(&["prog", "main", "-p", "m328p", "atmega328p"])).unwrap();
    assert_eq!(c.upl_proc, "m328p");
    assert_eq!(c.comp_proc, "atmega328p");
}

#[test]
fn p_option_extra_values_take_last_two() {
    let c = Config::from_args(toks(&["prog", "main", "-p", "a", "b", "c"])).unwrap();
    assert_eq!(c.upl_proc, "b");
    assert_eq!(c.comp_proc, "c");
}

#[test]
fn c_and_f_take_their_value() {
    let c = Config::from_args(toks(&["prog", "main", "-c", "usbtiny", "-f", "8000000"])).unwrap();
    assert_eq!(c.prog, "usbtiny");
    assert_eq!(c.freq, "8000000");
}

#[test]
fn v_sets_verbose() {
    let c = Config::from_args(toks(&["prog", "main", "-v"])).unwrap();
    assert!(c.verbose_output);
}

#[test]
fn l_option_with_no_values_is_empty_not_an_error() {
    let c = Config::from_args(toks(&["prog", "main", "-l", "-v"])).unwrap();
    assert!(c.linked.is_empty());
    assert!(c.verbose_output);
}

#[test]
fn l_option_collects_values_in_order() {
    let c = Config::from_args(toks(&["prog", "main", "-l", "a.c", "b.o", "-v"])).unwrap();
    assert_eq!(c.linked, vec!["a.c".to_string(), "b.o".to_string()]);
}

#[test]
fn last_occurrence_of_an_option_wins() {
    let c = Config::from_args(toks(&["prog", "main", "-c", "x", "-c", "y"])).unwrap();
    assert_eq!(c.prog, "y");
    let c = Config::from_args(toks(&["prog", "main", "-l", "a.c", "-l"])).unwrap();
    assert!(c.linked.is_empty());
}

#[test]
fn unrecognized_options_are_ignored() {
    let c = Config::from_args(toks(&["prog", "main", "-x", "1", "2"])).unwrap();
    assert_eq!(c.comp_proc, "atmega644p");
    assert_eq!(c.upl_proc, "m644p");
    assert!(c.linked.is_empty());
}

#[test]
fn file_path_may_look_like_an_option() {
    let c = Config::from_args(toks(&["prog", "-p"])).unwrap();
    assert_eq!(c.file_path, "-p");
    assert_eq!(c.comp_proc, "atmega644p");
}

#[test]
fn missing_file_path_is_an_error() {
    let e = Config::from_args(toks(&["prog"])).unwrap_err();
    assert_eq!(e, "no file path argument");
    let e = Config::from_args(toks(&[])).unwrap_err();
    assert_eq!(e, "no file path argument");
}

#[test]
fn p_option_with_one_value_is_an_error() {
    let e = Config::from_args(toks(&["prog", "main", "-p", "only"])).unwrap_err();
    assert_eq!(e, "-p expects two arguments [compilation processor] [upload processor]");
}

#[test]
fn c_option_with_no_value_is_an_error() {
    let e = Config::from_args(toks(&["prog", "main", "-c"])).unwrap_err();
    assert_eq!(e, "-c expects one argument [programmer]");
}

#[test]
fn f_option_with_no_value_is_an_error() {
    let e = Config::from_args(toks(&["prog", "main", "-f", "-v"])).unwrap_err();
    assert_eq!(e, "-f expects one argument [frequency]");
}

#[test]
fn value_tokens_before_any_option_are_ignored() {
    let c = Config::from_args(toks(&["prog", "main", "stray", "", "-v"])).unwrap();
    assert_eq!(c.file_path, "main");
    assert_eq!(c.comp_proc, "atmega644p");
    assert!(c.linked.is_empty());
    assert!(c.verbose_output);
}
