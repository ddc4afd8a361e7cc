use sonictunes::{
    audiofile_to_url, catalog_address, files_url, get_random_audiofile, next_address,
    pick_audiofile, ping_is_ok, ping_url, print_help, process_args, user_agent, AudioFile, Config,
    ProgramOption, SonicTunesError,
};

fn file(id: &str) -> AudioFile {
    AudioFile { id: id.to_string(), path: format!("/m/{id}"), mime: "audio/ogg".to_string() }
}

fn args(list: &[&str]) -> Vec<String> {
    list.iter().map(|s| s.to_string()).collect()
}

#[test]
fn addresses_are_put_behind_the_base() {
    assert_eq!(audiofile_to_url("http://host", &file("abc")), "http://host/file/abc");
    assert_eq!(audiofile_to_url("http://host/", &file("abc")), "http://host/file/abc");
    assert_eq!(audiofile_to_url("http://host///", &file("")), "http://host/file/");
    assert_eq!(audiofile_to_url("", &file("x")), "/file/x");
    assert_eq!(audiofile_to_url("///", &file("x")), "/file/x");
    assert_eq!(files_url("http://host/api/"), "http://host/api/files");
    assert_eq!(ping_url("http://host"), "http://host/ping");
}

#[test]
fn a_track_is_picked_by_its_position() {
    let files = vec![file("a"), file("b")];
    assert_eq!(pick_audiofile(&files, 1), file("b"));
    assert_eq!(pick_audiofile(&files, 0), file("a"));
}

#[test]
fn a_random_track_is_one_of_the_listing() {
    let files = vec![file("a"), file("b"), file("c")];
    let mut seen = [0usize; 3];
    for _ in 0..600 {
        let f = get_random_audiofile(&files).unwrap();
        seen[files.iter().position(|x| *x == f).unwrap()] += 1;
    }
    assert!(seen.iter().all(|n| *n > 0));
    assert_eq!(get_random_audiofile(&vec![file("only")]), Ok(file("only")));
}

#[test]
fn an_empty_listing_gives_no_track() {
    assert_eq!(get_random_audiofile(&Vec::new()), Err(SonicTunesError::CatalogUnavailable));
    assert_eq!(next_address("http://host", Some(Vec::new())), None);
    assert_eq!(next_address("http://host", None), None);
    assert_eq!(
        next_address("http://host/", Some(vec![file("z")])),
        Some("http://host/file/z".to_string())
    );
}

#[test]
fn the_last_argument_is_the_address() {
    assert_eq!(
        process_args(args(&["--verbose", "--volume=30", "http://host"])),
        Ok(vec![
            ProgramOption::URL("http://host".to_string()),
            ProgramOption::Verbose,
            ProgramOption::Volume(30),
        ])
    );
    assert_eq!(
        process_args(args(&["https://host"])),
        Ok(vec![ProgramOption::URL("https://host".to_string())])
    );
}

#[test]
fn help_needs_no_address() {
    assert_eq!(process_args(args(&["--help"])), Ok(vec![ProgramOption::PrintHelp]));
    assert_eq!(
        process_args(args(&["--verbose", "--help"])),
        Ok(vec![ProgramOption::Verbose, ProgramOption::PrintHelp])
    );
    assert_eq!(
        process_args(args(&["--help", "http://host"])),
        Ok(vec![ProgramOption::URL("http://host".to_string()), ProgramOption::PrintHelp])
    );
}

#[test]
fn a_command_line_may_go_without_an_address() {
    assert_eq!(process_args(Vec::new()), Ok(Vec::new()));
    assert_eq!(process_args(args(&["--verbose"])), Ok(vec![ProgramOption::Verbose]));
    assert_eq!(
        process_args(args(&["--volume=30", "--verbose"])),
        Ok(vec![ProgramOption::Volume(30), ProgramOption::Verbose])
    );
}

#[test]
fn what_is_no_option_is_named() {
    assert_eq!(
        process_args(args(&["--bogus", "http://host"])),
        Err(SonicTunesError::InvalidOption("--bogus".to_string()))
    );
    assert_eq!(
        process_args(args(&["--verbose", "-v", "--nope", "http://host"])),
        Err(SonicTunesError::InvalidOption("-v".to_string()))
    );
    assert_eq!(
        process_args(args(&["http://a", "http://b"])),
        Err(SonicTunesError::InvalidOption("http://a".to_string()))
    );
    assert_eq!(
        process_args(args(&["ftp://host"])),
        Err(SonicTunesError::InvalidOption("ftp://host".to_string()))
    );
    assert_eq!(
        process_args(args(&["--bogus", "host"])),
        Err(SonicTunesError::InvalidOption("--bogus".to_string()))
    );
    assert_eq!(
        process_args(args(&["http://host", "--verbose"])),
        Err(SonicTunesError::InvalidOption("http://host".to_string()))
    );
    assert_eq!(
        process_args(args(&["--help", "--help "])),
        Err(SonicTunesError::InvalidOption("--help ".to_string()))
    );
}

#[test]
fn the_address_is_the_command_lines_or_the_one_remembered() {
    let given = Config::from_options(&vec![ProgramOption::URL("http://a".to_string())]);
    let none = Config::from_options(&vec![ProgramOption::Verbose]);
    assert_eq!(catalog_address(&given, None), Ok("http://a".to_string()));
    assert_eq!(catalog_address(&given, Some("http://b".to_string())), Ok("http://a".to_string()));
    assert_eq!(catalog_address(&none, Some("http://b".to_string())), Ok("http://b".to_string()));
    assert_eq!(catalog_address(&none, None), Err(SonicTunesError::InvalidOptionsStructure));
}

#[test]
fn the_volume_lies_between_0_and_100() {
    for (arg, expected) in [
        ("--volume=0", Some(0)),
        ("--volume=100", Some(100)),
        ("--volume=+7", Some(7)),
        ("--volume=-0", Some(0)),
        ("--volume=007", Some(7)),
        ("--volume=101", None),
        ("--volume=-1", None),
        ("--volume=128", None),
        ("--volume=", None),
        ("--volume=ten", None),
        ("--volume=1=2", None),
        ("--volume", None),
        ("--volume=99999999999999999999", None),
    ] {
        let result = process_args(args(&[arg, "http://host"]));
        match expected {
            Some(v) => assert_eq!(
                result,
                Ok(vec![ProgramOption::URL("http://host".to_string()), ProgramOption::Volume(v)])
            ),
            None => assert_eq!(result, Err(SonicTunesError::InvalidOption(arg.to_string()))),
        }
    }
}

#[test]
fn the_configuration_takes_the_first_of_each() {
    let options = vec![
        ProgramOption::URL("http://a".to_string()),
        ProgramOption::Volume(20),
        ProgramOption::Verbose,
        ProgramOption::Volume(40),
    ];
    assert_eq!(
        Config::from_options(&options),
        Config { url: Some("http://a".to_string()), volume: 20, verbose: true, help: false }
    );
    assert_eq!(
        Config::from_options(&vec![ProgramOption::PrintHelp]),
        Config { url: None, volume: 50, verbose: false, help: true }
    );
    assert_eq!(
        Config::from_options(&Vec::new()),
        Config { url: None, volume: 50, verbose: false, help: false }
    );
}

#[test]
fn the_usage_text() {
    assert_eq!(
        print_help("sonictunes"),
        "Usage: sonictunes [OPTIONS] SUBSONICVAULT_URL\n       sonictunes --help\n\
         Options:\n\t --volume=<value>\t(0..100)\n\t --verbose\n\t --help\n"
    );
}

#[test]
fn the_catalog_is_up_when_it_says_ok() {
    assert!(ping_is_ok("ok"));
    assert!(!ping_is_ok("OK"));
    assert!(!ping_is_ok("ok "));
    assert!(!ping_is_ok(""));
    assert_eq!(user_agent("sonictunes", "0.1.0"), "sonictunes/0.1.0");
}
