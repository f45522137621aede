use nmr_dispatch::read_conf::{read_conf, ConfigError, SimulationPaths};

fn path_of(paths: &SimulationPaths, name: &str) -> Option<String> {
    paths.get(&name.to_string()).cloned()
}

#[test]
fn reads_one_record_per_line() {
    let paths = read_conf("echo:/bin/echo\nsleep:/bin/sleep\n").ok().unwrap();
    assert_eq!(path_of(&paths, "echo"), Some("/bin/echo".to_string()));
    assert_eq!(path_of(&paths, "sleep"), Some("/bin/sleep".to_string()));
    assert_eq!(path_of(&paths, "cat"), None);
}

#[test]
fn the_last_line_needs_no_line_ending() {
    let paths = read_conf("a:1\nb:2").ok().unwrap();
    assert_eq!(path_of(&paths, "a"), Some("1".to_string()));
    assert_eq!(path_of(&paths, "b"), Some("2".to_string()));
}

#[test]
fn an_empty_text_is_an_empty_mapping() {
    let paths = read_conf("").ok().unwrap();
    assert_eq!(path_of(&paths, ""), None);
    assert_eq!(path_of(&paths, "a"), None);
}

#[test]
fn a_name_that_repeats_takes_its_last_path() {
    let paths = read_conf("sim:/old\nother:/x\nsim:/new\n").ok().unwrap();
    assert_eq!(path_of(&paths, "sim"), Some("/new".to_string()));
    assert_eq!(path_of(&paths, "other"), Some("/x".to_string()));
}

#[test]
fn the_first_colon_parts_name_and_path() {
    let paths = read_conf("win:C:\\tools\\sim.exe\nurl:a:b:c").ok().unwrap();
    assert_eq!(path_of(&paths, "win"), Some("C:\\tools\\sim.exe".to_string()));
    assert_eq!(path_of(&paths, "url"), Some("a:b:c".to_string()));
    assert_eq!(path_of(&paths, "win:C"), None);
}

#[test]
fn name_and_path_may_be_empty() {
    let paths = read_conf("a:\n:b\n").ok().unwrap();
    assert_eq!(path_of(&paths, "a"), Some("".to_string()));
    assert_eq!(path_of(&paths, ""), Some("b".to_string()));
    let only_colon = read_conf(":").ok().unwrap();
    assert_eq!(path_of(&only_colon, ""), Some("".to_string()));
}

#[test]
fn a_line_without_a_colon_is_malformed() {
    assert_eq!(read_conf("echo /bin/echo").err(), Some(ConfigError::Malformed));
    assert_eq!(read_conf("a:1\nbroken\nb:2\n").err(), Some(ConfigError::Malformed));
    assert_eq!(read_conf("a:1\nb:2\nbroken").err(), Some(ConfigError::Malformed));
}

#[test]
fn an_empty_line_is_malformed() {
    assert_eq!(read_conf("\n").err(), Some(ConfigError::Malformed));
    assert_eq!(read_conf("a:1\n\nb:2\n").err(), Some(ConfigError::Malformed));
    assert_eq!(read_conf("a:1\n\n").err(), Some(ConfigError::Malformed));
}

#[test]
fn a_carriage_return_before_the_newline_is_part_of_the_line_ending() {
    let paths = read_conf("a:1\r\nb:2\r\n").ok().unwrap();
    assert_eq!(path_of(&paths, "a"), Some("1".to_string()));
    assert_eq!(path_of(&paths, "b"), Some("2".to_string()));
}

#[test]
fn a_carriage_return_elsewhere_is_kept() {
    let paths = read_conf("a:1\r\r\nb:x\ry\nc:3\r").ok().unwrap();
    assert_eq!(path_of(&paths, "a"), Some("1\r".to_string()));
    assert_eq!(path_of(&paths, "b"), Some("x\ry".to_string()));
    assert_eq!(path_of(&paths, "c"), Some("3\r".to_string()));
    assert_eq!(read_conf("a:1\n\r\n").err(), Some(ConfigError::Malformed));
}

#[test]
fn text_beyond_ascii_is_split_by_characters() {
    let paths = read_conf("größe:/opt/mesure/été\n模拟:/usr/bin/模拟器\n").ok().unwrap();
    assert_eq!(path_of(&paths, "größe"), Some("/opt/mesure/été".to_string()));
    assert_eq!(path_of(&paths, "模拟"), Some("/usr/bin/模拟器".to_string()));
}

#[test]
fn blanks_belong_to_name_and_path() {
    let paths = read_conf(" a : b \n").ok().unwrap();
    assert_eq!(path_of(&paths, " a "), Some(" b ".to_string()));
    assert_eq!(path_of(&paths, "a"), None);
}

#[test]
fn a_new_mapping_knows_no_name() {
    let paths = SimulationPaths::new();
    assert_eq!(path_of(&paths, "echo"), None);
}

#[test]
fn insert_replaces_what_a_name_stood_for() {
    let mut paths = SimulationPaths::new();
    paths.insert("a".to_string(), "1".to_string());
    paths.insert("b".to_string(), "2".to_string());
    assert_eq!(path_of(&paths, "a"), Some("1".to_string()));
    paths.insert("a".to_string(), "3".to_string());
    assert_eq!(path_of(&paths, "a"), Some("3".to_string()));
    assert_eq!(path_of(&paths, "b"), Some("2".to_string()));
    assert_eq!(path_of(&paths, "c"), None);
}
