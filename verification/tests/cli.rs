use city_pop::cli::{plan, usage_brief, Command};

fn words(list: &[&str]) -> Vec<String> {
    list.iter().map(|word| word.to_string()).collect()
}

#[test]
fn the_brief_names_the_program() {
    assert_eq!(usage_brief("city-pop"), "Usage: city-pop [options] <city>");
    assert_eq!(usage_brief(""), "Usage:  [options] <city>");
}

#[test]
fn help_wins_over_everything_else() {
    assert_eq!(plan(true, None, &words(&[])), Command::Usage);
    assert_eq!(plan(true, None, &words(&["boston"])), Command::Usage);
    assert_eq!(plan(true, Some("cities.csv".to_string()), &words(&["boston"])), Command::Usage);
}

#[test]
fn no_city_means_usage() {
    assert_eq!(plan(false, None, &words(&[])), Command::Usage);
    assert_eq!(plan(false, Some("cities.csv".to_string()), &words(&[])), Command::Usage);
}

#[test]
fn a_city_is_searched_in_the_standard_input() {
    assert_eq!(
        plan(false, None, &words(&["boston"])),
        Command::Search { file: None, city: "boston".to_string() }
    );
}

#[test]
fn a_city_is_searched_in_the_named_file() {
    assert_eq!(
        plan(false, Some("cities.csv".to_string()), &words(&["boston"])),
        Command::Search { file: Some("cities.csv".to_string()), city: "boston".to_string() }
    );
}

#[test]
fn only_the_first_free_argument_is_the_city() {
    assert_eq!(
        plan(false, None, &words(&["new", "york"])),
        Command::Search { file: None, city: "new".to_string() }
    );
}
