use clockify_cli::moment::TimeOfDay;
use clockify_cli::select::{
    run_bool_prompt, run_multi_choice, run_single_choice, run_text_prompt, run_time_prompt,
};

fn lines(xs: &[&str]) -> Vec<String> {
    xs.iter().map(|s| s.to_string()).collect()
}

fn tod(hour: u8, minute: u8) -> TimeOfDay {
    TimeOfDay { hour, minute }
}

#[test]
fn single_choice_picks_the_numbered_item() {
    assert_eq!(run_single_choice(3, &lines(&["2"])), Some(1));
    assert_eq!(run_single_choice(3, &lines(&["1"])), Some(0));
    assert_eq!(run_single_choice(3, &lines(&["3"])), Some(2));
}

#[test]
fn single_choice_retries_zero_out_of_range_and_text() {
    assert_eq!(run_single_choice(3, &lines(&["0"])), None);
    assert_eq!(run_single_choice(3, &lines(&["4"])), None);
    assert_eq!(run_single_choice(3, &lines(&["abc"])), None);
    assert_eq!(run_single_choice(3, &lines(&["0", "4", "abc"])), None);
    assert_eq!(run_single_choice(3, &lines(&["0", "4", "abc", "2"])), Some(1));
}

#[test]
fn single_choice_over_nothing_picks_nothing() {
    assert_eq!(run_single_choice(0, &lines(&["1"])), None);
}

#[test]
fn multi_choice_accumulates_toggles() {
    assert_eq!(run_multi_choice(3, &lines(&["1", "2", "0"])), Some(vec![0, 1]));
    assert_eq!(run_multi_choice(3, &lines(&["0"])), Some(vec![]));
}

#[test]
fn multi_choice_toggle_twice_removes() {
    assert_eq!(run_multi_choice(3, &lines(&["2", "2", "0"])), Some(vec![]));
    assert_eq!(run_multi_choice(3, &lines(&["1", "2", "1", "0"])), Some(vec![1]));
}

#[test]
fn multi_choice_ignores_bad_lines() {
    assert_eq!(run_multi_choice(3, &lines(&["9", "x", "3", "0"])), Some(vec![2]));
}

#[test]
fn time_prompt_accepts_padded_times_only() {
    assert_eq!(run_time_prompt(None, &lines(&["09:30", "0"])), Some(Some(tod(9, 30))));
    assert_eq!(run_time_prompt(None, &lines(&["9:30", "0"])), Some(None));
    assert_eq!(run_time_prompt(None, &lines(&["24:00", "0"])), Some(None));
    assert_eq!(run_time_prompt(None, &lines(&["23:60", "0"])), Some(None));
    assert_eq!(run_time_prompt(None, &lines(&["23:59", "0"])), Some(Some(tod(23, 59))));
}

#[test]
fn time_prompt_rejects_an_end_before_the_start() {
    let start = Some(tod(14, 30));
    assert_eq!(run_time_prompt(start, &lines(&["14:00", "0"])), Some(None));
    assert_eq!(run_time_prompt(start, &lines(&["14:00", "15:00", "0"])), Some(Some(tod(15, 0))));
    assert_eq!(run_time_prompt(start, &lines(&["14:30", "0"])), Some(Some(tod(14, 30))));
}

#[test]
fn time_prompt_confirms_the_last_accepted_time() {
    assert_eq!(run_time_prompt(None, &lines(&["08:00", "09:15", "0"])), Some(Some(tod(9, 15))));
}

#[test]
fn bool_prompt_toggles_and_confirms() {
    assert_eq!(run_bool_prompt(&lines(&["0"])), Some(false));
    assert_eq!(run_bool_prompt(&lines(&["y", "0"])), Some(true));
    assert_eq!(run_bool_prompt(&lines(&["y", "n", "0"])), Some(false));
    assert_eq!(run_bool_prompt(&lines(&["x", "0"])), Some(false));
}

#[test]
fn text_prompt_keeps_the_default_until_replaced() {
    assert_eq!(run_text_prompt("default", &lines(&["0"])), Some("default".to_string()));
    assert_eq!(run_text_prompt("default", &lines(&["hello", "0"])), Some("hello".to_string()));
    assert_eq!(run_text_prompt("", &lines(&["a", "b", "0"])), Some("b".to_string()));
}
