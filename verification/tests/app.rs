use rustnot::app::{App, Command, Message};
use rustnot::config::{Config, ConfigFileError, Stance};
use rustnot::cycle::{CycleRequest, CycleResult};
use rustnot::signal::TimerSignal;
use rustnot::timer::TimerError;

fn request(stance: Stance, duration: u32, is_initial: bool, toast_duration: u32) -> CycleRequest {
    CycleRequest { stance, duration, is_initial, toast_duration }
}

fn text(s: &str) -> String {
    String::from(s)
}

#[test]
fn the_application_comes_up_asking_for_its_configuration() {
    let (app, first) = App::new();
    assert_eq!(first, Command::LoadConfig);
    assert_eq!(app.config(), Config::default());
    assert!(!app.config_saved());
    assert!(!app.timer_running());
    assert_eq!(app.current_stance(), Stance::Sitting);
    assert_eq!(app.signal(), TimerSignal::Run);
    assert_eq!(app.title(), "rustnot");
}

#[test]
fn the_default_application_is_the_new_one() {
    let app = App::default();
    assert_eq!(app.config(), Config::default());
    assert!(!app.config_saved());
    assert!(!app.timer_running());
}

#[test]
fn a_loaded_configuration_is_taken_and_counts_as_saved() {
    let (mut app, _) = App::new();
    let loaded = Config { sit_time: 30, stand_time: 10, start_stance: Stance::Standing, toast_duration: 5 };
    assert_eq!(app.update(Message::ConfigFileLoaded(Ok(loaded))), Command::Nothing);
    assert_eq!(app.config(), loaded);
    assert!(app.config_saved());
    assert_eq!(app.current_stance(), Stance::Standing);
}

#[test]
fn a_failed_load_changes_nothing() {
    let (mut app, _) = App::new();
    assert_eq!(app.update(Message::ConfigFileLoaded(Err(ConfigFileError::Read))), Command::Nothing);
    assert_eq!(app.update(Message::ConfigFileLoaded(Err(ConfigFileError::ParseFile))), Command::Nothing);
    assert_eq!(app.config(), Config::default());
    assert!(!app.config_saved());
}

#[test]
fn saving_hands_the_configuration_out() {
    let (mut app, _) = App::new();
    app.update(Message::ConfigValueSitTimeChanged(text("50")));
    let expected = Config { sit_time: 50, ..Config::default() };
    assert_eq!(app.update(Message::SaveConfigToFile), Command::SaveConfig(expected));
    assert!(!app.config_saved());
    assert_eq!(app.update(Message::ConfigSavedToFile(Ok(()))), Command::Nothing);
    assert!(app.config_saved());
    assert_eq!(app.save_state_text(), "Config saved");
    assert_eq!(app.update(Message::ConfigSavedToFile(Err(ConfigFileError::Write))), Command::Nothing);
    assert!(!app.config_saved());
    assert_eq!(app.save_state_text(), "Unsaved config");
}

#[test]
fn typed_numbers_go_into_the_configuration() {
    let (mut app, _) = App::new();
    app.update(Message::ConfigSavedToFile(Ok(())));
    assert_eq!(app.update(Message::ConfigValueSitTimeChanged(text("20"))), Command::Nothing);
    assert_eq!(app.config().sit_time, 20);
    assert!(!app.config_saved());
    app.update(Message::ConfigValueStandTimeChanged(text("+5")));
    assert_eq!(app.config().stand_time, 5);
    app.update(Message::ConfigValueToastTimeChanged(text("0")));
    assert_eq!(app.config().toast_duration, 0);
    assert_eq!(
        app.config(),
        Config { sit_time: 20, stand_time: 5, start_stance: Stance::Sitting, toast_duration: 0 }
    );
}

#[test]
fn text_that_is_no_number_is_ignored() {
    let (mut app, _) = App::new();
    app.update(Message::ConfigSavedToFile(Ok(())));
    for typed in ["", "abc", "-1", "4294967296", "1 ", "1.5"] {
        app.update(Message::ConfigValueSitTimeChanged(text(typed)));
        app.update(Message::ConfigValueStandTimeChanged(text(typed)));
        app.update(Message::ConfigValueToastTimeChanged(text(typed)));
    }
    assert_eq!(app.config(), Config::default());
    assert!(app.config_saved());
}

#[test]
fn the_chosen_stance_shows_while_the_timer_rests() {
    let (mut app, _) = App::new();
    app.update(Message::ConfigSavedToFile(Ok(())));
    assert_eq!(app.update(Message::ConfigValueStanceChanged(Stance::Standing)), Command::Nothing);
    assert_eq!(app.config().start_stance, Stance::Standing);
    assert_eq!(app.current_stance(), Stance::Standing);
    assert!(!app.config_saved());
}

#[test]
fn the_chosen_stance_waits_while_the_timer_runs() {
    let (mut app, _) = App::new();
    app.update(Message::StartTimer);
    app.update(Message::ConfigValueStanceChanged(Stance::Standing));
    assert_eq!(app.config().start_stance, Stance::Standing);
    assert_eq!(app.current_stance(), Stance::Sitting);
}

#[test]
fn the_timer_runs_its_cycles_through_the_application() {
    let (mut app, _) = App::new();
    assert_eq!(app.timer_state_text(), "Stopped");
    assert_eq!(app.timer_button_text(), "Start Timer");
    assert_eq!(app.timer_button_message(), Message::StartTimer);

    assert_eq!(app.update(Message::StartTimer), Command::RunCycle(request(Stance::Sitting, 45, true, 7)));
    assert!(app.timer_running());
    assert_eq!(app.timer_state_text(), "Running ...");
    assert_eq!(app.timer_button_text(), "Stop Timer");
    assert_eq!(app.timer_button_message(), Message::StopTimer);

    assert_eq!(
        app.update(Message::TimerCycleFinished(CycleResult::Completed)),
        Command::RunCycle(request(Stance::Standing, 15, false, 7))
    );
    assert_eq!(app.current_stance(), Stance::Standing);

    assert_eq!(app.update(Message::SwitchStance), Command::Nothing);
    assert_eq!(app.signal(), TimerSignal::Skip);
    assert_eq!(
        app.update(Message::TimerCycleFinished(CycleResult::Skipped)),
        Command::RunCycle(request(Stance::Sitting, 45, false, 7))
    );
    assert_eq!(app.signal(), TimerSignal::Run);

    app.update(Message::TimerCycleFinished(CycleResult::Completed));
    assert_eq!(app.update(Message::StopTimer), Command::Nothing);
    assert_eq!(app.signal(), TimerSignal::Abort);
    assert_eq!(app.update(Message::TimerCycleFinished(CycleResult::Aborted)), Command::Nothing);
    assert!(!app.timer_running());
    assert_eq!(app.current_stance(), Stance::Sitting);
    assert_eq!(app.timer_state_text(), "Stopped");
}

#[test]
fn a_second_start_is_ignored_while_the_timer_runs() {
    let (mut app, _) = App::new();
    app.update(Message::StartTimer);
    app.update(Message::TimerCycleFinished(CycleResult::Completed));
    app.update(Message::SwitchStance);
    assert_eq!(app.update(Message::StartTimer), Command::Nothing);
    assert_eq!(app.current_stance(), Stance::Standing);
    assert_eq!(app.signal(), TimerSignal::Skip);
}

#[test]
fn the_timer_refuses_a_zero_duration() {
    let (mut app, _) = App::new();
    app.update(Message::ConfigValueSitTimeChanged(text("0")));
    assert_eq!(app.update(Message::StartTimer), Command::Refused(TimerError::ConfigInvalid));
    assert!(!app.timer_running());
    assert_eq!(app.signal(), TimerSignal::Run);
}

#[test]
fn a_running_session_keeps_the_durations_it_started_with() {
    let (mut app, _) = App::new();
    app.update(Message::StartTimer);
    app.update(Message::ConfigValueStandTimeChanged(text("99")));
    app.update(Message::ConfigValueToastTimeChanged(text("3")));
    assert_eq!(
        app.update(Message::TimerCycleFinished(CycleResult::Completed)),
        Command::RunCycle(request(Stance::Standing, 15, false, 7))
    );
    app.update(Message::StopTimer);
    app.update(Message::TimerCycleFinished(CycleResult::Aborted));
    app.update(Message::ConfigValueStanceChanged(Stance::Standing));
    assert_eq!(app.update(Message::StartTimer), Command::RunCycle(request(Stance::Standing, 99, true, 3)));
}

#[test]
fn stop_and_switch_do_nothing_while_the_timer_rests() {
    let (mut app, _) = App::new();
    assert_eq!(app.update(Message::StopTimer), Command::Nothing);
    assert_eq!(app.update(Message::SwitchStance), Command::Nothing);
    assert_eq!(app.signal(), TimerSignal::Run);
    assert_eq!(app.update(Message::TimerCycleFinished(CycleResult::Completed)), Command::Nothing);
    assert_eq!(app.current_stance(), Stance::Sitting);
    assert!(!app.timer_running());
}

#[test]
fn messages_can_be_cloned() {
    let messages = vec![
        Message::ConfigFileLoaded(Ok(Config::default())),
        Message::ConfigFileLoaded(Err(ConfigFileError::ParseState)),
        Message::SaveConfigToFile,
        Message::ConfigSavedToFile(Ok(())),
        Message::ConfigValueSitTimeChanged(text("12")),
        Message::ConfigValueStandTimeChanged(text("x")),
        Message::ConfigValueStanceChanged(Stance::Standing),
        Message::ConfigValueToastTimeChanged(text("")),
        Message::StartTimer,
        Message::StopTimer,
        Message::TimerCycleFinished(CycleResult::Skipped),
        Message::SwitchStance,
    ];
    for message in &messages {
        assert_eq!(&message.clone(), message);
    }
}
