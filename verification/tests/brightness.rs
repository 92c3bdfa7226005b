use frob::brightness::{
    cmd_decrease, cmd_get, cmd_increase, cmd_list, cmd_set, get_all_backlight_infos,
    get_backlight_info, guess_best_backlight, read_u32, run, Action, BacklightError,
    BacklightInfo, Cli, DeviceError, Reading,
};

fn backlight(name: &str, brightness: u32, max_brightness: u32) -> BacklightInfo {
    BacklightInfo {
        name: name.to_string(),
        brightness,
        max_brightness,
        actual_brightness: brightness,
    }
}

fn reading(name: &str, brightness: &str, max_brightness: &str, actual_brightness: &str) -> Reading {
    Reading {
        name: name.to_string(),
        brightness: brightness.to_string(),
        max_brightness: max_brightness.to_string(),
        actual_brightness: actual_brightness.to_string(),
    }
}

fn saved(action: Result<Action, BacklightError>) -> u32 {
    match action {
        Ok(Action::Save(call)) => call.brightness,
        other => panic!("expected a call, got {:?}", other),
    }
}

#[test]
fn the_percentage_is_the_share_of_the_maximum() {
    assert_eq!(backlight("a", 128, 255).brightness_percent().displayed(), 50);
    assert_eq!(backlight("a", 255, 255).brightness_percent().displayed(), 100);
    assert_eq!(backlight("a", 0, 255).brightness_percent().displayed(), 0);
    assert_eq!(backlight("a", 48000, 96000).brightness_percent().displayed(), 50);
    assert_eq!(backlight("a", 1, 3).brightness_percent().displayed(), 33);
}

#[test]
fn the_percentage_of_a_device_without_levels_is_zero() {
    assert_eq!(backlight("a", 0, 0).brightness_percent().displayed(), 0);
    assert_eq!(backlight("a", 7, 0).brightness_percent().displayed(), 0);
    assert_eq!(backlight("a", 7, 0).brightness_percent().rounded(), 0);
}

#[test]
fn the_percentage_may_be_more_than_one_hundred() {
    assert_eq!(backlight("a", 300, 200).brightness_percent().displayed(), 150);
}

#[test]
fn setting_a_percentage_rounds_the_level_down() {
    let mut info = backlight("a", 0, 255);
    info.set_brightness_percent(50);
    assert_eq!(info.brightness, 127);
    info.set_brightness_percent(100);
    assert_eq!(info.brightness, 255);
    info.set_brightness_percent(1);
    assert_eq!(info.brightness, 2);
}

#[test]
fn setting_a_percentage_leaves_the_rest_of_the_state() {
    let mut info = BacklightInfo {
        name: "intel_backlight".to_string(),
        brightness: 10,
        max_brightness: 937,
        actual_brightness: 11,
    };
    info.set_brightness_percent(33);
    assert_eq!(info.name, "intel_backlight");
    assert_eq!(info.brightness, 309);
    assert_eq!(info.max_brightness, 937);
    assert_eq!(info.actual_brightness, 11);
}

#[test]
fn a_level_of_zero_is_forced_to_one() {
    let mut info = backlight("a", 100, 255);
    info.set_brightness_percent(0);
    assert_eq!(info.brightness, 1);
    let mut coarse = backlight("a", 10, 50);
    coarse.set_brightness_percent(1);
    assert_eq!(coarse.brightness, 1);
    let mut none = backlight("a", 0, 0);
    none.set_brightness_percent(100);
    assert_eq!(none.brightness, 1);
}

#[test]
fn a_percentage_above_one_hundred_sets_the_maximum() {
    let mut info = backlight("a", 0, 255);
    info.set_brightness_percent(101);
    assert_eq!(info.brightness, 255);
    info.set_brightness_percent(255);
    assert_eq!(info.brightness, 255);
    let mut large = backlight("a", 0, u32::MAX);
    large.set_brightness_percent(255);
    assert_eq!(large.brightness, u32::MAX);
}

#[test]
fn a_percentage_that_was_set_is_shown_again() {
    for max in [200u32, 255, 937, 1000, 7500, 96000, u32::MAX] {
        for percent in 0..=100u8 {
            let mut info = backlight("a", 0, max);
            info.set_brightness_percent(percent);
            assert_eq!(info.brightness_percent().displayed(), u64::from(percent), "max {}", max);
        }
    }
}

#[test]
fn a_coarse_device_does_not_show_every_percentage_again() {
    let mut info = backlight("a", 0, 7);
    info.set_brightness_percent(50);
    assert_eq!(info.brightness, 3);
    assert_eq!(info.brightness_percent().displayed(), 43);
    let mut other = backlight("a", 0, 101);
    other.set_brightness_percent(99);
    assert_eq!(other.brightness, 99);
    assert_eq!(other.brightness_percent().displayed(), 98);
}

#[test]
fn what_is_shown_again_is_told_by_what_rounding_down_lost() {
    for max in 1..=250u64 {
        for percent in 0..=100u64 {
            let level = percent * max / 100;
            if level == 0 {
                continue;
            }
            let lost = percent * max % 100;
            let mut info = backlight("a", 0, max as u32);
            info.set_brightness_percent(percent as u8);
            assert_eq!(u64::from(info.brightness), level);
            let shown_again = info.brightness_percent().displayed() == percent;
            assert_eq!(shown_again, 2 * lost < max || (2 * lost == max && percent % 2 == 0));
        }
    }
}

#[test]
fn saving_calls_the_session_manager() {
    let call = backlight("intel_backlight", 42, 255).save_brightness();
    assert_eq!(call.destination, "org.freedesktop.login1");
    assert_eq!(call.path, "/org/freedesktop/login1/session/auto");
    assert_eq!(call.interface, "org.freedesktop.login1.Session");
    assert_eq!(call.method, "SetBrightness");
    assert_eq!(call.timeout_secs, 3);
    assert_eq!(call.device_class, "backlight");
    assert_eq!(call.device_name, "intel_backlight");
    assert_eq!(call.brightness, 42);
}

#[test]
fn get_shows_the_first_device() {
    let infos = vec![backlight("a", 128, 255), backlight("b", 255, 255)];
    assert_eq!(cmd_get(infos), Ok(50));
}

#[test]
fn get_shows_a_tie_as_the_even_neighbour() {
    assert_eq!(cmd_get(vec![backlight("a", 1, 8)]), Ok(12));
    assert_eq!(cmd_get(vec![backlight("a", 3, 8)]), Ok(38));
}

#[test]
fn commands_fail_without_a_device() {
    assert_eq!(cmd_get(Vec::new()), Err(BacklightError::NoBacklights));
    assert!(matches!(cmd_set(Vec::new(), 50), Err(BacklightError::NoBacklights)));
    assert!(matches!(cmd_increase(Vec::new(), 1), Err(BacklightError::NoBacklights)));
    assert!(matches!(cmd_decrease(Vec::new(), 1), Err(BacklightError::NoBacklights)));
    assert!(matches!(guess_best_backlight(Vec::new()), Err(BacklightError::NoBacklights)));
    assert!(matches!(run(&Cli::Get, Vec::new()), Err(BacklightError::NoBacklights)));
    assert!(matches!(
        run(&Cli::SetPercent { percent: 1 }, Vec::new()),
        Err(BacklightError::NoBacklights)
    ));
    assert!(matches!(
        run(&Cli::Increase { amount: 1 }, Vec::new()),
        Err(BacklightError::NoBacklights)
    ));
    assert!(matches!(
        run(&Cli::Decrease { amount: 1 }, Vec::new()),
        Err(BacklightError::NoBacklights)
    ));
}

#[test]
fn the_best_device_is_the_first() {
    let infos = vec![backlight("first", 1, 2), backlight("second", 3, 4)];
    let best = guess_best_backlight(infos).expect("a device");
    assert_eq!(best.name, "first");
    assert_eq!(best.brightness, 1);
    assert_eq!(best.max_brightness, 2);
}

#[test]
fn set_sets_the_first_device() {
    let infos = vec![backlight("first", 10, 255), backlight("second", 10, 1000)];
    let call = cmd_set(infos, 50).expect("a call");
    assert_eq!(call.device_name, "first");
    assert_eq!(call.brightness, 127);
    assert_eq!(call.method, "SetBrightness");
}

#[test]
fn increase_raises_the_whole_percent() {
    let call = cmd_increase(vec![backlight("a", 127, 255)], 10).expect("a call");
    assert_eq!(call.brightness, 153);
    let call = cmd_increase(vec![backlight("a", 500, 1000)], 1).expect("a call");
    assert_eq!(call.brightness, 510);
}

#[test]
fn decrease_lowers_the_whole_percent() {
    let call = cmd_decrease(vec![backlight("a", 127, 255)], 10).expect("a call");
    assert_eq!(call.brightness, 102);
    let call = cmd_decrease(vec![backlight("a", 500, 1000)], 1).expect("a call");
    assert_eq!(call.brightness, 490);
}

#[test]
fn increase_stops_at_the_maximum() {
    let call = cmd_increase(vec![backlight("a", 950, 1000)], 10).expect("a call");
    assert_eq!(call.brightness, 1000);
    let call = cmd_increase(vec![backlight("a", 1000, 1000)], 1).expect("a call");
    assert_eq!(call.brightness, 1000);
    let call = cmd_increase(vec![backlight("a", 0, 1000)], 255).expect("a call");
    assert_eq!(call.brightness, 1000);
}

#[test]
fn decrease_stops_at_one() {
    let call = cmd_decrease(vec![backlight("a", 30, 1000)], 10).expect("a call");
    assert_eq!(call.brightness, 1);
    let call = cmd_decrease(vec![backlight("a", 1000, 1000)], 100).expect("a call");
    assert_eq!(call.brightness, 1);
    let call = cmd_decrease(vec![backlight("a", 1000, 1000)], 255).expect("a call");
    assert_eq!(call.brightness, 1);
}

#[test]
fn an_amount_above_one_hundred_counts_as_one_hundred() {
    let call = cmd_decrease(vec![backlight("a", 3000, 1000)], 200).expect("a call");
    assert_eq!(call.brightness, 1000);
    let call = cmd_decrease(vec![backlight("a", 1500, 1000)], 200).expect("a call");
    assert_eq!(call.brightness, 500);
}

#[test]
fn a_step_starts_from_the_nearest_whole_percent() {
    let call = cmd_increase(vec![backlight("a", 555, 1000)], 1).expect("a call");
    assert_eq!(call.brightness, 570);
    let call = cmd_decrease(vec![backlight("a", 555, 1000)], 1).expect("a call");
    assert_eq!(call.brightness, 550);
    let call = cmd_increase(vec![backlight("a", 554, 1000)], 1).expect("a call");
    assert_eq!(call.brightness, 560);
}

#[test]
fn increase_then_decrease_comes_back() {
    for max in [201u32, 255, 937, 1000, 96000] {
        for percent in 0..=100u8 {
            let mut start = backlight("a", 0, max);
            start.set_brightness_percent(percent);
            for amount in 0..=(100 - percent) {
                let raised = cmd_increase(vec![start.clone()], amount).expect("a call");
                let lowered =
                    cmd_decrease(vec![backlight("a", raised.brightness, max)], amount)
                        .expect("a call");
                assert_eq!(lowered.brightness, start.brightness);
            }
        }
    }
}

#[test]
fn increase_then_decrease_does_not_come_back_from_the_top() {
    let raised = cmd_increase(vec![backlight("a", 950, 1000)], 10).expect("a call");
    assert_eq!(raised.brightness, 1000);
    let lowered = cmd_decrease(vec![backlight("a", raised.brightness, 1000)], 10).expect("a call");
    assert_eq!(lowered.brightness, 900);
}

#[test]
fn increase_then_decrease_does_not_come_back_between_steps() {
    let raised = cmd_increase(vec![backlight("a", 555, 1000)], 1).expect("a call");
    let lowered = cmd_decrease(vec![backlight("a", raised.brightness, 1000)], 1).expect("a call");
    assert_eq!(lowered.brightness, 560);
}

#[test]
fn a_device_without_levels_is_set_to_one() {
    assert_eq!(saved(run(&Cli::Increase { amount: 5 }, vec![backlight("a", 0, 0)])), 1);
    assert_eq!(saved(run(&Cli::Decrease { amount: 5 }, vec![backlight("a", 0, 0)])), 1);
    assert_eq!(saved(run(&Cli::SetPercent { percent: 50 }, vec![backlight("a", 0, 0)])), 1);
}

#[test]
fn run_carries_out_each_command() {
    let infos = || vec![backlight("a", 500, 1000), backlight("b", 1, 2)];
    assert!(matches!(run(&Cli::Get, infos()), Ok(Action::Print(50))));
    assert_eq!(saved(run(&Cli::SetPercent { percent: 25 }, infos())), 250);
    assert_eq!(saved(run(&Cli::Increase { amount: 1 }, infos())), 510);
    assert_eq!(saved(run(&Cli::Decrease { amount: 1 }, infos())), 490);
    match run(&Cli::List, infos()) {
        Ok(Action::List(listings)) => assert_eq!(listings.len(), 2),
        other => panic!("expected a list, got {:?}", other),
    }
}

#[test]
fn the_list_may_be_empty() {
    match run(&Cli::List, Vec::new()) {
        Ok(Action::List(listings)) => assert!(listings.is_empty()),
        other => panic!("expected a list, got {:?}", other),
    }
}

#[test]
fn the_list_shows_every_device_in_order() {
    let infos = vec![
        BacklightInfo {
            name: "intel_backlight".to_string(),
            brightness: 309,
            max_brightness: 937,
            actual_brightness: 300,
        },
        backlight("acpi_video0", 1, 8),
        backlight("none", 0, 0),
    ];
    let listings = cmd_list(&infos);
    assert_eq!(listings.len(), 3);
    assert_eq!(listings[0].name, "intel_backlight");
    assert_eq!(listings[0].brightness, 309);
    assert_eq!(listings[0].percent, 33);
    assert_eq!(listings[0].max_brightness, 937);
    assert_eq!(listings[0].actual_brightness, 300);
    assert_eq!(listings[1].name, "acpi_video0");
    assert_eq!(listings[1].percent, 12);
    assert_eq!(listings[2].name, "none");
    assert_eq!(listings[2].percent, 0);
}

#[test]
fn the_attributes_of_a_device_are_read() {
    let info = get_backlight_info("intel_backlight", "309\n", "937\n", "300\n").expect("a device");
    assert_eq!(info.name, "intel_backlight");
    assert_eq!(info.brightness, 309);
    assert_eq!(info.max_brightness, 937);
    assert_eq!(info.actual_brightness, 300);
}

#[test]
fn the_first_attribute_that_is_no_number_is_named() {
    assert!(matches!(get_backlight_info("a", "x", "y", "z"), Err(BacklightError::Brightness)));
    assert!(matches!(get_backlight_info("a", "1", "y", "z"), Err(BacklightError::MaxBrightness)));
    assert!(matches!(
        get_backlight_info("a", "1", "2", "z"),
        Err(BacklightError::ActualBrightness)
    ));
    assert!(matches!(get_backlight_info("a", "", "2", "3"), Err(BacklightError::Brightness)));
    assert!(matches!(
        get_backlight_info("a", "1", "4294967296", "3"),
        Err(BacklightError::MaxBrightness)
    ));
}

#[test]
fn every_device_is_read() {
    let readings = vec![reading("a", "1\n", "2\n", "3\n"), reading("b", "4", "5", "6")];
    let infos = get_all_backlight_infos(&readings).expect("devices");
    assert_eq!(infos.len(), 2);
    assert_eq!(infos[0].name, "a");
    assert_eq!(infos[0].brightness, 1);
    assert_eq!(infos[0].max_brightness, 2);
    assert_eq!(infos[0].actual_brightness, 3);
    assert_eq!(infos[1].name, "b");
    assert_eq!(infos[1].brightness, 4);
    assert_eq!(infos[1].max_brightness, 5);
    assert_eq!(infos[1].actual_brightness, 6);
}

#[test]
fn no_device_gives_no_state() {
    let infos = get_all_backlight_infos(&Vec::new()).expect("devices");
    assert!(infos.is_empty());
}

#[test]
fn the_first_device_that_cannot_be_read_is_named() {
    let readings = vec![
        reading("a", "1", "2", "3"),
        reading("b", "4", "five", "six"),
        reading("c", "seven", "8", "9"),
    ];
    assert_eq!(
        get_all_backlight_infos(&readings).err(),
        Some(DeviceError { device: 1, error: BacklightError::MaxBrightness })
    );
}

#[test]
fn an_attribute_is_read_as_a_number() {
    assert_eq!(read_u32("937\n"), Some(937));
    assert_eq!(read_u32(" 0 "), Some(0));
    assert_eq!(read_u32("nine"), None);
    assert_eq!(read_u32(""), None);
}

#[test]
fn every_error_has_its_message() {
    assert_eq!(BacklightError::NoBacklights.message(), "No backlights found");
    assert_eq!(BacklightError::Brightness.message(), "failed to read brightness");
    assert_eq!(BacklightError::MaxBrightness.message(), "failed to read max brightness");
    assert_eq!(BacklightError::ActualBrightness.message(), "failed to read actual brightness");
}
