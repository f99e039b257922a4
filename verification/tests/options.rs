use flipdot_clock::format::RenderConfig;
use flipdot_clock::Options;

#[test]
fn options_say_how_the_time_is_written() {
    for use_24_hour in [false, true] {
        for show_day_of_week in [false, true] {
            let options =
                Options { port: "virtual".to_string(), address: 3, use_24_hour, show_day_of_week, one_shot: true };
            assert_eq!(options.render_config(), RenderConfig { use_24_hour, show_day_of_week });
        }
    }
}
