use playground::counter::{decrement, increment, tally, ChannelMsg};
use playground::weather::{run as weather_run, Config};
use playground::widget_kinds::level_to_string;
use playground::widget_kinds::run as widget_kinds_run;
use playground::widgets::run as widgets_run;
use playground::widgets::{
    BarWidget, BatteryStatusWidget, ConfigurableWidget, NetworkStatusWidget, Widget, WidgetDrawer,
};

#[test]
fn increment_builds_an_increment_message() {
    match increment("thread 1", 20) {
        ChannelMsg::Increment { thread, count } => {
            assert_eq!(thread, "thread 1");
            assert_eq!(count, 20);
        }
        ChannelMsg::Decrement { .. } => panic!("increment built a decrement"),
    }
}

#[test]
fn decrement_builds_a_decrement_message() {
    match decrement("main", 1) {
        ChannelMsg::Decrement { thread, count } => {
            assert_eq!(thread, "main");
            assert_eq!(count, 1);
        }
        ChannelMsg::Increment { .. } => panic!("decrement built an increment"),
    }
}

#[test]
fn tally_folds_the_demo_messages() {
    let msgs = vec![
        increment("main", 100),
        increment("thread 2", 2),
        increment("thread 1", 20),
        decrement("thread 1", 1),
        increment("thread 1", 2),
        increment("thread 1", 1),
    ];
    assert_eq!(tally(&msgs), 124);
}

#[test]
fn tally_of_no_messages_is_zero() {
    let msgs: Vec<ChannelMsg> = Vec::new();
    assert_eq!(tally(&msgs), 0);
}

#[test]
fn weather_reports_openweather_with_its_key() {
    let config = Config {
        weather_service: String::from("openweather"),
    };
    let report = weather_run(config);
    assert_eq!(
        report.as_str(),
        "Loading weather from OpenWeather using \"123\""
    );
}

#[test]
fn weather_reports_wttrin() {
    let config = Config {
        weather_service: String::from("wttrin"),
    };
    let report = weather_run(config);
    assert_eq!(report.as_str(), "Loading weather from WttrIn");
}

#[test]
fn widgets_draw_and_report_config() {
    let network = NetworkStatusWidget {};
    assert_eq!(network.draw().as_str(), "Drawing network status widget");
    let config = network.config();
    assert_eq!(config.ssid.as_str(), "my_ssid");
    assert_eq!(config.password.as_str(), "my_password");

    let battery = BatteryStatusWidget {};
    assert_eq!(battery.draw().as_str(), "Drawing battery status widget");
    assert_eq!(battery.config().level, 100);
}

#[test]
fn widget_drawer_draws_any_kind() {
    let line = WidgetDrawer::draw_widget(&BarWidget::Battery(BatteryStatusWidget {}));
    assert_eq!(line.as_str(), "Drawing battery status widget");
}

#[test]
fn widgets_run_draws_three_lines() {
    let lines = widgets_run();
    let lines: Vec<&str> = lines.iter().map(|l| l.as_str()).collect();
    assert_eq!(
        lines,
        vec![
            "Drawing network status widget",
            "Drawing network status widget",
            "Drawing battery status widget",
        ]
    );
}

#[test]
fn widget_kinds_run_draws_both_controllers() {
    let lines = widget_kinds_run();
    let lines: Vec<&str> = lines.iter().map(|l| l.as_str()).collect();
    assert_eq!(
        lines,
        vec![
            "Drawing network widget",
            "SSID: my_ssid",
            "Password: my_password",
            "Drawing battery widget",
            "Battery level: 100%",
        ]
    );
}

#[test]
fn levels_format_as_decimal() {
    assert_eq!(level_to_string(0).as_str(), "0");
    assert_eq!(level_to_string(7).as_str(), "7");
    assert_eq!(level_to_string(10).as_str(), "10");
    assert_eq!(level_to_string(42).as_str(), "42");
    assert_eq!(level_to_string(100).as_str(), "100");
    assert_eq!(level_to_string(255).as_str(), "255");
}
