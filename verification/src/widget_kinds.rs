//! An enum-dispatch demo: the widgets a status bar supports form a closed
//! set, so each is a variant of a tagged union, matched exhaustively, and
//! each variant's configuration builds a controller that can draw itself.

use vstd::prelude::*;
use vstd::string::StringExecFns;

verus! {

/// The digit character of one decimal digit value.
pub open spec fn digit_char(d: int) -> char {
    if d == 0 {
        '0'
    } else if d == 1 {
        '1'
    } else if d == 2 {
        '2'
    } else if d == 3 {
        '3'
    } else if d == 4 {
        '4'
    } else if d == 5 {
        '5'
    } else if d == 6 {
        '6'
    } else if d == 7 {
        '7'
    } else if d == 8 {
        '8'
    } else {
        '9'
    }
}

/// The decimal digits of a non-negative number, most significant first.
pub open spec fn dec_str(n: int) -> Seq<char>
    decreases n,
{
    if n < 10 {
        seq![digit_char(n)]
    } else {
        dec_str(n / 10) + seq![digit_char(n % 10)]
    }
}

/// Appends one decimal digit's character.
fn push_digit(s: &mut String, d: u8)
    requires
        d < 10,
    ensures
        final(s)@ == old(s)@ + seq![digit_char(d as int)],
{
    let digit = match d {
        0 => "0",
        1 => "1",
        2 => "2",
        3 => "3",
        4 => "4",
        5 => "5",
        6 => "6",
        7 => "7",
        8 => "8",
        _ => "9",
    };
    proof {
        reveal_strlit("0");
        reveal_strlit("1");
        reveal_strlit("2");
        reveal_strlit("3");
        reveal_strlit("4");
        reveal_strlit("5");
        reveal_strlit("6");
        reveal_strlit("7");
        reveal_strlit("8");
        reveal_strlit("9");
        assert(digit@ =~= seq![digit_char(d as int)]);
    }
    s.append(digit);
}

/// Writes a battery level as decimal digits, most significant first.
pub fn level_to_string(n: u8) -> (r: String)
    ensures
        r@ == dec_str(n as int),
{
    let mut r = String::new();
    if n >= 100 {
        push_digit(&mut r, n / 100);
        push_digit(&mut r, (n / 10) % 10);
        proof {
            assert(n / 100 == (n / 10) / 10) by (nonlinear_arith);
            assert(n / 10 >= 10);
            assert(n / 100 < 10);
            assert(dec_str((n / 100) as int) == seq![digit_char((n / 100) as int)]);
            assert(dec_str((n / 10) as int) == dec_str((n / 10) as int / 10) + seq![
                digit_char(((n / 10) % 10) as int),
            ]);
            assert(r@ =~= dec_str((n / 10) as int));
        }
    } else if n >= 10 {
        push_digit(&mut r, n / 10);
        proof {
            assert(r@ =~= dec_str((n / 10) as int));
        }
    }
    push_digit(&mut r, n % 10);
    proof {
        if n >= 10 {
            assert(r@ =~= dec_str(n as int));
        } else {
            assert(n % 10 == n as int);
            assert(r@ =~= dec_str(n as int));
        }
    }
    r
}

/// What a network widget is configured with.
pub struct NetworkConfig {
    pub ssid: String,
    pub password: String,
}

/// What a battery widget is configured with.
pub struct BatteryConfig {
    pub level: u8,
}

/// One widget of the status bar's closed set, as loaded from configuration.
pub enum Widget {
    NetworkStatus(NetworkConfig),
    BatteryStatus(BatteryConfig),
}

/// A controller that draws one widget; drawing yields the lines of text the
/// demo prints.
pub trait WidgetController {
    /// The lines drawing this controller produces.
    spec fn drawn_lines(&self) -> Seq<Seq<char>>;

    /// Draws the widget.
    fn draw(&self) -> (lines: Vec<String>)
        ensures
            lines@.map_values(|l: String| l@) == self.drawn_lines(),
    ;
}

/// The network widget's controller.
pub struct NetworkWidget {
    pub config: NetworkConfig,
}

impl WidgetController for NetworkWidget {
    open spec fn drawn_lines(&self) -> Seq<Seq<char>> {
        seq![
            "Drawing network widget"@,
            "SSID: "@ + self.config.ssid@,
            "Password: "@ + self.config.password@,
        ]
    }

    fn draw(&self) -> (lines: Vec<String>) {
        let mut lines: Vec<String> = Vec::new();
        lines.push(String::from_str("Drawing network widget"));
        let mut ssid_line = String::from_str("SSID: ");
        ssid_line.append(self.config.ssid.as_str());
        lines.push(ssid_line);
        let mut password_line = String::from_str("Password: ");
        password_line.append(self.config.password.as_str());
        lines.push(password_line);
        proof {
            assert(lines@.map_values(|l: String| l@) =~= self.drawn_lines());
        }
        lines
    }
}

/// The battery widget's controller.
pub struct BatteryWidget {
    pub config: BatteryConfig,
}

impl WidgetController for BatteryWidget {
    open spec fn drawn_lines(&self) -> Seq<Seq<char>> {
        seq!["Drawing battery widget"@, "Battery level: "@ + dec_str(self.config.level as int) + "%"@]
    }

    fn draw(&self) -> (lines: Vec<String>) {
        let mut lines: Vec<String> = Vec::new();
        lines.push(String::from_str("Drawing battery widget"));
        let mut level_line = String::from_str("Battery level: ");
        let level = level_to_string(self.config.level);
        level_line.append(level.as_str());
        level_line.append("%");
        lines.push(level_line);
        proof {
            assert(lines@.map_values(|l: String| l@) =~= self.drawn_lines());
        }
        lines
    }
}

/// One controller of the closed set, ready to be held by the status bar and
/// drawn later.
pub enum Controller {
    Network(NetworkWidget),
    Battery(BatteryWidget),
}

impl WidgetController for Controller {
    open spec fn drawn_lines(&self) -> Seq<Seq<char>> {
        match self {
            Controller::Network(w) => w.drawn_lines(),
            Controller::Battery(w) => w.drawn_lines(),
        }
    }

    fn draw(&self) -> (lines: Vec<String>) {
        match self {
            Controller::Network(w) => w.draw(),
            Controller::Battery(w) => w.draw(),
        }
    }
}

/// Builds the controller for a widget kind from its configuration.
pub trait WidgetFactory<T> {
    /// The controller this configuration builds.
    spec fn created(config: T) -> Controller;

    /// Builds the controller.
    fn create_widget(config: T) -> (c: Controller)
        ensures
            c == Self::created(config),
    ;
}

impl WidgetFactory<NetworkConfig> for NetworkWidget {
    open spec fn created(config: NetworkConfig) -> Controller {
        Controller::Network(NetworkWidget { config })
    }

    fn create_widget(config: NetworkConfig) -> (c: Controller) {
        Controller::Network(NetworkWidget::from(config))
    }
}

impl WidgetFactory<BatteryConfig> for BatteryWidget {
    open spec fn created(config: BatteryConfig) -> Controller {
        Controller::Battery(BatteryWidget { config })
    }

    fn create_widget(config: BatteryConfig) -> (c: Controller) {
        Controller::Battery(BatteryWidget::from(config))
    }
}

impl From<NetworkConfig> for NetworkWidget {
    fn from(config: NetworkConfig) -> (w: NetworkWidget) {
        NetworkWidget { config }
    }
}

impl vstd::std_specs::convert::FromSpecImpl<NetworkConfig> for NetworkWidget {
    open spec fn obeys_from_spec() -> bool {
        true
    }

    open spec fn from_spec(config: NetworkConfig) -> NetworkWidget {
        NetworkWidget { config }
    }
}

impl From<BatteryConfig> for BatteryWidget {
    fn from(config: BatteryConfig) -> (w: BatteryWidget) {
        BatteryWidget { config }
    }
}

impl vstd::std_specs::convert::FromSpecImpl<BatteryConfig> for BatteryWidget {
    open spec fn obeys_from_spec() -> bool {
        true
    }

    open spec fn from_spec(config: BatteryConfig) -> BatteryWidget {
        BatteryWidget { config }
    }
}

impl Widget {
    /// Builds the controller for this widget, matching exhaustively over
    /// the closed set of kinds.
    pub fn create_widget(&self) -> (c: Controller)
        ensures
            self matches Widget::NetworkStatus(config) ==> (c matches Controller::Network(w)
                && w.config.ssid@ == config.ssid@ && w.config.password@ == config.password@),
            self matches Widget::BatteryStatus(config) ==> (c matches Controller::Battery(w)
                && w.config.level == config.level),
    {
        match self {
            Widget::NetworkStatus(config) => NetworkWidget::create_widget(
                NetworkConfig { ssid: config.ssid.clone(), password: config.password.clone() },
            ),
            Widget::BatteryStatus(config) => BatteryWidget::create_widget(
                BatteryConfig { level: config.level },
            ),
        }
    }
}

/// The status bar: it holds the controllers of all configured widgets so
/// they stay alive until they are drawn.
pub struct StatusBar {
    pub controllers: Vec<Controller>,
}

/// Runs the demo: two widgets stand in as a parsed configuration, each
/// builds its controller into the status bar, and every controller is drawn
/// in order. Returns all drawn lines, in order.
pub fn run() -> (lines: Vec<String>)
    ensures
        lines@.len() == 5,
        lines@[0]@ == "Drawing network widget"@,
        lines@[1]@ == "SSID: "@ + "my_ssid"@,
        lines@[2]@ == "Password: "@ + "my_password"@,
        lines@[3]@ == "Drawing battery widget"@,
        lines@[4]@ == "Battery level: "@ + dec_str(100) + "%"@,
{
    let widgets = vec![
        Widget::NetworkStatus(
            NetworkConfig {
                ssid: String::from_str("my_ssid"),
                password: String::from_str("my_password"),
            },
        ),
        Widget::BatteryStatus(BatteryConfig { level: 100 }),
    ];

    let mut status_bar = StatusBar { controllers: Vec::new() };
    let mut i: usize = 0;
    while i < widgets.len()
        invariant
            i <= widgets@.len(),
            widgets@.len() == 2,
            status_bar.controllers@.len() == i,
            forall|j: int|
                0 <= j < i ==> #[trigger] status_bar.controllers@[j].drawn_lines()
                    == controller_lines(widgets@[j]),
        decreases widgets@.len() - i,
    {
        let controller = widgets[i].create_widget();
        status_bar.controllers.push(controller);
        proof {
            assert(status_bar.controllers@[i as int].drawn_lines() =~= controller_lines(
                widgets@[i as int],
            ));
        }
        i = i + 1;
    }

    let mut lines: Vec<String> = Vec::new();
    let mut k: usize = 0;
    while k < status_bar.controllers.len()
        invariant
            k <= status_bar.controllers@.len(),
            status_bar.controllers@.len() == 2,
            forall|j: int|
                0 <= j < 2 ==> #[trigger] status_bar.controllers@[j].drawn_lines()
                    == controller_lines(widgets@[j]),
            widgets@.len() == 2,
            lines@.map_values(|l: String| l@) == flatten_prefix(status_bar.controllers@, k as int),
        decreases status_bar.controllers@.len() - k,
    {
        let mut drawn = status_bar.controllers[k].draw();
        lines.append(&mut drawn);
        proof {
            assert(lines@.map_values(|l: String| l@) =~= flatten_prefix(
                status_bar.controllers@,
                k + 1,
            ));
        }
        k = k + 1;
    }
    proof {
        assert(flatten_prefix(status_bar.controllers@, 1) == flatten_prefix(
            status_bar.controllers@,
            0,
        ) + status_bar.controllers@[0].drawn_lines());
        assert(flatten_prefix(status_bar.controllers@, 2) == flatten_prefix(
            status_bar.controllers@,
            1,
        ) + status_bar.controllers@[1].drawn_lines());
        assert(lines@.map_values(|l: String| l@) =~= controller_lines(widgets@[0])
            + controller_lines(widgets@[1]));
        let view_lines = lines@.map_values(|l: String| l@);
        assert(view_lines.len() == lines@.len());
        assert(lines@[0]@ == view_lines[0]);
        assert(lines@[1]@ == view_lines[1]);
        assert(lines@[2]@ == view_lines[2]);
        assert(lines@[3]@ == view_lines[3]);
        assert(lines@[4]@ == view_lines[4]);
    }
    lines
}

/// The lines the controller of a widget draws.
spec fn controller_lines(w: Widget) -> Seq<Seq<char>> {
    match w {
        Widget::NetworkStatus(config) => seq![
            "Drawing network widget"@,
            "SSID: "@ + config.ssid@,
            "Password: "@ + config.password@,
        ],
        Widget::BatteryStatus(config) => seq![
            "Drawing battery widget"@,
            "Battery level: "@ + dec_str(config.level as int) + "%"@,
        ],
    }
}

/// All lines drawn by the first `k` controllers, in order.
spec fn flatten_prefix(cs: Seq<Controller>, k: int) -> Seq<Seq<char>>
    decreases k,
{
    if k <= 0 {
        Seq::empty()
    } else {
        flatten_prefix(cs, k - 1) + cs[k - 1].drawn_lines()
    }
}

} // verus!
